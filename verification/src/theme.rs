//! Semantic colors: a palette of content, shape and background colors that
//! views look up through the dependency registry.
//!
//! A color is four channels, red, green, blue and alpha, each `0..=255`.

use crate::dependencies::{Dependency, DependencyDefault, DependencyValues};
use vstd::prelude::*;

verus! {

/// A palette of semantic colors, from the most prominent role to the least.
pub trait Theme {
    /// The color of primary content, such as body text.
    fn primary_content(&self) -> [u8; 4];

    /// The color of secondary content.
    fn secondary_content(&self) -> [u8; 4];

    /// The color of tertiary content.
    fn tertiary_content(&self) -> [u8; 4];

    /// The color of quaternary content.
    fn quaternary_content(&self) -> [u8; 4];

    /// The fill color of primary shapes, such as buttons.
    fn primary_shapes(&self) -> [u8; 4];

    /// The fill color of secondary shapes.
    fn secondary_shapes(&self) -> [u8; 4];

    /// The fill color of tertiary shapes.
    fn tertiary_shapes(&self) -> [u8; 4];

    /// The fill color of quaternary shapes.
    fn quaternary_shapes(&self) -> [u8; 4];

    /// The color of the foremost background layer.
    fn primary_background(&self) -> [u8; 4];

    /// The color of the second background layer.
    fn secondary_background(&self) -> [u8; 4];

    /// The color of the third background layer.
    fn tertiary_background(&self) -> [u8; 4];

    /// The color of the rearmost background layer.
    fn quaternary_background(&self) -> [u8; 4];
}

/// An opaque near-gray: `blue` in the blue channel and `blue + shift` in the
/// red and green channels, slightly tinting the gray towards or away from
/// blue.
pub fn gray(blue: i32, shift: i32) -> (color: [u8; 4])
    requires
        0 <= blue <= 255,
        0 <= blue + shift <= 255,
    ensures
        color@ == seq![(blue + shift) as u8, (blue + shift) as u8, blue as u8, 0xFFu8],
{
    let n = blue + shift;
    [n as u8, n as u8, blue as u8, 0xFF]
}

/// The built-in light palette.
pub struct Light;

impl Theme for Light {
    fn primary_content(&self) -> [u8; 4] {
        [0x00, 0x00, 0x00, 0xFF]
    }

    fn secondary_content(&self) -> [u8; 4] {
        gray(0x7F, -1)
    }

    fn tertiary_content(&self) -> [u8; 4] {
        gray(0xBF, -1)
    }

    fn quaternary_content(&self) -> [u8; 4] {
        gray(0xDF, -1)
    }

    fn primary_shapes(&self) -> [u8; 4] {
        gray(0xE6, -1)
    }

    fn secondary_shapes(&self) -> [u8; 4] {
        gray(0xEB, -1)
    }

    fn tertiary_shapes(&self) -> [u8; 4] {
        gray(0xEF, -1)
    }

    fn quaternary_shapes(&self) -> [u8; 4] {
        gray(0xF2, -1)
    }

    fn primary_background(&self) -> [u8; 4] {
        gray(0x99, -5)
    }

    fn secondary_background(&self) -> [u8; 4] {
        gray(0xBF, -5)
    }

    fn tertiary_background(&self) -> [u8; 4] {
        gray(0xD7, -5)
    }

    fn quaternary_background(&self) -> [u8; 4] {
        gray(0xE6, -5)
    }
}

/// The theme in effect: it delegates to the light palette, and stands in
/// for it wherever no theme override is registered.
pub struct Current;

impl Current {
    /// Creates the theme in effect, which delegates to the light palette.
    pub fn new() -> (current: Current)
        ensures
            current == Current,
    {
        Current
    }
}

impl Default for Current {
    /// The fall-back theme an unregistered dependency resolves to: the one
    /// value of `Current`, which delegates to the light palette.
    fn default() -> (current: Current)
        ensures
            current == Current,
    {
        Current
    }
}

/// An unregistered theme dependency may fall back to the default `Current`,
/// the light palette.
impl DependencyDefault for Current {

}

impl Theme for Current {
    fn primary_content(&self) -> [u8; 4] {
        Light.primary_content()
    }

    fn secondary_content(&self) -> [u8; 4] {
        Light.secondary_content()
    }

    fn tertiary_content(&self) -> [u8; 4] {
        Light.tertiary_content()
    }

    fn quaternary_content(&self) -> [u8; 4] {
        Light.quaternary_content()
    }

    fn primary_shapes(&self) -> [u8; 4] {
        Light.primary_shapes()
    }

    fn secondary_shapes(&self) -> [u8; 4] {
        Light.secondary_shapes()
    }

    fn tertiary_shapes(&self) -> [u8; 4] {
        Light.tertiary_shapes()
    }

    fn quaternary_shapes(&self) -> [u8; 4] {
        Light.quaternary_shapes()
    }

    fn primary_background(&self) -> [u8; 4] {
        Light.primary_background()
    }

    fn secondary_background(&self) -> [u8; 4] {
        Light.secondary_background()
    }

    fn tertiary_background(&self) -> [u8; 4] {
        Light.tertiary_background()
    }

    fn quaternary_background(&self) -> [u8; 4] {
        Light.quaternary_background()
    }
}

/// The theme a view should draw with: the registered theme override, if any.
pub fn current<'a>(values: &'a DependencyValues<Current>) -> (theme: Dependency<'a, Current>)
    ensures
        theme@ == values.current_spec(),
{
    Dependency::new(values)
}

} // verus!
