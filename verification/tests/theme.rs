use composable::dependencies::DependencyValues;
use composable::theme::{current, gray, Current, Light, Theme};

#[test]
fn gray_tints_towards_blue() {
    assert_eq!(gray(0x7F, -1), [0x7E, 0x7E, 0x7F, 0xFF]);
    assert_eq!(gray(0x99, -5), [0x94, 0x94, 0x99, 0xFF]);
    assert_eq!(gray(0x10, 0), [0x10, 0x10, 0x10, 0xFF]);
}

#[test]
fn the_light_palette_darkens_with_prominence() {
    let light = Light;
    assert_eq!(light.primary_content(), [0x00, 0x00, 0x00, 0xFF]);
    assert_eq!(light.secondary_content(), gray(0x7F, -1));
    assert_eq!(light.tertiary_content(), gray(0xBF, -1));
    assert_eq!(light.quaternary_content(), gray(0xDF, -1));
    assert_eq!(light.primary_shapes(), gray(0xE6, -1));
    assert_eq!(light.quaternary_shapes(), gray(0xF2, -1));
    assert_eq!(light.primary_background(), gray(0x99, -5));
    assert_eq!(light.quaternary_background(), gray(0xE6, -5));
}

#[test]
fn the_current_theme_defaults_to_light() {
    let theme = Current::new();
    assert_eq!(theme.primary_content(), Light.primary_content());
    assert_eq!(theme.secondary_shapes(), Light.secondary_shapes());
    assert_eq!(theme.tertiary_background(), Light.tertiary_background());
}

#[test]
fn an_unregistered_theme_falls_back_to_light() {
    let values: DependencyValues<Current> = DependencyValues::new();
    let fallback = current(&values).unwrap_or_default();
    assert_eq!(fallback.value().primary_content(), Light.primary_content());
    assert_eq!(fallback.value().secondary_shapes(), Light.secondary_shapes());
}

#[test]
fn the_current_theme_is_looked_up_as_a_dependency() {
    let mut values: DependencyValues<Current> = DependencyValues::new();
    assert!(current(&values).is_none());

    values.set(Current::new());
    let theme = current(&values);
    assert!(theme.is_some());
    assert_eq!(theme.unwrap().primary_content(), [0x00, 0x00, 0x00, 0xFF]);
}
