//! Optional, overridable dependencies.
//!
//! A [`DependencyValues`] stack holds the override values registered for one
//! dependency type: the most recent override wins, and removing it restores
//! the previous one, so overrides nest. A [`Dependency`] captures the current
//! value and offers the combinators of an optional reference, as dependencies
//! are *optionally* present.

use vstd::prelude::*;

verus! {

/// Either a borrowed dependency value or a separately owned fallback.
pub enum Ref<'a, T> {
    /// A reference to the registered dependency value.
    Borrowed(&'a T),
    /// An owned value used in place of an unregistered dependency.
    Owned(T),
}

impl<'a, T> Ref<'a, T> {
    /// The value held, borrowed or owned.
    pub open spec fn value_spec(&self) -> T {
        match *self {
            Ref::Borrowed(value) => *value,
            Ref::Owned(value) => value,
        }
    }

    /// Returns the value held, borrowed or owned.
    pub fn value(&self) -> (value: &T)
        ensures
            *value == self.value_spec(),
    {
        match self {
            Ref::Borrowed(value) => value,
            Ref::Owned(value) => value,
        }
    }
}

/// The override values registered for one dependency type, most recent last.
///
/// Registering a value makes it current; removing it restores whatever was
/// current before, so overrides nest like scopes.
pub struct DependencyValues<T> {
    stack: Vec<T>,
}

impl<T> DependencyValues<T> {
    /// The registered values, oldest first.
    pub closed spec fn view(&self) -> Seq<T> {
        self.stack@
    }

    /// The value a dependency currently resolves to: the most recent
    /// registration, if any.
    pub open spec fn current_spec(&self) -> Option<T> {
        if self@.len() == 0 {
            None
        } else {
            Some(self@.last())
        }
    }

    /// Creates an empty registry: no dependency value is registered.
    pub fn new() -> (values: Self)
        ensures
            values@ == Seq::<T>::empty(),
    {
        DependencyValues { stack: Vec::new() }
    }

    /// Registers `value` as the current dependency value, shadowing (but
    /// keeping) whatever was current before.
    pub fn set(&mut self, value: T)
        ensures
            final(self)@ == old(self)@.push(value),
            final(self).current_spec() == Some(value),
    {
        self.stack.push(value);
    }

    /// Removes the current dependency value and returns it; the previously
    /// registered value, if any, becomes current again.
    pub fn restore(&mut self) -> (removed: Option<T>)
        ensures
            old(self)@.len() == 0 ==> removed is None && final(self)@ == old(self)@,
            old(self)@.len() > 0 ==> removed == Some(old(self)@.last()) && final(self)@ == old(
                self,
            )@.drop_last(),
    {
        self.stack.pop()
    }

    /// Returns the current dependency value, if one is registered.
    pub fn current(&self) -> (value: Option<&T>)
        ensures
            value is Some <==> self.current_spec() is Some,
            value matches Some(v) ==> *v == self.current_spec().unwrap(),
    {
        if self.stack.len() == 0 {
            None
        } else {
            Some(&self.stack[self.stack.len() - 1])
        }
    }
}

/// Nested overrides: after registering `value` the registry resolves to
/// `value`, and removing that registration restores exactly the resolution
/// the registry had before, however deeply the overrides nest.
pub proof fn lemma_override_restores<T>(before: DependencyValues<T>, after: DependencyValues<T>, value: T)
    requires
        after@ == before@.push(value),
    ensures
        after.current_spec() == Some(value),
        after@.drop_last() == before@,
{
    assert(after@.drop_last() =~= before@);
}

/// An optional reference to the current value of a dependency.
///
/// Captured from a [`DependencyValues`] registry at construction; the
/// combinators mirror those of an optional value.
pub struct Dependency<'a, T> {
    inner: Option<&'a T>,
}

impl<'a, T> Dependency<'a, T> {
    /// The dependency value, if one was registered when it was captured.
    pub closed spec fn view(&self) -> Option<T> {
        match self.inner {
            Some(value) => Some(*value),
            None => None,
        }
    }

    /// Captures the current value of the dependency from its registry.
    pub fn new(values: &'a DependencyValues<T>) -> (dep: Self)
        ensures
            dep@ == values.current_spec(),
    {
        Dependency { inner: values.current() }
    }

    /// Returns `true` if a dependency value is present.
    pub fn is_some(&self) -> (r: bool)
        ensures
            r == (self@ is Some),
    {
        match self.inner {
            Some(_) => true,
            None => false,
        }
    }

    /// Returns `true` if a dependency value is present and it matches the
    /// predicate.
    pub fn is_some_and<F: FnOnce(&T) -> bool>(&self, f: F) -> (r: bool)
        requires
            self@ is Some ==> f.requires((&self@.unwrap(),)),
        ensures
            self@ is None ==> !r,
            self@ is Some ==> f.ensures((&self@.unwrap(),), r),
    {
        match self.inner {
            Some(value) => f(value),
            None => false,
        }
    }

    /// Returns `true` if no dependency value is present.
    pub fn is_none(&self) -> (r: bool)
        ensures
            r == (self@ is None),
    {
        match self.inner {
            Some(_) => false,
            None => true,
        }
    }

    /// Converts into an optional reference.
    pub fn as_deref(&self) -> (r: Option<&'a T>)
        ensures
            r is Some <==> self@ is Some,
            r matches Some(value) ==> *value == self@.unwrap(),
    {
        self.inner
    }

    /// Returns the dependency value.
    ///
    /// Callers must establish that a value is present; `msg` documents, at
    /// the call site, why that is so.
    pub fn expect(&self, msg: &str) -> (value: &'a T)
        requires
            self@ is Some,
        ensures
            *value == self@.unwrap(),
    {
        match self.inner {
            Some(value) => value,
            None => unreached(),
        }
    }

    /// Returns the dependency value; callers must establish that one is
    /// present.
    pub fn unwrap(&self) -> (value: &'a T)
        requires
            self@ is Some,
        ensures
            *value == self@.unwrap(),
    {
        match self.inner {
            Some(value) => value,
            None => unreached(),
        }
    }

    /// Returns the dependency value or the provided default.
    pub fn unwrap_or(&self, default: T) -> (r: Ref<'a, T>)
        ensures
            self@ is Some ==> (r matches Ref::Borrowed(value) && *value == self@.unwrap()),
            self@ is None ==> r == Ref::Owned(default),
    {
        match self.inner {
            Some(value) => Ref::Borrowed(value),
            None => Ref::Owned(default),
        }
    }

    /// Returns the dependency value or computes a fallback from the closure.
    pub fn unwrap_or_else<F: FnOnce() -> T>(&self, f: F) -> (r: Ref<'a, T>)
        requires
            self@ is None ==> f.requires(()),
        ensures
            self@ is Some ==> (r matches Ref::Borrowed(value) && *value == self@.unwrap()),
            self@ is None ==> (r matches Ref::Owned(value) && f.ensures((), value)),
    {
        match self.inner {
            Some(value) => Ref::Borrowed(value),
            None => Ref::Owned(f()),
        }
    }

    /// Returns the dependency value or the type's default.
    pub fn unwrap_or_default(&self) -> (r: Ref<'a, T>) where T: Default
        ensures
            self@ is Some ==> (r matches Ref::Borrowed(value) && *value == self@.unwrap()),
            self@ is None ==> (r matches Ref::Owned(value) && T::default.ensures((), value)),
    {
        match self.inner {
            Some(value) => Ref::Borrowed(value),
            None => Ref::Owned(T::default()),
        }
    }

    /// Applies a function to the dependency value (if present) or returns
    /// `None`.
    pub fn map<U, F: FnOnce(&T) -> U>(&self, f: F) -> (r: Option<U>)
        requires
            self@ is Some ==> f.requires((&self@.unwrap(),)),
        ensures
            r is Some <==> self@ is Some,
            self@ is Some ==> f.ensures((&self@.unwrap(),), r.unwrap()),
    {
        match self.inner {
            Some(value) => Some(f(value)),
            None => None,
        }
    }

    /// Calls the provided closure with the dependency value (if present) and
    /// returns the value again.
    pub fn inspect<F: FnOnce(&T) -> ()>(&self, f: F) -> (r: Option<&'a T>)
        requires
            self@ is Some ==> f.requires((&self@.unwrap(),)),
        ensures
            r is Some <==> self@ is Some,
            r matches Some(value) ==> *value == self@.unwrap(),
            self@ is Some ==> f.ensures((&self@.unwrap(),), ()),
    {
        match self.inner {
            Some(value) => {
                f(value);
                Some(value)
            }
            None => None,
        }
    }

    /// Returns the provided default (if no value is present) or applies a
    /// function to the dependency value.
    pub fn map_or<U, F: FnOnce(&T) -> U>(&self, default: U, f: F) -> (r: U)
        requires
            self@ is Some ==> f.requires((&self@.unwrap(),)),
        ensures
            self@ is Some ==> f.ensures((&self@.unwrap(),), r),
            self@ is None ==> r == default,
    {
        match self.inner {
            Some(value) => f(value),
            None => default,
        }
    }

    /// Computes a fallback (if no value is present) or applies a function to
    /// the dependency value.
    pub fn map_or_else<U, D: FnOnce() -> U, F: FnOnce(&T) -> U>(&self, default: D, f: F) -> (r: U)
        requires
            self@ is Some ==> f.requires((&self@.unwrap(),)),
            self@ is None ==> default.requires(()),
        ensures
            self@ is Some ==> f.ensures((&self@.unwrap(),), r),
            self@ is None ==> default.ensures((), r),
    {
        match self.inner {
            Some(value) => f(value),
            None => default(),
        }
    }

    /// Transforms into a result, mapping a present value to `Ok` and an
    /// absent one to `Err(err)`.
    pub fn ok_or<E>(&self, err: E) -> (r: Result<&'a T, E>)
        ensures
            r is Ok <==> self@ is Some,
            r matches Ok(value) ==> *value == self@.unwrap(),
            self@ is None ==> r == Err::<&'a T, E>(err),
    {
        match self.inner {
            Some(value) => Ok(value),
            None => Err(err),
        }
    }

    /// Transforms into a result, mapping a present value to `Ok` and an
    /// absent one to a computed error.
    pub fn ok_or_else<E, F: FnOnce() -> E>(&self, err: F) -> (r: Result<&'a T, E>)
        requires
            self@ is None ==> err.requires(()),
        ensures
            r is Ok <==> self@ is Some,
            r matches Ok(value) ==> *value == self@.unwrap(),
            self@ is None ==> r is Err && err.ensures((), r->Err_0),
    {
        match self.inner {
            Some(value) => Ok(value),
            None => Err(err()),
        }
    }

    /// Returns `None` if no value is present, otherwise returns `rhs`.
    pub fn and<U>(&self, rhs: Option<U>) -> (r: Option<U>)
        ensures
            self@ is Some ==> r == rhs,
            self@ is None ==> r is None,
    {
        match self.inner {
            Some(_) => rhs,
            None => None,
        }
    }

    /// Returns `None` if no value is present, otherwise calls `f` with the
    /// dependency value and returns the result.
    pub fn and_then<U, F: FnOnce(&T) -> Option<U>>(&self, f: F) -> (r: Option<U>)
        requires
            self@ is Some ==> f.requires((&self@.unwrap(),)),
        ensures
            self@ is None ==> r is None,
            self@ is Some ==> f.ensures((&self@.unwrap(),), r),
    {
        match self.inner {
            Some(value) => f(value),
            None => None,
        }
    }

    /// Returns the dependency value if one is present and the predicate
    /// accepts it.
    pub fn filter<P: FnOnce(&T) -> bool>(&self, predicate: P) -> (r: Option<&'a T>)
        requires
            self@ is Some ==> predicate.requires((&self@.unwrap(),)),
        ensures
            self@ is None ==> r is None,
            r matches Some(value) ==> self@ is Some && *value == self@.unwrap()
                && predicate.ensures((&self@.unwrap(),), true),
            self@ is Some && r is None ==> predicate.ensures((&self@.unwrap(),), false),
    {
        match self.inner {
            Some(value) => {
                if predicate(value) {
                    Some(value)
                } else {
                    None
                }
            }
            None => None,
        }
    }

    /// Returns the dependency value if one is present, otherwise `rhs`.
    pub fn or(&self, rhs: Option<T>) -> (r: Option<Ref<'a, T>>)
        ensures
            self@ is Some ==> (r matches Some(picked) && picked matches Ref::Borrowed(value)
                && *value == self@.unwrap()),
            self@ is None && rhs is Some ==> r == Some(Ref::Owned(rhs.unwrap())),
            self@ is None && rhs is None ==> r is None,
    {
        match self.inner {
            Some(value) => Some(Ref::Borrowed(value)),
            None => match rhs {
                Some(value) => Some(Ref::Owned(value)),
                None => None,
            },
        }
    }

    /// Returns the dependency value if one is present, otherwise calls `f`
    /// and returns its result.
    pub fn or_else<F: FnOnce() -> Option<T>>(&self, f: F) -> (r: Option<Ref<'a, T>>)
        requires
            self@ is None ==> f.requires(()),
        ensures
            self@ is Some ==> (r matches Some(picked) && picked matches Ref::Borrowed(value)
                && *value == self@.unwrap()),
            self@ is None ==> f.ensures((), owned_value(r)) && (r matches Some(picked)
                ==> picked is Owned),
    {
        match self.inner {
            Some(value) => Some(Ref::Borrowed(value)),
            None => match f() {
                Some(value) => Some(Ref::Owned(value)),
                None => None,
            },
        }
    }

    /// Returns `Some` if exactly one of the dependency value and `rhs` is
    /// present, otherwise `None`.
    pub fn xor(&self, rhs: Option<T>) -> (r: Option<Ref<'a, T>>)
        ensures
            self@ is Some && rhs is None ==> (r matches Some(picked)
                && picked matches Ref::Borrowed(value) && *value == self@.unwrap()),
            self@ is None && rhs is Some ==> r == Some(Ref::Owned(rhs.unwrap())),
            (self@ is Some <==> rhs is Some) ==> r is None,
    {
        match self.inner {
            Some(value) => match rhs {
                Some(_) => None,
                None => Some(Ref::Borrowed(value)),
            },
            None => match rhs {
                Some(value) => Some(Ref::Owned(value)),
                None => None,
            },
        }
    }

    /// Maps the dependency to an optional owned value by copying it.
    pub fn copied(&self) -> (r: Option<T>) where T: Copy
        ensures
            r == self@,
    {
        match self.inner {
            Some(value) => Some(*value),
            None => None,
        }
    }

    /// Maps the dependency to an optional owned value by cloning it.
    pub fn cloned(&self) -> (r: Option<T>) where T: Clone
        ensures
            r is Some <==> self@ is Some,
            self@ is Some ==> vstd::pervasive::cloned::<T>(self@.unwrap(), r.unwrap()),
    {
        match self.inner {
            Some(value) => Some(value.clone()),
            None => None,
        }
    }
}

/// The optional value inside an optional [`Ref`], owned or borrowed.
pub open spec fn owned_value<T>(r: Option<Ref<T>>) -> Option<T> {
    match r {
        Some(picked) => Some(picked.value_spec()),
        None => None,
    }
}

/// The default value for a dependency.
///
/// There may be many different versions of a dependency in tests, but often
/// just a single default implementation in the application. A type carrying
/// this marker declares that an unregistered dependency on it may fall back
/// to its `Default` value.
pub trait DependencyDefault: Default {

}

} // verus!
