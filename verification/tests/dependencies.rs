use composable::dependencies::{Dependency, DependencyValues, Ref};

#[test]
fn overrides_nest_and_restore() {
    let mut values: DependencyValues<u32> = DependencyValues::new();
    assert_eq!(values.current(), None);

    values.set(1);
    assert_eq!(values.current(), Some(&1));

    values.set(2);
    assert_eq!(values.current(), Some(&2));

    assert_eq!(values.restore(), Some(2));
    assert_eq!(values.current(), Some(&1));

    assert_eq!(values.restore(), Some(1));
    assert_eq!(values.current(), None);

    assert_eq!(values.restore(), None);
}

#[test]
fn a_registered_dependency_is_present() {
    let mut values: DependencyValues<u32> = DependencyValues::new();
    values.set(21);
    let dep = Dependency::new(&values);

    assert!(dep.is_some());
    assert!(!dep.is_none());
    assert!(dep.is_some_and(|v| *v == 21));
    assert_eq!(dep.as_deref(), Some(&21));
    assert_eq!(dep.unwrap(), &21);
    assert_eq!(dep.expect("registered above"), &21);
    assert_eq!(dep.map(|v| v + 1), Some(22));
    assert_eq!(dep.inspect(|_| ()), Some(&21));
    assert_eq!(dep.map_or(0, |v| v * 2), 42);
    assert_eq!(dep.map_or_else(|| 0, |v| v * 2), 42);
    assert_eq!(dep.ok_or("missing"), Ok(&21));
    assert_eq!(dep.ok_or_else(|| "missing"), Ok(&21));
    assert_eq!(dep.and(Some('x')), Some('x'));
    assert_eq!(dep.and_then(|v| Some(v + 1)), Some(22));
    assert_eq!(dep.filter(|v| *v > 10), Some(&21));
    assert_eq!(dep.filter(|v| *v > 30), None);
    assert_eq!(dep.copied(), Some(21));
    assert_eq!(dep.cloned(), Some(21));

    assert!(matches!(dep.unwrap_or(7), Ref::Borrowed(&21)));
    assert!(matches!(dep.unwrap_or_else(|| 7), Ref::Borrowed(&21)));
    assert!(matches!(dep.unwrap_or_default(), Ref::Borrowed(&21)));
    assert!(matches!(dep.or(Some(7)), Some(Ref::Borrowed(&21))));
    assert!(matches!(dep.or_else(|| Some(7)), Some(Ref::Borrowed(&21))));
    assert!(matches!(dep.xor(None), Some(Ref::Borrowed(&21))));
    assert!(matches!(dep.xor(Some(7)), None::<Ref<u32>>));
}

#[test]
fn an_unregistered_dependency_is_absent() {
    let values: DependencyValues<u32> = DependencyValues::new();
    let dep = Dependency::new(&values);

    assert!(!dep.is_some());
    assert!(dep.is_none());
    assert!(!dep.is_some_and(|_| true));
    assert_eq!(dep.as_deref(), None);
    assert_eq!(dep.map(|v| v + 1), None);
    assert_eq!(dep.inspect(|_| ()), None);
    assert_eq!(dep.map_or(9, |v| v * 2), 9);
    assert_eq!(dep.map_or_else(|| 9, |v| v * 2), 9);
    assert_eq!(dep.ok_or("missing"), Err("missing"));
    assert_eq!(dep.ok_or_else(|| "missing"), Err("missing"));
    assert_eq!(dep.and(Some('x')), None);
    assert_eq!(dep.and_then(|v| Some(v + 1)), None);
    assert_eq!(dep.filter(|_| true), None);
    assert_eq!(dep.copied(), None);
    assert_eq!(dep.cloned(), None);

    assert_eq!(*dep.unwrap_or(7).value(), 7);
    assert_eq!(*dep.unwrap_or_else(|| 8).value(), 8);
    assert_eq!(*dep.unwrap_or_default().value(), 0);
    assert!(matches!(dep.or(Some(7)), Some(Ref::Owned(7))));
    assert!(matches!(dep.or(None), None::<Ref<u32>>));
    assert!(matches!(dep.or_else(|| Some(7)), Some(Ref::Owned(7))));
    assert!(matches!(dep.xor(Some(7)), Some(Ref::Owned(7))));
    assert!(matches!(dep.xor(None), None::<Ref<u32>>));
}

#[test]
fn a_dependency_keeps_the_value_it_captured() {
    let mut values: DependencyValues<u32> = DependencyValues::new();
    values.set(1);
    values.set(2);
    let dep = Dependency::new(&values);
    assert_eq!(dep.copied(), Some(2));
}
