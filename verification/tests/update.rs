use softwane::update::Update;

#[test]
fn test_update_is_changed() {
    let update = Update::Changed(1);
    assert!(update.is_changed());
}

#[test]
fn test_update_is_not_changed() {
    let update = Update::Unchanged(1);
    assert!(!update.is_changed());
}

#[test]
fn update_get_value_ignores_tag() {
    assert_eq!(*Update::Changed(7).get_value(), 7);
    assert_eq!(*Update::Unchanged(7).get_value(), 7);
}
