use snake_matrix::buttons::debounce_settled;

#[test]
fn debounce_settles_only_on_a_changed_level() {
    assert_eq!(debounce_settled(true, true), None);
    assert_eq!(debounce_settled(false, false), None);
    assert_eq!(debounce_settled(true, false), Some(false));
    assert_eq!(debounce_settled(false, true), Some(true));
}
