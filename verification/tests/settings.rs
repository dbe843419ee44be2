use ntfyr::settings::bound_settings_keys;

#[test]
fn three_keys_in_toggle_order() {
    let keys = bound_settings_keys();
    assert_eq!(
        keys,
        vec!["run-on-startup", "sort-descending", "start-in-background"]
    );
}
