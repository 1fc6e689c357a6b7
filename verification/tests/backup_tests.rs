use kuri_uninstaller::backup::{build_backup_text, timestamp_shaped};

#[test]
fn timestamp_shape_accepts_the_fixed_format_only() {
    assert!(timestamp_shaped("2024-01-02_03-04-05"));
    assert!(timestamp_shaped("0001-12-31_23-59-59"));
    assert!(!timestamp_shaped("2024-01-02 03-04-05"));
    assert!(!timestamp_shaped("2024-01-02_03-04-5"));
    assert!(!timestamp_shaped("24-01-02_03-04-05"));
    assert!(!timestamp_shaped("2024-01-02_03:04:05"));
    assert!(!timestamp_shaped(""));
}

#[test]
fn backup_text_has_header_separator_and_one_key_per_line() {
    let keys = vec![
        "HKEY_LOCAL_MACHINE\\SOFTWARE\\FooBar".to_string(),
        "HKEY_CURRENT_USER\\Software\\foobarapp".to_string(),
    ];
    let text = build_backup_text("2024-01-02_03-04-05", &keys);
    let expected = "Log of registry keys deleted by Kuri Uninstaller at 2024-01-02_03-04-05\n\
                    --------------------------------------------------\n\
                    HKEY_LOCAL_MACHINE\\SOFTWARE\\FooBar\n\
                    HKEY_CURRENT_USER\\Software\\foobarapp\n";
    assert_eq!(text, expected.to_string());
}

#[test]
fn backup_text_with_no_keys_is_header_and_separator_only() {
    let text = build_backup_text("2024-01-02_03-04-05", &Vec::new());
    let expected = "Log of registry keys deleted by Kuri Uninstaller at 2024-01-02_03-04-05\n\
                    --------------------------------------------------\n";
    assert_eq!(text, expected.to_string());
}

#[test]
fn backup_lists_the_key_before_any_deletion_outcome_is_known() {
    // the planned log text names the key in full; the text is fixed before
    // the registry deletion step runs, so the log does not depend on whether
    // that deletion later succeeds
    let keys = vec!["HKEY_LOCAL_MACHINE\\SOFTWARE\\FooBar".to_string()];
    let text = build_backup_text("2030-12-31_23-59-59", &keys);
    assert!(text.contains("HKEY_LOCAL_MACHINE\\SOFTWARE\\FooBar\n"));
}
