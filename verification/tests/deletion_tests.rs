use kuri_uninstaller::deletion::{backup_keys_if_enabled, collect_deletion_messages,
    deletion_outcome, registry_keys_of, RegOutcome};
use kuri_uninstaller::item::FoundItem;
use kuri_uninstaller::registry::{parse_registry_key, Hive};

#[test]
fn parse_nested_key() {
    let parts =
        parse_registry_key(&"HKEY_LOCAL_MACHINE\\SOFTWARE\\FooBar".to_string()).unwrap();
    assert_eq!(parts.hive, Hive::LocalMachine);
    assert_eq!(parts.parent, Some("SOFTWARE".to_string()));
    assert_eq!(parts.leaf, "FooBar".to_string());
}

#[test]
fn parse_root_level_key() {
    let parts = parse_registry_key(&"HKEY_CURRENT_USER\\Software".to_string()).unwrap();
    assert_eq!(parts.hive, Hive::CurrentUser);
    assert_eq!(parts.parent, None);
    assert_eq!(parts.leaf, "Software".to_string());
}

#[test]
fn parse_rejects_path_without_separator() {
    let err = parse_registry_key(&"NoSeparators".to_string()).unwrap_err();
    assert_eq!(err, "Invalid registry path format: NoSeparators".to_string());
}

#[test]
fn parse_rejects_unknown_hive() {
    let err = parse_registry_key(&"HKEY_USERS\\Foo".to_string()).unwrap_err();
    assert_eq!(err, "Unknown registry hive in path: HKEY_USERS\\Foo".to_string());
}

fn batch() -> Vec<FoundItem> {
    vec![
        FoundItem::File("/tmp/a.log".to_string()),
        FoundItem::File("/tmp/b.log".to_string()),
        FoundItem::File("/tmp/c.log".to_string()),
        FoundItem::RegistryKey("HKEY_LOCAL_MACHINE\\SOFTWARE\\FooBar".to_string()),
    ]
}

#[test]
fn registry_keys_are_filtered_in_order() {
    assert_eq!(
        registry_keys_of(&batch()),
        vec!["HKEY_LOCAL_MACHINE\\SOFTWARE\\FooBar".to_string()]
    );
}

#[test]
fn backup_keys_present_only_when_enabled_and_nonempty() {
    assert_eq!(
        backup_keys_if_enabled(&batch(), true),
        Some(vec!["HKEY_LOCAL_MACHINE\\SOFTWARE\\FooBar".to_string()])
    );
    assert_eq!(backup_keys_if_enabled(&batch(), false), None);
    let files_only = vec![FoundItem::File("/tmp/a".to_string())];
    assert_eq!(backup_keys_if_enabled(&files_only, true), None);
}

#[test]
fn partial_failure_yields_one_aggregate_error_line() {
    // three files, one with an induced access failure, and one registry key
    // that succeeds: exactly one failure line, and the batch went on
    let items = batch();
    let trash_results = vec![None, Some("access denied".to_string()), None];
    let reg_results = vec![RegOutcome::Deleted];
    let messages = collect_deletion_messages(&items, &None, &trash_results, &reg_results);
    assert_eq!(messages, vec!["Failed to delete /tmp/b.log: access denied".to_string()]);
    let outcome = deletion_outcome(messages);
    assert_eq!(outcome, Err("Failed to delete /tmp/b.log: access denied".to_string()));
}

#[test]
fn full_success_yields_ok() {
    let items = batch();
    let trash_results = vec![None, None, None];
    let reg_results = vec![RegOutcome::Deleted];
    let messages = collect_deletion_messages(&items, &None, &trash_results, &reg_results);
    assert_eq!(messages, Vec::<String>::new());
    assert_eq!(deletion_outcome(messages), Ok(()));
}

#[test]
fn messages_come_in_processing_order_joined_by_newlines() {
    let items = vec![
        FoundItem::RegistryKey("BadPath".to_string()),
        FoundItem::File("/tmp/x".to_string()),
        FoundItem::RegistryKey("HKEY_CURRENT_USER\\Software\\Gone".to_string()),
    ];
    let trash_results = vec![Some("locked".to_string())];
    let reg_results = vec![RegOutcome::DeleteFailed("not found".to_string())];
    let messages = collect_deletion_messages(&items, &None, &trash_results, &reg_results);
    assert_eq!(
        messages,
        vec![
            "Invalid registry path format: BadPath".to_string(),
            "Failed to delete /tmp/x: locked".to_string(),
            "Failed to delete registry key HKEY_CURRENT_USER\\Software\\Gone: not found"
                .to_string(),
        ]
    );
    let outcome = deletion_outcome(messages);
    assert_eq!(
        outcome,
        Err("Invalid registry path format: BadPath\nFailed to delete /tmp/x: locked\n\
             Failed to delete registry key HKEY_CURRENT_USER\\Software\\Gone: not found"
            .to_string())
    );
}

#[test]
fn backup_failure_is_reported_first_and_is_non_fatal() {
    let items = vec![FoundItem::File("/tmp/x".to_string())];
    let trash_results = vec![Some("locked".to_string())];
    let reg_results = Vec::new();
    let messages = collect_deletion_messages(
        &items,
        &Some("disk full".to_string()),
        &trash_results,
        &reg_results,
    );
    assert_eq!(
        messages,
        vec![
            "Failed to create registry log: disk full".to_string(),
            "Failed to delete /tmp/x: locked".to_string(),
        ]
    );
}

#[test]
fn open_parent_failure_message() {
    let items = vec![FoundItem::RegistryKey("HKEY_LOCAL_MACHINE\\SOFTWARE\\Foo".to_string())];
    let messages =
        collect_deletion_messages(&items, &None, &Vec::new(), &vec![RegOutcome::OpenParentFailed]);
    assert_eq!(
        messages,
        vec!["Could not open parent key for: HKEY_LOCAL_MACHINE\\SOFTWARE\\Foo".to_string()]
    );
}
