use kuri_uninstaller::item::FoundItem;
use kuri_uninstaller::scan::{match_entries, match_registry_names, FsEntry};

fn terms() -> Vec<String> {
    vec!["foo bar".to_string(), "foobar".to_string(), "foobarapp".to_string()]
}

#[test]
fn filesystem_matching_picks_exactly_the_matching_entries() {
    let entries = vec![
        FsEntry {
            path: "/root/FooBarApp".to_string(),
            name: "FooBarApp".to_string(),
            is_dir: true,
        },
        FsEntry {
            path: "/root/foobar.log".to_string(),
            name: "foobar.log".to_string(),
            is_dir: false,
        },
        FsEntry {
            path: "/root/unrelated.txt".to_string(),
            name: "unrelated.txt".to_string(),
            is_dir: false,
        },
    ];
    let found = match_entries(&entries, &terms());
    assert_eq!(
        found,
        vec![
            FoundItem::Directory("/root/FooBarApp".to_string()),
            FoundItem::File("/root/foobar.log".to_string()),
        ]
    );
}

#[test]
fn filesystem_matching_is_case_insensitive() {
    let entries = vec![FsEntry {
        path: "/root/FOOBAR.tmp".to_string(),
        name: "FOOBAR.tmp".to_string(),
        is_dir: false,
    }];
    let found = match_entries(&entries, &terms());
    assert_eq!(found, vec![FoundItem::File("/root/FOOBAR.tmp".to_string())]);
}

#[test]
fn registry_matching_qualifies_matches_under_the_prefix() {
    let names = vec!["FooBar".to_string(), "Unrelated".to_string(), "foobarapp".to_string()];
    let found = match_registry_names(&names, "HKEY_LOCAL_MACHINE\\SOFTWARE", &terms());
    assert_eq!(
        found,
        vec![
            FoundItem::RegistryKey("HKEY_LOCAL_MACHINE\\SOFTWARE\\FooBar".to_string()),
            FoundItem::RegistryKey("HKEY_LOCAL_MACHINE\\SOFTWARE\\foobarapp".to_string()),
        ]
    );
}

#[test]
fn registry_matching_with_no_match_is_empty() {
    let names = vec!["Unrelated".to_string(), "Other".to_string()];
    let found = match_registry_names(&names, "HKEY_CURRENT_USER\\Software", &terms());
    assert_eq!(found, Vec::<FoundItem>::new());
}
