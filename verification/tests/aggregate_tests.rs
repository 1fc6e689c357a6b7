use kuri_uninstaller::aggregate::aggregate;
use kuri_uninstaller::item::FoundItem;
use kuri_uninstaller::scan::{match_entries, match_registry_names, FsEntry};

fn render_all(items: &[FoundItem]) -> Vec<String> {
    items.iter().map(|i| i.render()).collect()
}

#[test]
fn rendering_is_the_canonical_form() {
    assert_eq!(FoundItem::File("/a/b".to_string()).render(), "[File] /a/b".to_string());
    assert_eq!(FoundItem::Directory("/a/b".to_string()).render(), "[Folder] /a/b".to_string());
    assert_eq!(
        FoundItem::RegistryKey("HKEY_CURRENT_USER\\Software\\X".to_string()).render(),
        "[Registry] HKEY_CURRENT_USER\\Software\\X".to_string()
    );
}

fn unordered_input() -> Vec<FoundItem> {
    vec![
        FoundItem::RegistryKey("HKEY_CURRENT_USER\\Software\\Foo".to_string()),
        FoundItem::File("/b/foo.log".to_string()),
        FoundItem::Directory("/a/Foo".to_string()),
        FoundItem::File("/b/foo.log".to_string()),
        FoundItem::File("/a/foo.cfg".to_string()),
        FoundItem::Directory("/a/Foo".to_string()),
    ]
}

fn shuffled_input() -> Vec<FoundItem> {
    vec![
        FoundItem::Directory("/a/Foo".to_string()),
        FoundItem::File("/a/foo.cfg".to_string()),
        FoundItem::File("/b/foo.log".to_string()),
        FoundItem::Directory("/a/Foo".to_string()),
        FoundItem::RegistryKey("HKEY_CURRENT_USER\\Software\\Foo".to_string()),
        FoundItem::File("/b/foo.log".to_string()),
    ]
}

#[test]
fn aggregation_sorts_and_fully_deduplicates() {
    let out = aggregate(unordered_input());
    assert_eq!(
        render_all(&out),
        vec![
            "[File] /a/foo.cfg".to_string(),
            "[File] /b/foo.log".to_string(),
            "[Folder] /a/Foo".to_string(),
            "[Registry] HKEY_CURRENT_USER\\Software\\Foo".to_string(),
        ]
    );
}

#[test]
fn aggregation_is_deterministic_across_runs_and_orders() {
    let first = aggregate(unordered_input());
    let second = aggregate(unordered_input());
    assert_eq!(first, second);
    let reordered = aggregate(shuffled_input());
    assert_eq!(first, reordered);
}

#[test]
fn rescan_yields_identical_lists() {
    // the pure pipeline run twice over the same (unchanged) inputs gives
    // byte-identical candidate lists
    let terms = vec!["foo".to_string()];
    let entries = vec![
        FsEntry { path: "/r/Foo".to_string(), name: "Foo".to_string(), is_dir: true },
        FsEntry { path: "/r/foo.log".to_string(), name: "foo.log".to_string(), is_dir: false },
    ];
    let names = vec!["Foo".to_string()];
    let run = || {
        let mut items = match_entries(&entries, &terms);
        items.extend(match_registry_names(&names, "HKEY_CURRENT_USER\\Software", &terms));
        aggregate(items)
    };
    let first = run();
    let second = run();
    assert_eq!(render_all(&first), render_all(&second));
    assert_eq!(first, second);
}

#[test]
fn aggregation_of_empty_input_is_empty() {
    assert_eq!(aggregate(Vec::new()), Vec::<FoundItem>::new());
}
