use kuri_uninstaller::item::FoundItem;
use kuri_uninstaller::session::{Action, Event, Session, ViewState};

fn items() -> Vec<FoundItem> {
    vec![
        FoundItem::File("/a/foo.log".to_string()),
        FoundItem::Directory("/a/Foo".to_string()),
        FoundItem::RegistryKey("HKEY_CURRENT_USER\\Software\\Foo".to_string()),
    ]
}

#[test]
fn new_session_starts_on_program_list_with_backup_enabled() {
    let (session, action) = Session::new();
    assert_eq!(session.view_state, ViewState::ProgramList);
    assert!(session.backup_registry);
    assert!(session.error_message.is_none());
    assert!(matches!(action, Action::LoadPrograms));
}

#[test]
fn scan_results_arrive_selected_by_default() {
    let (mut session, _) = Session::new();
    let action = session.update(Event::ScanCompleted(Ok(items())));
    assert!(matches!(action, Action::Idle));
    assert_eq!(session.view_state, ViewState::ScanResults);
    assert_eq!(session.scan_results.len(), 3);
    assert!(session.scan_results.iter().all(|(_, selected)| *selected));
}

#[test]
fn confirm_delete_hands_over_only_the_selected_subset() {
    let (mut session, _) = Session::new();
    session.update(Event::ScanCompleted(Ok(items())));
    session.update(Event::ResultChecked(1, false));
    let action = session.update(Event::ConfirmDelete);
    assert_eq!(session.view_state, ViewState::Deleting);
    match action {
        Action::Delete(selected, backup) => {
            assert_eq!(
                selected,
                vec![
                    FoundItem::File("/a/foo.log".to_string()),
                    FoundItem::RegistryKey("HKEY_CURRENT_USER\\Software\\Foo".to_string()),
                ]
            );
            assert!(backup);
        }
        _ => panic!("expected a deletion action"),
    }
}

#[test]
fn select_all_and_deselect_all_flip_every_mark() {
    let (mut session, _) = Session::new();
    session.update(Event::ScanCompleted(Ok(items())));
    session.update(Event::DeselectAll);
    assert!(session.scan_results.iter().all(|(_, selected)| !*selected));
    session.update(Event::SelectAll);
    assert!(session.scan_results.iter().all(|(_, selected)| *selected));
}

#[test]
fn failed_scan_returns_to_program_list_with_message() {
    let (mut session, _) = Session::new();
    let action = session.update(Event::ScanCompleted(Err("walk failed".to_string())));
    assert!(matches!(action, Action::Idle));
    assert_eq!(session.view_state, ViewState::ProgramList);
    assert_eq!(session.error_message, Some("Error during scan: walk failed".to_string()));
}

#[test]
fn failed_deletion_returns_to_results_keeping_selection_context() {
    let (mut session, _) = Session::new();
    session.update(Event::ScanCompleted(Ok(items())));
    session.update(Event::ResultChecked(0, false));
    session.update(Event::ConfirmDelete);
    let action = session.update(Event::DeleteCompleted(Err("one failure".to_string())));
    assert!(matches!(action, Action::Idle));
    assert_eq!(session.view_state, ViewState::ScanResults);
    assert_eq!(session.error_message, Some("An error occurred: one failure".to_string()));
    // the selection context is preserved
    assert_eq!(session.scan_results.len(), 3);
    assert!(!session.scan_results[0].1);
    assert!(session.scan_results[1].1);
}

#[test]
fn successful_deletion_reloads_the_program_list() {
    let (mut session, _) = Session::new();
    session.update(Event::ScanCompleted(Ok(items())));
    session.update(Event::ConfirmDelete);
    let action = session.update(Event::DeleteCompleted(Ok(())));
    assert!(matches!(action, Action::LoadPrograms));
    assert_eq!(session.view_state, ViewState::ProgramList);
    assert!(session.scan_results.is_empty());
    assert!(session.selected_program.is_none());
}

#[test]
fn dismissing_clears_the_error() {
    let (mut session, _) = Session::new();
    session.update(Event::ScanCompleted(Err("oops".to_string())));
    assert!(session.error_message.is_some());
    session.update(Event::DismissError);
    assert!(session.error_message.is_none());
}
