//! The orchestration state machine: one scan or deletion in flight at a
//! time, results carried as an ordered selection list, every failure
//! returned to a definite state with its message.  Events come from the
//! presentation layer; actions tell it what unit of work to start next.

use vstd::prelude::*;
use crate::item::{FoundItem, ProgramInfo};

verus! {

/// The phase the session is in.  A new scan or deletion can only start from
/// the phases that offer it, so at most one unit of work is in flight.
#[derive(Debug, Clone, Copy, PartialEq, Eq, Structural)]
pub enum ViewState {
    ProgramList,
    Scanning,
    ScanResults,
    ConfirmingDelete,
    Deleting,
}

impl Default for ViewState {
    fn default() -> (r: Self)
        ensures
            r == ViewState::ProgramList,
    {
        ViewState::ProgramList
    }
}

/// Everything the presentation layer may tell the session.
pub enum Event {
    LoadPrograms(Result<Vec<ProgramInfo>, String>),
    ProgramSelected(ProgramInfo),
    ScanButtonPressed,
    ScanCompleted(Result<Vec<FoundItem>, String>),
    ResultChecked(usize, bool),
    SelectAll,
    DeselectAll,
    DeleteSelectedButtonPressed,
    ConfirmDelete,
    CancelDelete,
    BackupCheckboxToggled(bool),
    DeleteCompleted(Result<(), String>),
    BackButtonPressed,
    DismissError,
}

/// The unit of work the caller must start in response to an event.
pub enum Action {
    Idle,
    LoadPrograms,
    Scan(ProgramInfo),
    Delete(Vec<FoundItem>, bool),
}

/// The session: the program list, the chosen program, the scan results with
/// their selection marks, the phase, the pending error text, and whether
/// registry keys are logged before deletion.
pub struct Session {
    pub programs: Vec<ProgramInfo>,
    pub selected_program: Option<ProgramInfo>,
    pub scan_results: Vec<(FoundItem, bool)>,
    pub view_state: ViewState,
    pub error_message: Option<String>,
    pub backup_registry: bool,
}

/// Every mark in `rs` is `value` and the candidates are those of `base`.
pub open spec fn all_marked(rs: Seq<(FoundItem, bool)>, base: Seq<(FoundItem, bool)>, value: bool)
    -> bool {
    rs.len() == base.len() && forall|i: int|
        0 <= i < base.len() ==> (#[trigger] rs[i].0 == base[i].0 && rs[i].1 == value)
}

/// `rs` pairs exactly the artifacts of `items`, in order, each selected.
pub open spec fn fresh_results(rs: Seq<(FoundItem, bool)>, items: Seq<FoundItem>) -> bool {
    rs.len() == items.len() && forall|i: int|
        0 <= i < items.len() ==> (#[trigger] rs[i].0 == items[i] && rs[i].1 == true)
}

/// The candidates whose selection mark is set, in order.
pub open spec fn selected_of(rs: Seq<(FoundItem, bool)>) -> Seq<FoundItem>
    decreases rs.len(),
{
    if rs.len() == 0 {
        Seq::empty()
    } else {
        let rest = selected_of(rs.drop_last());
        if rs.last().1 {
            rest.push(rs.last().0)
        } else {
            rest
        }
    }
}

/// Collects the candidates whose selection mark is set, in order.
pub fn selected_items(rs: &Vec<(FoundItem, bool)>) -> (r: Vec<FoundItem>)
    ensures
        r@ == selected_of(rs@),
{
    let mut out: Vec<FoundItem> = Vec::new();
    let n = rs.len();
    let mut idx: usize = 0;
    proof {
        assert(out@ =~= selected_of(rs@.take(0)));
    }
    while idx < n
        invariant
            idx <= n,
            n == rs@.len(),
            out@ == selected_of(rs@.take(idx as int)),
        decreases n - idx,
    {
        proof {
            assert(rs@.take(idx + 1).drop_last() =~= rs@.take(idx as int));
            assert(rs@.take(idx + 1).last() == rs@[idx as int]);
        }
        if rs[idx].1 {
            out.push(rs[idx].0.clone());
        }
        idx += 1;
    }
    proof {
        assert(rs@.take(n as int) =~= rs@);
    }
    out
}

/// Pairs each fresh candidate with a set selection mark: every artifact a
/// scan yields starts out selected.
pub fn to_scan_results(items: Vec<FoundItem>) -> (r: Vec<(FoundItem, bool)>)
    ensures
        fresh_results(r@, items@),
{
    let mut out: Vec<(FoundItem, bool)> = Vec::new();
    let n = items.len();
    let mut idx: usize = 0;
    while idx < n
        invariant
            idx <= n,
            n == items@.len(),
            out@.len() == idx,
            forall|i: int| 0 <= i < idx ==> #[trigger] out@[i].0 == items@[i] && out@[i].1 == true,
        decreases n - idx,
    {
        out.push((items[idx].clone(), true));
        idx += 1;
    }
    out
}

/// How one event steps the session: the new state and the action it
/// demands, for every event.
pub open spec fn update_post(pre: Session, post: Session, event: Event, action: Action) -> bool {
            match event {
                Event::LoadPrograms(res) => action is Idle && match res {
                    Ok(ps) => post == (Session {
                        programs: ps,
                        error_message: None,
                        ..pre
                    }),
                    Err(e) => post == (Session {
                        error_message: post.error_message,
                        ..pre
                    }) && match post.error_message {
                        Some(m) => m@ == "Failed to load programs: "@ + e@,
                        None => false,
                    },
                },
                Event::ProgramSelected(p) => action is Idle && post == (Session {
                    selected_program: Some(p),
                    error_message: None,
                    ..pre
                }),
                Event::ScanButtonPressed => match pre.selected_program {
                    Some(p) => post == (Session {
                        view_state: ViewState::Scanning,
                        error_message: None,
                        ..pre
                    }) && action == Action::Scan(p),
                    None => post == (Session { error_message: None, ..pre })
                        && action is Idle,
                },
                Event::ScanCompleted(res) => action is Idle && match res {
                    Ok(items) => post == (Session {
                        scan_results: post.scan_results,
                        view_state: ViewState::ScanResults,
                        error_message: None,
                        ..pre
                    }) && fresh_results(post.scan_results@, items@),
                    Err(e) => post == (Session {
                        view_state: ViewState::ProgramList,
                        error_message: post.error_message,
                        ..pre
                    }) && match post.error_message {
                        Some(m) => m@ == "Error during scan: "@ + e@,
                        None => false,
                    },
                },
                Event::ResultChecked(index, checked) => action is Idle && if index
                    < pre.scan_results@.len() {
                    post == (Session {
                        scan_results: post.scan_results,
                        error_message: None,
                        ..pre
                    }) && post.scan_results@ == pre.scan_results@.update(
                        index as int,
                        (pre.scan_results@[index as int].0, checked),
                    )
                } else {
                    post == (Session { error_message: None, ..pre })
                },
                Event::SelectAll => action is Idle && post == (Session {
                    scan_results: post.scan_results,
                    error_message: None,
                    ..pre
                }) && all_marked(post.scan_results@, pre.scan_results@, true),
                Event::DeselectAll => action is Idle && post == (Session {
                    scan_results: post.scan_results,
                    error_message: None,
                    ..pre
                }) && all_marked(post.scan_results@, pre.scan_results@, false),
                Event::DeleteSelectedButtonPressed => action is Idle && post == (Session {
                    view_state: ViewState::ConfirmingDelete,
                    error_message: None,
                    ..pre
                }),
                Event::ConfirmDelete => post == (Session {
                    view_state: ViewState::Deleting,
                    error_message: None,
                    ..pre
                }) && match action {
                    Action::Delete(items, backup) => items@ == selected_of(
                        pre.scan_results@,
                    ) && backup == pre.backup_registry,
                    _ => false,
                },
                Event::CancelDelete => action is Idle && post == (Session {
                    view_state: ViewState::ScanResults,
                    error_message: None,
                    ..pre
                }),
                Event::BackupCheckboxToggled(checked) => action is Idle && post == (
                Session { backup_registry: checked, error_message: None, ..pre }),
                Event::DeleteCompleted(res) => match res {
                    Ok(u) => post == (Session {
                        view_state: ViewState::ProgramList,
                        selected_program: None,
                        scan_results: post.scan_results,
                        error_message: None,
                        ..pre
                    }) && post.scan_results@.len() == 0 && action is LoadPrograms,
                    Err(e) => action is Idle && post == (Session {
                        view_state: ViewState::ScanResults,
                        error_message: post.error_message,
                        ..pre
                    }) && match post.error_message {
                        Some(m) => m@ == "An error occurred: "@ + e@,
                        None => false,
                    },
                },
                Event::BackButtonPressed => action is Idle && post == (Session {
                    view_state: ViewState::ProgramList,
                    selected_program: None,
                    scan_results: post.scan_results,
                    error_message: None,
                    ..pre
                }) && post.scan_results@.len() == 0,
                Event::DismissError => action is Idle && post == (Session {
                    error_message: None,
                    ..pre
                }),
            }
}

impl Session {
    /// A fresh session: nothing loaded, nothing selected, the program list
    /// showing, registry backup enabled.  The caller starts by loading the
    /// program list.
    pub fn new() -> (r: (Session, Action))
        ensures
            r.0.programs@.len() == 0,
            r.0.selected_program is None,
            r.0.scan_results@.len() == 0,
            r.0.view_state == ViewState::ProgramList,
            r.0.error_message is None,
            r.0.backup_registry == true,
            r.1 is LoadPrograms,
    {
        (
            Session {
                programs: Vec::new(),
                selected_program: None,
                scan_results: Vec::new(),
                view_state: ViewState::ProgramList,
                error_message: None,
                backup_registry: true,
            },
            Action::LoadPrograms,
        )
    }

    /// Steps the session by one event.  Every event but dismissing an error
    /// first clears the pending error; a failed scan returns to the program
    /// list with its message, a failed deletion returns to the result list
    /// with its message and the selection context intact.
    #[verifier::rlimit(100)]
    #[verifier::spinoff_prover]
    pub fn update(&mut self, event: Event) -> (action: Action)
        ensures
            update_post(*old(self), *final(self), event, action),
    {
        let ghost ev = event;
        let action = match event {
            Event::LoadPrograms(res) => {
                match res {
                    Ok(ps) => {
                        self.error_message = None;
                        self.programs = ps;
                    },
                    Err(e) => {
                        self.error_message = Some(
                            crate::deletion::compose2("Failed to load programs: ", e.as_str()),
                        );
                    },
                }
                let a = Action::Idle;
                proof {
                    assert(update_post(*old(self), *self, ev, a));
                }
                a
            },
            Event::ProgramSelected(p) => {
                self.error_message = None;
                self.selected_program = Some(p);
                let a = Action::Idle;
                proof {
                    assert(update_post(*old(self), *self, ev, a));
                }
                a
            },
            Event::ScanButtonPressed => {
                self.error_message = None;
                match &self.selected_program {
                    Some(p) => {
                        let program = p.clone();
                        self.view_state = ViewState::Scanning;
                        let a = Action::Scan(program);
                        proof {
                            assert(update_post(*old(self), *self, ev, a));
                        }
                        a
                    },
                    None => {
                        let a = Action::Idle;
                        proof {
                            assert(update_post(*old(self), *self, ev, a));
                        }
                        a
                    },
                }
            },
            Event::ScanCompleted(res) => {
                match res {
                    Ok(items) => {
                        let ghost its = items@;
                        self.error_message = None;
                        self.scan_results = to_scan_results(items);
                        self.view_state = ViewState::ScanResults;
                        proof {
                            assert(fresh_results(self.scan_results@, its));
                        }
                    },
                    Err(e) => {
                        self.error_message = Some(
                            crate::deletion::compose2("Error during scan: ", e.as_str()),
                        );
                        self.view_state = ViewState::ProgramList;
                    },
                }
                let a = Action::Idle;
                proof {
                    assert(update_post(*old(self), *self, ev, a));
                }
                a
            },
            Event::ResultChecked(index, checked) => {
                self.error_message = None;
                if index < self.scan_results.len() {
                    self.scan_results[index].1 = checked;
                }
                let a = Action::Idle;
                proof {
                    assert(update_post(*old(self), *self, ev, a));
                }
                a
            },
            Event::SelectAll => {
                let ghost before = self.scan_results@;
                self.error_message = None;
                set_all_marks(&mut self.scan_results, true);
                proof {
                    assert(all_marked(self.scan_results@, before, true));
                }
                let a = Action::Idle;
                proof {
                    assert(update_post(*old(self), *self, ev, a));
                }
                a
            },
            Event::DeselectAll => {
                let ghost before = self.scan_results@;
                self.error_message = None;
                set_all_marks(&mut self.scan_results, false);
                proof {
                    assert(all_marked(self.scan_results@, before, false));
                }
                let a = Action::Idle;
                proof {
                    assert(update_post(*old(self), *self, ev, a));
                }
                a
            },
            Event::DeleteSelectedButtonPressed => {
                self.error_message = None;
                self.view_state = ViewState::ConfirmingDelete;
                let a = Action::Idle;
                proof {
                    assert(update_post(*old(self), *self, ev, a));
                }
                a
            },
            Event::ConfirmDelete => {
                self.error_message = None;
                self.view_state = ViewState::Deleting;
                let items = selected_items(&self.scan_results);
                let a = Action::Delete(items, self.backup_registry);
                proof {
                    assert(update_post(*old(self), *self, ev, a));
                }
                a
            },
            Event::CancelDelete => {
                self.error_message = None;
                self.view_state = ViewState::ScanResults;
                let a = Action::Idle;
                proof {
                    assert(update_post(*old(self), *self, ev, a));
                }
                a
            },
            Event::BackupCheckboxToggled(checked) => {
                self.error_message = None;
                self.backup_registry = checked;
                let a = Action::Idle;
                proof {
                    assert(update_post(*old(self), *self, ev, a));
                }
                a
            },
            Event::DeleteCompleted(res) => {
                match res {
                    Ok(_) => {
                        self.error_message = None;
                        self.view_state = ViewState::ProgramList;
                        self.selected_program = None;
                        self.scan_results = Vec::new();
                        let a = Action::LoadPrograms;
                        proof {
                            assert(update_post(*old(self), *self, ev, a));
                        }
                        a
                    },
                    Err(e) => {
                        self.error_message = Some(
                            crate::deletion::compose2("An error occurred: ", e.as_str()),
                        );
                        self.view_state = ViewState::ScanResults;
                        let a = Action::Idle;
                        proof {
                            assert(update_post(*old(self), *self, ev, a));
                        }
                        a
                    },
                }
            },
            Event::BackButtonPressed => {
                self.error_message = None;
                self.view_state = ViewState::ProgramList;
                self.selected_program = None;
                self.scan_results = Vec::new();
                let a = Action::Idle;
                proof {
                    assert(update_post(*old(self), *self, ev, a));
                }
                a
            },
            Event::DismissError => {
                self.error_message = None;
                let a = Action::Idle;
                proof {
                    assert(update_post(*old(self), *self, ev, a));
                }
                a
            },
        };
        action
    }
}

/// Sets every selection mark to `value`, keeping the candidates.
fn set_all_marks(rs: &mut Vec<(FoundItem, bool)>, value: bool)
    ensures
        all_marked(final(rs)@, old(rs)@, value),
{
    let mut out: Vec<(FoundItem, bool)> = Vec::new();
    let n = rs.len();
    let mut idx: usize = 0;
    while idx < n
        invariant
            idx <= n,
            n == rs@.len(),
            rs@ == old(rs)@,
            out@.len() == idx,
            forall|i: int| #![auto]
                0 <= i < idx ==> out@[i].0 == rs@[i].0 && out@[i].1 == value,
        decreases n - idx,
    {
        let item = rs[idx].0.clone();
        out.push((item, value));
        idx += 1;
    }
    *rs = out;
}

} // verus!
