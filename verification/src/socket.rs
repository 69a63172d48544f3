//! UNIX sockets between the stages of init and the assembled tree.

use crate::action::{push_action, Action, ActionView};
use vstd::prelude::*;

verus! {

/// What a process inside the tree reports when it cannot go on.
#[derive(Debug, Clone, PartialEq, Eq)]
pub struct ErrorDetails {
    pub error_reason: String,
}

impl View for ErrorDetails {
    type V = Seq<char>;

    open spec fn view(&self) -> Seq<char> {
        self.error_reason@
    }
}

/// Model of [`bind`].
pub open spec fn bind_plan(path: Seq<char>) -> Seq<ActionView> {
    seq![ActionView::RemoveFile { path }, ActionView::SocketBind { path }]
}

/// Binds a socket at `path`, in the place of one that may be left there.
pub fn bind(path: &str) -> (plan: Vec<Action>)
    ensures
        plan.deep_view() == bind_plan(path@),
{
    let mut plan: Vec<Action> = Vec::new();
    push_action(&mut plan, Action::RemoveFile { path: String::from_str(path) });
    push_action(&mut plan, Action::SocketBind { path: String::from_str(path) });
    assert(plan.deep_view() =~= bind_plan(path@));
    plan
}

/// Sends `contents` to the socket at `path`. Nothing is tried twice: whether
/// to try again is for the caller to decide.
pub fn write(path: &str, contents: &Vec<u8>) -> (action: Action)
    ensures
        action@ == (ActionView::SocketSend { path: path@, payload: contents@ }),
{
    Action::SocketSend { path: String::from_str(path), payload: contents.clone() }
}

} // verus!
