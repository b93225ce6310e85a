//! The tray menu: which entry a menu event names.
use vstd::prelude::*;

verus! {

/// The entries of the tray menu, and events that name none of them.
#[derive(Clone, Copy, Debug, PartialEq, Eq, Structural)]
pub enum MenuAction {
    Quit,
    Pause,
    Restart,
    Ignore,
}

/// The entry that a menu event with the id `id` names.
pub open spec fn menu_action_of(id: Seq<char>) -> MenuAction {
    if id == "quit"@ {
        MenuAction::Quit
    } else if id == "pause"@ {
        MenuAction::Pause
    } else if id == "restart"@ {
        MenuAction::Restart
    } else {
        MenuAction::Ignore
    }
}

/// Whether `a` and `b` hold the same characters.
pub fn same_text(a: &str, b: &str) -> (same: bool)
    ensures
        same == (a@ == b@),
{
    let n = a.unicode_len();
    if n != b.unicode_len() {
        return false;
    }
    let mut i: usize = 0;
    while i < n
        invariant
            n == a@.len(),
            n == b@.len(),
            i <= n,
            forall|j: int| 0 <= j < i ==> a@[j] == b@[j],
        decreases n - i,
    {
        if a.get_char(i) != b.get_char(i) {
            return false;
        }
        i = i + 1;
    }
    assert(a@ =~= b@);
    true
}

/// The entry that a menu event with the id `id` names.
pub fn menu_action(id: &str) -> (action: MenuAction)
    ensures
        action == menu_action_of(id@),
{
    if same_text(id, "quit") {
        MenuAction::Quit
    } else if same_text(id, "pause") {
        MenuAction::Pause
    } else if same_text(id, "restart") {
        MenuAction::Restart
    } else {
        MenuAction::Ignore
    }
}

} // verus!
