use vstd::prelude::*;

use crate::text::same_text;

verus! {

/// The id of the tray menu's single item.
pub open spec fn quit_id() -> Seq<char> {
    seq!['q', 'u', 'i', 't']
}

/// What the tray does when a menu item is selected.
#[derive(Clone, Copy, Debug, PartialEq, Eq, Structural)]
pub enum TrayAction {
    /// End the process with this exit code.
    Exit(i32),
    /// The item is not handled: log its id and do nothing else.
    Ignore,
}

/// The action for the menu item with id `id`: `quit` ends the process with
/// code 0; any other id is ignored.
pub fn menu_action(id: &str) -> (a: TrayAction)
    ensures
        a == (if id@ == quit_id() {
            TrayAction::Exit(0)
        } else {
            TrayAction::Ignore
        }),
{
    proof {
        reveal_strlit("quit");
    }
    assert("quit"@ =~= quit_id());
    if same_text(id, "quit") {
        TrayAction::Exit(0)
    } else {
        TrayAction::Ignore
    }
}

} // verus!
