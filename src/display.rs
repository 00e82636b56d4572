use vstd::prelude::*;

verus! {

/// What the display loop does next.
#[derive(Clone, Copy, Debug, PartialEq, Eq, Structural)]
pub enum DisplayAction {
    /// Show the current buffer, then poll again.
    Present,
    /// Leave the loop: the window is closed or the exit key is held.
    Exit,
}

/// One turn of the display loop, decided from what the window reports at its
/// start: present the buffer while the window is open and the exit key is up,
/// stop as soon as either changes.
pub fn next_display_action(window_open: bool, exit_key_down: bool) -> (r: DisplayAction)
    ensures
        r == (if window_open && !exit_key_down {
            DisplayAction::Present
        } else {
            DisplayAction::Exit
        }),
{
    if window_open && !exit_key_down {
        DisplayAction::Present
    } else {
        DisplayAction::Exit
    }
}

} // verus!
