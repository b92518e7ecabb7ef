//! Events that flow through the application's single ordered queue.

use vstd::prelude::*;
use crate::input::InputEvent;
use crate::page::LoadablePage;

verus! {

/// Something a page asks the application to do.
#[derive(Debug, Clone, Copy, PartialEq, Eq, Structural)]
pub enum AppAction {
    Exit,
    /// Open a fresh page of the given kind on top of the stack.
    GoTo(LoadablePage),
}

/// One entry of the event queue: terminal input, or an action that a page
/// put there.
#[derive(Debug, Clone, Copy, PartialEq, Eq, Structural)]
pub enum AppEvent {
    Crossterm(InputEvent),
    App(AppAction),
}

/// How many events one collection asks the queue for, given how many are
/// queued at that moment: all of them, and one when there is none yet, so that
/// the collection waits for the next event and never returns a partial batch.
pub fn batch_size(queued: usize) -> (n: usize)
    ensures
        n == if queued == 0 { 1 } else { queued },
{
    if queued == 0 {
        1
    } else {
        queued
    }
}

} // verus!
