use vstd::prelude::*;

verus! {

/// What an animated widget does on a frame update, once its animated values
/// have their targets.
#[derive(Debug, Clone, Copy, PartialEq, Eq, Structural)]
pub enum FrameAction {
    /// Advance the animation by one frame and ask for a redraw.
    Advance,
    /// Ask for a redraw without advancing (the display changes on its own).
    Redraw,
    /// Nothing to do until the next event.
    Rest,
}

/// The frame action of an animation: advance while it has not settled; once
/// settled, keep redrawing only when `keep_running` asks for it.
pub fn next_frame(settled: bool, keep_running: bool) -> (a: FrameAction)
    ensures
        !settled ==> a == FrameAction::Advance,
        settled && keep_running ==> a == FrameAction::Redraw,
        settled && !keep_running ==> a == FrameAction::Rest,
{
    if !settled {
        FrameAction::Advance
    } else if keep_running {
        FrameAction::Redraw
    } else {
        FrameAction::Rest
    }
}

} // verus!
