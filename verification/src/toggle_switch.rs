use vstd::prelude::*;

verus! {

/// What a toggle switch shows.
#[derive(Debug, Clone, Copy, PartialEq, Eq, Structural)]
pub enum ToggleFace {
    /// The toggle is hidden behind a red `GUARDED` cover; pressing the cover
    /// asks to open the guard (the guard toggle receives `false`).
    Covered,
    /// The toggle itself is shown; with `lock_button`, a `LOCK` button beside it
    /// asks to close the guard again (the guard toggle receives `true`).
    Open { lock_button: bool },
}

/// The face of a toggle switch with an optional guard cover: `None` without a
/// guard, `Some(is_guarded)` with one.
pub fn toggle_face(guard: Option<bool>) -> (f: ToggleFace)
    ensures
        guard == Some(true) ==> f == ToggleFace::Covered,
        guard == Some(false) ==> f == (ToggleFace::Open { lock_button: true }),
        guard is None ==> f == (ToggleFace::Open { lock_button: false }),
{
    match guard {
        Some(true) => ToggleFace::Covered,
        Some(false) => ToggleFace::Open { lock_button: true },
        None => ToggleFace::Open { lock_button: false },
    }
}

} // verus!
