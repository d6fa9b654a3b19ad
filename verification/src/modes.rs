//! Editor overlay modes: while an inspector or profiler overlay is open,
//! gameplay input is suspended.

use vstd::prelude::*;

verus! {

/// Which overlays are open. Gameplay runs only with both closed.
#[derive(Clone, Copy, Debug, PartialEq, Eq, Structural)]
pub struct Modes {
    pub inspect: bool,
    pub profiler: bool,
}

impl Modes {
    /// Whether input currently drives the character rather than an overlay.
    pub fn gameplay(&self) -> (r: bool)
        ensures
            r == (!self.inspect && !self.profiler),
    {
        !(self.inspect || self.profiler)
    }
}

impl Default for Modes {
    /// Both overlays closed: plain gameplay.
    fn default() -> (r: Self)
        ensures
            !r.inspect && !r.profiler,
    {
        Modes { inspect: false, profiler: false }
    }
}

/// Toggle each overlay on its key edge; the keys act independently.
pub fn toggle_modes(modes: &mut Modes, inspect_pressed: bool, profiler_pressed: bool)
    ensures
        final(modes).inspect == (if inspect_pressed {
            !old(modes).inspect
        } else {
            old(modes).inspect
        }),
        final(modes).profiler == (if profiler_pressed {
            !old(modes).profiler
        } else {
            old(modes).profiler
        }),
{
    if inspect_pressed {
        modes.inspect = !modes.inspect;
    }
    if profiler_pressed {
        modes.profiler = !modes.profiler;
    }
}

} // verus!
