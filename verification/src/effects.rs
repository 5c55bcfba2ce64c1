//! What a transition asks of the windowing system and of the presentation
//! surface. The state machines decide; the caller performs the effects, in
//! the order in which they are listed. Where a step fails, the caller gives
//! up the steps that follow it in the list and reports the failure.

use crate::display::FullscreenMode;
use vstd::prelude::*;

verus! {

/// One request to the window or to its presentation surface.
#[derive(Debug, Clone, Copy, PartialEq, Eq)]
pub enum Effect {
    /// Resize the presentation surface to the given size, both dimensions
    /// positive.
    ResizeSurface { width: u32, height: u32 },
    /// Ask the window for a redraw.
    RequestRedraw,
    /// Acquire the surface's current buffer, for the presentation that
    /// follows.
    AcquireBuffer,
    /// Tell the window that a frame is about to be presented.
    NotifyPrePresent,
    /// Hand the acquired buffer to presentation.
    Present,
    /// Enter the given fullscreen mode, or leave fullscreen.
    SetFullscreen(Option<FullscreenMode>),
    /// Release the window's surface and the window itself.
    ReleaseWindow,
}

/// How many of `effects` are requests for a redraw.
pub open spec fn redraw_requests(effects: Seq<Effect>) -> nat
    decreases effects.len(),
{
    if effects.len() == 0 {
        0
    } else {
        redraw_requests(effects.drop_last()) + if effects.last() is RequestRedraw {
            1nat
        } else {
            0nat
        }
    }
}

/// How many of `effects` hand a buffer to presentation.
pub open spec fn presentations(effects: Seq<Effect>) -> nat
    decreases effects.len(),
{
    if effects.len() == 0 {
        0
    } else {
        presentations(effects.drop_last()) + if effects.last() is Present {
            1nat
        } else {
            0nat
        }
    }
}

/// How many of `effects` tell the window that a frame is about to be
/// presented.
pub open spec fn notifications(effects: Seq<Effect>) -> nat
    decreases effects.len(),
{
    if effects.len() == 0 {
        0
    } else {
        notifications(effects.drop_last()) + if effects.last() is NotifyPrePresent {
            1nat
        } else {
            0nat
        }
    }
}

/// The steps of `effects` that have been performed when the step at position
/// `failed` fails: the steps before it.
pub open spec fn performed_before(effects: Seq<Effect>, failed: int) -> Seq<Effect>
    recommends
        0 <= failed < effects.len(),
{
    effects.take(failed)
}

} // verus!
