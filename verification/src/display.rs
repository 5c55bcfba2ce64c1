//! Plain values that describe a window's geometry and a display's modes.

use vstd::prelude::*;

verus! {

/// A size in physical pixels.
#[derive(Debug, Clone, Copy, PartialEq, Eq, Structural)]
pub struct PhysicalSize {
    pub width: u32,
    pub height: u32,
}

impl PhysicalSize {
    /// Whether the size covers no area: one of its dimensions is zero.
    pub open spec fn is_degenerate(self) -> bool {
        self.width == 0 || self.height == 0
    }
}

/// A cursor position in physical pixels. Each coordinate is held as the bit
/// pattern of the 64-bit float that the windowing system reports, so the
/// position is kept exactly as it was reported.
#[derive(Debug, Clone, Copy, PartialEq, Eq, Structural)]
pub struct CursorPosition {
    pub x_bits: u64,
    pub y_bits: u64,
}

/// A video mode of a display.
#[derive(Debug, Clone, Copy, PartialEq, Eq, Structural)]
pub struct VideoMode {
    pub width: u32,
    pub height: u32,
    pub refresh_rate_millihertz: u32,
    pub bit_depth: u16,
}

impl VideoMode {
    /// Whether `self` ranks strictly below `other`: by width, then by height,
    /// then by refresh rate.
    pub open spec fn ranks_below(self, other: VideoMode) -> bool {
        ||| self.width < other.width
        ||| self.width == other.width && self.height < other.height
        ||| self.width == other.width && self.height == other.height
            && self.refresh_rate_millihertz < other.refresh_rate_millihertz
    }

    /// Whether `self` ranks strictly below `other`.
    pub fn is_ranked_below(&self, other: &VideoMode) -> (below: bool)
        ensures
            below == self.ranks_below(*other),
    {
        if self.width != other.width {
            self.width < other.width
        } else if self.height != other.height {
            self.height < other.height
        } else {
            self.refresh_rate_millihertz < other.refresh_rate_millihertz
        }
    }
}

/// How a window covers a display.
#[derive(Debug, Clone, Copy, PartialEq, Eq, Structural)]
pub enum FullscreenMode {
    /// A borderless window of the desktop's resolution.
    Borderless,
    /// Exclusive use of the display in the given video mode.
    Exclusive(VideoMode),
}

/// What a display offers for fullscreen.
pub enum FullscreenSupport {
    /// Only borderless fullscreen.
    BorderlessOnly,
    /// Exclusive fullscreen in one of the listed video modes.
    Exclusive(Vec<VideoMode>),
}

/// Whether position `k` of `modes` holds the highest mode: no mode ranks above
/// it, and every mode after it ranks strictly below it.
pub open spec fn is_highest_at(modes: Seq<VideoMode>, k: int) -> bool {
    &&& 0 <= k < modes.len()
    &&& forall|j: int| 0 <= j < modes.len() ==> !modes[k].ranks_below(#[trigger] modes[j])
    &&& forall|j: int| k < j < modes.len() ==> (#[trigger] modes[j]).ranks_below(modes[k])
}

/// At most one position of a list holds its highest mode.
pub proof fn lemma_highest_is_unique(modes: Seq<VideoMode>, k: int, l: int)
    requires
        is_highest_at(modes, k),
        is_highest_at(modes, l),
    ensures
        k == l,
{
    if k < l {
        assert(modes[l].ranks_below(modes[k]));
        assert(!modes[l].ranks_below(modes[k]));
    } else if l < k {
        assert(modes[k].ranks_below(modes[l]));
        assert(!modes[k].ranks_below(modes[l]));
    }
}

/// The position of the highest mode of `modes`: the greatest width, then the
/// greatest height, then the greatest refresh rate; of several such modes, the
/// last. None where the list is empty.
pub fn highest_video_mode_index(modes: &Vec<VideoMode>) -> (index: Option<usize>)
    ensures
        modes@.len() == 0 <==> index is None,
        index matches Some(k) ==> is_highest_at(modes@, k as int),
{
    if modes.len() == 0 {
        return None;
    }
    let mut best: usize = 0;
    let mut i: usize = 1;
    while i < modes.len()
        invariant
            1 <= i <= modes.len(),
            best < i,
            forall|j: int| 0 <= j < i ==> !modes@[best as int].ranks_below(#[trigger] modes@[j]),
            forall|j: int| best < j < i ==> (#[trigger] modes@[j]).ranks_below(modes@[best as int]),
        decreases modes.len() - i,
    {
        if !modes[i].is_ranked_below(&modes[best]) {
            best = i;
        }
        i += 1;
    }
    Some(best)
}

/// The highest mode of `modes`, or none where the list is empty.
pub fn highest_video_mode(modes: &Vec<VideoMode>) -> (mode: Option<VideoMode>)
    ensures
        modes@.len() == 0 <==> mode is None,
        mode matches Some(m) ==> exists|k: int| is_highest_at(modes@, k) && modes@[k] == m,
{
    match highest_video_mode_index(modes) {
        Some(k) => Some(modes[k]),
        None => None,
    }
}

impl FullscreenSupport {
    /// Whether `mode` is what a window enters when it goes fullscreen on this
    /// display: borderless where that is all the display offers, else
    /// exclusive use in the highest of its video modes.
    pub open spec fn is_target(self, mode: FullscreenMode) -> bool {
        match self {
            FullscreenSupport::BorderlessOnly => mode == FullscreenMode::Borderless,
            FullscreenSupport::Exclusive(modes) => exists|k: int|
                is_highest_at(modes@, k) && mode == FullscreenMode::Exclusive(modes@[k]),
        }
    }

    /// Whether the display offers any fullscreen mode: it does unless it is
    /// exclusive with no video mode.
    pub open spec fn has_target(self) -> bool {
        match self {
            FullscreenSupport::BorderlessOnly => true,
            FullscreenSupport::Exclusive(modes) => modes@.len() > 0,
        }
    }

    /// The position, in the list of an exclusive display, of the video mode
    /// that `target` chooses; none for a display that has no such mode.
    pub fn exclusive_index(&self) -> (index: Option<usize>)
        ensures
            index is Some <==> self is Exclusive && self.has_target(),
            index matches Some(k) ==> (self matches FullscreenSupport::Exclusive(modes)
                && is_highest_at(modes@, k as int) && self.is_target(
                FullscreenMode::Exclusive(modes@[k as int]),
            )),
    {
        match self {
            FullscreenSupport::BorderlessOnly => None,
            FullscreenSupport::Exclusive(modes) => highest_video_mode_index(modes),
        }
    }

    /// The fullscreen mode to enter on this display: borderless where that is
    /// all it offers, else exclusive in its highest video mode. None where an
    /// exclusive display lists no video mode.
    pub fn target(&self) -> (mode: Option<FullscreenMode>)
        ensures
            mode is Some <==> self.has_target(),
            mode matches Some(m) ==> self.is_target(m),
    {
        match self {
            FullscreenSupport::BorderlessOnly => Some(FullscreenMode::Borderless),
            FullscreenSupport::Exclusive(modes) => match highest_video_mode(modes) {
                Some(m) => Some(FullscreenMode::Exclusive(m)),
                None => None,
            },
        }
    }
}

} // verus!
