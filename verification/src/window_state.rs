//! The presentation state of one window: surface geometry, occlusion,
//! fullscreen, and the input state that is tracked for it.

use crate::display::{CursorPosition, FullscreenMode, PhysicalSize};
use crate::effects::{
    notifications, performed_before, presentations, redraw_requests, Effect,
};
use crate::modifiers::Modifiers;
use vstd::prelude::*;

verus! {

/// What is known of one window.
pub struct WindowView {
    /// The size of the presentation surface; none until a resize with a
    /// positive area has been applied.
    pub surface_size: Option<PhysicalSize>,
    /// The fullscreen mode the window is in; none while it is windowed.
    pub fullscreen: Option<FullscreenMode>,
    /// Where the cursor is; none while it is outside the window.
    pub cursor_position: Option<CursorPosition>,
    /// The modifiers that are held.
    pub modifiers: Modifiers,
    /// Whether the window is fully hidden.
    pub occluded: bool,
}

impl WindowView {
    /// A surface, once sized, never has a zero dimension.
    pub open spec fn wf(self) -> bool {
        self.surface_size matches Some(size) ==> !size.is_degenerate()
    }

    /// A window that has just been created: windowed, visible, no cursor, no
    /// modifiers, surface not yet sized.
    pub open spec fn initial() -> WindowView {
        WindowView {
            surface_size: None,
            fullscreen: None,
            cursor_position: None,
            modifiers: Modifiers { bits: 0 },
            occluded: false,
        }
    }

    /// The window after a resize to `size`: a size without area changes
    /// nothing, any other becomes the surface's size.
    pub open spec fn resized(self, size: PhysicalSize) -> WindowView {
        if size.is_degenerate() {
            self
        } else {
            WindowView { surface_size: Some(size), ..self }
        }
    }

    /// The window after it was reported occluded or visible.
    pub open spec fn with_occluded(self, occluded: bool) -> WindowView {
        WindowView { occluded, ..self }
    }

    /// The window after a fullscreen toggle: a fullscreen window becomes
    /// windowed, a windowed one enters `target`.
    pub open spec fn toggled(self, target: FullscreenMode) -> WindowView {
        if self.fullscreen is Some {
            WindowView { fullscreen: None, ..self }
        } else {
            WindowView { fullscreen: Some(target), ..self }
        }
    }

    /// The window after it was seen to be in the fullscreen mode `mode`, or
    /// windowed.
    pub open spec fn with_fullscreen(self, mode: Option<FullscreenMode>) -> WindowView {
        WindowView { fullscreen: mode, ..self }
    }

    /// The window after the cursor moved to `position`.
    pub open spec fn with_cursor_at(self, position: CursorPosition) -> WindowView {
        WindowView { cursor_position: Some(position), ..self }
    }

    /// The window after the cursor left it.
    pub open spec fn without_cursor(self) -> WindowView {
        WindowView { cursor_position: None, ..self }
    }

    /// The window after the held modifiers changed to `modifiers`.
    pub open spec fn with_modifiers(self, modifiers: Modifiers) -> WindowView {
        WindowView { modifiers, ..self }
    }

    /// What a draw asks for: nothing while occluded, else the buffer is
    /// acquired, the window is notified, and the buffer is presented.
    pub open spec fn draw_effects(self) -> Seq<Effect> {
        if self.occluded {
            seq![]
        } else {
            seq![Effect::AcquireBuffer, Effect::NotifyPrePresent, Effect::Present]
        }
    }

    /// What a change of occlusion asks for: one redraw when an occluded window
    /// becomes visible, nothing otherwise.
    pub open spec fn occlusion_effects(self, occluded: bool) -> Seq<Effect> {
        if self.occluded && !occluded {
            seq![Effect::RequestRedraw]
        } else {
            seq![]
        }
    }

    /// What a fullscreen toggle asks for: the mode that the window is in
    /// afterwards.
    pub open spec fn toggle_effects(self, target: FullscreenMode) -> Seq<Effect> {
        seq![Effect::SetFullscreen(self.toggled(target).fullscreen)]
    }
}

/// What a resize to `size` asks for: nothing for a size without area, else
/// the surface resized to `size`, then one redraw.
pub open spec fn resize_effects(size: PhysicalSize) -> Seq<Effect> {
    if size.is_degenerate() {
        seq![]
    } else {
        seq![
            Effect::ResizeSurface { width: size.width, height: size.height },
            Effect::RequestRedraw,
        ]
    }
}

/// A resize to a size without area asks for no redraw; any other resize asks
/// for exactly one.
pub proof fn lemma_resize_redraws(size: PhysicalSize)
    ensures
        redraw_requests(resize_effects(size)) == if size.is_degenerate() { 0nat } else { 1nat },
{
    reveal_with_fuel(redraw_requests, 3);
    let effects = resize_effects(size);
    if !size.is_degenerate() {
        assert(effects.drop_last() =~= seq![
            Effect::ResizeSurface { width: size.width, height: size.height },
        ]);
        assert(effects.drop_last().drop_last() =~= Seq::<Effect>::empty());
    }
}

/// A change of occlusion asks for exactly one redraw where an occluded window
/// becomes visible, and for none in every other case.
pub proof fn lemma_occlusion_redraws(window: WindowView, occluded: bool)
    ensures
        redraw_requests(window.occlusion_effects(occluded)) == if window.occluded && !occluded {
            1nat
        } else {
            0nat
        },
{
    reveal_with_fuel(redraw_requests, 2);
    if window.occluded && !occluded {
        assert(window.occlusion_effects(occluded).drop_last() =~= Seq::<Effect>::empty());
    }
}

/// A draw of an occluded window presents nothing; a draw of a visible window
/// acquires the buffer, then notifies the window once, then presents once.
pub proof fn lemma_draw_presents(window: WindowView)
    ensures
        presentations(window.draw_effects()) == if window.occluded { 0nat } else { 1nat },
        notifications(window.draw_effects()) == if window.occluded { 0nat } else { 1nat },
        !window.occluded ==> window.draw_effects() == seq![
            Effect::AcquireBuffer,
            Effect::NotifyPrePresent,
            Effect::Present,
        ],
{
    reveal_with_fuel(presentations, 4);
    reveal_with_fuel(notifications, 4);
    let effects = window.draw_effects();
    if !window.occluded {
        assert(effects.drop_last() =~= seq![Effect::AcquireBuffer, Effect::NotifyPrePresent]);
        assert(effects.drop_last().drop_last() =~= seq![Effect::AcquireBuffer]);
        assert(effects.drop_last().drop_last().drop_last() =~= Seq::<Effect>::empty());
    }
}

/// Where the buffer of a visible window cannot be acquired, the draw has
/// neither notified the window nor presented anything.
pub proof fn lemma_failed_acquisition_stops_the_draw(window: WindowView)
    requires
        !window.occluded,
    ensures
        window.draw_effects()[0] == Effect::AcquireBuffer,
        performed_before(window.draw_effects(), 0) == Seq::<Effect>::empty(),
        notifications(performed_before(window.draw_effects(), 0)) == 0,
        presentations(performed_before(window.draw_effects(), 0)) == 0,
{
    assert(performed_before(window.draw_effects(), 0) =~= Seq::<Effect>::empty());
}

/// A resize without area leaves the whole window as it was; a resize with
/// area sets the surface's size and nothing else.
pub proof fn lemma_resize_geometry(window: WindowView, size: PhysicalSize)
    ensures
        size.is_degenerate() ==> window.resized(size) == window,
        !size.is_degenerate() ==> window.resized(size) == (WindowView {
            surface_size: Some(size),
            ..window
        }),
        window.wf() ==> window.resized(size).wf(),
{
}

/// Toggling fullscreen twice on a windowed window gives the window back as it
/// was: windowed, and all else untouched. The first toggle asks for the target
/// mode, the second for leaving fullscreen.
pub proof fn lemma_toggle_twice_is_identity(
    window: WindowView,
    first: FullscreenMode,
    second: FullscreenMode,
)
    requires
        window.fullscreen is None,
    ensures
        window.toggled(first).fullscreen == Some(first),
        window.toggled(first).toggled(second) == window,
        window.toggle_effects(first) == seq![Effect::SetFullscreen(Some(first))],
        window.toggled(first).toggle_effects(second) == seq![Effect::SetFullscreen(None)],
{
}

/// Occluding a window and then revealing it asks for exactly one redraw, and
/// it is the second call that asks for it.
pub proof fn lemma_occlude_then_reveal(window: WindowView)
    ensures
        window.occlusion_effects(true) == Seq::<Effect>::empty(),
        window.with_occluded(true).occlusion_effects(false) == seq![Effect::RequestRedraw],
        redraw_requests(window.occlusion_effects(true)) == 0,
        redraw_requests(window.with_occluded(true).occlusion_effects(false)) == 1,
        window.with_occluded(true).with_occluded(false) == window.with_occluded(false),
{
    lemma_occlusion_redraws(window, true);
    lemma_occlusion_redraws(window.with_occluded(true), false);
}

/// Revealing a window that is visible already asks for nothing.
pub proof fn lemma_reveal_of_visible_asks_nothing(window: WindowView)
    requires
        !window.occluded,
    ensures
        window.occlusion_effects(false) == Seq::<Effect>::empty(),
        window.with_occluded(false) == window,
{
}

/// The state of one live window.
pub struct WindowState {
    surface_size: Option<PhysicalSize>,
    fullscreen: Option<FullscreenMode>,
    cursor_position: Option<CursorPosition>,
    modifiers: Modifiers,
    occluded: bool,
}

impl View for WindowState {
    type V = WindowView;

    closed spec fn view(&self) -> WindowView {
        WindowView {
            surface_size: self.surface_size,
            fullscreen: self.fullscreen,
            cursor_position: self.cursor_position,
            modifiers: self.modifiers,
            occluded: self.occluded,
        }
    }
}

impl WindowState {
    #[verifier::type_invariant]
    spec fn surface_has_area(self) -> bool {
        self@.wf()
    }

    /// The state of a window that was just created with the inner size
    /// `size`, and what sizing its surface asks for.
    pub fn new(size: PhysicalSize) -> (created: (WindowState, Vec<Effect>))
        ensures
            created.0@ == WindowView::initial().resized(size),
            created.1@ == resize_effects(size),
    {
        let mut state = WindowState {
            surface_size: None,
            fullscreen: None,
            cursor_position: None,
            modifiers: Modifiers::empty(),
            occluded: false,
        };
        let effects = state.resize(size);
        (state, effects)
    }

    /// The size of the surface, if it has been sized; its dimensions are
    /// positive.
    pub fn surface_size(&self) -> (size: Option<PhysicalSize>)
        ensures
            size == self@.surface_size,
            self@.wf(),
    {
        proof {
            use_type_invariant(self);
        }
        self.surface_size
    }

    /// The fullscreen mode the window is in, if any.
    pub fn fullscreen(&self) -> (mode: Option<FullscreenMode>)
        ensures
            mode == self@.fullscreen,
    {
        self.fullscreen
    }

    /// Where the cursor is, if it is inside the window.
    pub fn cursor_position(&self) -> (position: Option<CursorPosition>)
        ensures
            position == self@.cursor_position,
    {
        self.cursor_position
    }

    /// The modifiers that are held.
    pub fn modifiers(&self) -> (modifiers: Modifiers)
        ensures
            modifiers == self@.modifiers,
    {
        self.modifiers
    }

    /// Whether the window is occluded.
    pub fn is_occluded(&self) -> (occluded: bool)
        ensures
            occluded == self@.occluded,
    {
        self.occluded
    }

    /// Tracks the cursor at `position`.
    pub fn cursor_moved(&mut self, position: CursorPosition)
        ensures
            final(self)@ == old(self)@.with_cursor_at(position),
    {
        proof {
            use_type_invariant(&*self);
        }
        self.cursor_position = Some(position);
    }

    /// Forgets the cursor, which has left the window.
    pub fn cursor_left(&mut self)
        ensures
            final(self)@ == old(self)@.without_cursor(),
    {
        proof {
            use_type_invariant(&*self);
        }
        self.cursor_position = None;
    }

    /// Replaces the tracked modifiers by `modifiers`.
    pub fn modifiers_changed(&mut self, modifiers: Modifiers)
        ensures
            final(self)@ == old(self)@.with_modifiers(modifiers),
    {
        proof {
            use_type_invariant(&*self);
        }
        self.modifiers = modifiers;
    }

    /// Records the fullscreen mode that the window is seen to be in.
    pub fn fullscreen_observed(&mut self, mode: Option<FullscreenMode>)
        ensures
            final(self)@ == old(self)@.with_fullscreen(mode),
    {
        proof {
            use_type_invariant(&*self);
        }
        self.fullscreen = mode;
    }

    /// Leaves fullscreen if the window is in it, else enters `target`; asks
    /// the window for the new mode.
    pub fn toggle_fullscreen(&mut self, target: FullscreenMode) -> (effects: Vec<Effect>)
        ensures
            final(self)@ == old(self)@.toggled(target),
            effects@ == old(self)@.toggle_effects(target),
    {
        proof {
            use_type_invariant(&*self);
        }
        let next = match self.fullscreen {
            Some(_) => None,
            None => Some(target),
        };
        self.fullscreen = next;
        let mut effects: Vec<Effect> = Vec::new();
        effects.push(Effect::SetFullscreen(next));
        assert(effects@ =~= old(self)@.toggle_effects(target));
        effects
    }

    /// Applies a resize of the window to `size`. A size with a zero dimension
    /// is ignored; any other is given to the surface and a redraw is asked for.
    pub fn resize(&mut self, size: PhysicalSize) -> (effects: Vec<Effect>)
        ensures
            final(self)@ == old(self)@.resized(size),
            effects@ == resize_effects(size),
            redraw_requests(effects@) == if size.is_degenerate() { 0nat } else { 1nat },
    {
        proof {
            lemma_resize_redraws(size);
        }
        let mut effects: Vec<Effect> = Vec::new();
        if size.width == 0 || size.height == 0 {
            assert(effects@ =~= resize_effects(size));
            return effects;
        }
        proof {
            use_type_invariant(&*self);
        }
        self.surface_size = Some(size);
        effects.push(Effect::ResizeSurface { width: size.width, height: size.height });
        effects.push(Effect::RequestRedraw);
        assert(effects@ =~= resize_effects(size));
        effects
    }

    /// Records whether the window is occluded; a window that was occluded
    /// and is reported visible is asked to redraw.
    pub fn set_occluded(&mut self, occluded: bool) -> (effects: Vec<Effect>)
        ensures
            final(self)@ == old(self)@.with_occluded(occluded),
            effects@ == old(self)@.occlusion_effects(occluded),
            redraw_requests(effects@) == if old(self)@.occluded && !occluded {
                1nat
            } else {
                0nat
            },
    {
        proof {
            lemma_occlusion_redraws(self@, occluded);
            use_type_invariant(&*self);
        }
        let was_occluded = self.occluded;
        self.occluded = occluded;
        let mut effects: Vec<Effect> = Vec::new();
        if was_occluded && !occluded {
            effects.push(Effect::RequestRedraw);
        }
        assert(effects@ =~= old(self)@.occlusion_effects(occluded));
        effects
    }

    /// Draws the window: nothing while it is occluded, else the buffer is
    /// acquired, the window is notified and the buffer presented. The state
    /// is left as it is, whether or not the steps succeed.
    pub fn draw(&mut self) -> (effects: Vec<Effect>)
        ensures
            final(self)@ == old(self)@,
            effects@ == old(self)@.draw_effects(),
            presentations(effects@) == if old(self)@.occluded { 0nat } else { 1nat },
            notifications(effects@) == if old(self)@.occluded { 0nat } else { 1nat },
    {
        proof {
            lemma_draw_presents(self@);
        }
        let mut effects: Vec<Effect> = Vec::new();
        if self.occluded {
            assert(effects@ =~= self@.draw_effects());
            return effects;
        }
        effects.push(Effect::AcquireBuffer);
        effects.push(Effect::NotifyPrePresent);
        effects.push(Effect::Present);
        assert(effects@ =~= self@.draw_effects());
        effects
    }
}

} // verus!
