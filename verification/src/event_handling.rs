//! Routing of the windowing system's events to the controller and to the
//! windows' state machines.

use crate::actions::Action;
use crate::app::{Application, ApplicationView};
use crate::bindings::{declared_rules, lemma_declared_bindings_resolve, resolve};
use crate::display::FullscreenMode;
use crate::effects::Effect;
use crate::events::{Key, WindowEvent};
use crate::modifiers::{control_bit, Modifiers};
use crate::window_state::{resize_effects, WindowView};
use vstd::prelude::*;
use vstd::utf8::is_ascii_chars;

verus! {

/// What `str::to_uppercase` makes of `text`.
pub uninterp spec fn uppercased(text: Seq<char>) -> Seq<char>;

/// The upper-case form of an ASCII character: a letter from `a` to `z`
/// becomes the letter from `A` to `Z`, any other character is kept.
pub open spec fn ascii_uppercase(c: char) -> char {
    if 'a' <= c && c <= 'z' {
        ((c as u32 - 32) as u32) as char
    } else {
        c
    }
}

/// The normalized form of a key's text, in which bindings are declared: its
/// upper-case form. For ASCII text that is each letter from `a` to `z`
/// replaced by its capital; for any other text it is what `str::to_uppercase`
/// makes of it.
pub open spec fn normalized(text: Seq<char>) -> Seq<char> {
    if is_ascii_chars(text) {
        text.map_values(|c: char| ascii_uppercase(c))
    } else {
        uppercased(text)
    }
}

/// Calls `str::to_uppercase`. std documents the result as the uppercase
/// equivalent of the text by Unicode's rules, which depends on the text
/// alone; the contract gives that result its name. Of ASCII text it states
/// what Unicode's rules come to there: the letters from `a` to `z` become
/// capitals and every other character is kept. None of this was proved.
#[verifier::external_body]
fn to_uppercase(text: &str) -> (upper: String)
    ensures
        upper@ == uppercased(text@),
        is_ascii_chars(text@) ==> upper@ == text@.map_values(|c: char| ascii_uppercase(c)),
{
    text.to_uppercase()
}

/// One step of what the controller does when the windowing system reports
/// that it is ready.
#[derive(Debug, Clone, Copy, PartialEq, Eq)]
pub enum StartupStep {
    /// Report the monitors and their video modes.
    DumpMonitors,
    /// Create the initial window.
    CreateWindow,
    /// Print the table of key bindings.
    PrintHelp,
}

/// The action that a key gives under `mods`: the text of a key that produces
/// text is normalized and resolved against the declared bindings; any other
/// key gives none.
pub open spec fn key_action(key: Key, mods: Modifiers) -> Option<Action> {
    match key {
        Key::Character(text) => resolve(declared_rules(), normalized(text@), mods),
        Key::Other => None,
    }
}

impl ApplicationView {
    /// Whether the event loop is to end: no window is left.
    pub open spec fn should_exit(self) -> bool {
        self.windows == Map::<u64, WindowView>::empty()
    }

    /// The action that `event` invokes on the window `id`: that of the key,
    /// under the window's modifiers, where the event is a press of a key that
    /// is not synthetic and the window is live; none for anything else.
    pub open spec fn pending_action(self, id: u64, event: WindowEvent) -> Option<Action> {
        match event {
            WindowEvent::KeyboardInput { logical_key, pressed, is_synthetic } => {
                if self.windows.contains_key(id) && pressed && !is_synthetic {
                    key_action(logical_key, self.windows[id].modifiers)
                } else {
                    None
                }
            },
            _ => None,
        }
    }

    /// Whether the outcome of `event` on the window `id` depends on the
    /// fullscreen mode to enter: it does where the event invokes the
    /// fullscreen toggle on a window that is recorded as windowed.
    pub open spec fn needs_fullscreen_target(self, id: u64, event: WindowEvent) -> bool {
        self.pending_action(id, event) == Some(Action::ToggleFullscreen)
            && self.windows[id].fullscreen is None
    }

    /// The controller after the window `id` was seen to be in the fullscreen
    /// mode `mode`, or windowed: the record of a live window is set to what
    /// was seen, and nothing else changes.
    pub open spec fn fullscreen_observed(self, id: u64, mode: Option<FullscreenMode>) -> ApplicationView {
        if self.windows.contains_key(id) {
            self.with_window(id, self.windows[id].with_fullscreen(mode))
        } else {
            self
        }
    }

    /// The controller, and what is asked of the window `id`, after `event`
    /// was delivered for it. An event for a window that is not live changes
    /// nothing and asks for nothing.
    pub open spec fn window_event(self, id: u64, event: WindowEvent, target: FullscreenMode) -> (
        ApplicationView,
        Seq<Effect>,
    ) {
        if !self.windows.contains_key(id) {
            (self, seq![])
        } else {
            let window = self.windows[id];
            match event {
                WindowEvent::Resized(size) => (
                    self.with_window(id, window.resized(size)),
                    resize_effects(size),
                ),
                WindowEvent::RedrawRequested => (self, window.draw_effects()),
                WindowEvent::Occluded(occluded) => (
                    self.with_window(id, window.with_occluded(occluded)),
                    window.occlusion_effects(occluded),
                ),
                WindowEvent::CloseRequested => (
                    self.without_window(id),
                    seq![Effect::ReleaseWindow],
                ),
                WindowEvent::ModifiersChanged(modifiers) => (
                    self.with_window(id, window.with_modifiers(modifiers)),
                    seq![],
                ),
                WindowEvent::KeyboardInput { .. } => match self.pending_action(id, event) {
                    Some(action) => self.handle_action(id, action, target),
                    None => (self, seq![]),
                },
                WindowEvent::CursorLeft => (self.with_window(id, window.without_cursor()), seq![]),
                WindowEvent::CursorMoved(position) => (
                    self.with_window(id, window.with_cursor_at(position)),
                    seq![],
                ),
                WindowEvent::Other => (self, seq![]),
            }
        }
    }
}

impl Application {
    /// What to do when the windowing system is ready: report the monitors,
    /// create one window, print the key bindings, in this order.
    pub fn resumed(&self) -> (steps: Vec<StartupStep>)
        ensures
            steps@ == seq![
                StartupStep::DumpMonitors,
                StartupStep::CreateWindow,
                StartupStep::PrintHelp,
            ],
    {
        let mut steps: Vec<StartupStep> = Vec::new();
        steps.push(StartupStep::DumpMonitors);
        steps.push(StartupStep::CreateWindow);
        steps.push(StartupStep::PrintHelp);
        assert(steps@ =~= seq![
            StartupStep::DumpMonitors,
            StartupStep::CreateWindow,
            StartupStep::PrintHelp,
        ]);
        steps
    }

    /// The action that a pressed key invokes under `mods`.
    pub fn key_action(key: &Key, mods: &Modifiers) -> (action: Option<Action>)
        ensures
            action == key_action(*key, *mods),
    {
        match key {
            Key::Character(text) => {
                let upper = to_uppercase(text.as_str());
                assert(upper@ == normalized(text@));
                Application::process_key_binding(upper.as_str(), mods)
            },
            Key::Other => None,
        }
    }

    /// The action that `event` will invoke on the window `window_id`, if any.
    /// Only an event that invokes the fullscreen toggle makes use of the
    /// fullscreen target that is handed over with it.
    pub fn pending_action(&self, window_id: u64, event: &WindowEvent) -> (action: Option<Action>)
        ensures
            action == self@.pending_action(window_id, *event),
    {
        match event {
            WindowEvent::KeyboardInput { logical_key, pressed, is_synthetic } => {
                if !*pressed || *is_synthetic {
                    return None;
                }
                match self.window(window_id) {
                    Some(window) => {
                        let mods = window.modifiers();
                        Application::key_action(logical_key, &mods)
                    },
                    None => None,
                }
            },
            _ => None,
        }
    }

    /// Whether the fullscreen mode that is handed over with `event` will be
    /// used: only then does the caller have to find out what the display
    /// offers.
    pub fn needs_fullscreen_target(&self, window_id: u64, event: &WindowEvent) -> (needed: bool)
        ensures
            needed == self@.needs_fullscreen_target(window_id, *event),
    {
        match self.pending_action(window_id, event) {
            Some(Action::ToggleFullscreen) => match self.window(window_id) {
                Some(window) => window.fullscreen().is_none(),
                None => false,
            },
            _ => false,
        }
    }

    /// Records the fullscreen mode that the window `window_id` is seen to be
    /// in, so that the next toggle starts from what the window really shows.
    /// Nothing happens for a window that is not live.
    pub fn fullscreen_observed(&mut self, window_id: u64, mode: Option<FullscreenMode>)
        ensures
            final(self)@ == old(self)@.fullscreen_observed(window_id, mode),
    {
        if self.contains_window(window_id) {
            let mut window = self.take_window(window_id);
            window.fullscreen_observed(mode);
            self.put_window(window_id, window);
            assert(final(self)@.windows =~= old(self)@.windows.insert(
                window_id,
                old(self)@.windows[window_id].with_fullscreen(mode),
            ));
        }
    }

    /// Handles `event` for the window `window_id` and returns what to ask of
    /// that window, in order. `fullscreen_target` is the mode to enter should
    /// the event toggle a windowed window to fullscreen.
    pub fn window_event(
        &mut self,
        window_id: u64,
        event: WindowEvent,
        fullscreen_target: FullscreenMode,
    ) -> (effects: Vec<Effect>)
        ensures
            (final(self)@, effects@) == old(self)@.window_event(
                window_id,
                event,
                fullscreen_target,
            ),
    {
        if !self.contains_window(window_id) {
            return Vec::new();
        }
        match event {
            WindowEvent::CloseRequested => {
                let _ = self.take_window(window_id);
                let mut effects: Vec<Effect> = Vec::new();
                effects.push(Effect::ReleaseWindow);
                assert(effects@ =~= seq![Effect::ReleaseWindow]);
                effects
            },
            WindowEvent::KeyboardInput { .. } => match self.pending_action(window_id, &event) {
                Some(action) => self.handle_action(window_id, action, fullscreen_target),
                None => Vec::new(),
            },
            WindowEvent::Other => Vec::new(),
            WindowEvent::RedrawRequested => {
                let mut window = self.take_window(window_id);
                let effects = window.draw();
                self.put_window(window_id, window);
                assert(final(self)@.windows =~= old(self)@.windows);
                effects
            },
            WindowEvent::Resized(size) => {
                let mut window = self.take_window(window_id);
                let effects = window.resize(size);
                self.put_window(window_id, window);
                assert(final(self)@.windows =~= old(self)@.windows.insert(
                    window_id,
                    old(self)@.windows[window_id].resized(size),
                ));
                effects
            },
            WindowEvent::Occluded(occluded) => {
                let mut window = self.take_window(window_id);
                let effects = window.set_occluded(occluded);
                self.put_window(window_id, window);
                assert(final(self)@.windows =~= old(self)@.windows.insert(
                    window_id,
                    old(self)@.windows[window_id].with_occluded(occluded),
                ));
                effects
            },
            WindowEvent::ModifiersChanged(modifiers) => {
                let mut window = self.take_window(window_id);
                window.modifiers_changed(modifiers);
                self.put_window(window_id, window);
                assert(final(self)@.windows =~= old(self)@.windows.insert(
                    window_id,
                    old(self)@.windows[window_id].with_modifiers(modifiers),
                ));
                Vec::new()
            },
            WindowEvent::CursorLeft => {
                let mut window = self.take_window(window_id);
                window.cursor_left();
                self.put_window(window_id, window);
                assert(final(self)@.windows =~= old(self)@.windows.insert(
                    window_id,
                    old(self)@.windows[window_id].without_cursor(),
                ));
                Vec::new()
            },
            WindowEvent::CursorMoved(position) => {
                let mut window = self.take_window(window_id);
                window.cursor_moved(position);
                self.put_window(window_id, window);
                assert(final(self)@.windows =~= old(self)@.windows.insert(
                    window_id,
                    old(self)@.windows[window_id].with_cursor_at(position),
                ));
                Vec::new()
            },
        }
    }

    /// Whether the event loop is to end, as asked when it is about to wait:
    /// it is once no window is left.
    pub fn about_to_wait(&self) -> (exit: bool)
        ensures
            exit == self@.should_exit(),
    {
        self.has_no_window()
    }

    /// Releases the shared presentation context, as the event loop ends.
    pub fn exiting(&mut self)
        ensures
            final(self)@ == (ApplicationView { has_context: false, ..old(self)@ }),
    {
        self.drop_context();
    }
}

/// Key resolution ignores case: two keys whose texts have the same
/// normalized form invoke the same action under the same modifiers.
pub proof fn lemma_key_action_ignores_case(first: Key, second: Key, mods: Modifiers)
    requires
        first matches Key::Character(a) && second matches Key::Character(b) && normalized(a@)
            == normalized(b@),
    ensures
        key_action(first, mods) == key_action(second, mods),
{
}

/// A key that produces one letter from `a` to `z` invokes, under any
/// modifiers, what the key with the capital of that letter invokes.
pub proof fn lemma_letter_case_is_ignored(lower: String, upper: String, letter: char, mods: Modifiers)
    requires
        'a' <= letter && letter <= 'z',
        lower@ == seq![letter],
        upper@ == seq![ascii_uppercase(letter)],
    ensures
        normalized(lower@) == upper@,
        normalized(upper@) == upper@,
        key_action(Key::Character(lower), mods) == key_action(Key::Character(upper), mods),
{
    let capital = ascii_uppercase(letter);
    assert('A' <= capital && capital <= 'Z');
    assert(ascii_uppercase(capital) == capital);
    assert(is_ascii_chars(lower@));
    assert(is_ascii_chars(upper@));
    assert(lower@.map_values(|c: char| ascii_uppercase(c)) =~= upper@);
    assert(upper@.map_values(|c: char| ascii_uppercase(c)) =~= upper@);
}

/// Under exactly the control key, `q` and `Q` both invoke the closing of the
/// window, and `f` and `F` both invoke the fullscreen toggle.
pub proof fn lemma_declared_keys_in_either_case(text: String)
    ensures
        text@ == "q"@ || text@ == "Q"@ ==> key_action(
            Key::Character(text),
            Modifiers { bits: control_bit() },
        ) == Some(Action::CloseWindow),
        text@ == "f"@ || text@ == "F"@ ==> key_action(
            Key::Character(text),
            Modifiers { bits: control_bit() },
        ) == Some(Action::ToggleFullscreen),
{
    reveal_strlit("q");
    reveal_strlit("Q");
    reveal_strlit("f");
    reveal_strlit("F");
    let ctrl = Modifiers { bits: control_bit() };
    lemma_declared_bindings_resolve(text@, ctrl);
    assert(declared_rules()[0].trigger == "Q"@);
    assert(declared_rules()[1].trigger == "F"@);
    assert(ascii_uppercase('q') == 'Q' && ascii_uppercase('Q') == 'Q');
    assert(ascii_uppercase('f') == 'F' && ascii_uppercase('F') == 'F');
    if text@ == "q"@ || text@ == "Q"@ {
        assert(is_ascii_chars(text@));
        assert(text@.map_values(|c: char| ascii_uppercase(c)) =~= "Q"@);
    }
    if text@ == "f"@ || text@ == "F"@ {
        assert(is_ascii_chars(text@));
        assert(text@.map_values(|c: char| ascii_uppercase(c)) =~= "F"@);
    }
}

/// Closing a live window, on request or by the close action, leaves the event
/// loop to end at the next idle check exactly when it was the only window.
pub proof fn lemma_close_ends_loop_iff_last(
    app: ApplicationView,
    id: u64,
    target: FullscreenMode,
)
    requires
        app.windows.contains_key(id),
    ensures
        app.window_event(id, WindowEvent::CloseRequested, target).0 == app.without_window(id),
        app.handle_action(id, Action::CloseWindow, target).0 == app.without_window(id),
        app.without_window(id).should_exit() <==> forall|other: u64|
            app.windows.contains_key(other) ==> other == id,
        !app.should_exit(),
{
    let closed = app.without_window(id);
    if forall|other: u64| app.windows.contains_key(other) ==> other == id {
        assert(closed.windows =~= Map::<u64, WindowView>::empty());
    }
    if closed.should_exit() {
        assert forall|other: u64| app.windows.contains_key(other) implies other == id by {
            if other != id {
                assert(closed.windows.contains_key(other));
            }
        }
    }
}

/// An event for one window leaves every other window as it was, live or not,
/// and leaves the icon and the presentation context alone.
pub proof fn lemma_event_touches_one_window(
    app: ApplicationView,
    id: u64,
    event: WindowEvent,
    target: FullscreenMode,
    other: u64,
)
    requires
        other != id,
    ensures
        ({
            let next = app.window_event(id, event, target).0;
            &&& next.windows.contains_key(other) == app.windows.contains_key(other)
            &&& app.windows.contains_key(other) ==> next.windows[other] == app.windows[other]
            &&& next.icon == app.icon
            &&& next.has_context == app.has_context
        }),
{
}

/// The fullscreen mode that comes with an event matters only where the event
/// toggles a windowed window to fullscreen: any other event has the same
/// outcome whatever mode comes with it.
pub proof fn lemma_target_matters_only_on_entering(
    app: ApplicationView,
    id: u64,
    event: WindowEvent,
    first: FullscreenMode,
    second: FullscreenMode,
)
    requires
        !app.needs_fullscreen_target(id, event),
    ensures
        app.window_event(id, event, first) == app.window_event(id, event, second),
{
}

/// A press of `q` or `Q`, with exactly the control key held, on a live window:
/// that window is removed and released, and no other window changes.
pub proof fn lemma_ctrl_q_closes_only_its_window(
    app: ApplicationView,
    id: u64,
    text: String,
    target: FullscreenMode,
    other: u64,
)
    requires
        app.windows.contains_key(id),
        app.windows[id].modifiers == (Modifiers { bits: control_bit() }),
        text@ == "q"@ || text@ == "Q"@,
        other != id,
    ensures
        ({
            let event = WindowEvent::KeyboardInput {
                logical_key: Key::Character(text),
                pressed: true,
                is_synthetic: false,
            };
            let (next, effects) = app.window_event(id, event, target);
            &&& next == app.without_window(id)
            &&& effects == seq![Effect::ReleaseWindow]
            &&& !next.windows.contains_key(id)
            &&& next.windows.contains_key(other) == app.windows.contains_key(other)
            &&& app.windows.contains_key(other) ==> next.windows[other] == app.windows[other]
        }),
{
    lemma_declared_keys_in_either_case(text);
}

} // verus!
