//! The controller: it owns the state of every live window, resolves keys to
//! actions and carries the actions out.

use crate::actions::Action;
use crate::bindings::{declared_rules, key_bindings, resolve, resolve_in};
use crate::display::{FullscreenMode, PhysicalSize};
use crate::effects::Effect;
use crate::modifiers::Modifiers;
use crate::utils::{IconImage, IconView};
use crate::window_state::{resize_effects, WindowState, WindowView};
use std::collections::HashMap;
use vstd::prelude::*;
use vstd::string::StringExecFns;

verus! {

broadcast use vstd::std_specs::hash::group_hash_axioms;

/// What the controller holds.
pub struct ApplicationView {
    /// The icon that every new window gets.
    pub icon: IconView,
    /// The live windows, by their identifier.
    pub windows: Map<u64, WindowView>,
    /// Whether the shared presentation context is still held.
    pub has_context: bool,
}

impl ApplicationView {
    /// The controller with `window` registered under `id`.
    pub open spec fn with_window(self, id: u64, window: WindowView) -> ApplicationView {
        ApplicationView { windows: self.windows.insert(id, window), ..self }
    }

    /// The controller without the window `id`.
    pub open spec fn without_window(self, id: u64) -> ApplicationView {
        ApplicationView { windows: self.windows.remove(id), ..self }
    }

    /// The controller, and what is asked of the window, after `action` was
    /// carried out on the live window `id`: closing removes the window and
    /// releases it, toggling fullscreen changes that window alone.
    pub open spec fn handle_action(self, id: u64, action: Action, target: FullscreenMode) -> (
        ApplicationView,
        Seq<Effect>,
    ) {
        match action {
            Action::CloseWindow => (self.without_window(id), seq![Effect::ReleaseWindow]),
            Action::ToggleFullscreen => (
                self.with_window(id, self.windows[id].toggled(target)),
                self.windows[id].toggle_effects(target),
            ),
        }
    }
}

/// The fixed attributes of every window that the controller asks for.
pub struct WindowAttributes {
    pub title: String,
    pub transparent: bool,
    pub cursor_visible: bool,
    pub icon: IconImage,
}

/// The process-wide controller.
pub struct Application {
    icon: IconImage,
    windows: HashMap<u64, WindowState>,
    context_live: bool,
}

impl View for Application {
    type V = ApplicationView;

    closed spec fn view(&self) -> ApplicationView {
        ApplicationView {
            icon: self.icon@,
            windows: self.windows@.map_values(|window: WindowState| window@),
            has_context: self.context_live,
        }
    }
}

impl Application {
    /// A controller with no window yet, holding `icon` and the presentation
    /// context.
    pub fn new(icon: IconImage) -> (app: Application)
        ensures
            app@ == (ApplicationView { icon: icon@, windows: Map::empty(), has_context: true }),
    {
        let app = Application { icon, windows: HashMap::new(), context_live: true };
        assert(app@.windows =~= Map::empty());
        app
    }

    /// What to ask of the windowing system for a new window: the fixed title,
    /// transparency, a hidden cursor and a copy of the icon.
    pub fn window_attributes(&self) -> (attributes: WindowAttributes)
        ensures
            attributes.title@ == "VRR Test"@,
            attributes.transparent,
            !attributes.cursor_visible,
            attributes.icon@ == self@.icon,
    {
        WindowAttributes {
            title: String::from_str("VRR Test"),
            transparent: true,
            cursor_visible: false,
            icon: self.icon.duplicate(),
        }
    }

    /// Registers the window that the windowing system created under
    /// `window_id` with the inner size `inner_size`, replacing any state held
    /// under that identifier, and sizes its surface.
    pub fn create_window(&mut self, window_id: u64, inner_size: PhysicalSize) -> (effects: Vec<
        Effect,
    >)
        requires
            old(self)@.has_context,
        ensures
            final(self)@ == old(self)@.with_window(
                window_id,
                WindowView::initial().resized(inner_size),
            ),
            effects@ == resize_effects(inner_size),
    {
        let (window, effects) = WindowState::new(inner_size);
        self.put_window(window_id, window);
        effects
    }

    /// Carries out `action` on the live window `window_id`.
    pub fn handle_action(
        &mut self,
        window_id: u64,
        action: Action,
        fullscreen_target: FullscreenMode,
    ) -> (effects: Vec<Effect>)
        requires
            old(self)@.windows.contains_key(window_id),
        ensures
            (final(self)@, effects@) == old(self)@.handle_action(
                window_id,
                action,
                fullscreen_target,
            ),
    {
        match action {
            Action::CloseWindow => {
                let _ = self.take_window(window_id);
                let mut effects: Vec<Effect> = Vec::new();
                effects.push(Effect::ReleaseWindow);
                assert(effects@ =~= seq![Effect::ReleaseWindow]);
                effects
            },
            Action::ToggleFullscreen => {
                let mut window = self.take_window(window_id);
                let effects = window.toggle_fullscreen(fullscreen_target);
                self.put_window(window_id, window);
                assert(final(self)@.windows =~= old(self)@.windows.insert(
                    window_id,
                    old(self)@.windows[window_id].toggled(fullscreen_target),
                ));
                effects
            },
        }
    }

    /// The action that the declared bindings give to the normalized key `key`
    /// under `mods`: that of the first binding whose trigger is `key` and
    /// whose modifiers are exactly `mods`.
    pub fn process_key_binding(key: &str, mods: &Modifiers) -> (action: Option<Action>)
        ensures
            action == resolve(declared_rules(), key@, *mods),
    {
        let table = key_bindings();
        let key = String::from_str(key);
        resolve_in(&table, &key, mods)
    }

    /// Whether a window is registered under `window_id`.
    pub fn contains_window(&self, window_id: u64) -> (live: bool)
        ensures
            live == self@.windows.contains_key(window_id),
    {
        self.windows.contains_key(&window_id)
    }

    /// The state of the window `window_id`, if it is live.
    pub fn window(&self, window_id: u64) -> (window: Option<&WindowState>)
        ensures
            window is Some <==> self@.windows.contains_key(window_id),
            window matches Some(w) ==> w@ == self@.windows[window_id],
    {
        self.windows.get(&window_id)
    }

    /// How many windows are live. The registry is finite.
    pub fn window_count(&self) -> (count: usize)
        ensures
            count == self@.windows.len(),
            self@.windows.dom().finite(),
    {
        assert(self@.windows.dom() =~= self.windows@.dom());
        self.windows.len()
    }

    /// Whether the shared presentation context is still held.
    pub fn has_context(&self) -> (held: bool)
        ensures
            held == self@.has_context,
    {
        self.context_live
    }

    /// The icon that every new window gets.
    pub fn icon(&self) -> (icon: &IconImage)
        ensures
            icon@ == self@.icon,
    {
        &self.icon
    }

    /// Takes the state of the live window `window_id` out of the registry.
    pub(crate) fn take_window(&mut self, window_id: u64) -> (window: WindowState)
        requires
            old(self)@.windows.contains_key(window_id),
        ensures
            window@ == old(self)@.windows[window_id],
            final(self)@ == old(self)@.without_window(window_id),
    {
        let taken = self.windows.remove(&window_id);
        assert(final(self)@.windows =~= old(self)@.windows.remove(window_id));
        match taken {
            Some(window) => window,
            None => unreached(),
        }
    }

    /// Puts `window` into the registry under `window_id`.
    pub(crate) fn put_window(&mut self, window_id: u64, window: WindowState)
        ensures
            final(self)@ == old(self)@.with_window(window_id, window@),
    {
        let _ = self.windows.insert(window_id, window);
        assert(final(self)@.windows =~= old(self)@.windows.insert(window_id, window@));
    }

    /// Whether no window is live.
    pub(crate) fn has_no_window(&self) -> (none: bool)
        ensures
            none == (self@.windows == Map::<u64, WindowView>::empty()),
    {
        let none = self.windows.is_empty();
        proof {
            if none {
                assert(self@.windows =~= Map::empty());
            } else {
                assert(self@.windows.dom() =~= self.windows@.dom());
            }
        }
        none
    }

    /// Gives up the shared presentation context.
    pub(crate) fn drop_context(&mut self)
        ensures
            final(self)@ == (ApplicationView { has_context: false, ..old(self)@ }),
    {
        self.context_live = false;
    }
}

/// The registry of a controller holds finitely many windows.
pub proof fn lemma_registry_is_finite(app: Application)
    ensures
        app@.windows.dom().finite(),
{
    assert(app@.windows.dom() =~= app.windows@.dom());
}

} // verus!
