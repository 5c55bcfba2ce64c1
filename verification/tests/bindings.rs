use vrr_window::actions::Action;
use vrr_window::app::Application;
use vrr_window::bindings::{key_bindings, resolve_in, Binding};
use vrr_window::event_handling::StartupStep;
use vrr_window::events::Key;
use vrr_window::modifiers::Modifiers;
use vrr_window::utils::modifiers_to_string;
use winit::keyboard::ModifiersState;

fn mods_of(state: ModifiersState) -> Modifiers {
    Modifiers::from_bits(state.bits())
}

#[test]
fn action_help_texts() {
    assert_eq!(Action::CloseWindow.help(), "Close window");
    assert_eq!(Action::ToggleFullscreen.help(), "Toggle fullscreen");
}

#[test]
fn action_names_are_the_variant_names() {
    assert_eq!(Action::CloseWindow.name(), "CloseWindow");
    assert_eq!(Action::ToggleFullscreen.name(), "ToggleFullscreen");
    assert_eq!(Action::CloseWindow.name(), format!("{:?}", Action::CloseWindow));
}

#[test]
fn control_is_the_control_flag_of_the_windowing_system() {
    assert_eq!(Modifiers::control().bits(), ModifiersState::CONTROL.bits());
    assert_eq!(Modifiers::control().bits(), 0x20);
    assert_eq!(Modifiers::control(), mods_of(ModifiersState::CONTROL));
    assert_eq!(Modifiers::empty(), mods_of(ModifiersState::empty()));
}

#[test]
fn contains_is_a_subset_test() {
    let ctrl = Modifiers::control();
    let shift = mods_of(ModifiersState::SHIFT);
    let ctrl_shift = mods_of(ModifiersState::CONTROL | ModifiersState::SHIFT);
    assert!(ctrl.contains(ctrl));
    assert!(ctrl_shift.contains(ctrl));
    assert!(ctrl_shift.contains(shift));
    assert!(!shift.contains(ctrl));
    assert!(!ctrl.contains(ctrl_shift));
    assert!(!Modifiers::empty().contains(ctrl));
    assert!(ctrl.contains(Modifiers::empty()));
}

#[test]
fn declared_table_is_ctrl_q_then_ctrl_f() {
    let table = key_bindings();
    assert_eq!(table.len(), 2);
    assert_eq!(table[0].trigger, "Q");
    assert_eq!(table[0].mods, Modifiers::control());
    assert_eq!(table[0].action, Action::CloseWindow);
    assert_eq!(table[1].trigger, "F");
    assert_eq!(table[1].mods, Modifiers::control());
    assert_eq!(table[1].action, Action::ToggleFullscreen);
}

#[test]
fn every_declared_binding_resolves_to_its_action() {
    for binding in key_bindings() {
        assert_eq!(
            Application::process_key_binding(&binding.trigger, &binding.mods),
            Some(binding.action)
        );
    }
}

#[test]
fn undeclared_pairs_resolve_to_nothing() {
    let ctrl = Modifiers::control();
    assert_eq!(Application::process_key_binding("W", &ctrl), None);
    assert_eq!(Application::process_key_binding("", &ctrl), None);
    assert_eq!(Application::process_key_binding("QQ", &ctrl), None);
    assert_eq!(Application::process_key_binding("Q", &Modifiers::empty()), None);
    assert_eq!(Application::process_key_binding("F", &mods_of(ModifiersState::ALT)), None);
}

#[test]
fn modifiers_must_match_exactly() {
    let ctrl_shift = mods_of(ModifiersState::CONTROL | ModifiersState::SHIFT);
    assert_eq!(Application::process_key_binding("Q", &ctrl_shift), None);
    assert_eq!(Application::process_key_binding("F", &ctrl_shift), None);
    let all = mods_of(ModifiersState::all());
    assert_eq!(Application::process_key_binding("Q", &all), None);
}

#[test]
fn resolution_takes_a_normalized_key() {
    let ctrl = Modifiers::control();
    assert_eq!(Application::process_key_binding("Q", &ctrl), Some(Action::CloseWindow));
    assert_eq!(Application::process_key_binding("q", &ctrl), None);
}

#[test]
fn key_action_ignores_case() {
    let ctrl = Modifiers::control();
    let lower = Application::key_action(&Key::Character("q".to_string()), &ctrl);
    let upper = Application::key_action(&Key::Character("Q".to_string()), &ctrl);
    assert_eq!(lower, Some(Action::CloseWindow));
    assert_eq!(lower, upper);
    let lower = Application::key_action(&Key::Character("f".to_string()), &ctrl);
    let upper = Application::key_action(&Key::Character("F".to_string()), &ctrl);
    assert_eq!(lower, Some(Action::ToggleFullscreen));
    assert_eq!(lower, upper);
}

#[test]
fn keys_without_text_invoke_nothing() {
    assert_eq!(Application::key_action(&Key::Other, &Modifiers::control()), None);
    assert_eq!(Application::key_action(&Key::Character("x".to_string()), &Modifiers::control()), None);
}

#[test]
fn first_match_wins_in_a_table_with_duplicates() {
    let ctrl = Modifiers::control();
    let table = vec![
        Binding::new("A", ctrl, Action::ToggleFullscreen),
        Binding::new("A", ctrl, Action::CloseWindow),
        Binding::new("B", Modifiers::empty(), Action::CloseWindow),
    ];
    assert_eq!(resolve_in(&table, &"A".to_string(), &ctrl), Some(Action::ToggleFullscreen));
    assert_eq!(resolve_in(&table, &"B".to_string(), &Modifiers::empty()), Some(Action::CloseWindow));
    assert_eq!(resolve_in(&table, &"B".to_string(), &ctrl), None);
    assert_eq!(resolve_in(&Vec::new(), &"A".to_string(), &ctrl), None);
}

#[test]
fn binding_fires_on_its_own_trigger_and_modifiers_only() {
    let ctrl = Modifiers::control();
    let binding = Binding::new("Q", ctrl, Action::CloseWindow);
    assert!(binding.is_triggered_by(&"Q".to_string(), &ctrl));
    assert!(!binding.is_triggered_by(&"q".to_string(), &ctrl));
    assert!(!binding.is_triggered_by(&"Q".to_string(), &Modifiers::empty()));
    assert!(!binding.is_triggered_by(&"F".to_string(), &ctrl));
}

#[test]
fn modifier_prefix_names_the_control_key_only() {
    assert_eq!(modifiers_to_string(Modifiers::control()), "Ctrl+");
    assert_eq!(modifiers_to_string(Modifiers::empty()), "");
    assert_eq!(modifiers_to_string(mods_of(ModifiersState::SHIFT)), "");
    assert_eq!(
        modifiers_to_string(mods_of(ModifiersState::CONTROL | ModifiersState::ALT)),
        "Ctrl+"
    );
}

#[test]
fn help_table_lists_the_declared_bindings() {
    let table = Application::help_table();
    assert_eq!(table.len(), 2);
    assert_eq!(table[0].modifiers, "Ctrl+");
    assert_eq!(table[0].trigger, "Q");
    assert_eq!(table[0].action, Action::CloseWindow);
    assert_eq!(table[0].help, "Close window");
    assert_eq!(table[1].modifiers, "Ctrl+");
    assert_eq!(table[1].trigger, "F");
    assert_eq!(table[1].action, Action::ToggleFullscreen);
    assert_eq!(table[1].help, "Toggle fullscreen");
}

#[test]
fn startup_steps_come_in_order() {
    let icon = vrr_window::utils::IconImage::from_decoded(vrr_window::utils::DecodedImage {
        rgba: Vec::new(),
        width: 0,
        height: 0,
    })
    .unwrap();
    let app = Application::new(icon);
    assert_eq!(
        app.resumed(),
        vec![StartupStep::DumpMonitors, StartupStep::CreateWindow, StartupStep::PrintHelp]
    );
}
