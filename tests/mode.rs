use unit_sandbox::mode::{initial_state, InteractionState, MenuAction};

#[test]
fn session_starts_in_editing() {
    assert_eq!(initial_state(), InteractionState::Editing);
    assert!(initial_state().editing_active());
    assert!(!initial_state().visualizing_active());
}

#[test]
fn run_simulation_switches_to_visualizing() {
    let s = InteractionState::Editing;
    assert_eq!(s.menu_action(), MenuAction::RunSimulation);
    assert_eq!(s.menu_action().label(), "Run simulation");
    let next = s.after_menu(true);
    assert_eq!(next, InteractionState::Visualizing);
    assert!(!next.editing_active());
    assert!(next.visualizing_active());
}

#[test]
fn go_to_edit_switches_back_to_editing() {
    let s = InteractionState::Visualizing;
    assert_eq!(s.menu_action(), MenuAction::GoToEdit);
    assert_eq!(s.menu_action().label(), "Go to edit");
    let next = s.after_menu(true);
    assert_eq!(next, InteractionState::Editing);
    assert!(next.editing_active());
    assert!(!next.visualizing_active());
}

#[test]
fn mode_kept_without_click() {
    assert_eq!(InteractionState::Editing.after_menu(false), InteractionState::Editing);
    assert_eq!(InteractionState::Visualizing.after_menu(false), InteractionState::Visualizing);
}

#[test]
fn toggles_indefinitely() {
    let mut s = initial_state();
    for round in 0..6 {
        s = s.after_menu(true);
        if round % 2 == 0 {
            assert_eq!(s, InteractionState::Visualizing);
        } else {
            assert_eq!(s, InteractionState::Editing);
        }
    }
}

#[test]
fn button_targets_ignore_current_mode() {
    assert_eq!(MenuAction::RunSimulation.target(), InteractionState::Visualizing);
    assert_eq!(MenuAction::GoToEdit.target(), InteractionState::Editing);
}
