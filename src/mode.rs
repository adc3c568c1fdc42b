//! The two interaction modes and the side menu that switches between them.
use vstd::prelude::*;

verus! {

/// The mode the whole application is in. Exactly one is active at a time.
#[derive(Debug, Clone, Copy, PartialEq, Eq, Structural, Hash)]
pub enum InteractionState {
    /// Destinations can be edited; nothing moves.
    Editing,
    /// Units move toward their destinations; nothing can be edited.
    Visualizing,
}

/// The single button that the side menu offers.
#[derive(Debug, Clone, Copy, PartialEq, Eq, Structural, Hash)]
pub enum MenuAction {
    /// "Run simulation", offered while editing.
    RunSimulation,
    /// "Go to edit", offered while visualizing.
    GoToEdit,
}

impl MenuAction {
    /// The mode that clicking this button selects.
    pub open spec fn spec_target(self) -> InteractionState {
        match self {
            MenuAction::RunSimulation => InteractionState::Visualizing,
            MenuAction::GoToEdit => InteractionState::Editing,
        }
    }

    /// The mode that clicking this button selects, whatever mode is active.
    pub fn target(self) -> (r: InteractionState)
        ensures
            r == self.spec_target(),
    {
        match self {
            MenuAction::RunSimulation => InteractionState::Visualizing,
            MenuAction::GoToEdit => InteractionState::Editing,
        }
    }

    /// The caption of the button.
    pub fn label(self) -> (r: &'static str)
        ensures
            self == MenuAction::RunSimulation ==> r@ == "Run simulation"@,
            self == MenuAction::GoToEdit ==> r@ == "Go to edit"@,
    {
        match self {
            MenuAction::RunSimulation => "Run simulation",
            MenuAction::GoToEdit => "Go to edit",
        }
    }
}

impl InteractionState {
    /// The editing panel and the editing menu run in this mode.
    pub open spec fn spec_editing_active(self) -> bool {
        self == InteractionState::Editing
    }

    /// The simulation step and the visualizing menu run in this mode.
    pub open spec fn spec_visualizing_active(self) -> bool {
        self == InteractionState::Visualizing
    }

    /// The button that the side menu shows in this mode.
    pub open spec fn spec_menu_action(self) -> MenuAction {
        match self {
            InteractionState::Editing => MenuAction::RunSimulation,
            InteractionState::Visualizing => MenuAction::GoToEdit,
        }
    }

    /// The mode of the next frame, given whether the menu button was clicked
    /// in this one.
    pub open spec fn spec_after_menu(self, clicked: bool) -> InteractionState {
        if clicked {
            self.spec_menu_action().spec_target()
        } else {
            self
        }
    }

    /// Whether the editing panel and the editing menu run in this mode.
    pub fn editing_active(self) -> (r: bool)
        ensures
            r == self.spec_editing_active(),
    {
        match self {
            InteractionState::Editing => true,
            InteractionState::Visualizing => false,
        }
    }

    /// Whether the simulation step and the visualizing menu run in this mode.
    pub fn visualizing_active(self) -> (r: bool)
        ensures
            r == self.spec_visualizing_active(),
    {
        match self {
            InteractionState::Editing => false,
            InteractionState::Visualizing => true,
        }
    }

    /// The button that the side menu shows in this mode.
    pub fn menu_action(self) -> (r: MenuAction)
        ensures
            r == self.spec_menu_action(),
    {
        match self {
            InteractionState::Editing => MenuAction::RunSimulation,
            InteractionState::Visualizing => MenuAction::GoToEdit,
        }
    }

    /// The mode of the next frame: the menu button's target when it was
    /// clicked, else the mode unchanged.
    pub fn after_menu(self, clicked: bool) -> (r: InteractionState)
        ensures
            r == self.spec_after_menu(clicked),
    {
        if clicked {
            self.menu_action().target()
        } else {
            self
        }
    }
}

/// The mode a session starts in.
pub fn initial_state() -> (r: InteractionState)
    ensures
        r == InteractionState::Editing,
{
    InteractionState::Editing
}

/// Exactly one of the two sets of systems runs in any mode: the editing panel
/// and menu, or the simulation step and the visualizing menu.
pub proof fn lemma_modes_gate_disjoint_systems(s: InteractionState)
    ensures
        s.spec_editing_active() != s.spec_visualizing_active(),
{
}

/// From editing, clicking "Run simulation" switches to visualizing, where the
/// editing panel and menu no longer run; clicking "Go to edit" there switches
/// back to editing, where they run again and the simulation stops.
pub proof fn lemma_menu_round_trip()
    ensures
        InteractionState::Editing.spec_menu_action() == MenuAction::RunSimulation,
        InteractionState::Editing.spec_after_menu(true) == InteractionState::Visualizing,
        !InteractionState::Editing.spec_after_menu(true).spec_editing_active(),
        InteractionState::Visualizing.spec_menu_action() == MenuAction::GoToEdit,
        InteractionState::Visualizing.spec_after_menu(true) == InteractionState::Editing,
        InteractionState::Visualizing.spec_after_menu(true).spec_editing_active(),
        !InteractionState::Visualizing.spec_after_menu(true).spec_visualizing_active(),
{
}

/// Without a click the mode stays as it is.
pub proof fn lemma_mode_kept_without_click(s: InteractionState)
    ensures
        s.spec_after_menu(false) == s,
{
}

} // verus!
