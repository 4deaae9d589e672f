//! The application's top-level states and the menu's decision logic.

use vstd::prelude::*;

verus! {

/// The top-level state of the application: the menu first, then the game.
#[derive(Clone, Copy, Debug, PartialEq, Eq, Structural)]
pub enum AppState {
    Menu,
    InGame,
}

impl Default for AppState {
    /// A fresh session starts in the menu.
    fn default() -> (r: AppState)
        ensures
            r == AppState::Menu,
    {
        AppState::Menu
    }
}

/// Registers the application state machine; it starts in the default state.
#[derive(Clone, Copy, Debug, PartialEq, Eq, Structural)]
pub struct GameStatePlugin;

impl GameStatePlugin {
    /// The state the plugin initializes the application with.
    pub fn initial_state(&self) -> (r: AppState)
        ensures
            r == AppState::Menu,
    {
        AppState::Menu
    }
}

/// How the pointer currently interacts with the menu's play button.
#[derive(Clone, Copy, Debug, PartialEq, Eq, Structural)]
pub enum Interaction {
    Pressed,
    Hovered,
    Idle,
}

/// The visual the play button shows for each interaction.
#[derive(Clone, Copy, Debug, PartialEq, Eq, Structural)]
pub enum ButtonVisual {
    Normal,
    Hovered,
    Pressed,
}

/// The menu's per-tick decision: pressing the play button recolors it and
/// starts the game; hovering or leaving it only recolors.
pub fn menu(interaction: Interaction) -> (r: (ButtonVisual, Option<AppState>))
    ensures
        interaction is Pressed ==> r == (ButtonVisual::Pressed, Some(AppState::InGame)),
        interaction is Hovered ==> r == (ButtonVisual::Hovered, Option::<AppState>::None),
        interaction is Idle ==> r == (ButtonVisual::Normal, Option::<AppState>::None),
{
    match interaction {
        Interaction::Pressed => (ButtonVisual::Pressed, Some(AppState::InGame)),
        Interaction::Hovered => (ButtonVisual::Hovered, None),
        Interaction::Idle => (ButtonVisual::Normal, None),
    }
}

} // verus!
