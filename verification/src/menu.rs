//! The main menu's decision logic: what each button does and how it is
//! tinted while idle, hovered or pressed.
//!
//! Colors are channel intensities in milli-units (0 to 1000), matching the
//! fixed-point convention of the rest of the crate.
use vstd::prelude::*;

use crate::states::GameState;

verus! {

/// What a menu button triggers when pressed.
#[derive(Clone, Copy, PartialEq, Eq, Structural, Debug)]
pub enum MenuButtonAction {
    /// Enter the game proper.
    Play,
    /// Enter the level editor.
    LevelEditor,
    /// Leave the application.
    Quit,
}

/// The pointer's relation to a button this tick.
#[derive(Clone, Copy, PartialEq, Eq, Structural, Debug)]
pub enum Interaction {
    Pressed,
    Hovered,
    /// Neither hovered nor pressed.
    Inactive,
}

/// What the menu asks the shell to do.
#[derive(Clone, Copy, PartialEq, Eq, Structural, Debug)]
pub enum MenuCommand {
    /// Switch the state machine to this mode.
    Transition(GameState),
    /// Exit the application.
    Exit,
}

/// The background tint a button shows under an interaction, as milli-unit
/// red, green and blue channels.
pub open spec fn spec_button_color(i: Interaction) -> (u16, u16, u16) {
    match i {
        Interaction::Pressed => (350u16, 750u16, 350u16),
        Interaction::Hovered => (250u16, 250u16, 250u16),
        Interaction::Inactive => (150u16, 150u16, 150u16),
    }
}

/// The command a pressed button issues.
pub open spec fn spec_button_command(a: MenuButtonAction) -> MenuCommand {
    match a {
        MenuButtonAction::Play => MenuCommand::Transition(GameState::InGame),
        MenuButtonAction::LevelEditor => MenuCommand::Transition(GameState::LevelEditor),
        MenuButtonAction::Quit => MenuCommand::Exit,
    }
}

/// Reacts to one button's interaction change: returns the tint to show and
/// the command to perform, which exists exactly on a press.
pub fn menu_interaction(i: Interaction, a: MenuButtonAction) -> (r: (
    (u16, u16, u16),
    Option<MenuCommand>,
))
    ensures
        r.0 == spec_button_color(i),
        r.1 is Some <==> i is Pressed,
        i is Pressed ==> r.1 == Some(spec_button_command(a)),
{
    match i {
        Interaction::Pressed => {
            let cmd: MenuCommand = match a {
                MenuButtonAction::Play => MenuCommand::Transition(GameState::InGame),
                MenuButtonAction::LevelEditor => MenuCommand::Transition(GameState::LevelEditor),
                MenuButtonAction::Quit => MenuCommand::Exit,
            };
            ((350, 750, 350), Some(cmd))
        },
        Interaction::Hovered => (((250, 250, 250), None)),
        Interaction::Inactive => (((150, 150, 150), None)),
    }
}

} // verus!
