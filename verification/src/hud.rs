//! The heads-up display: the message in the middle of the screen, the score
//! and the start button.

use crate::text::{decimal, decimal_string};
use vstd::prelude::*;

verus! {

/// Something the host engine is to do for the display. A text lives as long
/// as the text it was made from.
#[derive(Clone, Copy, Debug, PartialEq, Eq)]
pub enum HudCommand<'a> {
    /// Put this text into the message label.
    SetMessage(&'a str),
    /// Make the message label visible.
    ShowMessage,
    /// Make the message label invisible.
    HideMessage,
    /// Start the timer that ends the message.
    StartMessageTimer,
    /// Make the start button visible.
    ShowStartButton,
    /// Make the start button invisible.
    HideStartButton,
    /// Bring the start button up once this many milliseconds have passed.
    ShowStartButtonAfter(u32),
    /// Tell the listeners that a game is to start.
    EmitStartGame,
    /// Play the sound of the start button.
    PlayStartSound,
}

/// The display's rules. The display keeps no state of its own: what is on
/// the screen is the engine's to hold.
#[derive(Clone, Copy, Debug, PartialEq, Eq, Structural)]
pub struct HUD {}

impl HUD {
    /// The start button comes up this many milliseconds after the end of a
    /// game.
    pub const START_BUTTON_DELAY: u32 = 2000;

    /// Shows `text` until the message timer runs out.
    pub fn show_message<'a>(&self, text: &'a str) -> (commands: Vec<HudCommand<'a>>)
        ensures
            commands@ == seq![
                HudCommand::SetMessage(text),
                HudCommand::ShowMessage,
                HudCommand::StartMessageTimer,
            ],
    {
        vec![HudCommand::SetMessage(text), HudCommand::ShowMessage, HudCommand::StartMessageTimer]
    }

    /// Shows that the game is over, and brings the start button back after
    /// `START_BUTTON_DELAY`.
    pub fn show_game_over(&self) -> (commands: Vec<HudCommand<'static>>)
        ensures
            commands@ == seq![
                HudCommand::SetMessage("Done! ;)"),
                HudCommand::ShowMessage,
                HudCommand::StartMessageTimer,
                HudCommand::ShowStartButtonAfter(HUD::START_BUTTON_DELAY),
            ],
    {
        let mut commands = self.show_message("Done! ;)");
        commands.push(HudCommand::ShowStartButtonAfter(HUD::START_BUTTON_DELAY));
        commands
    }

    /// Shows the title and the start button. The title stays: no timer is
    /// started for it.
    pub fn show_start_button(&self) -> (commands: Vec<HudCommand<'static>>)
        ensures
            commands@ == seq![
                HudCommand::SetMessage("Fugitive!!"),
                HudCommand::ShowMessage,
                HudCommand::ShowStartButton,
            ],
    {
        vec![
            HudCommand::SetMessage("Fugitive!!"),
            HudCommand::ShowMessage,
            HudCommand::ShowStartButton,
        ]
    }

    /// The text that the score label is to show for `score`: the score in
    /// decimal.
    pub fn update_score(&self, score: i32) -> (label: String)
        ensures
            label@ == decimal(score as int),
    {
        decimal_string(score)
    }

    /// The start button was pressed: it goes away, a game is asked for, and
    /// the button's sound is played.
    pub fn on_start_button_pressed(&self) -> (commands: Vec<HudCommand<'static>>)
        ensures
            commands@ == seq![
                HudCommand::HideStartButton,
                HudCommand::EmitStartGame,
                HudCommand::PlayStartSound,
            ],
    {
        vec![HudCommand::HideStartButton, HudCommand::EmitStartGame, HudCommand::PlayStartSound]
    }

    /// The message timer ran out: the message goes away.
    pub fn on_message_timer_timeout(&self) -> (commands: Vec<HudCommand<'static>>)
        ensures
            commands@ == seq![HudCommand::HideMessage],
    {
        vec![HudCommand::HideMessage]
    }
}

} // verus!
