//! The menus before a game, and what their options mean.
use vstd::prelude::*;

use crate::config::{ComputerAttackStrategy, Difficulty, GameMode};
use crate::display::inputs::{texts, NumberInput, OptionSelect};

verus! {

/// Whether the option reads as `text`.
fn reads(option: &String, text: &str) -> (same: bool)
    ensures
        same == (option@ == text@),
{
    let wanted = text.to_string();
    *option == wanted
}

/// The menu of game modes.
pub fn game_mode_options() -> (menu: OptionSelect)
    ensures
        menu.title@ == "Game Options"@,
        texts(menu.options@) == seq![
            "Play against a friend"@,
            "Play against the computer"@,
            "Computer fight"@,
        ],
{
    let menu = OptionSelect::new().set_title("Game Options").add_option(
        "Play against a friend",
    ).add_option("Play against the computer").add_option("Computer fight");
    assert(texts(menu.options@) =~= seq![
        "Play against a friend"@,
        "Play against the computer"@,
        "Computer fight"@,
    ]);
    menu
}

/// The menu of difficulties.
pub fn difficulty_options() -> (menu: OptionSelect)
    ensures
        menu.title@ == "Difficulty Options"@,
        texts(menu.options@) == seq!["Easy"@, "Medium"@, "Hard"@],
{
    let menu = OptionSelect::new().set_title("Difficulty Options").add_option("Easy").add_option(
        "Medium",
    ).add_option("Hard");
    assert(texts(menu.options@) =~= seq!["Easy"@, "Medium"@, "Hard"@]);
    menu
}

/// The menu of the computer's strategies.
pub fn computer_options() -> (menu: OptionSelect)
    ensures
        menu.title@ == "Select a Computer Attack Strategy"@,
        texts(menu.options@) == seq!["Random Attack"@, "Hunt and Target"@, "Probability Attack"@],
{
    let menu = OptionSelect::new().set_title("Select a Computer Attack Strategy").add_option(
        "Random Attack",
    ).add_option("Hunt and Target").add_option("Probability Attack");
    assert(texts(menu.options@) =~= seq![
        "Random Attack"@,
        "Hunt and Target"@,
        "Probability Attack"@,
    ]);
    menu
}

/// The question for the number of games of a simulation: at least one.
pub fn games_to_play_input() -> (input: NumberInput)
    ensures
        input.message@ == "How many games should be played?"@,
        input.min == 1,
        input.max is None,
{
    NumberInput::new().set_message("How many games should be played?").set_min(1)
}

/// The game mode that an option of the menu of game modes names, if it is
/// one.
pub open spec fn game_mode_named(option: Seq<char>) -> Option<GameMode> {
    if option == "Play against a friend"@ {
        Some(GameMode::MultiPlayer)
    } else if option == "Play against the computer"@ {
        Some(GameMode::SinglePlayer)
    } else if option == "Computer fight"@ {
        Some(GameMode::ComputerFight)
    } else {
        None
    }
}

/// The difficulty that an option of the menu of difficulties names, if it is
/// one.
pub open spec fn difficulty_named(option: Seq<char>) -> Option<Difficulty> {
    if option == "Easy"@ {
        Some(Difficulty::Easy)
    } else if option == "Medium"@ {
        Some(Difficulty::Medium)
    } else if option == "Hard"@ {
        Some(Difficulty::Hard)
    } else {
        None
    }
}

/// The strategy that an option of the menu of strategies names, if it is
/// one.
pub open spec fn strategy_named(option: Seq<char>) -> Option<ComputerAttackStrategy> {
    if option == "Random Attack"@ {
        Some(ComputerAttackStrategy::Random)
    } else if option == "Hunt and Target"@ {
        Some(ComputerAttackStrategy::HuntAndTarget)
    } else if option == "Probability Attack"@ {
        Some(ComputerAttackStrategy::Probability)
    } else {
        None
    }
}

/// The game mode that the option names; `None` for a text that is no option
/// of the menu of game modes.
pub fn match_game_mode_option(option: &String) -> (mode: Option<GameMode>)
    ensures
        mode == game_mode_named(option@),
{
    if reads(option, "Play against a friend") {
        Some(GameMode::MultiPlayer)
    } else if reads(option, "Play against the computer") {
        Some(GameMode::SinglePlayer)
    } else if reads(option, "Computer fight") {
        Some(GameMode::ComputerFight)
    } else {
        None
    }
}

/// The difficulty that the option names; `None` for a text that is no
/// option of the menu of difficulties.
pub fn match_difficulty_option(option: &String) -> (difficulty: Option<Difficulty>)
    ensures
        difficulty == difficulty_named(option@),
{
    if reads(option, "Easy") {
        Some(Difficulty::Easy)
    } else if reads(option, "Medium") {
        Some(Difficulty::Medium)
    } else if reads(option, "Hard") {
        Some(Difficulty::Hard)
    } else {
        None
    }
}

/// The strategy that the option names, which must be an option of the menu
/// of strategies.
pub fn match_computer_option_to_computer(strategy: String) -> (chosen: ComputerAttackStrategy)
    requires
        strategy_named(strategy@) is Some,
    ensures
        Some(chosen) == strategy_named(strategy@),
{
    if reads(&strategy, "Random Attack") {
        ComputerAttackStrategy::Random
    } else if reads(&strategy, "Hunt and Target") {
        ComputerAttackStrategy::HuntAndTarget
    } else {
        ComputerAttackStrategy::Probability
    }
}

/// Whether the text is an option of the menu of strategies.
pub fn is_computer_option(strategy: &String) -> (known: bool)
    ensures
        known == strategy_named(strategy@) is Some,
{
    reads(strategy, "Random Attack") || reads(strategy, "Hunt and Target") || reads(
        strategy,
        "Probability Attack",
    )
}

} // verus!
