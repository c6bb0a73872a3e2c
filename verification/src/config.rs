//! What the players choose before a game begins.
use vstd::prelude::*;

verus! {

/// One of the two human players.
#[derive(Debug, PartialEq, Eq, Clone, Copy, Structural)]
pub enum Player {
    PlayerOne,
    PlayerTwo,
}

impl Player {
    /// The other of the two players.
    pub open spec fn other(self) -> Player {
        match self {
            Player::PlayerOne => Player::PlayerTwo,
            Player::PlayerTwo => Player::PlayerOne,
        }
    }

    /// The player's name as it is shown.
    pub open spec fn name(self) -> Seq<char> {
        match self {
            Player::PlayerOne => "Player One"@,
            Player::PlayerTwo => "Player Two"@,
        }
    }

    /// The player's name as it is shown.
    pub fn get_player_name(&self) -> (text: String)
        ensures
            text@ == self.name(),
    {
        match self {
            Player::PlayerOne => "Player One".to_string(),
            Player::PlayerTwo => "Player Two".to_string(),
        }
    }

    /// The other of the two players; the other's other is the player.
    pub fn get_other_player(&self) -> (other: Player)
        ensures
            other == self.other(),
            other != *self,
            other.other() == *self,
    {
        match self {
            Player::PlayerOne => Player::PlayerTwo,
            Player::PlayerTwo => Player::PlayerOne,
        }
    }
}

/// How strong the computer plays against a human.
#[derive(Debug, PartialEq, Eq, Clone, Copy, Structural)]
pub enum Difficulty {
    Easy,
    Medium,
    Hard,
}

/// Who plays whom.
#[derive(Debug, PartialEq, Eq, Clone, Copy, Structural)]
pub enum GameMode {
    SinglePlayer,
    MultiPlayer,
    ComputerFight,
}

/// The name of a strategy of the computer.
#[derive(Debug, PartialEq, Eq, Clone, Copy, Structural)]
pub enum ComputerAttackStrategy {
    Random,
    HuntAndTarget,
    Probability,
}

impl ComputerAttackStrategy {
    /// The strategy's name as it is shown.
    pub open spec fn name(self) -> Seq<char> {
        match self {
            ComputerAttackStrategy::Random => "Random"@,
            ComputerAttackStrategy::HuntAndTarget => "Hunt and Target"@,
            ComputerAttackStrategy::Probability => "Probability Attack"@,
        }
    }

    /// The strategy's name as it is shown.
    pub fn get_attack_strategy_name(&self) -> (text: String)
        ensures
            text@ == self.name(),
    {
        match self {
            ComputerAttackStrategy::Random => "Random".to_string(),
            ComputerAttackStrategy::HuntAndTarget => "Hunt and Target".to_string(),
            ComputerAttackStrategy::Probability => "Probability Attack".to_string(),
        }
    }
}

/// Two strategies and the number of games they play against each other.
#[derive(Debug, PartialEq, Eq, Clone, Copy, Structural)]
pub struct SimulationConfig {
    pub attack_strategy_one: ComputerAttackStrategy,
    pub attack_strategy_two: ComputerAttackStrategy,
    pub games_to_play: i32,
}

impl SimulationConfig {
    pub fn new(
        attack_strategy_one: ComputerAttackStrategy,
        attack_strategy_two: ComputerAttackStrategy,
        games_to_play: i32,
    ) -> (config: Self)
        ensures
            config == (SimulationConfig {
                attack_strategy_one,
                attack_strategy_two,
                games_to_play,
            }),
    {
        Self { attack_strategy_one, attack_strategy_two, games_to_play }
    }
}

/// The choices made before a game: the mode, and what the mode needs.
#[derive(Debug, PartialEq, Eq, Clone, Copy, Structural)]
pub struct GameConfig {
    pub game_mode: GameMode,
    pub difficulty: Option<Difficulty>,
    pub simulation_config: Option<SimulationConfig>,
}

impl GameConfig {
    pub fn new(
        game_mode: GameMode,
        difficulty: Option<Difficulty>,
        simulation_config: Option<SimulationConfig>,
    ) -> (config: Self)
        ensures
            config == (GameConfig { game_mode, difficulty, simulation_config }),
    {
        Self { game_mode, difficulty, simulation_config }
    }

    pub fn set_game_mode(&mut self, game_mode: GameMode)
        ensures
            *final(self) == (GameConfig { game_mode, ..*old(self) }),
    {
        self.game_mode = game_mode;
    }

    pub fn set_difficulty(&mut self, difficulty: Difficulty)
        ensures
            *final(self) == (GameConfig { difficulty: Some(difficulty), ..*old(self) }),
    {
        self.difficulty = Some(difficulty);
    }

    pub fn set_simulation_config(&mut self, simulation_config: SimulationConfig)
        ensures
            *final(self) == (GameConfig {
                simulation_config: Some(simulation_config),
                ..*old(self)
            }),
    {
        self.simulation_config = Some(simulation_config);
    }
}

} // verus!
