//! The game scene: the score, the timers, and what is spawned and played
//! when.

use crate::chance::{pick_one, random_in_range};
use vstd::prelude::*;

verus! {

/// A timer of the game scene.
#[derive(Clone, Copy, Debug, PartialEq, Eq, Structural)]
pub enum GameTimer {
    /// Runs once between the start of a game and the first enemy.
    Start,
    /// Ticks once for every point of score.
    Score,
    /// Ticks once for every enemy.
    Mob,
}

/// One of the five sounds of an enemy that appears.
#[derive(Clone, Copy, Debug, PartialEq, Eq, Structural)]
pub enum FireSound {
    First,
    Second,
    Third,
    Fourth,
    Fifth,
}

/// A score that is greeted with a sound of its own.
#[derive(Clone, Copy, Debug, PartialEq, Eq, Structural)]
pub enum Milestone {
    Score5,
    Score10,
    Score20,
    Score25,
    Score35,
    Score50,
}

/// Something the host engine is to do for the game scene.
#[derive(Clone, Copy, Debug, PartialEq, Eq)]
pub enum GameCommand {
    /// Start the timer.
    StartTimer(GameTimer),
    /// Stop the timer.
    StopTimer(GameTimer),
    /// Put the player at the start position and let it play.
    StartPlayer,
    /// Show this score.
    UpdateScore(i32),
    /// Show this message for a while.
    ShowMessage(&'static str),
    /// Show that the game is over.
    ShowGameOver,
    /// Start the music.
    PlayMusic,
    /// Stop the music.
    StopMusic,
    /// Play the sound of the player's end.
    PlayDeathSound,
    /// Play the sound of the milestone.
    PlayMilestone(Milestone),
    /// Let an enemy appear at this distance along the spawn path.
    SpawnMob(u16),
    /// Play the sound.
    PlayFireSound(FireSound),
}

/// The game scene's state: the score of the game in play.
pub struct GameScene {
    score: i32,
}

/// The milestone that is reached at `score`, if it is one.
pub open spec fn milestone_at(score: int) -> Option<Milestone> {
    if score == 5 {
        Some(Milestone::Score5)
    } else if score == 10 {
        Some(Milestone::Score10)
    } else if score == 20 {
        Some(Milestone::Score20)
    } else if score == 25 {
        Some(Milestone::Score25)
    } else if score == 35 {
        Some(Milestone::Score35)
    } else if score == 50 {
        Some(Milestone::Score50)
    } else {
        None
    }
}

/// What follows a tick of the score timer that brought the score to `score`:
/// the new score is shown, and a milestone is greeted.
pub open spec fn score_commands(score: i32) -> Seq<GameCommand> {
    match milestone_at(score as int) {
        Some(milestone) => seq![
            GameCommand::UpdateScore(score),
            GameCommand::PlayMilestone(milestone),
        ],
        None => seq![GameCommand::UpdateScore(score)],
    }
}

/// What follows the pick of a sound for an enemy: the sound picked is
/// played, and nothing happens where none was picked.
pub open spec fn fireball_commands(picked: Option<FireSound>) -> Seq<GameCommand> {
    match picked {
        Some(sound) => seq![GameCommand::PlayFireSound(sound)],
        None => seq![],
    }
}

/// What follows a tick of the enemy timer, given the distance drawn and the
/// sound picked: the enemy appears, then its sound is played.
pub open spec fn mob_commands(progress: u16, picked: Option<FireSound>) -> Seq<GameCommand> {
    seq![GameCommand::SpawnMob(progress)] + fireball_commands(picked)
}

impl Milestone {
    /// The score at which the milestone is reached.
    pub open spec fn spec_score(self) -> int {
        match self {
            Milestone::Score5 => 5,
            Milestone::Score10 => 10,
            Milestone::Score20 => 20,
            Milestone::Score25 => 25,
            Milestone::Score35 => 35,
            Milestone::Score50 => 50,
        }
    }

    /// The score at which the milestone is reached.
    pub fn score(self) -> (score: i32)
        ensures
            score == self.spec_score(),
    {
        match self {
            Milestone::Score5 => 5,
            Milestone::Score10 => 10,
            Milestone::Score20 => 20,
            Milestone::Score25 => 25,
            Milestone::Score35 => 35,
            Milestone::Score50 => 50,
        }
    }

    /// The milestone that is reached at `score`, if it is one.
    pub fn at(score: i32) -> (milestone: Option<Milestone>)
        ensures
            milestone == milestone_at(score as int),
    {
        if score == 5 {
            Some(Milestone::Score5)
        } else if score == 10 {
            Some(Milestone::Score10)
        } else if score == 20 {
            Some(Milestone::Score20)
        } else if score == 25 {
            Some(Milestone::Score25)
        } else if score == 35 {
            Some(Milestone::Score35)
        } else if score == 50 {
            Some(Milestone::Score50)
        } else {
            None
        }
    }
}

impl View for GameScene {
    type V = nat;

    /// The score of the game in play.
    closed spec fn view(&self) -> nat {
        self.score as nat
    }
}

impl GameScene {
    /// A score is never negative.
    #[verifier::type_invariant]
    spec fn well_formed(&self) -> bool {
        self.score >= 0
    }

    /// The distance along the spawn path is drawn from zero up to, but not
    /// including, this number.
    pub const PROGRESS_LIMIT: u16 = u16::MAX;

    /// The scene before the first game: the score is zero.
    pub fn init() -> (scene: GameScene)
        ensures
            scene@ == 0,
    {
        GameScene { score: 0 }
    }

    /// The score of the game in play.
    pub fn score(&self) -> (score: i32)
        ensures
            score == self@,
    {
        proof {
            use_type_invariant(self);
        }
        self.score
    }

    /// The five sounds of an enemy that appears.
    pub fn fire_sounds() -> (sounds: Vec<FireSound>)
        ensures
            sounds@ == seq![
                FireSound::First,
                FireSound::Second,
                FireSound::Third,
                FireSound::Fourth,
                FireSound::Fifth,
            ],
    {
        vec![
            FireSound::First,
            FireSound::Second,
            FireSound::Third,
            FireSound::Fourth,
            FireSound::Fifth,
        ]
    }

    /// Plays the sound that was picked for an enemy, if one was.
    pub fn play_fireball(picked: Option<FireSound>) -> (commands: Vec<GameCommand>)
        ensures
            commands@ == fireball_commands(picked),
    {
        match picked {
            Some(sound) => vec![GameCommand::PlayFireSound(sound)],
            None => Vec::new(),
        }
    }

    /// Lets an enemy appear at the distance drawn and plays the sound picked
    /// for it.
    pub fn spawn_mob(progress: u16, picked: Option<FireSound>) -> (commands: Vec<GameCommand>)
        ensures
            commands@ == mob_commands(progress, picked),
    {
        let mut commands = vec![GameCommand::SpawnMob(progress)];
        let mut sound = GameScene::play_fireball(picked);
        commands.append(&mut sound);
        commands
    }

    /// Picks one of the five sounds at random and plays it.
    pub fn spawn_fireball(&self) -> (commands: Vec<GameCommand>)
        ensures
            exists|sound: FireSound| commands@ == fireball_commands(Some(sound)),
    {
        let sounds = GameScene::fire_sounds();
        let picked = pick_one(sounds.as_slice());
        GameScene::play_fireball(picked)
    }

    /// The player was hit: the timers stop, the game is shown to be over,
    /// the music gives way to the sound of the player's end.
    pub fn game_over(&self) -> (commands: Vec<GameCommand>)
        ensures
            commands@ == seq![
                GameCommand::StopTimer(GameTimer::Score),
                GameCommand::StopTimer(GameTimer::Mob),
                GameCommand::ShowGameOver,
                GameCommand::StopMusic,
                GameCommand::PlayDeathSound,
            ],
    {
        vec![
            GameCommand::StopTimer(GameTimer::Score),
            GameCommand::StopTimer(GameTimer::Mob),
            GameCommand::ShowGameOver,
            GameCommand::StopMusic,
            GameCommand::PlayDeathSound,
        ]
    }

    /// A game starts: the score goes back to zero and is shown, the start
    /// timer runs, the player is put in place, a message opens the game and
    /// the music plays.
    pub fn new_game(&mut self) -> (commands: Vec<GameCommand>)
        ensures
            final(self)@ == 0,
            commands@ == seq![
                GameCommand::StartTimer(GameTimer::Start),
                GameCommand::StartPlayer,
                GameCommand::UpdateScore(0),
                GameCommand::ShowMessage("Die!"),
                GameCommand::PlayMusic,
            ],
    {
        self.score = 0;
        vec![
            GameCommand::StartTimer(GameTimer::Start),
            GameCommand::StartPlayer,
            GameCommand::UpdateScore(self.score),
            GameCommand::ShowMessage("Die!"),
            GameCommand::PlayMusic,
        ]
    }

    /// The start timer ran out: enemies and score begin to tick.
    pub fn on_start_timer_timeout(&self) -> (commands: Vec<GameCommand>)
        ensures
            commands@ == seq![
                GameCommand::StartTimer(GameTimer::Mob),
                GameCommand::StartTimer(GameTimer::Score),
            ],
    {
        vec![GameCommand::StartTimer(GameTimer::Mob), GameCommand::StartTimer(GameTimer::Score)]
    }

    /// The score timer ticked: the score grows by one and is shown, and a
    /// milestone is greeted with its sound.
    pub fn on_score_timer_timeout(&mut self) -> (commands: Vec<GameCommand>)
        requires
            old(self)@ < i32::MAX,
        ensures
            final(self)@ == old(self)@ + 1,
            commands@ == score_commands(final(self)@ as i32),
    {
        proof {
            use_type_invariant(&*self);
        }
        self.score = self.score + 1;
        let score = self.score;
        match Milestone::at(score) {
            Some(milestone) => vec![
                GameCommand::UpdateScore(score),
                GameCommand::PlayMilestone(milestone),
            ],
            None => vec![GameCommand::UpdateScore(score)],
        }
    }

    /// The enemy timer ticked: an enemy appears at a distance along the
    /// spawn path that is drawn at random below `PROGRESS_LIMIT`, and one of
    /// the five sounds, picked at random, is played for it.
    pub fn on_mob_timer_timeout(&self) -> (commands: Vec<GameCommand>)
        ensures
            exists|progress: u16, sound: FireSound|
                progress < GameScene::PROGRESS_LIMIT && commands@ == mob_commands(
                    progress,
                    Some(sound),
                ),
    {
        let progress = random_in_range(u16::MIN, GameScene::PROGRESS_LIMIT);
        let sounds = GameScene::fire_sounds();
        let picked = pick_one(sounds.as_slice());
        GameScene::spawn_mob(progress, picked)
    }
}

/// A milestone is greeted at its own score and at no other.
pub proof fn lemma_milestone_at(score: int, milestone: Milestone)
    ensures
        milestone_at(score) == Some(milestone) <==> score == milestone.spec_score(),
{
}

} // verus!
