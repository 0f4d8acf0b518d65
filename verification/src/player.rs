//! The player: which way it moves, which animation it shows, and what
//! happens when it starts or is hit.

use vstd::prelude::*;
use crate::text::{has_substring, occurs_at, occurs_in};

verus! {

/// The movement keys that are held down during one physics frame.
#[derive(Clone, Copy, Debug, PartialEq, Eq, Structural)]
pub struct MoveInput {
    pub left: bool,
    pub right: bool,
    pub up: bool,
    pub down: bool,
}

/// An animation of the player's sprite.
#[derive(Clone, Copy, Debug, PartialEq, Eq, Structural)]
pub enum Animation {
    RunRight,
    RunLeft,
    RunUp,
    RunDown,
    IdleUp,
    IdleDown,
    IdleLeft,
    IdleRight,
}

/// What the player does in one physics frame: the direction of travel along
/// each axis (-1, 0 or 1; `y` grows downwards) and the animation to play.
#[derive(Clone, Copy, Debug, PartialEq, Eq, Structural)]
pub struct Step {
    pub dx: i8,
    pub dy: i8,
    pub animation: Animation,
}

/// Something the host engine is to do with the player's node.
#[derive(Clone, Copy, Debug, PartialEq, Eq, Structural)]
pub enum PlayerCommand {
    /// Move the node to the position the caller was given.
    Place,
    /// Make the node visible.
    Show,
    /// Make the node invisible.
    Hide,
    /// Turn collision detection on.
    EnableCollision,
    /// Turn collision detection off once the engine is done with the
    /// current physics step.
    DisableCollision,
    /// Tell the listeners that the player was hit.
    EmitHit,
}

/// The player's rules. The player keeps no state of its own: where it stands
/// and what it shows is the engine's to hold.
#[derive(Clone, Copy, Debug, PartialEq, Eq, Structural)]
pub struct Player {}

/// Travel along one axis: the key towards larger values counts 1, the key
/// towards smaller values counts -1, and both together cancel.
pub open spec fn axis(towards_smaller: bool, towards_larger: bool) -> int {
    (if towards_larger { 1int } else { 0int }) - (if towards_smaller { 1int } else { 0int })
}

/// The size of `v` without its sign.
pub open spec fn magnitude(v: int) -> int {
    if v < 0 {
        -v
    } else {
        v
    }
}

/// The running animation for a velocity of `(x, y)`: sideways where the
/// horizontal part is strictly larger, else by the sign of the vertical part.
/// A positive `y` selects `RunUp`; a velocity of zero selects `RunDown`.
pub open spec fn run_animation_of(x: int, y: int) -> Animation {
    if magnitude(x) > magnitude(y) && x > 0 {
        Animation::RunRight
    } else if magnitude(x) > magnitude(y) && x < 0 {
        Animation::RunLeft
    } else if magnitude(y) >= magnitude(x) && y > 0 {
        Animation::RunUp
    } else {
        Animation::RunDown
    }
}

/// The idle animation that follows the animation named `current`: the first
/// of `run_up`, `run_down`, `run_left`, `run_right` that the name holds
/// decides, and a name that holds none of them gives `IdleDown`.
pub open spec fn idle_animation_of(current: Seq<char>) -> Animation {
    if occurs_in(current, "run_up"@) {
        Animation::IdleUp
    } else if occurs_in(current, "run_down"@) {
        Animation::IdleDown
    } else if occurs_in(current, "run_left"@) {
        Animation::IdleLeft
    } else if occurs_in(current, "run_right"@) {
        Animation::IdleRight
    } else {
        Animation::IdleDown
    }
}

/// One physics frame, as `Player::physics_process` computes it.
pub open spec fn physics_step(input: MoveInput, current: Seq<char>) -> Step {
    let dx = axis(input.left, input.right);
    let dy = axis(input.up, input.down);
    Step {
        dx: dx as i8,
        dy: dy as i8,
        animation: if dx != 0 || dy != 0 {
            run_animation_of(dx, dy)
        } else {
            idle_animation_of(current)
        },
    }
}

impl Animation {
    /// The name under which the sprite knows the animation.
    pub open spec fn spec_name(self) -> Seq<char> {
        match self {
            Animation::RunRight => "run_right"@,
            Animation::RunLeft => "run_left"@,
            Animation::RunUp => "run_up"@,
            Animation::RunDown => "run_down"@,
            Animation::IdleUp => "idle_up"@,
            Animation::IdleDown => "idle_down"@,
            Animation::IdleLeft => "idle_left"@,
            Animation::IdleRight => "idle_right"@,
        }
    }

    /// Whether this is one of the four running animations.
    pub open spec fn is_run(self) -> bool {
        self is RunRight || self is RunLeft || self is RunUp || self is RunDown
    }

    /// The idle animation that faces the way of this animation.
    pub open spec fn at_rest(self) -> Animation {
        match self {
            Animation::RunRight | Animation::IdleRight => Animation::IdleRight,
            Animation::RunLeft | Animation::IdleLeft => Animation::IdleLeft,
            Animation::RunUp | Animation::IdleUp => Animation::IdleUp,
            Animation::RunDown | Animation::IdleDown => Animation::IdleDown,
        }
    }

    /// The name under which the sprite knows the animation.
    pub fn name(self) -> (s: &'static str)
        ensures
            s@ == self.spec_name(),
    {
        match self {
            Animation::RunRight => "run_right",
            Animation::RunLeft => "run_left",
            Animation::RunUp => "run_up",
            Animation::RunDown => "run_down",
            Animation::IdleUp => "idle_up",
            Animation::IdleDown => "idle_down",
            Animation::IdleLeft => "idle_left",
            Animation::IdleRight => "idle_right",
        }
    }
}

/// Travel along one axis from the two keys that act on it.
fn axis_of(towards_smaller: bool, towards_larger: bool) -> (d: i8)
    ensures
        d == axis(towards_smaller, towards_larger),
{
    let mut d: i8 = 0;
    if towards_smaller {
        d -= 1;
    }
    if towards_larger {
        d += 1;
    }
    d
}

/// The size of `v` without its sign, in a type that holds it for every `v`.
fn magnitude_of(v: i8) -> (m: i16)
    ensures
        m == magnitude(v as int),
{
    let wide: i16 = v as i16;
    if wide < 0 {
        -wide
    } else {
        wide
    }
}

impl Player {
    /// Chooses the running animation for a velocity whose parts have the
    /// signs and the order of size of `x` and `y`.
    pub fn run_animation(x: i8, y: i8) -> (animation: Animation)
        ensures
            animation == run_animation_of(x as int, y as int),
    {
        let wide_x = magnitude_of(x);
        let wide_y = magnitude_of(y);
        if wide_x > wide_y && x > 0 {
            Animation::RunRight
        } else if wide_x > wide_y && x < 0 {
            Animation::RunLeft
        } else if wide_y >= wide_x && y > 0 {
            Animation::RunUp
        } else {
            Animation::RunDown
        }
    }

    /// Chooses the idle animation from the name of the animation that the
    /// sprite shows now.
    pub fn idle_animation(current: &str) -> (animation: Animation)
        ensures
            animation == idle_animation_of(current@),
    {
        if has_substring(current, "run_up") {
            Animation::IdleUp
        } else if has_substring(current, "run_down") {
            Animation::IdleDown
        } else if has_substring(current, "run_left") {
            Animation::IdleLeft
        } else if has_substring(current, "run_right") {
            Animation::IdleRight
        } else {
            Animation::IdleDown
        }
    }

    /// Decides one physics frame from the keys held down and the name of the
    /// animation that the sprite shows now. The caller scales the direction
    /// to the player's speed and moves the node.
    pub fn physics_process(&self, input: MoveInput, current_animation: &str) -> (step: Step)
        ensures
            step == physics_step(input, current_animation@),
    {
        let dx = axis_of(input.left, input.right);
        let dy = axis_of(input.up, input.down);
        let animation = if dx != 0 || dy != 0 {
            Player::run_animation(dx, dy)
        } else {
            Player::idle_animation(current_animation)
        };
        Step { dx, dy, animation }
    }

    /// The player was hit by a body: it disappears, says so, and stops
    /// colliding.
    pub fn on_player_body_entered(&self) -> (commands: Vec<PlayerCommand>)
        ensures
            commands@ == seq![
                PlayerCommand::Hide,
                PlayerCommand::EmitHit,
                PlayerCommand::DisableCollision,
            ],
    {
        vec![PlayerCommand::Hide, PlayerCommand::EmitHit, PlayerCommand::DisableCollision]
    }

    /// A new game starts: the player is put in place, shown, and collides
    /// again.
    pub fn start(&self) -> (commands: Vec<PlayerCommand>)
        ensures
            commands@ == seq![
                PlayerCommand::Place,
                PlayerCommand::Show,
                PlayerCommand::EnableCollision,
            ],
    {
        vec![PlayerCommand::Place, PlayerCommand::Show, PlayerCommand::EnableCollision]
    }
}

/// What the eight names hold, character by character.
proof fn reveal_names()
    ensures
        Animation::RunRight.spec_name() =~= seq!['r', 'u', 'n', '_', 'r', 'i', 'g', 'h', 't'],
        Animation::RunLeft.spec_name() =~= seq!['r', 'u', 'n', '_', 'l', 'e', 'f', 't'],
        Animation::RunUp.spec_name() =~= seq!['r', 'u', 'n', '_', 'u', 'p'],
        Animation::RunDown.spec_name() =~= seq!['r', 'u', 'n', '_', 'd', 'o', 'w', 'n'],
        Animation::IdleRight.spec_name() =~= seq!['i', 'd', 'l', 'e', '_', 'r', 'i', 'g', 'h', 't'],
        Animation::IdleLeft.spec_name() =~= seq!['i', 'd', 'l', 'e', '_', 'l', 'e', 'f', 't'],
        Animation::IdleUp.spec_name() =~= seq!['i', 'd', 'l', 'e', '_', 'u', 'p'],
        Animation::IdleDown.spec_name() =~= seq!['i', 'd', 'l', 'e', '_', 'd', 'o', 'w', 'n'],
{
    reveal_strlit("run_right");
    reveal_strlit("run_left");
    reveal_strlit("run_up");
    reveal_strlit("run_down");
    reveal_strlit("idle_right");
    reveal_strlit("idle_left");
    reveal_strlit("idle_up");
    reveal_strlit("idle_down");
}

/// Where a text stands in another, the two agree on the text's first,
/// second and fifth character.
proof fn lemma_occurrence_agrees(hay: Seq<char>, needle: Seq<char>, at: int)
    requires
        occurs_at(hay, needle, at),
        needle.len() >= 5,
    ensures
        at + 5 <= hay.len(),
        hay[at] == needle[0],
        hay[at + 1] == needle[1],
        hay[at + 4] == needle[4],
{
    let part = hay.subrange(at, at + needle.len());
    assert(part[0] == hay[at]);
    assert(part[1] == hay[at + 1]);
    assert(part[4] == hay[at + 4]);
}

/// The name of an animation holds the name of a running animation only
/// where the two are the same animation.
pub proof fn lemma_run_name_occurs(shown: Animation, run: Animation)
    requires
        run.is_run(),
    ensures
        occurs_in(shown.spec_name(), run.spec_name()) <==> shown == run,
{
    reveal_names();
    let hay = shown.spec_name();
    let needle = run.spec_name();
    if shown == run {
        assert(hay.subrange(0, hay.len() as int) =~= hay);
        assert(occurs_at(hay, needle, 0));
    } else {
        assert forall|at: int| !occurs_at(hay, needle, at) by {
            if occurs_at(hay, needle, at) {
                lemma_occurrence_agrees(hay, needle, at);
                assert(0 <= at <= 5);
                assert(at == 0 || at == 1 || at == 2 || at == 3 || at == 4 || at == 5);
            }
        }
    }
}

/// After a running animation the player idles facing the same way.
pub proof fn lemma_idle_after_run(run: Animation)
    requires
        run.is_run(),
    ensures
        idle_animation_of(run.spec_name()) == run.at_rest(),
{
    lemma_run_name_occurs(run, Animation::RunUp);
    lemma_run_name_occurs(run, Animation::RunDown);
    lemma_run_name_occurs(run, Animation::RunLeft);
    lemma_run_name_occurs(run, Animation::RunRight);
}

/// After an idle animation the player idles facing down, whichever way it
/// faced.
pub proof fn lemma_idle_after_idle(idle: Animation)
    requires
        !idle.is_run(),
    ensures
        idle_animation_of(idle.spec_name()) == Animation::IdleDown,
{
    lemma_run_name_occurs(idle, Animation::RunUp);
    lemma_run_name_occurs(idle, Animation::RunDown);
    lemma_run_name_occurs(idle, Animation::RunLeft);
    lemma_run_name_occurs(idle, Animation::RunRight);
}

/// A velocity and the same velocity made `factor` times as fast select the
/// same running animation: the direction of travel alone decides.
pub proof fn lemma_run_animation_scales(x: int, y: int, factor: int)
    requires
        factor > 0,
    ensures
        run_animation_of(factor * x, factor * y) == run_animation_of(x, y),
{
    assert(magnitude(factor * x) == factor * magnitude(x)) by (nonlinear_arith)
        requires
            factor > 0,
    ;
    assert(magnitude(factor * y) == factor * magnitude(y)) by (nonlinear_arith)
        requires
            factor > 0,
    ;
    assert((factor * x > 0) == (x > 0) && (factor * x < 0) == (x < 0)) by (nonlinear_arith)
        requires
            factor > 0,
    ;
    assert((factor * y > 0) == (y > 0) && (factor * y < 0) == (y < 0)) by (nonlinear_arith)
        requires
            factor > 0,
    ;
    assert((factor * magnitude(x) > factor * magnitude(y)) == (magnitude(x) > magnitude(y)))
        by (nonlinear_arith)
        requires
            factor > 0,
    ;
}

/// The player runs exactly while it moves: keys that cancel, or no key at
/// all, leave it idle.
pub proof fn lemma_runs_while_moving(input: MoveInput, current: Seq<char>)
    ensures
        physics_step(input, current).animation.is_run() <==> (input.left != input.right
            || input.up != input.down),
        -1 <= physics_step(input, current).dx <= 1,
        -1 <= physics_step(input, current).dy <= 1,
{
}

} // verus!
