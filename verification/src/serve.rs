//! The serve: random speeds are drawn until one is fit to play.

use rand::rngs::ThreadRng;
use rand::Rng;
use vstd::prelude::*;
use crate::units::{magnitude, Vector2, BALL_MAX_SPEED, BALL_MIN_SPEED};

verus! {

/// How many speeds are drawn for one serve.
pub const SERVE_ATTEMPTS: usize = 64;

/// The handle of the thread's random number generator, `rand::rngs::ThreadRng`.
/// Nothing is known of what it holds.
#[verifier::external_type_specification]
#[verifier::external_body]
pub struct ExThreadRng(rand::rngs::ThreadRng);

/// Draws an integer by `rand::Rng::gen_range` on the range from `low` up to,
/// and without, `high`. The range must not be empty, or the call panics; the
/// number drawn lies in the range, and nothing else is known of it. The call
/// panics too if the thread's generator is due for fresh seed and the
/// system's source of randomness fails: that lies with the machine, and no
/// argument can rule it out.
#[verifier::external_body]
fn gen_range(rng: &mut ThreadRng, low: i32, high: i32) -> (drawn: i32)
    requires
        low < high,
    ensures
        low <= drawn < high,
{
    rng.gen_range(low..high)
}

/// A speed that a draw can give: each component from `-BALL_MAX_SPEED` up
/// to, and without, `BALL_MAX_SPEED`.
pub open spec fn drawable(speed: Vector2) -> bool {
    &&& -BALL_MAX_SPEED <= speed.x < BALL_MAX_SPEED
    &&& -BALL_MAX_SPEED <= speed.y < BALL_MAX_SPEED
}

/// A speed fit to serve with: fast enough sideways, and not level.
pub open spec fn acceptable(speed: Vector2) -> bool {
    &&& magnitude(speed.x as int) >= BALL_MIN_SPEED
    &&& speed.y != 0
}

/// `draws[i]` is acceptable and nothing before it is.
pub open spec fn first_acceptable_at(draws: Seq<Vector2>, i: int) -> bool {
    &&& 0 <= i < draws.len()
    &&& acceptable(draws[i])
    &&& forall|j: int| 0 <= j < i ==> !acceptable(#[trigger] draws[j])
}

/// The speed that a serve takes from `draws`: the first acceptable one, if
/// there is any.
pub open spec fn chosen(draws: Seq<Vector2>) -> Option<Vector2> {
    if exists|i: int| first_acceptable_at(draws, i) {
        Some(draws[choose|i: int| first_acceptable_at(draws, i)])
    } else {
        None
    }
}

/// There is at most one first acceptable draw.
pub proof fn lemma_first_acceptable_is_unique(draws: Seq<Vector2>, i: int, j: int)
    requires
        first_acceptable_at(draws, i),
        first_acceptable_at(draws, j),
    ensures
        i == j,
{
}

/// Tells whether `speed` is fit to serve with.
pub fn is_acceptable(speed: Vector2) -> (ok: bool)
    ensures
        ok == acceptable(speed),
{
    (speed.x <= -BALL_MIN_SPEED || speed.x >= BALL_MIN_SPEED) && speed.y != 0
}

/// Picks the speed of a serve from the speeds drawn for it.
pub fn choose_serve(draws: &Vec<Vector2>) -> (serve: Option<Vector2>)
    ensures
        serve == chosen(draws@),
        serve matches Some(v) ==> exists|i: int| first_acceptable_at(draws@, i) && draws@[i] == v,
        serve is None ==> forall|i: int| 0 <= i < draws@.len() ==> !acceptable(#[trigger] draws@[i]),
{
    let mut i: usize = 0;
    while i < draws.len()
        invariant
            i <= draws.len(),
            forall|j: int| 0 <= j < i ==> !acceptable(#[trigger] draws@[j]),
        decreases draws.len() - i,
    {
        if is_acceptable(draws[i]) {
            proof {
                assert(first_acceptable_at(draws@, i as int));
                let k = choose|k: int| first_acceptable_at(draws@, k);
                lemma_first_acceptable_is_unique(draws@, i as int, k);
            }
            return Some(draws[i]);
        }
        i += 1;
    }
    None
}

/// Draws `count` speeds for a serve.
pub fn draw_candidates(rng: &mut ThreadRng, count: usize) -> (draws: Vec<Vector2>)
    ensures
        draws@.len() == count,
        forall|i: int| 0 <= i < count ==> drawable(#[trigger] draws@[i]),
{
    let mut draws: Vec<Vector2> = Vec::new();
    while draws.len() < count
        invariant
            draws@.len() <= count,
            forall|i: int| 0 <= i < draws@.len() ==> drawable(#[trigger] draws@[i]),
        decreases count - draws@.len(),
    {
        let x: i32 = gen_range(rng, -BALL_MAX_SPEED, BALL_MAX_SPEED);
        let y: i32 = gen_range(rng, -BALL_MAX_SPEED, BALL_MAX_SPEED);
        draws.push(Vector2 { x, y });
    }
    draws
}

/// Draws the speed of a serve: the first acceptable one of `SERVE_ATTEMPTS`
/// draws, or none if chance made every one unfit.
pub fn draw_serve(rng: &mut ThreadRng) -> (serve: Option<Vector2>)
    ensures
        serve matches Some(v) ==> acceptable(v) && drawable(v),
{
    let draws: Vec<Vector2> = draw_candidates(rng, SERVE_ATTEMPTS);
    choose_serve(&draws)
}

} // verus!
