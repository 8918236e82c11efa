//! What holds of every frame, stated over the step `Game::next`.

use vstd::prelude::*;
use crate::ball::{floored, Ball, Side};
use crate::field::Field;
use crate::game::{Game, Input};
use crate::racket::Racket;
use crate::serve::acceptable;
use crate::units::{
    magnitude, saturate, Vector2, BALL_MAX_SPEED, BALL_MIN_SPEED, COORD_LIMIT, MOVEMENT_SPEED,
    SPEED_LIMIT,
};

verus! {

/// A frame takes a well-formed match to a well-formed match, and so does
/// the part of it that moves things.
pub proof fn lemma_frame_keeps_well_formed(
    game: Game,
    field: Field,
    input: Input,
    serve: Option<Vector2>,
)
    requires
        game.wf(),
        field.wf(),
        serve matches Some(v) ==> v.within(SPEED_LIMIT as int),
    ensures
        game.in_motion(field, input, serve).wf(),
        game.next(field, input, serve).wf(),
{
    let moved = game.in_motion(field, input, serve);
    assert(moved.wf());
    let counted = Game { ball: moved.ball.reflected(field), ..moved }.scored(field);
    assert(counted.wf());
    let one = counted.player_one.racket;
    let two = counted.player_two.racket;
    if counted.ball.touches(one) {
        counted.ball.lemma_deflection_in_range(one);
    }
    let met = counted.ball.bounced(one, Side::Left);
    assert(met.wf());
    if met.touches(two) {
        met.lemma_deflection_in_range(two);
    }
}

/// A ball that is at rest while a frame moves things lies at rest in the
/// exact centre of the field after the frame.
pub proof fn lemma_resting_ball_is_centered(
    game: Game,
    field: Field,
    input: Input,
    serve: Option<Vector2>,
)
    requires
        game.wf(),
        field.wf(),
        !game.ball.active,
        !game.serves(input, serve),
    ensures
        !game.next(field, input, serve).ball.active,
        game.next(field, input, serve).ball.position == field.center(),
        game.next(field, input, serve).ball.speed.is_zero(),
{
}

/// A served ball is fast along both axes and not level once the frame of
/// the serve has applied the speed floor. At the end of that frame it is
/// still fast sideways if it is in play, and fast along both axes and not
/// level if it is in play and has touched no racket.
pub proof fn lemma_served_ball_is_fast(game: Game, field: Field, input: Input, speed: Vector2)
    requires
        game.wf(),
        field.wf(),
        game.serves(input, Some(speed)),
        acceptable(speed),
        speed.within(SPEED_LIMIT as int),
    ensures
        ({
            let moved = game.in_motion(field, input, Some(speed));
            &&& moved.ball.active
            &&& moved.ball.speed.x == speed.x
            &&& moved.ball.speed.y == floored(speed.y as int)
            &&& magnitude(moved.ball.speed.x as int) >= BALL_MIN_SPEED
            &&& magnitude(moved.ball.speed.y as int) >= BALL_MIN_SPEED
            &&& moved.ball.speed.y != 0
        }),
        ({
            let after = game.next(field, input, Some(speed));
            &&& after.ball.active ==> magnitude(after.ball.speed.x as int) >= BALL_MIN_SPEED
            &&& after.ball.active && !after.ball.touches(after.player_one.racket)
                && !after.ball.touches(after.player_two.racket) ==> magnitude(
                after.ball.speed.y as int,
            ) >= BALL_MIN_SPEED && after.ball.speed.y != 0
        }),
{
}

/// After the speed floor of any frame the ball is fast along both axes, or
/// at rest with no speed; at the end of the frame it is fast sideways, or at
/// rest with no speed.
pub proof fn lemma_ball_is_fast_or_at_rest(
    game: Game,
    field: Field,
    input: Input,
    serve: Option<Vector2>,
)
    requires
        game.wf(),
        field.wf(),
        serve matches Some(v) ==> v.within(SPEED_LIMIT as int),
    ensures
        ({
            let moved = game.in_motion(field, input, serve);
            if moved.ball.active {
                &&& magnitude(moved.ball.speed.x as int) >= BALL_MIN_SPEED
                &&& magnitude(moved.ball.speed.y as int) >= BALL_MIN_SPEED
            } else {
                moved.ball.speed.is_zero()
            }
        }),
        ({
            let after = game.next(field, input, serve);
            if after.ball.active {
                magnitude(after.ball.speed.x as int) >= BALL_MIN_SPEED
            } else {
                after.ball.speed.is_zero()
            }
        }),
{
    lemma_frame_keeps_well_formed(game, field, input, serve);
}

/// The match after the frames `frames`, each the keys of a frame and the
/// speed that a serve in it would take.
pub open spec fn after_frames(game: Game, field: Field, frames: Seq<(Input, Option<Vector2>)>)
    -> Game
    decreases frames.len(),
{
    if frames.len() == 0 {
        game
    } else {
        after_frames(game, field, frames.drop_last()).next(field, frames.last().0, frames.last().1)
    }
}

/// However many frames have passed, and whatever the keys and serves were,
/// the match is well formed, a first player's racket that lay on the field
/// at the start lies on it still, and once a frame has passed the ball is
/// fast sideways or at rest with no speed.
pub proof fn lemma_every_frame_is_sound(
    game: Game,
    field: Field,
    frames: Seq<(Input, Option<Vector2>)>,
)
    requires
        game.wf(),
        field.wf(),
        forall|i: int|
            0 <= i < frames.len() ==> ((#[trigger] frames[i]).1 matches Some(v) ==> v.within(
                SPEED_LIMIT as int,
            )),
    ensures
        after_frames(game, field, frames).wf(),
        game.player_one.racket.on_screen(field) ==> after_frames(
            game,
            field,
            frames,
        ).player_one.racket.on_screen(field),
        frames.len() > 0 ==> ({
            let now = after_frames(game, field, frames);
            if now.ball.active {
                magnitude(now.ball.speed.x as int) >= BALL_MIN_SPEED
            } else {
                now.ball.speed.is_zero()
            }
        }),
    decreases frames.len(),
{
    if frames.len() > 0 {
        let before = frames.drop_last();
        assert forall|i: int| 0 <= i < before.len() implies ((#[trigger] before[i]).1 matches Some(
            v,
        ) ==> v.within(SPEED_LIMIT as int)) by {
            assert(before[i] == frames[i]);
        }
        lemma_every_frame_is_sound(game, field, before);
        let last = frames.last();
        lemma_ball_is_fast_or_at_rest(after_frames(game, field, before), field, last.0, last.1);
        lemma_frame_keeps_well_formed(after_frames(game, field, before), field, last.0, last.1);
        lemma_first_racket_stays_on_screen(
            after_frames(game, field, before),
            field,
            last.0,
            last.1,
        );
    }
}

/// A first player's racket that lies on the field stays on the field,
/// whatever keys are held. In a frame it moves up or down by a step at most,
/// not at all while neither key is held, and never sideways.
pub proof fn lemma_first_racket_stays_on_screen(
    game: Game,
    field: Field,
    input: Input,
    serve: Option<Vector2>,
)
    requires
        game.wf(),
        field.wf(),
    ensures
        ({
            let before = game.player_one.racket;
            let after = game.next(field, input, serve).player_one.racket;
            &&& before.on_screen(field) ==> after.on_screen(field)
            &&& magnitude(after.position.y - before.position.y) <= MOVEMENT_SPEED
            &&& !input.up && !input.down ==> after.position.y == before.position.y
            &&& after.position.x == before.position.x
            &&& after.size == before.size
        }),
{
}

/// No frame gives both players a point, and a frame gives a point only to
/// the player whose end the ball has not passed.
pub proof fn lemma_one_point_a_frame(
    game: Game,
    field: Field,
    input: Input,
    serve: Option<Vector2>,
)
    requires
        game.wf(),
        field.wf(),
    ensures
        ({
            let after = game.next(field, input, serve);
            ||| after.player_one.score == game.player_one.score
            ||| after.player_two.score == game.player_two.score
        }),
{
}

/// At a wall the vertical speed is reversed, elsewhere it is kept, and the
/// rest of the ball is as it was.
pub proof fn lemma_wall_reverses(ball: Ball, field: Field)
    requires
        ball.wf(),
    ensures
        ball.at_wall(field) ==> ball.reflected(field).speed.y == -ball.speed.y,
        !ball.at_wall(field) ==> ball.reflected(field).speed.y == ball.speed.y,
        ball.reflected(field).speed.x == ball.speed.x,
        ball.reflected(field).position == ball.position,
        ball.reflected(field).active == ball.active,
{
}

/// A ball in play is carried on by its speed in a frame, stopping only at
/// the end of the coordinate range, and leaves the frame's motion with the
/// speed floor applied to the speed it came with.
pub proof fn lemma_ball_in_play_moves_by_its_speed(
    game: Game,
    field: Field,
    input: Input,
    serve: Option<Vector2>,
)
    requires
        game.wf(),
        field.wf(),
        game.ball.active,
    ensures
        ({
            let before = game.ball;
            let moved = game.in_motion(field, input, serve).ball;
            &&& moved.active
            &&& moved.position.x == saturate(before.position.x + before.speed.x)
            &&& moved.position.y == saturate(before.position.y + before.speed.y)
            &&& -COORD_LIMIT <= before.position.x + before.speed.x <= COORD_LIMIT
                ==> moved.position.x == before.position.x + before.speed.x
            &&& -COORD_LIMIT <= before.position.y + before.speed.y <= COORD_LIMIT
                ==> moved.position.y == before.position.y + before.speed.y
            &&& moved.speed.x == floored(before.speed.x as int)
            &&& moved.speed.y == floored(before.speed.y as int)
        }),
{
}

/// The racket of the player who guards `side`.
pub open spec fn guard(game: Game, side: Side) -> Racket {
    match side {
        Side::Left => game.player_one.racket,
        Side::Right => game.player_two.racket,
    }
}

/// A ball in play that the frame's motion brings to a wall, short of both
/// ends of the field and clear of both rackets, ends the frame where the
/// motion brought it, with its vertical speed reversed and nothing else
/// changed; nobody wins a point.
pub proof fn lemma_wall_turns_ball_in_frame(
    game: Game,
    field: Field,
    input: Input,
    serve: Option<Vector2>,
)
    requires
        game.wf(),
        field.wf(),
        serve matches Some(v) ==> v.within(SPEED_LIMIT as int),
        ({
            let moved = game.in_motion(field, input, serve);
            &&& moved.ball.active
            &&& moved.ball.at_wall(field)
            &&& !moved.ball.past_right(field)
            &&& !moved.ball.past_left()
            &&& !moved.ball.touches(moved.player_one.racket)
            &&& !moved.ball.touches(moved.player_two.racket)
        }),
    ensures
        ({
            let moved = game.in_motion(field, input, serve);
            let after = game.next(field, input, serve);
            &&& after.ball.speed.y == -moved.ball.speed.y
            &&& after.ball.speed.x == moved.ball.speed.x
            &&& after.ball.position == moved.ball.position
            &&& after.ball.active
            &&& after.player_one == moved.player_one
            &&& after.player_two == moved.player_two
            &&& after.player_one.score == game.player_one.score
            &&& after.player_two.score == game.player_two.score
        }),
{
}

/// A ball in play that the frame's motion brings to the racket guarding
/// `side`, short of both ends of the field and clear of the other racket,
/// ends the frame where the motion brought it. Its horizontal speed is
/// reversed if it was moving toward that racket and kept if not, so it is
/// as fast sideways as before; nobody wins a point.
pub proof fn lemma_racket_turns_ball_in_frame(
    game: Game,
    field: Field,
    input: Input,
    serve: Option<Vector2>,
    side: Side,
)
    requires
        game.wf(),
        field.wf(),
        serve matches Some(v) ==> v.within(SPEED_LIMIT as int),
        ({
            let moved = game.in_motion(field, input, serve);
            &&& moved.ball.active
            &&& !moved.ball.past_right(field)
            &&& !moved.ball.past_left()
            &&& moved.ball.touches(moved.player_one.racket) <==> side == Side::Left
            &&& moved.ball.touches(moved.player_two.racket) <==> side == Side::Right
        }),
    ensures
        ({
            let moved = game.in_motion(field, input, serve);
            let after = game.next(field, input, serve);
            &&& after.ball.speed.x == if moved.ball.approaches(side) {
                -moved.ball.speed.x
            } else {
                moved.ball.speed.x as int
            }
            &&& magnitude(after.ball.speed.x as int) == magnitude(moved.ball.speed.x as int)
            &&& magnitude(after.ball.speed.x as int) >= BALL_MIN_SPEED
            &&& moved.ball.approaches(side) ==> after.ball.speed.y == moved.ball.deflection(
                guard(moved, side),
            )
            &&& after.ball.position == moved.ball.position
            &&& after.ball.active
            &&& after.player_one == moved.player_one
            &&& after.player_two == moved.player_two
            &&& after.player_one.score == game.player_one.score
            &&& after.player_two.score == game.player_two.score
        }),
{
    lemma_frame_keeps_well_formed(game, field, input, serve);
    let moved = game.in_motion(field, input, serve);
    let turned = moved.ball.reflected(field);
    assert(turned.touches(guard(moved, side)));
    turned.lemma_deflection_in_range(guard(moved, side));
}

/// A ball that touches a racket while moving toward it leaves with its
/// horizontal speed reversed. Its new vertical speed is within
/// `BALL_MAX_SPEED` exactly when the ball's centre is no further above or
/// below the racket's centre than half the racket's height, or so little
/// further that rounding hides it.
pub proof fn lemma_bounce_turns_back(ball: Ball, racket: Racket, side: Side)
    requires
        ball.wf(),
        racket.wf(),
        ball.touches(racket),
        ball.approaches(side),
    ensures
        ball.bounced(racket, side).speed.x == -ball.speed.x,
        ball.bounced(racket, side).speed.y == ball.deflection(racket),
        magnitude(ball.bounced(racket, side).speed.y as int) <= BALL_MAX_SPEED <==> 2 * magnitude(
            ball.position.y - racket.position.y,
        ) * BALL_MAX_SPEED < (BALL_MAX_SPEED + 1) * racket.size.y,
        2 * magnitude(ball.position.y - racket.position.y) <= racket.size.y ==> magnitude(
            ball.bounced(racket, side).speed.y as int,
        ) <= BALL_MAX_SPEED,
{
    ball.lemma_deflection_in_range(racket);
    let lift = 2 * magnitude(ball.position.y - racket.position.y) * BALL_MAX_SPEED;
    assert(magnitude(ball.deflection(racket)) == lift / (racket.size.y as int));
    lemma_quotient_under(lift, racket.size.y as int, BALL_MAX_SPEED as int);
}

/// For `n` not negative and `d` positive, `n / d` is at most `k` exactly
/// when `n` is less than `(k + 1) * d`.
proof fn lemma_quotient_under(n: int, d: int, k: int)
    by (nonlinear_arith)
    requires
        n >= 0,
        d > 0,
        k >= 0,
    ensures
        n / d <= k <==> n < (k + 1) * d,
{
}

} // verus!
