use pong::ball::{Ball, Side};
use pong::field::Field;
use pong::racket::{Color, Racket};
use pong::units::Vector2;

fn window() -> Field {
    Field { width: 64000, height: 48000 }
}

fn ball(position: Vector2, speed: Vector2) -> Ball {
    let ball = Ball { position, speed, radius: 700, color: Color::Black, active: true };
    assert!(ball.is_valid());
    ball
}

fn left_racket() -> Racket {
    Racket { position: Vector2::new(6400, 24000), size: Vector2::new(2133, 8000), color: Color::Blue }
}

fn right_racket() -> Racket {
    Racket { position: Vector2::new(57600, 24000), size: Vector2::new(2133, 8000), color: Color::Red }
}

#[test]
fn default_ball_rests_at_the_origin() {
    let ball = Ball::default();
    assert_eq!(ball.position, Vector2::zero());
    assert_eq!(ball.speed, Vector2::zero());
    assert_eq!(ball.radius, 0);
    assert_eq!(ball.color, Color::Blank);
    assert!(!ball.active);
    assert!(ball.is_valid());
}

#[test]
fn ball_validity_checks_each_bound() {
    let good = ball(Vector2::new(0, 0), Vector2::new(600, -600));
    assert!(good.is_valid());
    assert!(!Ball { radius: -1, ..good }.is_valid());
    assert!(!Ball { radius: 1_000_001, ..good }.is_valid());
    assert!(Ball { radius: 1_000_000, ..good }.is_valid());
    assert!(!Ball { position: Vector2::new(1_000_000_001, 0), ..good }.is_valid());
    assert!(!Ball { position: Vector2::new(0, -1_000_000_001), ..good }.is_valid());
    assert!(!Ball { speed: Vector2::new(2_000_000_001, 600), ..good }.is_valid());
    assert!(Ball { speed: Vector2::new(2_000_000_000, -2_000_000_000), ..good }.is_valid());
    assert!(!Ball { speed: Vector2::new(600, i32::MIN), ..good }.is_valid());
    assert!(!Ball { active: false, ..good }.is_valid());
    assert!(Ball { active: false, speed: Vector2::zero(), ..good }.is_valid());
}

#[test]
fn serve_starts_the_ball() {
    let mut resting = Ball { active: false, ..ball(Vector2::new(32000, 24000), Vector2::zero()) };
    resting.serve(Vector2::new(600, 800));
    assert_eq!(resting, ball(Vector2::new(32000, 24000), Vector2::new(600, 800)));
}

#[test]
fn ball_in_play_moves_by_its_speed() {
    let mut moving = ball(Vector2::new(32000, 24000), Vector2::new(-650, 720));
    moving.advance(&window());
    assert_eq!(moving, ball(Vector2::new(31350, 24720), Vector2::new(-650, 720)));
}

#[test]
fn ball_at_rest_is_put_in_the_center() {
    let mut resting = Ball { active: false, ..ball(Vector2::new(5, 7), Vector2::zero()) };
    resting.advance(&window());
    assert_eq!(resting.position, Vector2::new(32000, 24000));
    resting.advance(&Field { width: 64001, height: 48001 });
    assert_eq!(resting.position, Vector2::new(32000, 24000));
    resting.advance(&Field { width: 3, height: 1 });
    assert_eq!(resting.position, Vector2::new(1, 0));
}

#[test]
fn ball_stops_at_the_end_of_the_coordinate_range() {
    let mut moving = ball(Vector2::new(999_999_900, -999_999_900), Vector2::new(600, -600));
    moving.advance(&window());
    assert_eq!(moving.position, Vector2::new(1_000_000_000, -1_000_000_000));
}

#[test]
fn floor_raises_slow_speeds_and_keeps_their_sign() {
    let cases: [(i32, i32); 9] = [
        (0, 500),
        (1, 500),
        (-1, -500),
        (499, 500),
        (-499, -500),
        (500, 500),
        (-500, -500),
        (501, 501),
        (-1000, -1000),
    ];
    for (before, after) in cases {
        let mut moving = ball(Vector2::new(32000, 24000), Vector2::new(before, -before));
        moving.enforce_floor();
        assert_eq!(moving.speed.x, after);
        let mut moving = ball(Vector2::new(32000, 24000), Vector2::new(700, before));
        moving.enforce_floor();
        assert_eq!(moving.speed, Vector2::new(700, after));
    }
}

#[test]
fn floor_leaves_a_resting_ball_alone() {
    let mut resting = Ball { active: false, ..ball(Vector2::new(32000, 24000), Vector2::zero()) };
    resting.enforce_floor();
    assert_eq!(resting.speed, Vector2::zero());
}

#[test]
fn wall_reverses_the_vertical_speed() {
    let mut low = ball(Vector2::new(32000, 47300), Vector2::new(600, 500));
    low.reflect(&window());
    assert_eq!(low, ball(Vector2::new(32000, 47300), Vector2::new(600, -500)));

    let mut high = ball(Vector2::new(32000, 700), Vector2::new(-600, -800));
    high.reflect(&window());
    assert_eq!(high, ball(Vector2::new(32000, 700), Vector2::new(-600, 800)));
}

#[test]
fn wall_reverses_a_ball_that_is_leaving_it_too() {
    let mut low = ball(Vector2::new(32000, 47500), Vector2::new(600, -500));
    low.reflect(&window());
    assert_eq!(low.speed, Vector2::new(600, 500));
}

#[test]
fn ball_clear_of_the_walls_keeps_its_speed() {
    let mut low = ball(Vector2::new(32000, 47299), Vector2::new(600, 500));
    low.reflect(&window());
    assert_eq!(low.speed, Vector2::new(600, 500));

    let mut high = ball(Vector2::new(32000, 701), Vector2::new(600, -500));
    high.reflect(&window());
    assert_eq!(high.speed, Vector2::new(600, -500));
}

#[test]
fn stop_brings_the_ball_to_rest_in_place() {
    let mut moving = ball(Vector2::new(64100, 24100), Vector2::new(600, 500));
    moving.stop();
    assert_eq!(moving.position, Vector2::new(64100, 24100));
    assert_eq!(moving.speed, Vector2::zero());
    assert!(!moving.active);
    assert_eq!(moving.radius, 700);
}

#[test]
fn ball_touches_the_face_of_a_racket() {
    let racket = left_racket();
    assert!(ball(Vector2::new(8166, 24000), Vector2::new(-600, 500)).hits(&racket));
    assert!(!ball(Vector2::new(8167, 24000), Vector2::new(-600, 500)).hits(&racket));
    assert!(ball(Vector2::new(4634, 24000), Vector2::new(-600, 500)).hits(&racket));
    assert!(!ball(Vector2::new(4633, 24000), Vector2::new(-600, 500)).hits(&racket));
    assert!(ball(Vector2::new(6400, 28700), Vector2::new(-600, 500)).hits(&racket));
    assert!(!ball(Vector2::new(6400, 28701), Vector2::new(-600, 500)).hits(&racket));
    assert!(ball(Vector2::new(6400, 24000), Vector2::new(-600, 500)).hits(&racket));
}

#[test]
fn ball_touches_the_corner_of_a_racket_within_its_radius() {
    let racket = Racket {
        position: Vector2::new(1000, 1000),
        size: Vector2::new(200, 400),
        color: Color::Red,
    };
    let near = Ball {
        position: Vector2::new(1100 + 300, 1200 + 400),
        speed: Vector2::zero(),
        radius: 500,
        color: Color::Black,
        active: false,
    };
    assert!(near.hits(&racket));
    assert!(!Ball { radius: 499, ..near }.hits(&racket));
    assert!(!Ball { position: Vector2::new(1401, 1600), ..near }.hits(&racket));
    assert!(Ball { position: Vector2::new(600, 400), ..near }.hits(&racket));
    assert!(!Ball { position: Vector2::new(600, 399), ..near }.hits(&racket));
}

#[test]
fn bounce_turns_the_ball_back_and_sets_the_angle() {
    let mut moving = ball(Vector2::new(7500, 25500), Vector2::new(-600, 500));
    moving.bounce(&left_racket(), Side::Left);
    assert_eq!(moving, ball(Vector2::new(7500, 25500), Vector2::new(600, 375)));

    let mut moving = ball(Vector2::new(56500, 22000), Vector2::new(800, 500));
    moving.bounce(&right_racket(), Side::Right);
    assert_eq!(moving, ball(Vector2::new(56500, 22000), Vector2::new(-800, -500)));
}

#[test]
fn bounce_at_the_middle_of_the_racket_is_level() {
    let mut moving = ball(Vector2::new(7500, 24000), Vector2::new(-600, 500));
    moving.bounce(&left_racket(), Side::Left);
    assert_eq!(moving.speed, Vector2::new(600, 0));
}

#[test]
fn bounce_at_the_edge_of_the_face_has_the_largest_angle() {
    let mut moving = ball(Vector2::new(7500, 28000), Vector2::new(-600, 500));
    moving.bounce(&left_racket(), Side::Left);
    assert_eq!(moving.speed, Vector2::new(600, 1000));

    let mut moving = ball(Vector2::new(7500, 20000), Vector2::new(-600, 500));
    moving.bounce(&left_racket(), Side::Left);
    assert_eq!(moving.speed, Vector2::new(600, -1000));
}

#[test]
fn bounce_beyond_the_face_is_steeper_than_the_largest_serve() {
    let mut moving = ball(Vector2::new(7500, 28500), Vector2::new(-600, 500));
    moving.bounce(&left_racket(), Side::Left);
    assert_eq!(moving.speed, Vector2::new(600, 1125));
}

#[test]
fn bounce_rounds_the_angle_toward_level() {
    let mut moving = ball(Vector2::new(7500, 22499), Vector2::new(-600, 500));
    moving.bounce(&left_racket(), Side::Left);
    assert_eq!(moving.speed, Vector2::new(600, -375));

    let mut moving = ball(Vector2::new(7500, 25501), Vector2::new(-600, 500));
    moving.bounce(&left_racket(), Side::Left);
    assert_eq!(moving.speed, Vector2::new(600, 375));
}

#[test]
fn ball_moving_away_from_a_racket_passes_it() {
    let mut moving = ball(Vector2::new(7500, 25500), Vector2::new(600, 500));
    moving.bounce(&left_racket(), Side::Left);
    assert_eq!(moving.speed, Vector2::new(600, 500));

    let mut moving = ball(Vector2::new(56500, 22000), Vector2::new(-800, 500));
    moving.bounce(&right_racket(), Side::Right);
    assert_eq!(moving.speed, Vector2::new(-800, 500));
}

#[test]
fn ball_apart_from_a_racket_keeps_its_speed() {
    let mut moving = ball(Vector2::new(8167, 24000), Vector2::new(-600, 500));
    moving.bounce(&left_racket(), Side::Left);
    assert_eq!(moving.speed, Vector2::new(-600, 500));
}

#[test]
fn resting_ball_on_a_racket_stays_at_rest() {
    let mut resting = Ball { active: false, ..ball(Vector2::new(6400, 24500), Vector2::zero()) };
    resting.bounce(&left_racket(), Side::Left);
    assert_eq!(resting.speed, Vector2::zero());
    resting.bounce(&left_racket(), Side::Right);
    assert_eq!(resting.speed, Vector2::zero());
}

#[test]
fn largest_ball_on_the_shortest_racket_reaches_the_speed_limit() {
    let racket = Racket { position: Vector2::new(0, 0), size: Vector2::new(0, 1), color: Color::Red };
    let mut huge = Ball {
        position: Vector2::new(1000, 1_000_000),
        speed: Vector2::new(-500, 500),
        radius: 1_000_000,
        color: Color::Black,
        active: true,
    };
    assert!(huge.is_valid() && racket.is_valid());
    assert!(!huge.hits(&racket));
    huge.position = Vector2::new(999, 1_000_000);
    assert!(huge.hits(&racket));
    huge.position = Vector2::new(0, 1_000_000);
    assert!(huge.hits(&racket));
    huge.bounce(&racket, Side::Left);
    assert_eq!(huge.speed, Vector2::new(500, 2_000_000_000));
    assert!(huge.is_valid());
}
