use pong::field::Field;
use pong::game::{init, Game};
use pong::racket::{Color, Racket};
use pong::scene::{draw, outline_of, Disc, Label, Rectangle, Scene, FONT_SIZE};
use pong::units::Vector2;

#[test]
fn opening_scene_of_the_standard_window() {
    let field = Field::of_window(640, 480).unwrap();
    let mut game = Game::default();
    init(&mut game, &field);
    assert_eq!(
        draw(&game, &field),
        Scene {
            background: Color::White,
            racket_one: Rectangle { x: 53, y: 200, width: 21, height: 80, color: Color::Blue },
            racket_two: Rectangle { x: 565, y: 200, width: 21, height: 80, color: Color::Red },
            ball: Disc { center: Vector2::new(32000, 24000), radius: 700, color: Color::Black },
            score_one: Label { number: 0, x: 160, y: 120, size: 72, color: Color::Black },
            score_two: Label { number: 0, x: 480, y: 120, size: 72, color: Color::Black },
        }
    );
    assert_eq!(FONT_SIZE, 72);
}

#[test]
fn scene_shows_the_scores_and_the_ball_where_they_are() {
    let field = Field::of_window(640, 480).unwrap();
    let mut game = Game::default();
    init(&mut game, &field);
    game.player_one.score = 7;
    game.player_two.score = 255;
    game.ball.position = Vector2::new(12345, -678);
    game.ball.radius = 900;
    let scene = draw(&game, &field);
    assert_eq!(scene.score_one.number, 7);
    assert_eq!(scene.score_two.number, 255);
    assert_eq!(scene.ball, Disc { center: Vector2::new(12345, -678), radius: 900, color: Color::Black });
}

#[test]
fn labels_sit_at_quarters_of_the_window_in_whole_pixels() {
    let field = Field::of_window(643, 481).unwrap();
    let game = Game::default();
    let scene = draw(&game, &field);
    assert_eq!((scene.score_one.x, scene.score_one.y), (160, 120));
    assert_eq!((scene.score_two.x, scene.score_two.y), (480, 120));

    let scene = draw(&game, &Field { width: 64399, height: 399 });
    assert_eq!((scene.score_one.x, scene.score_one.y), (160, 0));
    assert_eq!((scene.score_two.x, scene.score_two.y), (480, 0));
}

#[test]
fn outline_rounds_toward_zero() {
    let racket = Racket { position: Vector2::new(100, -100), size: Vector2::new(399, 250), color: Color::Red };
    assert_eq!(
        outline_of(&racket),
        Rectangle { x: 0, y: -2, width: 3, height: 2, color: Color::Red }
    );
    let racket = Racket { position: Vector2::new(-100, 325), size: Vector2::new(1, 50), color: Color::Blue };
    assert_eq!(
        outline_of(&racket),
        Rectangle { x: -1, y: 3, width: 0, height: 0, color: Color::Blue }
    );
}

#[test]
fn outline_of_any_racket_fits_the_pixel_grid() {
    let racket = Racket {
        position: Vector2::new(i32::MIN, i32::MAX),
        size: Vector2::new(i32::MAX, i32::MIN),
        color: Color::Blank,
    };
    assert_eq!(
        outline_of(&racket),
        Rectangle { x: -32212254, y: 32212254, width: 21474836, height: -21474836, color: Color::Blank }
    );
}
