use pong::body::Vec2;
use pong::game::Pong;
use pong::keys::Keys;

#[test]
fn right_edge_gives_the_left_player_a_point() {
    for x in [1280, 1281, 5000] {
        let mut game = Pong::new();
        game.ball.position = Vec2 { x, y: 300 };
        game.score = (3, 4);
        game.wall_collision_with(123);
        assert_eq!(game.score, (4, 4));
        assert_eq!(game.ball.position, Vec2 { x: 640, y: 123 });
        assert_eq!(game.ball.velocity, Vec2 { x: -8, y: 8 });
    }
}

#[test]
fn left_edge_gives_the_right_player_a_point() {
    for x in [0, -1, -5000] {
        let mut game = Pong::new();
        game.ball.position = Vec2 { x, y: 300 };
        game.ball.velocity = Vec2 { x: -8, y: 8 };
        game.score = (3, 4);
        game.wall_collision_with(700);
        assert_eq!(game.score, (3, 5));
        assert_eq!(game.ball.position, Vec2 { x: 640, y: 700 });
        assert_eq!(game.ball.velocity, Vec2 { x: 8, y: 8 });
    }
}

#[test]
fn just_inside_the_side_edges_nothing_is_scored() {
    for x in [1, 1279] {
        let mut game = Pong::new();
        game.ball.position = Vec2 { x, y: 300 };
        let before = game;
        game.wall_collision_with(5);
        assert_eq!(game, before);
        game.wall_collision();
        assert_eq!(game, before);
    }
}

#[test]
fn top_and_bottom_turn_the_ball_back() {
    for (y, vy) in [(0, -8), (-3, -8), (720, 8), (731, 8), (0, 8), (720, -8)] {
        let mut game = Pong::new();
        game.ball.position = Vec2 { x: 500, y };
        game.ball.velocity = Vec2 { x: 8, y: vy };
        game.wall_collision_with(5);
        assert_eq!(game.ball.velocity, Vec2 { x: 8, y: -vy });
        assert_eq!(game.ball.position, Vec2 { x: 500, y });
        assert_eq!(game.score, (0, 0));
    }
}

#[test]
fn inside_the_field_the_ball_keeps_its_course() {
    for y in [1, 360, 719] {
        let mut game = Pong::new();
        game.ball.position = Vec2 { x: 500, y };
        let before = game;
        game.wall_collision_with(5);
        assert_eq!(game, before);
    }
}

#[test]
fn corner_turns_back_both_ways_and_scores() {
    let mut game = Pong::new();
    game.ball.position = Vec2 { x: 1280, y: 720 };
    game.wall_collision_with(10);
    assert_eq!(game.ball.velocity, Vec2 { x: -8, y: -8 });
    assert_eq!(game.ball.position, Vec2 { x: 640, y: 10 });
    assert_eq!(game.score, (1, 0));
}

#[test]
fn random_row_lies_on_the_field_and_varies() {
    let mut seen_low = i32::MAX;
    let mut seen_high = i32::MIN;
    for _ in 0..400 {
        let mut game = Pong::new();
        game.ball.position = Vec2 { x: 1280, y: 5000 };
        game.wall_collision();
        let y = game.ball.position.y;
        assert!(0 <= y && y <= 720);
        assert_eq!(game.ball.position.x, 640);
        assert_eq!(game.ball.velocity, Vec2 { x: -8, y: -8 });
        assert_eq!(game.score, (1, 0));
        seen_low = seen_low.min(y);
        seen_high = seen_high.max(y);
    }
    assert!(seen_low < seen_high);
}

#[test]
fn update_scores_when_the_ball_leaves_on_the_right() {
    let mut game = Pong::new();
    game.ball.position = Vec2 { x: 1275, y: 100 };
    game.update(Keys::none());
    assert_eq!(game.score, (1, 0));
    assert_eq!(game.ball.position.x, 640);
    assert!(0 <= game.ball.position.y && game.ball.position.y <= 720);
    assert_eq!(game.ball.velocity, Vec2 { x: -8, y: 8 });
}

#[test]
fn update_scores_when_the_ball_leaves_on_the_left() {
    let mut game = Pong::new();
    game.ball.position = Vec2 { x: 6, y: 100 };
    game.ball.velocity = Vec2 { x: -8, y: 8 };
    game.update(Keys::none());
    assert_eq!(game.score, (0, 1));
    assert_eq!(game.ball.position.x, 640);
    assert!(0 <= game.ball.position.y && game.ball.position.y <= 720);
    assert_eq!(game.ball.velocity, Vec2 { x: 8, y: 8 });
}

#[test]
fn ball_leaving_through_a_paddle_turns_twice() {
    let mut game = Pong::new();
    game.ball.position = Vec2 { x: 1279, y: 360 };
    game.update_with(Keys::none(), 42);
    // At column 1287 the ball overlaps the right paddle and is past the edge.
    assert_eq!(game.score, (1, 0));
    assert_eq!(game.ball.position, Vec2 { x: 640, y: 42 });
    assert_eq!(game.ball.velocity, Vec2 { x: 8, y: 8 });
}

#[test]
fn ball_bounces_off_the_bottom_during_play() {
    let mut game = Pong::new();
    game.ball.position = Vec2 { x: 300, y: 712 };
    game.update(Keys::none());
    assert_eq!(game.ball.position, Vec2 { x: 308, y: 720 });
    assert_eq!(game.ball.velocity, Vec2 { x: 8, y: -8 });
    game.update(Keys::none());
    assert_eq!(game.ball.position, Vec2 { x: 316, y: 712 });
    assert_eq!(game.ball.velocity, Vec2 { x: 8, y: -8 });
}

#[test]
fn long_game_stays_in_play() {
    let none = Keys::none();
    let mut game = Pong::new();
    for frame in 0..20000 {
        let keys = Keys {
            w: frame % 7 < 3,
            a: frame % 11 < 4,
            up: frame % 5 < 2,
            left: frame % 13 < 6,
            ..none
        };
        game.update(keys);
        assert!(0 < game.ball.position.x && game.ball.position.x < 1280);
        assert!(-8 <= game.ball.position.y && game.ball.position.y <= 728);
        assert!(game.ball.velocity.x == 8 || game.ball.velocity.x == -8);
        assert!(game.ball.velocity.y == 8 || game.ball.velocity.y == -8);
        assert!(0 <= game.paddle_left.position.y && game.paddle_left.position.y <= 620);
        assert!(0 <= game.paddle_right.position.y && game.paddle_right.position.y <= 620);
        assert_eq!(game.ball.radius, 15);
    }
    assert!(game.score.0 + game.score.1 > 0);
}
