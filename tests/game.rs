use pong::{
    Ball, Pong, PongEvent, ScoreBoard, SoundEvent, Transform, Velocity, BALL_RADIUS,
    RESPAWN_DELAY,
};

fn ball_at(x: i64, y: i64, vx: i64, vy: i64) -> Ball {
    Ball {
        id: 0,
        radius: BALL_RADIUS,
        velocity: Velocity { x: vx, y: vy },
        original_velocity: Velocity { x: 75, y: 50 },
        transform: Transform { x, y },
    }
}

#[test]
fn match_starts_without_ball() {
    let mut game = Pong::on_start();
    assert_eq!(game.paddles.len(), 2);
    assert!(game.balls.is_empty());
    assert_eq!(game.scores, ScoreBoard { score_left: 0, score_right: 0 });
    assert!(game.is_ready(500_000));
    assert!(game.update(500_000, None, None).is_empty());
    assert!(game.balls.is_empty());
    assert!(game.update(500_000, None, None).is_empty());
    assert_eq!(game.balls.len(), 1);
    assert_eq!(game.balls[0].transform, Transform { x: 50_000_000, y: 50_000_000 });
}

#[test]
fn tick_scores_removes_ball_and_starts_countdown() {
    let mut game = Pong::on_start();
    game.ball_system.ball_spawn_timer = None;
    game.balls.push(ball_at(1_500_000, 50_000_000, -75, 50));
    let sounds = game.update(16_000, None, None);
    assert_eq!(sounds, vec![SoundEvent::Score]);
    assert_eq!(game.scores, ScoreBoard { score_left: 0, score_right: 1 });
    assert!(game.balls.is_empty());
    assert_eq!(game.ball_system.ball_spawn_timer, Some(RESPAWN_DELAY - 16_000));
    assert_eq!(game.events.len(), 1);
    let sounds = game.update(16_000, None, None);
    assert!(sounds.is_empty());
    assert_eq!(game.scores.score_right, 1);
}

#[test]
fn tick_bounces_and_escalates() {
    let mut game = Pong::on_start();
    game.ball_system.ball_spawn_timer = None;
    game.bounce.last_bounce = 0;
    game.balls.push(ball_at(5_000_000, 50_000_000, -75, 50));
    let sounds = game.update(0, None, None);
    assert_eq!(sounds, vec![SoundEvent::Bounce]);
    assert_eq!(game.balls[0].velocity, Velocity { x: 80, y: 55 });
    let mut reader = game.events.register_reader();
    let sounds = game.update(0, None, None);
    assert!(sounds.is_empty());
    assert_eq!(game.balls[0].velocity, Velocity { x: 80, y: 55 });
    assert_eq!(game.events.read(&mut reader), Vec::<PongEvent>::new());
}

#[test]
fn not_ready_when_too_fast() {
    let mut game = Pong::on_start();
    game.balls.push(ball_at(50_000_000, 50_000_000, 1_000_000_000, 50));
    assert!(!game.is_ready(16_000));
}

#[test]
fn exit_left_sets_full_countdown() {
    let mut game = Pong::on_start();
    game.ball_system.ball_spawn_timer = None;
    game.scores = ScoreBoard { score_left: 3, score_right: 5 };
    game.balls.push(ball_at(1_500_000, 50_000_000, -75, 50));
    let mut reader = game.events.register_reader();
    let sounds = game.update(0, None, None);
    assert_eq!(sounds, vec![SoundEvent::Score]);
    assert_eq!(game.events.read(&mut reader), vec![PongEvent::Score]);
    assert_eq!(game.scores, ScoreBoard { score_left: 3, score_right: 6 });
    assert!(game.balls.is_empty());
    assert_eq!(game.ball_system.ball_spawn_timer, Some(RESPAWN_DELAY));
}
