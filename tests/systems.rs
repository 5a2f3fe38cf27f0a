use pong::{
    get_ball_directions, AudioSystemDesc, Ball, BallSystemDesc, BounceSystem, EventChannel,
    InputSystem, MoveBallsSystem, Paddle, PaddleSystem, PongEvent, ScoreBoard, Side, SoundEvent,
    Transform, Velocity, VelocitySystem, VelocitySystemDesc, WinnerSystem, AREA_HEIGHT,
    BOUNCE_COOLDOWN, MAX_SCORE, PADDLE_HEIGHT, RESPAWN_DELAY,
};

fn ball_at(id: u64, x: i64, y: i64, vx: i64, vy: i64) -> Ball {
    Ball {
        id,
        radius: 2_000_000,
        velocity: Velocity { x: vx, y: vy },
        original_velocity: Velocity { x: 75, y: 50 },
        transform: Transform { x, y },
    }
}

#[test]
fn event_channel_reads_in_order_without_replay() {
    let mut ch: EventChannel<PongEvent> = EventChannel::new();
    ch.single_write(PongEvent::Score);
    let mut late = ch.register_reader();
    let mut early = ch.register_reader();
    ch.single_write(PongEvent::Bounce(3));
    ch.single_write(PongEvent::Score);
    assert_eq!(ch.read(&mut late), vec![PongEvent::Bounce(3), PongEvent::Score]);
    assert_eq!(ch.read(&mut late), Vec::<PongEvent>::new());
    ch.single_write(PongEvent::Bounce(4));
    assert_eq!(
        ch.read(&mut early),
        vec![PongEvent::Bounce(3), PongEvent::Score, PongEvent::Bounce(4)]
    );
    assert_eq!(ch.read(&mut late), vec![PongEvent::Bounce(4)]);
}

#[test]
fn audio_system_hands_out_new_sounds() {
    let mut ch: EventChannel<SoundEvent> = EventChannel::new();
    ch.single_write(SoundEvent::Bounce);
    let mut audio = AudioSystemDesc.build(&ch);
    ch.single_write(SoundEvent::Score);
    assert_eq!(audio.run(&ch), vec![SoundEvent::Score]);
    assert_eq!(audio.run(&ch), Vec::<SoundEvent>::new());
}

#[test]
fn paddle_moves_by_axis_and_is_clamped() {
    let mut paddles = vec![Paddle::new(Side::Left), Paddle::new(Side::Right)];
    PaddleSystem.run(&mut paddles, Some(1000), Some(-500));
    assert_eq!(paddles[0].transform.y, 50_000_000 + 1_200_000);
    assert_eq!(paddles[1].transform.y, 50_000_000 - 600_000);
    for _ in 0..100 {
        PaddleSystem.run(&mut paddles, Some(1000), Some(-1000));
    }
    assert_eq!(paddles[0].transform.y, AREA_HEIGHT - PADDLE_HEIGHT / 2);
    assert_eq!(paddles[1].transform.y, PADDLE_HEIGHT / 2);
    assert!(paddles[1].transform.y - paddles[1].height / 2 >= 0);
    assert!(paddles[0].transform.y + paddles[0].height / 2 <= AREA_HEIGHT);
}

#[test]
fn paddle_ignores_zero_and_missing_axis() {
    let mut paddles = vec![Paddle::new(Side::Left), Paddle::new(Side::Right)];
    PaddleSystem.run(&mut paddles, Some(0), None);
    assert_eq!(paddles[0], Paddle::new(Side::Left));
    assert_eq!(paddles[1], Paddle::new(Side::Right));
}

#[test]
fn ball_moves_by_velocity_times_delta() {
    let mut balls = vec![ball_at(1, 50_000_000, 50_000_000, -75, 50)];
    MoveBallsSystem.run(&mut balls, 20_000);
    assert_eq!(balls[0].transform, Transform { x: 48_500_000, y: 51_000_000 });
}

#[test]
fn wall_reflects_only_outward_motion() {
    let mut bounce = BounceSystem::new();
    let mut sounds: EventChannel<SoundEvent> = EventChannel::new();
    let mut events: EventChannel<PongEvent> = EventChannel::new();
    let paddles: Vec<Paddle> = Vec::new();
    let mut balls = vec![ball_at(1, 50_000_000, 1_000_000, 75, -50)];
    bounce.run(&mut balls, &paddles, 16_000, &mut sounds, &mut events);
    assert_eq!(balls[0].velocity, Velocity { x: 75, y: 50 });
    bounce.run(&mut balls, &paddles, 16_000, &mut sounds, &mut events);
    assert_eq!(balls[0].velocity, Velocity { x: 75, y: 50 });
    let mut top = vec![ball_at(1, 50_000_000, 99_000_000, 75, 50)];
    bounce.run(&mut top, &paddles, 16_000, &mut sounds, &mut events);
    assert_eq!(top[0].velocity, Velocity { x: 75, y: -50 });
    assert!(sounds.len() == 0 && events.len() == 0);
}

#[test]
fn bounce_off_paddle_when_cooldown_over() {
    let paddles = vec![Paddle::new(Side::Left), Paddle::new(Side::Right)];
    let mut bounce = BounceSystem { last_bounce: 0 };
    let mut sounds: EventChannel<SoundEvent> = EventChannel::new();
    let mut events: EventChannel<PongEvent> = EventChannel::new();
    let mut sound_reader = sounds.register_reader();
    let mut event_reader = events.register_reader();
    let mut balls = vec![ball_at(7, 5_000_000, 50_000_000, -75, 50)];
    bounce.run(&mut balls, &paddles, 16_000, &mut sounds, &mut events);
    assert_eq!(balls[0].velocity, Velocity { x: 75, y: 50 });
    assert_eq!(sounds.read(&mut sound_reader), vec![SoundEvent::Bounce]);
    assert_eq!(events.read(&mut event_reader), vec![PongEvent::Bounce(7)]);
    assert_eq!(bounce.last_bounce, BOUNCE_COOLDOWN);

    bounce.run(&mut balls, &paddles, 16_000, &mut sounds, &mut events);
    assert_eq!(balls[0].velocity, Velocity { x: 75, y: 50 });
    assert_eq!(sounds.read(&mut sound_reader), Vec::<SoundEvent>::new());
    assert_eq!(events.read(&mut event_reader), Vec::<PongEvent>::new());
    assert_eq!(bounce.last_bounce, BOUNCE_COOLDOWN - 16_000);
}

#[test]
fn bounce_respects_new_cooldown_and_expanded_rect_edge() {
    let paddles = vec![Paddle::new(Side::Left)];
    let mut bounce = BounceSystem::new();
    assert_eq!(bounce.last_bounce, 500_000);
    let mut sounds: EventChannel<SoundEvent> = EventChannel::new();
    let mut events: EventChannel<PongEvent> = EventChannel::new();
    // Right edge of the grown rectangle: 0 + 4 + 2 units.
    let mut balls = vec![ball_at(1, 6_000_000, 50_000_000, -75, 50)];
    bounce.run(&mut balls, &paddles, 400_000, &mut sounds, &mut events);
    assert_eq!(balls[0].velocity.x, -75);
    bounce.run(&mut balls, &paddles, 200_000, &mut sounds, &mut events);
    assert_eq!(balls[0].velocity.x, 75);
    let mut outside = vec![ball_at(2, 6_000_001, 50_000_000, -75, 50)];
    let mut fresh = BounceSystem { last_bounce: 0 };
    fresh.run(&mut outside, &paddles, 16_000, &mut sounds, &mut events);
    assert_eq!(outside[0].velocity.x, -75);
}

#[test]
fn one_paddle_bounce_per_tick() {
    let paddles = vec![Paddle::new(Side::Left), Paddle::new(Side::Right)];
    let mut bounce = BounceSystem { last_bounce: 0 };
    let mut sounds: EventChannel<SoundEvent> = EventChannel::new();
    let mut events: EventChannel<PongEvent> = EventChannel::new();
    let mut balls = vec![
        ball_at(1, 5_000_000, 50_000_000, -75, 50),
        ball_at(2, 95_000_000, 50_000_000, 75, 50),
    ];
    bounce.run(&mut balls, &paddles, 16_000, &mut sounds, &mut events);
    assert_eq!(balls[0].velocity.x, 75);
    assert_eq!(balls[1].velocity.x, 75);
    assert_eq!(events.len(), 1);
}

#[test]
fn escalation_on_bounce() {
    let mut ch: EventChannel<PongEvent> = EventChannel::new();
    let mut velocity = VelocitySystemDesc.build(&ch);
    let mut balls = vec![ball_at(1, 50_000_000, 50_000_000, 75, -50), ball_at(2, 0, 0, 75, -50)];
    ch.single_write(PongEvent::Bounce(1));
    velocity.run(&ch, &mut balls);
    assert_eq!(balls[0].velocity, Velocity { x: 80, y: -55 });
    assert_eq!(balls[1].velocity, Velocity { x: 75, y: -50 });
}

#[test]
fn escalation_grows_each_bounce() {
    let mut ch: EventChannel<PongEvent> = EventChannel::new();
    let mut velocity = VelocitySystem { reader_id: ch.register_reader() };
    let mut balls = vec![ball_at(1, 0, 0, 75, -50)];
    let mut last = 75;
    for _ in 0..3 {
        ch.single_write(PongEvent::Bounce(1));
        velocity.run(&ch, &mut balls);
        assert!(balls[0].velocity.x.abs() > last);
        last = balls[0].velocity.x.abs();
    }
    assert_eq!(balls[0].velocity, Velocity { x: 90, y: -65 });
}

#[test]
fn score_restores_base_speed_keeping_direction() {
    let mut ch: EventChannel<PongEvent> = EventChannel::new();
    let mut velocity = VelocitySystemDesc.build(&ch);
    let mut balls = vec![ball_at(1, 0, 0, -80, 55)];
    ch.single_write(PongEvent::Score);
    velocity.run(&ch, &mut balls);
    assert_eq!(balls[0].velocity, Velocity { x: -75, y: 50 });
}

#[test]
fn zero_component_counts_as_negative() {
    let b = ball_at(1, 0, 0, 0, 3);
    assert_eq!(get_ball_directions(&b), (-1, 1));
}

#[test]
fn ball_past_left_edge_scores_right_once() {
    let balls = vec![ball_at(1, 1_500_000, 50_000_000, -75, 50)];
    let mut scores = ScoreBoard { score_left: 4, score_right: 2 };
    let mut sounds: EventChannel<SoundEvent> = EventChannel::new();
    let mut events: EventChannel<PongEvent> = EventChannel::new();
    let mut lifecycle = BallSystemDesc.build(&events);
    lifecycle.ball_spawn_timer = None;
    let mut sound_reader = sounds.register_reader();
    let mut event_reader = events.register_reader();
    WinnerSystem.run(&balls, &mut scores, &mut sounds, &mut events);
    assert_eq!(scores, ScoreBoard { score_left: 4, score_right: 3 });
    assert_eq!(sounds.read(&mut sound_reader), vec![SoundEvent::Score]);
    assert_eq!(events.read(&mut event_reader), vec![PongEvent::Score]);
    let mut balls = balls;
    lifecycle.run(&events, &mut balls, 16_000);
    assert!(balls.is_empty());
    assert_eq!(lifecycle.ball_spawn_timer, Some(RESPAWN_DELAY - 16_000));
    lifecycle.run(&events, &mut balls, 16_000);
    assert_eq!(lifecycle.ball_spawn_timer, Some(RESPAWN_DELAY - 32_000));
}

#[test]
fn ball_past_right_edge_scores_left() {
    let balls = vec![ball_at(1, 98_000_000, 50_000_000, 75, 50)];
    let mut scores = ScoreBoard::new();
    let mut sounds: EventChannel<SoundEvent> = EventChannel::new();
    let mut events: EventChannel<PongEvent> = EventChannel::new();
    WinnerSystem.run(&balls, &mut scores, &mut sounds, &mut events);
    assert_eq!(scores, ScoreBoard { score_left: 1, score_right: 0 });
    assert_eq!(events.len(), 1);
}

#[test]
fn ball_in_play_does_not_score() {
    let balls = vec![ball_at(1, 50_000_000, 50_000_000, 75, 50)];
    let mut scores = ScoreBoard::new();
    let mut sounds: EventChannel<SoundEvent> = EventChannel::new();
    let mut events: EventChannel<PongEvent> = EventChannel::new();
    WinnerSystem.run(&balls, &mut scores, &mut sounds, &mut events);
    assert_eq!(scores, ScoreBoard::new());
    assert_eq!(sounds.len(), 0);
}

#[test]
fn score_is_capped() {
    let balls = vec![ball_at(1, 0, 50_000_000, -75, 50)];
    let mut scores = ScoreBoard { score_left: 0, score_right: MAX_SCORE };
    let mut sounds: EventChannel<SoundEvent> = EventChannel::new();
    let mut events: EventChannel<PongEvent> = EventChannel::new();
    WinnerSystem.run(&balls, &mut scores, &mut sounds, &mut events);
    assert_eq!(scores.score_right, 999);
    assert_eq!(sounds.len(), 1);
}

#[test]
fn ball_spawns_after_delay() {
    let events: EventChannel<PongEvent> = EventChannel::new();
    let mut lifecycle = BallSystemDesc.build(&events);
    let mut balls: Vec<Ball> = Vec::new();
    lifecycle.run(&events, &mut balls, 600_000);
    assert!(balls.is_empty());
    lifecycle.run(&events, &mut balls, 400_000);
    assert_eq!(balls.len(), 1);
    assert_eq!(balls[0].transform, Transform { x: 50_000_000, y: 50_000_000 });
    assert_eq!(balls[0].velocity, Velocity { x: 75, y: 50 });
    assert_eq!(lifecycle.ball_spawn_timer, None);
    lifecycle.run(&events, &mut balls, 2_000_000);
    assert_eq!(balls.len(), 1);
}

#[test]
fn quit_only_when_held() {
    assert!(InputSystem.run(Some(true)));
    assert!(!InputSystem.run(Some(false)));
    assert!(!InputSystem.run(None));
}

#[test]
fn point_in_rect_is_closed() {
    assert!(pong::point_in_rect(0, 0, 0, 0, 4, 4));
    assert!(pong::point_in_rect(4, 4, 0, 0, 4, 4));
    assert!(!pong::point_in_rect(5, 2, 0, 0, 4, 4));
    assert!(!pong::point_in_rect(2, -1, 0, 0, 4, 4));
}

#[test]
fn overlap_flips_once_per_cooldown_window() {
    let paddles = vec![Paddle::new(Side::Left)];
    let mut bounce = BounceSystem { last_bounce: 0 };
    let mut sounds: EventChannel<SoundEvent> = EventChannel::new();
    let mut events: EventChannel<PongEvent> = EventChannel::new();
    let mut balls = vec![ball_at(1, 5_000_000, 50_000_000, -75, 50)];
    let mut flips = Vec::new();
    for _ in 0..6 {
        let before = balls[0].velocity.x;
        bounce.run(&mut balls, &paddles, 100_000, &mut sounds, &mut events);
        flips.push(balls[0].velocity.x != before);
    }
    assert_eq!(flips, vec![true, false, false, false, false, true]);
    assert_eq!(sounds.len(), 2);
    assert_eq!(events.len(), 2);
}
