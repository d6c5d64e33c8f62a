use pong::model::GameState;
use pong::physics::update_ball_position;
use pong::signal::{render_all, Renderable};

#[test]
fn free_flight_moves_by_velocity() {
    let mut g = GameState::default();
    g.left.position = 600;
    g.left.height = 200;
    let r = update_ball_position(&mut g);
    assert_eq!(g.ball.position, (245, 425));
    assert_eq!(g.ball.velocity, (15, 5));
    assert_eq!(r, vec![Renderable::Ball]);
}

#[test]
fn left_return_scores_and_shrinks() {
    let mut g = GameState::default();
    g.ball.position = (15, 500);
    g.ball.velocity = (-15, 0);
    g.left.position = 400;
    g.left.height = 200;
    let r = update_ball_position(&mut g);
    assert_eq!(g.ball.position, (10, 500));
    assert_eq!(g.ball.velocity, (15, 0));
    assert_eq!((g.left.score, g.left.height), (1, 180));
    assert!(!g.is_lost);
    assert_eq!(r, vec![Renderable::BatLeft, Renderable::Scoreboard, Renderable::Ball]);
}

#[test]
fn left_miss_loses_with_full_render() {
    let mut g = GameState::default();
    g.ball.position = (15, 500);
    g.ball.velocity = (-15, 0);
    g.left.position = 0;
    g.left.height = 100;
    let r = update_ball_position(&mut g);
    assert!(g.is_lost);
    assert_eq!((g.left.score, g.left.height), (0, 100));
    assert_eq!(r, render_all());
    assert_eq!(r, vec![Renderable::BatLeft, Renderable::BatRight, Renderable::Scoreboard, Renderable::Ball]);
}

#[test]
fn span_is_half_open() {
    let mut g = GameState::default();
    g.ball.position = (15, 400);
    g.ball.velocity = (-15, 0);
    g.left.position = 400;
    g.left.height = 200;
    update_ball_position(&mut g);
    assert!(!g.is_lost);
    let mut h = GameState::default();
    h.ball.position = (15, 600);
    h.ball.velocity = (-15, 0);
    h.left.position = 400;
    h.left.height = 200;
    update_ball_position(&mut h);
    assert!(h.is_lost);
}

#[test]
fn right_return_scores() {
    let mut g = GameState::default();
    g.ball.position = (980, 700);
    g.ball.velocity = (15, 0);
    let r = update_ball_position(&mut g);
    assert_eq!(g.ball.position, (990, 700));
    assert_eq!(g.ball.velocity, (-15, 0));
    assert_eq!((g.right.score, g.right.height), (1, 180));
    assert_eq!(g.left.score, 0);
    assert_eq!(r, vec![Renderable::BatRight, Renderable::Scoreboard, Renderable::Ball]);
}

#[test]
fn right_miss_loses() {
    let mut g = GameState::default();
    g.ball.position = (980, 100);
    g.ball.velocity = (15, 0);
    let r = update_ball_position(&mut g);
    assert!(g.is_lost);
    assert_eq!(g.ball.position, (995, 100));
    assert_eq!((g.right.score, g.right.height), (0, 200));
    assert_eq!(r, render_all());
}

#[test]
fn bottom_edge_bounces_with_heartbeat() {
    let mut g = GameState::default();
    g.ball.position = (500, 985);
    g.ball.velocity = (15, 10);
    let r = update_ball_position(&mut g);
    assert_eq!(g.ball.position, (515, 990));
    assert_eq!(g.ball.velocity, (15, -10));
    assert_eq!(r, vec![Renderable::Scoreboard, Renderable::Ball]);
}

#[test]
fn top_edge_bounces() {
    let mut g = GameState::default();
    g.ball.position = (500, 5);
    g.ball.velocity = (-15, -5);
    let r = update_ball_position(&mut g);
    assert_eq!(g.ball.position, (485, 0));
    assert_eq!(g.ball.velocity, (-15, 5));
    assert_eq!(r, vec![Renderable::Scoreboard, Renderable::Ball]);
}

#[test]
fn corner_bounces_on_both_axes() {
    let mut g = GameState::default();
    g.ball.position = (15, 5);
    g.ball.velocity = (-15, -5);
    g.left.position = 0;
    g.left.height = 200;
    let r = update_ball_position(&mut g);
    assert_eq!(g.ball.position, (10, 0));
    assert_eq!(g.ball.velocity, (15, 5));
    assert_eq!(g.left.score, 1);
    assert_eq!(r, vec![Renderable::BatLeft, Renderable::Scoreboard, Renderable::Scoreboard, Renderable::Ball]);
}

#[test]
fn advance_is_deterministic() {
    let mut a = GameState::default();
    let mut b = GameState::default();
    for _ in 0..200 {
        let ra = update_ball_position(&mut a);
        let rb = update_ball_position(&mut b);
        assert_eq!(ra, rb);
        assert_eq!(a.ball.position, b.ball.position);
        assert_eq!(a.ball.velocity, b.ball.velocity);
        assert_eq!((a.left.score, a.right.score, a.is_lost), (b.left.score, b.right.score, b.is_lost));
    }
}

#[test]
fn event_names() {
    assert_eq!(Renderable::Scoreboard.event_name(), "scoreboard");
    assert_eq!(Renderable::BatLeft.event_name(), "bat_left");
    assert_eq!(Renderable::BatRight.event_name(), "bat_right");
    assert_eq!(Renderable::Ball.event_name(), "ball");
}

#[test]
fn return_past_the_left_wall_is_defended() {
    let mut g = GameState::default();
    g.ball.position = (5, 500);
    g.ball.velocity = (-15, 0);
    g.left.position = 400;
    g.left.height = 200;
    let r = update_ball_position(&mut g);
    assert_eq!(g.ball.position, (10, 500));
    assert_eq!(g.ball.velocity, (15, 0));
    assert_eq!((g.left.score, g.left.height), (1, 180));
    assert_eq!(g.right.score, 0);
    assert!(!g.is_lost);
    assert_eq!(r, vec![Renderable::BatLeft, Renderable::Scoreboard, Renderable::Ball]);
}

#[test]
fn miss_past_the_left_wall_is_lost_and_clamped() {
    let mut g = GameState::default();
    g.ball.position = (5, 650);
    g.ball.velocity = (-15, 0);
    g.left.position = 0;
    g.left.height = 100;
    let r = update_ball_position(&mut g);
    assert!(g.is_lost);
    assert_eq!(g.ball.position, (0, 650));
    assert_eq!((g.left.score, g.right.score), (0, 0));
    assert_eq!((g.left.height, g.right.height), (100, 200));
    assert_eq!(r, render_all());
}

#[test]
fn bounce_past_the_top_edge_clamps_to_zero() {
    let mut g = GameState::default();
    g.ball.position = (500, 3);
    g.ball.velocity = (0, -5);
    let r = update_ball_position(&mut g);
    assert_eq!(g.ball.position, (500, 0));
    assert_eq!(g.ball.velocity, (0, 5));
    assert_eq!(r, vec![Renderable::Scoreboard, Renderable::Ball]);
}

#[test]
fn miss_past_the_right_wall_clamps_to_u16_max() {
    let mut g = GameState::default();
    g.ball.position = (65530, 100);
    g.ball.velocity = (15, 0);
    update_ball_position(&mut g);
    assert!(g.is_lost);
    assert_eq!(g.ball.position, (u16::MAX, 100));
}
