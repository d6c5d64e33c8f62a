use vstd::prelude::*;

use crate::model::{scored, Ball, BatView, GameState, GameStateView};
use crate::signal::Renderable;

verus! {

/// A ball at or left of this column has reached the left paddle's wall.
pub const LEFT_WALL: u16 = 10;

/// A ball at or right of this column has reached the right paddle's wall.
pub const RIGHT_WALL: u16 = 990;

/// A ball at or below this row bounces off the bottom edge.
pub const BOTTOM_EDGE: u16 = 990;

/// Column the ball reaches in one tick of free flight, as a plain integer.
pub open spec fn next_x(b: Ball) -> int {
    b.position.0 + b.velocity.0
}

/// Row the ball reaches in one tick of free flight, as a plain integer.
pub open spec fn next_y(b: Ball) -> int {
    b.position.1 + b.velocity.1
}

/// How a coordinate past the range of `u16` is stored: clamped to it.
pub open spec fn clamped(v: int) -> u16 {
    if v < 0 {
        0
    } else if v > u16::MAX {
        u16::MAX
    } else {
        v as u16
    }
}

/// The paddle covers row `y`: `y` lies in `[position, position + height)`.
pub open spec fn in_span(b: BatView, y: int) -> bool {
    b.position <= y < b.position + b.height
}

/// The ball with a new column and horizontal velocity.
pub open spec fn with_x(b: Ball, x: u16, vx: i16) -> Ball {
    Ball { position: (x, b.position.1), velocity: (vx, b.velocity.1) }
}

/// The ball with a new row and vertical velocity.
pub open spec fn with_y(b: Ball, y: u16, vy: i16) -> Ball {
    Ball { position: (b.position.0, y), velocity: (b.velocity.0, vy) }
}

/// Horizontal resolution of a tick that takes the ball to column `x` and
/// row `y`: at a wall, a return inside the paddle's span sends the ball back
/// and scores for the paddle, a miss loses the match.
pub open spec fn at_walls(s: GameStateView, x: int, y: int) -> GameStateView {
    let back = (-s.ball.velocity.0) as i16;
    if x <= LEFT_WALL {
        if in_span(s.left, y) {
            GameStateView { ball: with_x(s.ball, LEFT_WALL, back), left: scored(s.left), ..s }
        } else {
            GameStateView { ball: with_x(s.ball, clamped(x), s.ball.velocity.0), is_lost: true, ..s }
        }
    } else if x >= RIGHT_WALL {
        if in_span(s.right, y) {
            GameStateView { ball: with_x(s.ball, RIGHT_WALL, back), right: scored(s.right), ..s }
        } else {
            GameStateView { ball: with_x(s.ball, clamped(x), s.ball.velocity.0), is_lost: true, ..s }
        }
    } else {
        GameStateView { ball: with_x(s.ball, x as u16, s.ball.velocity.0), ..s }
    }
}

/// Vertical resolution of a tick that takes the ball to row `y`: at the top
/// or bottom edge the ball is clamped to it and bounces.
pub open spec fn at_edges(s: GameStateView, y: int) -> GameStateView {
    let back = (-s.ball.velocity.1) as i16;
    if y <= 0 {
        GameStateView { ball: with_y(s.ball, 0, back), ..s }
    } else if y >= BOTTOM_EDGE {
        GameStateView { ball: with_y(s.ball, BOTTOM_EDGE, back), ..s }
    } else {
        GameStateView { ball: with_y(s.ball, y as u16, s.ball.velocity.1), ..s }
    }
}

/// The state after one tick.
pub open spec fn advanced(s: GameStateView) -> GameStateView {
    at_edges(at_walls(s, next_x(s.ball), next_y(s.ball)), next_y(s.ball))
}

/// The fragments that the wall outcome makes stale: the scoring paddle and
/// the scoreboard on a return, the whole court but the ball on a miss.
pub open spec fn wall_signals(s: GameStateView, x: int, y: int) -> Seq<Renderable> {
    if x <= LEFT_WALL && in_span(s.left, y) {
        seq![Renderable::BatLeft, Renderable::Scoreboard]
    } else if x >= RIGHT_WALL && in_span(s.right, y) {
        seq![Renderable::BatRight, Renderable::Scoreboard]
    } else if x <= LEFT_WALL || x >= RIGHT_WALL {
        seq![Renderable::BatLeft, Renderable::BatRight, Renderable::Scoreboard]
    } else {
        seq![]
    }
}

/// An edge bounce republishes the scoreboard.
pub open spec fn edge_signals(y: int) -> Seq<Renderable> {
    if y <= 0 || y >= BOTTOM_EDGE {
        seq![Renderable::Scoreboard]
    } else {
        seq![]
    }
}

/// The fragments that one tick makes stale, in the order they are published:
/// the wall outcome, then an edge bounce, then the ball, once.
pub open spec fn advance_signals(s: GameStateView) -> Seq<Renderable> {
    let x = next_x(s.ball);
    let y = next_y(s.ball);
    wall_signals(s, x, y) + edge_signals(y) + seq![Renderable::Ball]
}

fn clamp_u16(v: i32) -> (r: u16)
    ensures
        r == clamped(v as int),
{
    if v < 0 {
        0
    } else if v > u16::MAX as i32 {
        u16::MAX
    } else {
        v as u16
    }
}

fn covers(position: u16, height: u16, y: i32) -> (r: bool)
    ensures
        r == (position <= y < position + height),
{
    position as i32 <= y && y < position as i32 + height as i32
}

/// One tick of physics: moves the ball, resolves the walls and edges, and
/// returns the fragments to publish.
pub fn update_ball_position(g: &mut GameState) -> (r: Vec<Renderable>)
    requires
        old(g)@.within_limits(),
    ensures
        final(g)@ == advanced(old(g)@),
        r@ == advance_signals(old(g)@),
{
    let mut r: Vec<Renderable> = Vec::new();
    let x: i32 = g.ball.position.0 as i32 + g.ball.velocity.0 as i32;
    let y: i32 = g.ball.position.1 as i32 + g.ball.velocity.1 as i32;
    if x <= LEFT_WALL as i32 {
        if covers(g.left.position, g.left.height, y) {
            g.ball.position.0 = LEFT_WALL;
            g.ball.velocity.0 = -g.ball.velocity.0;
            g.left.score_up();
            r.push(Renderable::BatLeft);
            r.push(Renderable::Scoreboard);
        } else {
            g.ball.position.0 = clamp_u16(x);
            g.is_lost = true;
            r.push(Renderable::BatLeft);
            r.push(Renderable::BatRight);
            r.push(Renderable::Scoreboard);
        }
    } else if x >= RIGHT_WALL as i32 {
        if covers(g.right.position, g.right.height, y) {
            g.ball.position.0 = RIGHT_WALL;
            g.ball.velocity.0 = -g.ball.velocity.0;
            g.right.score_up();
            r.push(Renderable::BatRight);
            r.push(Renderable::Scoreboard);
        } else {
            g.ball.position.0 = clamp_u16(x);
            g.is_lost = true;
            r.push(Renderable::BatLeft);
            r.push(Renderable::BatRight);
            r.push(Renderable::Scoreboard);
        }
    } else {
        g.ball.position.0 = x as u16;
    }
    let ghost w = g@;
    let ghost rw = r@;
    assert(w == at_walls(old(g)@, x as int, y as int));
    assert(rw =~= wall_signals(old(g)@, x as int, y as int));
    if y <= 0 {
        g.ball.position.1 = 0;
        g.ball.velocity.1 = -g.ball.velocity.1;
        r.push(Renderable::Scoreboard);
    } else if y >= BOTTOM_EDGE as i32 {
        g.ball.position.1 = BOTTOM_EDGE;
        g.ball.velocity.1 = -g.ball.velocity.1;
        r.push(Renderable::Scoreboard);
    } else {
        g.ball.position.1 = y as u16;
    }
    assert(g@ == at_edges(w, y as int));
    assert(r@ =~= rw + edge_signals(y as int));
    r.push(Renderable::Ball);
    assert(r@ =~= advance_signals(old(g)@));
    r
}

/// One tick is a function of the state alone: equal states give equal next
/// states and equal signal lists.
pub proof fn lemma_advance_deterministic(a: GameStateView, b: GameStateView)
    requires
        a == b,
    ensures
        advanced(a) == advanced(b),
        advance_signals(a) == advance_signals(b),
{
}

/// Scoring: when the ball reaches a wall inside that wall's paddle span, the
/// paddle's score grows by exactly one and its height becomes
/// `max(10, height - height / 10)`; when it reaches a wall outside the span,
/// the match is lost and neither paddle's score or height changes.
pub proof fn lemma_scoring(s: GameStateView)
    requires
        s.within_limits(),
    ensures
        ({
            let x = next_x(s.ball);
            let y = next_y(s.ball);
            let t = advanced(s);
            let lh = s.left.height - s.left.height / 10;
            let rh = s.right.height - s.right.height / 10;
            &&& x <= LEFT_WALL && in_span(s.left, y) ==> {
                &&& t.left.score == s.left.score + 1
                &&& t.left.height == (if lh >= 10 { lh } else { 10 })
                &&& t.right == s.right
                &&& t.ball.position.0 == LEFT_WALL
                &&& t.ball.velocity.0 == -s.ball.velocity.0
                &&& t.is_lost == s.is_lost
            }
            &&& x >= RIGHT_WALL && in_span(s.right, y) ==> {
                &&& t.right.score == s.right.score + 1
                &&& t.right.height == (if rh >= 10 { rh } else { 10 })
                &&& t.left == s.left
                &&& t.ball.position.0 == RIGHT_WALL
                &&& t.ball.velocity.0 == -s.ball.velocity.0
                &&& t.is_lost == s.is_lost
            }
            &&& (x <= LEFT_WALL && !in_span(s.left, y)) || (x >= RIGHT_WALL && !in_span(s.right, y)) ==> {
                &&& t.is_lost
                &&& t.left == s.left
                &&& t.right == s.right
            }
        }),
{
}

} // verus!
