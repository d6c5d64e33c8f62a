use vstd::prelude::*;

verus! {

/// Upper end of the court's fixed-point scale.
pub const COURT: u16 = 1000;

/// A paddle can never shrink below this height.
pub const MIN_HEIGHT: u16 = 10;

/// What a paddle is, as seen by contracts.
pub struct BatView {
    pub up_key: Seq<char>,
    pub down_key: Seq<char>,
    pub position: u16,
    pub height: u16,
    pub score: u16,
}

/// A paddle: its key bindings, its offset from the top of the court, its
/// height and its score.
pub struct Bat {
    pub up_key: String,
    pub down_key: String,
    pub position: u16,
    pub height: u16,
    pub score: u16,
}

impl View for Bat {
    type V = BatView;

    open spec fn view(&self) -> BatView {
        BatView {
            up_key: self.up_key@,
            down_key: self.down_key@,
            position: self.position,
            height: self.height,
            score: self.score,
        }
    }
}

/// Direction of a manual paddle move.
#[derive(Clone, Copy, Debug, PartialEq, Eq, Structural)]
pub enum Direction {
    Up,
    Down,
}

/// Height after a successful return: ten percent less, but never below
/// `MIN_HEIGHT`.
pub open spec fn shrunk(height: u16) -> u16 {
    let h = height - height / 10;
    if h < MIN_HEIGHT as int { MIN_HEIGHT } else { h as u16 }
}

/// The paddle after it has returned the ball.
pub open spec fn scored(b: BatView) -> BatView {
    BatView {
        up_key: b.up_key,
        down_key: b.down_key,
        position: b.position,
        height: shrunk(b.height),
        score: (b.score + 1) as u16,
    }
}

/// Position reached by moving `offset` units up: floors at 0.
pub open spec fn moved_up(position: u16, offset: u16) -> u16 {
    if offset < position { (position - offset) as u16 } else { 0 }
}

/// Position reached by moving `offset` units down: ceils at `COURT - height`.
pub open spec fn moved_down(position: u16, height: u16, offset: u16) -> u16 {
    let lowest = COURT - height;
    if lowest < position + offset { lowest as u16 } else { (position + offset) as u16 }
}

/// The paddle after a manual move.
pub open spec fn moved(b: BatView, offset: u16, direction: Direction) -> BatView {
    BatView {
        position: match direction {
            Direction::Up => moved_up(b.position, offset),
            Direction::Down => moved_down(b.position, b.height, offset),
        },
        ..b
    }
}

impl Bat {
    /// The left paddle at the start of a match.
    pub fn default_left() -> (r: Bat)
        ensures
            r@ == (BatView { up_key: "w"@, down_key: "s"@, position: 600, height: 200, score: 0 }),
    {
        Bat {
            up_key: "w".to_string(),
            down_key: "s".to_string(),
            position: 600,
            score: 0,
            height: 200,
        }
    }

    /// The right paddle at the start of a match.
    pub fn default_right() -> (r: Bat)
        ensures
            r@ == (BatView { up_key: "o"@, down_key: "l"@, position: 600, height: 200, score: 0 }),
    {
        Bat {
            up_key: "o".to_string(),
            down_key: "l".to_string(),
            position: 600,
            score: 0,
            height: 200,
        }
    }

    /// Awards a point for a returned ball; the paddle shrinks by a tenth.
    pub fn score_up(&mut self)
        requires
            old(self).score < u16::MAX,
        ensures
            final(self)@ == scored(old(self)@),
    {
        self.score = self.score + 1;
        let h = self.height - self.height / 10;
        self.height = if h < MIN_HEIGHT { MIN_HEIGHT } else { h };
    }
}

/// Moves a paddle by `offset` units, staying inside the court.
pub fn move_bat(b: &mut Bat, offset: u16, direction: Direction)
    requires
        old(b).height <= COURT,
    ensures
        final(b)@ == moved(old(b)@, offset, direction),
{
    match direction {
        Direction::Up => {
            b.position = if offset < b.position { b.position - offset } else { 0 };
        },
        Direction::Down => {
            let lowest = COURT - b.height;
            let wanted: u32 = b.position as u32 + offset as u32;
            b.position = if (lowest as u32) < wanted { lowest } else { wanted as u16 };
        },
    }
}

/// The ball: where it is and how far it moves per tick.
#[derive(Clone, Copy, Debug)]
pub struct Ball {
    pub position: (u16, u16),
    pub velocity: (i16, i16),
}

/// The ball at the start of a match.
pub open spec fn initial_ball() -> Ball {
    Ball { position: (230, 420), velocity: (15, 5) }
}

impl Default for Ball {
    fn default() -> (r: Ball)
        ensures
            r == initial_ball(),
    {
        Ball { position: (230, 420), velocity: (15, 5) }
    }
}

/// What the whole match is, as seen by contracts.
pub struct GameStateView {
    pub left: BatView,
    pub right: BatView,
    pub ball: Ball,
    pub is_running: bool,
    pub is_lost: bool,
}

impl GameStateView {
    /// Both paddles fit in the court.
    pub open spec fn wf(self) -> bool {
        self.left.height <= COURT && self.right.height <= COURT
    }

    /// A tick cannot overflow: no score is at its maximum and no velocity
    /// component lacks a negation.
    pub open spec fn within_limits(self) -> bool {
        &&& self.left.score < u16::MAX
        &&& self.right.score < u16::MAX
        &&& self.ball.velocity.0 > i16::MIN
        &&& self.ball.velocity.1 > i16::MIN
    }
}

/// The state a match starts in, and returns to after a reset.
pub open spec fn initial_state() -> GameStateView {
    GameStateView {
        left: BatView { up_key: "w"@, down_key: "s"@, position: 600, height: 200, score: 0 },
        right: BatView { up_key: "o"@, down_key: "l"@, position: 600, height: 200, score: 0 },
        ball: initial_ball(),
        is_running: false,
        is_lost: false,
    }
}

/// The single authoritative state of the match.
pub struct GameState {
    pub left: Bat,
    pub right: Bat,
    pub ball: Ball,
    pub is_running: bool,
    pub is_lost: bool,
}

impl View for GameState {
    type V = GameStateView;

    open spec fn view(&self) -> GameStateView {
        GameStateView {
            left: self.left@,
            right: self.right@,
            ball: self.ball,
            is_running: self.is_running,
            is_lost: self.is_lost,
        }
    }
}

impl GameState {
    /// Restores every field to its value at the start of a match.
    pub fn reset(&mut self)
        ensures
            final(self)@ == after_reset(old(self)@),
    {
        self.left = Bat::default_left();
        self.right = Bat::default_right();
        self.ball = Ball::default();
        self.is_running = false;
        self.is_lost = false;
    }

    /// Whether a tick on this state stays clear of integer overflow.
    pub fn within_limits(&self) -> (r: bool)
        ensures
            r == self@.within_limits(),
    {
        self.left.score < u16::MAX && self.right.score < u16::MAX && self.ball.velocity.0
            > i16::MIN && self.ball.velocity.1 > i16::MIN
    }
}

impl Default for GameState {
    fn default() -> (r: GameState)
        ensures
            r@ == initial_state(),
    {
        GameState {
            left: Bat::default_left(),
            right: Bat::default_right(),
            ball: Ball::default(),
            is_running: false,
            is_lost: false,
        }
    }
}

/// What a reset leaves behind: the initial state, whatever came before.
pub open spec fn after_reset(s: GameStateView) -> GameStateView {
    initial_state()
}

/// Resetting a second time changes nothing: the state after two resets is
/// the state after one.
pub proof fn lemma_reset_idempotent(s: GameStateView)
    ensures
        after_reset(after_reset(s)) == after_reset(s),
{
}

/// Manual moves keep a paddle that lies in the court inside it: moving up
/// never leaves it above the top, moving down never past `COURT - height`.
pub proof fn lemma_moves_stay_in_court(b: BatView, offset: u16)
    requires
        b.height <= COURT,
        b.position + b.height <= COURT,
    ensures
        0 <= moved(b, offset, Direction::Up).position <= COURT - b.height,
        0 <= moved(b, offset, Direction::Down).position <= COURT - b.height,
{
}

} // verus!
