use vstd::prelude::*;

use crate::model::{move_bat, moved, BatView, Direction, GameState, GameStateView, COURT};
use crate::signal::Renderable;

verus! {

/// How far one key press moves a paddle.
pub const STEP: u16 = 50;

/// What an input asks of its surroundings: whether to wake the simulation
/// driver, and which fragment to publish again.
pub struct Reaction {
    pub wake: bool,
    pub signal: Option<Renderable>,
}

/// The key that pauses and resumes the match.
pub open spec fn pause_key() -> Seq<char> {
    "p"@
}

/// The state after a key press: the pause key toggles the match; while it
/// runs, a paddle's bound keys move that paddle; anything else is ignored.
pub open spec fn pressed(s: GameStateView, key: Seq<char>) -> GameStateView {
    if key == pause_key() {
        GameStateView { is_running: !s.is_running, ..s }
    } else if !s.is_running {
        s
    } else if key == s.left.up_key {
        GameStateView { left: moved(s.left, STEP, Direction::Up), ..s }
    } else if key == s.left.down_key {
        GameStateView { left: moved(s.left, STEP, Direction::Down), ..s }
    } else if key == s.right.up_key {
        GameStateView { right: moved(s.right, STEP, Direction::Up), ..s }
    } else if key == s.right.down_key {
        GameStateView { right: moved(s.right, STEP, Direction::Down), ..s }
    } else {
        s
    }
}

/// The fragment a key press makes stale, if any.
pub open spec fn key_signal(s: GameStateView, key: Seq<char>) -> Option<Renderable> {
    if key == pause_key() {
        Some(Renderable::Scoreboard)
    } else if !s.is_running {
        None
    } else if key == s.left.up_key || key == s.left.down_key {
        Some(Renderable::BatLeft)
    } else if key == s.right.up_key || key == s.right.down_key {
        Some(Renderable::BatRight)
    } else {
        None
    }
}

/// A key press wakes the driver exactly when it resumes a paused match.
pub open spec fn key_wakes(s: GameStateView, key: Seq<char>) -> bool {
    key == pause_key() && !s.is_running
}

/// Position of a paddle snapped towards row `y` by half its height: up when
/// `y` lies above its middle, down otherwise, kept in `[1, COURT]`.
pub open spec fn snapped_position(position: u16, height: u16, y: u16) -> u16 {
    let step = height / 2;
    if y < position + step {
        if step < position { (position - step) as u16 } else { 1 }
    } else if position + step > COURT {
        COURT
    } else {
        (position + step) as u16
    }
}

pub open spec fn snapped(b: BatView, y: u16) -> BatView {
    BatView { position: snapped_position(b.position, b.height, y), ..b }
}

/// The state after a click at row `y` on the left or right half: a paused
/// match starts; a running one snaps the paddle of that half.
pub open spec fn clicked(s: GameStateView, left_half: bool, y: u16) -> GameStateView {
    if !s.is_running {
        GameStateView { is_running: true, ..s }
    } else if left_half {
        GameStateView { left: snapped(s.left, y), ..s }
    } else {
        GameStateView { right: snapped(s.right, y), ..s }
    }
}

/// The fragment a click makes stale.
pub open spec fn click_signal(s: GameStateView, left_half: bool) -> Renderable {
    if !s.is_running {
        Renderable::Scoreboard
    } else if left_half {
        Renderable::BatLeft
    } else {
        Renderable::BatRight
    }
}

fn snap(position: u16, height: u16, y: u16) -> (r: u16)
    ensures
        r == snapped_position(position, height, y),
{
    let step = height / 2;
    let middle: u32 = position as u32 + step as u32;
    if (y as u32) < middle {
        if step < position { position - step } else { 1 }
    } else if middle > COURT as u32 {
        COURT
    } else {
        middle as u16
    }
}

impl GameState {
    /// Reacts to a key press.
    pub fn keypress(&mut self, key: &String) -> (r: Reaction)
        requires
            old(self)@.wf(),
        ensures
            final(self)@ == pressed(old(self)@, key@),
            r.wake == key_wakes(old(self)@, key@),
            r.signal == key_signal(old(self)@, key@),
    {
        let pause = "p".to_string();
        if *key == pause {
            self.is_running = !self.is_running;
            Reaction { wake: self.is_running, signal: Some(Renderable::Scoreboard) }
        } else if !self.is_running {
            Reaction { wake: false, signal: None }
        } else if *key == self.left.up_key {
            move_bat(&mut self.left, STEP, Direction::Up);
            Reaction { wake: false, signal: Some(Renderable::BatLeft) }
        } else if *key == self.left.down_key {
            move_bat(&mut self.left, STEP, Direction::Down);
            Reaction { wake: false, signal: Some(Renderable::BatLeft) }
        } else if *key == self.right.up_key {
            move_bat(&mut self.right, STEP, Direction::Up);
            Reaction { wake: false, signal: Some(Renderable::BatRight) }
        } else if *key == self.right.down_key {
            move_bat(&mut self.right, STEP, Direction::Down);
            Reaction { wake: false, signal: Some(Renderable::BatRight) }
        } else {
            Reaction { wake: false, signal: None }
        }
    }

    /// Reacts to a click at row `y` (in court units) on the left or right
    /// half of the court.
    pub fn click(&mut self, left_half: bool, y: u16) -> (r: Reaction)
        ensures
            final(self)@ == clicked(old(self)@, left_half, y),
            r.wake == !old(self)@.is_running,
            r.signal == Some(click_signal(old(self)@, left_half)),
    {
        if !self.is_running {
            self.is_running = true;
            Reaction { wake: true, signal: Some(Renderable::Scoreboard) }
        } else if left_half {
            self.left.position = snap(self.left.position, self.left.height, y);
            Reaction { wake: false, signal: Some(Renderable::BatLeft) }
        } else {
            self.right.position = snap(self.right.position, self.right.height, y);
            Reaction { wake: false, signal: Some(Renderable::BatRight) }
        }
    }
}

/// Pressing the pause key twice on a paused match wakes the driver exactly
/// once: the first press resumes and wakes, the second pauses again.
pub proof fn lemma_double_pause_wakes_once(s: GameStateView)
    requires
        !s.is_running,
    ensures
        key_wakes(s, pause_key()),
        !key_wakes(pressed(s, pause_key()), pause_key()),
        pressed(pressed(s, pause_key()), pause_key()) == s,
{
}

} // verus!
