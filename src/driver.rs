use vstd::prelude::*;

use crate::control::{clicked, pressed};
use crate::model::{after_reset, GameState, GameStateView};
use crate::physics::{advance_signals, advanced, update_ball_position};
use crate::signal::{full_render, render_all, Renderable};

verus! {

/// The state the driver leaves on waking: a lost match is reset.
pub open spec fn woken(s: GameStateView) -> GameStateView {
    if s.is_lost { after_reset(s) } else { s }
}

/// The fragments to publish on waking: the whole court after a reset.
pub open spec fn wake_signals(s: GameStateView) -> Seq<Renderable> {
    if s.is_lost { full_render() } else { seq![] }
}

/// The driver keeps ticking while the match runs, is not lost, and someone
/// is watching.
pub open spec fn keeps_ticking(s: GameStateView, subscribers: nat) -> bool {
    s.is_running && !s.is_lost && subscribers > 0
}

/// The state after one pass of the driver's loop: a tick, or a stop that
/// clears `is_running`.
pub open spec fn ticked(s: GameStateView, subscribers: nat) -> GameStateView {
    if keeps_ticking(s, subscribers) {
        advanced(s)
    } else {
        GameStateView { is_running: false, ..s }
    }
}

/// What one pass of the driver's loop publishes; `None` when it stops.
pub open spec fn tick_signals(s: GameStateView, subscribers: nat) -> Option<Seq<Renderable>> {
    if keeps_ticking(s, subscribers) {
        Some(advance_signals(s))
    } else {
        None
    }
}

impl GameState {
    /// What the driver does when woken: a lost match is reset and the whole
    /// court republished.
    pub fn on_wake(&mut self) -> (r: Vec<Renderable>)
        ensures
            final(self)@ == woken(old(self)@),
            r@ == wake_signals(old(self)@),
    {
        if self.is_lost {
            self.reset();
            render_all()
        } else {
            Vec::new()
        }
    }

    /// Whether the driver's loop goes on with `subscribers` viewers.
    pub fn keeps_ticking(&self, subscribers: usize) -> (r: bool)
        ensures
            r == keeps_ticking(self@, subscribers as nat),
    {
        self.is_running && !self.is_lost && subscribers > 0
    }

    /// One pass of the driver's loop, given how many viewers are subscribed.
    /// Returns the signals of the tick to publish before sleeping a tick
    /// interval, or `None` once the driver must go idle.
    pub fn tick(&mut self, subscribers: usize) -> (r: Option<Vec<Renderable>>)
        requires
            keeps_ticking(old(self)@, subscribers as nat) ==> old(self)@.within_limits(),
        ensures
            final(self)@ == ticked(old(self)@, subscribers as nat),
            match r {
                Some(v) => tick_signals(old(self)@, subscribers as nat) == Some(v@),
                None => tick_signals(old(self)@, subscribers as nat) is None,
            },
    {
        if self.keeps_ticking(subscribers) {
            Some(update_ball_position(self))
        } else {
            self.is_running = false;
            None
        }
    }
}

/// With nobody subscribed the driver stops at its next pass and leaves the
/// match paused, whatever the state.
pub proof fn lemma_stops_without_subscribers(s: GameStateView)
    ensures
        tick_signals(s, 0) is None,
        !ticked(s, 0).is_running,
{
}

/// Paddles that fit in the court keep fitting through every transition:
/// ticks, wakes, key presses and clicks.
pub proof fn lemma_transitions_keep_wf(
    s: GameStateView,
    subscribers: nat,
    key: Seq<char>,
    left_half: bool,
    y: u16,
)
    requires
        s.wf(),
        s.within_limits(),
    ensures
        ticked(s, subscribers).wf(),
        woken(s).wf(),
        pressed(s, key).wf(),
        clicked(s, left_half, y).wf(),
{
}

} // verus!
