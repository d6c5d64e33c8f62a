use vstd::prelude::*;

verus! {

/// A fragment of the view that has gone stale and must be published again.
#[derive(Clone, Copy, Debug, PartialEq, Eq, Structural)]
pub enum Renderable {
    Scoreboard,
    BatLeft,
    BatRight,
    Ball,
}

/// Every fragment, in the order a full re-render publishes them.
pub open spec fn full_render() -> Seq<Renderable> {
    seq![Renderable::BatLeft, Renderable::BatRight, Renderable::Scoreboard, Renderable::Ball]
}

/// The name of a fragment's template and of its published event.
pub open spec fn event_name_of(r: Renderable) -> Seq<char> {
    match r {
        Renderable::Scoreboard => "scoreboard"@,
        Renderable::BatLeft => "bat_left"@,
        Renderable::BatRight => "bat_right"@,
        Renderable::Ball => "ball"@,
    }
}

impl Renderable {
    /// The name under which this fragment is rendered and published.
    pub fn event_name(&self) -> (r: &'static str)
        ensures
            r@ == event_name_of(*self),
    {
        match self {
            Renderable::Scoreboard => "scoreboard",
            Renderable::BatLeft => "bat_left",
            Renderable::BatRight => "bat_right",
            Renderable::Ball => "ball",
        }
    }
}

/// The signals that redraw the whole court.
pub fn render_all() -> (r: Vec<Renderable>)
    ensures
        r@ == full_render(),
{
    let mut r: Vec<Renderable> = Vec::new();
    r.push(Renderable::BatLeft);
    r.push(Renderable::BatRight);
    r.push(Renderable::Scoreboard);
    r.push(Renderable::Ball);
    assert(r@ =~= full_render());
    r
}

} // verus!
