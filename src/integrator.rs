//! Control of the recursive color integrator along one light path.
//!
//! The integrator follows a ray from bounce to bounce. At each bounce the scene is
//! queried and the surface's material decides whether the ray is absorbed or scattered;
//! the numeric work (intersection, scattering, colors) is done by the caller, which
//! reports the result as an `Interaction`. This module decides, from the remaining
//! bounce budget and that report, whether the path goes on and how it ends. The color
//! of a finished path is the product of the attenuations of its scatters with the color
//! of its terminal: black, or the sky seen along the last ray.
use vstd::prelude::*;

verus! {

/// What one traced ray met.
#[derive(Debug, Clone, Copy, PartialEq, Eq, Structural)]
pub enum Interaction {
    /// No object of the scene was hit.
    Miss,
    /// An object was hit and its material absorbed the ray.
    Absorbed,
    /// An object was hit and its material scattered the ray into a new one.
    Scattered,
}

/// How a finished path ends.
#[derive(Debug, Clone, Copy, PartialEq, Eq, Structural)]
pub enum Terminal {
    /// No light is gathered: the bounce budget ran out or the ray was absorbed.
    Black,
    /// The last ray escaped the scene and gathers the sky's color.
    Sky,
}

/// State of the integrator on one path.
#[derive(Debug, Clone, Copy, PartialEq, Eq, Structural)]
pub enum PathState {
    /// The current ray still has to be traced, with `depth` bounces left.
    Tracing { depth: u64 },
    /// The path has ended.
    Done { terminal: Terminal },
}

/// What the caller does next.
#[derive(Debug, Clone, Copy, PartialEq, Eq, Structural)]
pub enum PathAction {
    /// Trace the current ray and report the `Interaction`.
    Query,
    /// Stop: the path's color is fixed by `terminal`.
    Finish { terminal: Terminal },
}

/// The action owed in state `s`.
pub open spec fn action_of(s: PathState) -> PathAction {
    match s {
        PathState::Tracing { depth } => if depth == 0 {
            PathAction::Finish { terminal: Terminal::Black }
        } else {
            PathAction::Query
        },
        PathState::Done { terminal } => PathAction::Finish { terminal },
    }
}

/// The state after `e` was reported in state `s`.
pub open spec fn step_of(s: PathState, e: Interaction) -> PathState {
    match s {
        PathState::Tracing { depth } => if depth == 0 {
            PathState::Done { terminal: Terminal::Black }
        } else {
            match e {
                Interaction::Miss => PathState::Done { terminal: Terminal::Sky },
                Interaction::Absorbed => PathState::Done { terminal: Terminal::Black },
                Interaction::Scattered => PathState::Tracing { depth: (depth - 1) as u64 },
            }
        },
        PathState::Done { .. } => s,
    }
}

/// The state reached from `s` after the reports `events`, in order.
pub open spec fn run(s: PathState, events: Seq<Interaction>) -> PathState
    decreases events.len(),
{
    if events.len() == 0 {
        s
    } else {
        step_of(run(s, events.drop_last()), events.last())
    }
}

/// How many of the reports `events` the caller is asked for from `s` (each one
/// answers a `Query`); reports past the end of the path are not asked for.
pub open spec fn queries(s: PathState, events: Seq<Interaction>) -> nat
    decreases events.len(),
{
    if events.len() == 0 {
        0
    } else {
        let prev = run(s, events.drop_last());
        queries(s, events.drop_last()) + if action_of(prev) == PathAction::Query {
            1nat
        } else {
            0nat
        }
    }
}

/// Along any reports from `Tracing { depth }`: while the path is still tracing, every
/// report was asked for and spent one bounce; once it has ended, at most `depth` were
/// asked for.
proof fn lemma_budget_spent(depth: u64, events: Seq<Interaction>)
    ensures
        match run(PathState::Tracing { depth }, events) {
            PathState::Tracing { depth: left } => {
                &&& queries(PathState::Tracing { depth }, events) == events.len()
                &&& left + events.len() == depth
            },
            PathState::Done { .. } => queries(PathState::Tracing { depth }, events) <= depth,
        },
    decreases events.len(),
{
    if events.len() > 0 {
        lemma_budget_spent(depth, events.drop_last());
    }
}

/// A path started with no bounce budget gathers no light: whatever the scene would
/// report, the caller is never asked to trace a ray and the path ends in black, with
/// no attenuation applied.
pub proof fn lemma_exhausted_depth_is_black(events: Seq<Interaction>)
    ensures
        action_of(run(PathState::Tracing { depth: 0 }, events)) == (PathAction::Finish {
            terminal: Terminal::Black,
        }),
        queries(PathState::Tracing { depth: 0 }, events) == 0,
    decreases events.len(),
{
    if events.len() > 0 {
        lemma_exhausted_depth_is_black(events.drop_last());
    }
}

/// Every light path is finite and bounded by the bounce budget: from a start with
/// `max_depth` bounces, the caller is asked to trace at most `max_depth` rays, and once
/// `max_depth` reports were given the path has ended.
pub proof fn lemma_path_bounded(max_depth: u64, events: Seq<Interaction>)
    ensures
        queries(PathState::Tracing { depth: max_depth }, events) <= max_depth,
        events.len() >= max_depth ==> action_of(run(PathState::Tracing { depth: max_depth }, events)) is Finish,
{
    lemma_budget_spent(max_depth, events);
}

/// The state in which a path starts, with a budget of `max_depth` bounces.
pub fn start(max_depth: u64) -> (s: PathState)
    ensures
        s == (PathState::Tracing { depth: max_depth }),
{
    PathState::Tracing { depth: max_depth }
}

/// What the caller must do in state `s`: trace the current ray, or stop with a terminal.
pub fn next_action(s: PathState) -> (a: PathAction)
    ensures
        a == action_of(s),
{
    match s {
        PathState::Tracing { depth } => if depth == 0 {
            PathAction::Finish { terminal: Terminal::Black }
        } else {
            PathAction::Query
        },
        PathState::Done { terminal } => PathAction::Finish { terminal },
    }
}

/// The state after the caller reported `e` for the current ray in state `s`.
///
/// A miss ends the path in the sky, an absorption in black, and a scatter spends one
/// bounce of the budget. A path with no budget left, or already ended, does not move on.
pub fn advance(s: PathState, e: Interaction) -> (n: PathState)
    ensures
        n == step_of(s, e),
{
    match s {
        PathState::Tracing { depth } => if depth == 0 {
            PathState::Done { terminal: Terminal::Black }
        } else {
            match e {
                Interaction::Miss => PathState::Done { terminal: Terminal::Sky },
                Interaction::Absorbed => PathState::Done { terminal: Terminal::Black },
                Interaction::Scattered => PathState::Tracing { depth: depth - 1 },
            }
        },
        PathState::Done { .. } => s,
    }
}

} // verus!
