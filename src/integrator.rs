use vstd::prelude::*;

verus! {

/// What tracing one ray into the scene gave.
#[derive(Clone, Copy, Debug, PartialEq, Eq, Structural)]
pub enum Trace {
    /// The ray hit nothing: the background lights it.
    Missed,
    /// The ray hit a surface whose material absorbed it.
    Absorbed,
    /// The ray hit a surface whose material sent out a new ray, with an attenuation.
    Scattered,
}

/// What the radiance estimate does next.
#[derive(Clone, Copy, Debug, PartialEq, Eq, Structural)]
pub enum Step {
    /// The estimate is black, whatever was gathered so far.
    Black,
    /// The estimate is the attenuation gathered so far times the background
    /// colour of the current ray.
    Background,
    /// Trace the current ray into the scene, with `depth` bounces left.
    Trace { depth: u64 },
}

/// The step that a ray with `depth` bounces left begins with.
pub open spec fn begin_step(depth: nat) -> Step {
    if depth == 0 {
        Step::Black
    } else {
        Step::Trace { depth: depth as u64 }
    }
}

/// The step that follows tracing a ray that had `depth` bounces left.
pub open spec fn after_trace_step(depth: nat, outcome: Trace) -> Step {
    match outcome {
        Trace::Missed => Step::Background,
        Trace::Absorbed => Step::Black,
        Trace::Scattered => begin_step((depth - 1) as nat),
    }
}

/// The first step of the estimate for a ray with `depth` bounces left: with none
/// left the estimate is black and the scene is never consulted.
pub fn begin(depth: u64) -> (r: Step)
    ensures
        r == begin_step(depth as nat),
        depth == 0 ==> r == Step::Black,
        depth > 0 ==> r == (Step::Trace { depth }),
{
    if depth == 0 {
        Step::Black
    } else {
        Step::Trace { depth }
    }
}

/// The step after a ray with `depth` bounces left was traced: a miss ends on the
/// background, an absorption ends black, and a scattered ray goes on with one bounce
/// fewer, its attenuation multiplied into the estimate.
pub fn after_trace(depth: u64, outcome: Trace) -> (r: Step)
    requires
        depth > 0,
    ensures
        r == after_trace_step(depth as nat, outcome),
        r matches Step::Trace { depth: d } ==> d < depth,
{
    match outcome {
        Trace::Missed => Step::Background,
        Trace::Absorbed => Step::Black,
        Trace::Scattered => begin(depth - 1),
    }
}

/// The step reached from `step` when each ray traced meets the next of `outcomes`;
/// a step that ends the estimate stays as it is.
pub open spec fn follow(step: Step, outcomes: Seq<Trace>) -> Step
    decreases outcomes.len(),
{
    if outcomes.len() == 0 {
        step
    } else {
        match step {
            Step::Trace { depth } => follow(
                after_trace_step(depth as nat, outcomes[0]),
                outcomes.drop_first(),
            ),
            _ => step,
        }
    }
}

/// A ray with `depth` bounces left is traced at most `depth` times: whatever each
/// trace gives, after `depth` of them the estimate has ended.
pub proof fn lemma_depth_bounds_traces(depth: nat, outcomes: Seq<Trace>)
    requires
        depth <= outcomes.len(),
        depth <= u64::MAX,
    ensures
        !(follow(begin_step(depth), outcomes) is Trace),
    decreases depth,
{
    if depth > 0 {
        let next = after_trace_step(depth, outcomes[0]);
        if next is Trace {
            lemma_depth_bounds_traces((depth - 1) as nat, outcomes.drop_first());
        } else {
            lemma_ends_stay(next, outcomes.drop_first());
        }
    }
}

/// A step that ends the estimate is never left.
proof fn lemma_ends_stay(step: Step, outcomes: Seq<Trace>)
    requires
        !(step is Trace),
    ensures
        follow(step, outcomes) == step,
    decreases outcomes.len(),
{
}

} // verus!
