//! The course of an operation: the steps it takes, one after the other, as
//! the events come in.

use crate::process::{EventView, Misstep, StepView};
use vstd::prelude::*;

verus! {

/// The steps that an operation takes from `stage` as `events` come in, where
/// `model` says what it does at a stage on an event. The course ends with
/// the events, or before the first event that the operation takes no step on.
pub open spec fn course<S>(
    model: spec_fn(S, EventView) -> Result<StepView<S>, Misstep>,
    stage: S,
    events: Seq<EventView>,
) -> Seq<StepView<S>>
    decreases events.len(),
{
    if events.len() == 0 {
        Seq::empty()
    } else {
        match model(stage, events[0]) {
            Ok(step) => seq![step] + course(model, step.stage, events.drop_first()),
            Err(_) => Seq::empty(),
        }
    }
}

/// The stage at which the step at place `at` of a course is taken.
pub open spec fn stage_before<S>(steps: Seq<StepView<S>>, start: S, at: int) -> S {
    if at == 0 {
        start
    } else {
        steps[at - 1].stage
    }
}

/// Each step of a course is the one that the operation takes, at the stage
/// that the step before it led to, on the event at the same place.
pub proof fn lemma_course_links<S>(
    model: spec_fn(S, EventView) -> Result<StepView<S>, Misstep>,
    stage: S,
    events: Seq<EventView>,
    at: int,
)
    requires
        0 <= at < course(model, stage, events).len(),
    ensures
        at < events.len(),
        model(stage_before(course(model, stage, events), stage, at), events[at]) == Ok::<
            StepView<S>,
            Misstep,
        >(course(model, stage, events)[at]),
    decreases events.len(),
{
    if at > 0 {
        let first = model(stage, events[0])->Ok_0;
        lemma_course_links(model, first.stage, events.drop_first(), at - 1);
    }
}

/// A course is no longer than the steps that are left at its start, where
/// `left` counts them and every step leaves fewer.
pub proof fn lemma_course_is_bounded<S>(
    model: spec_fn(S, EventView) -> Result<StepView<S>, Misstep>,
    left: spec_fn(S) -> nat,
    stage: S,
    events: Seq<EventView>,
)
    requires
        forall|from: S, event: EventView| (#[trigger] model(from, event)) matches Ok(step) ==> left(
            step.stage,
        ) < left(from),
    ensures
        course(model, stage, events).len() <= left(stage),
    decreases events.len(),
{
    if events.len() > 0 {
        if let Ok(step) = model(stage, events[0]) {
            lemma_course_is_bounded(model, left, step.stage, events.drop_first());
        }
    }
}

} // verus!
