//! Keeping the packages of the chroot up to date.

use crate::commands::{create_copy, delete_copy, mirror, upgrade};
use crate::course::{course, lemma_course_is_bounded};
use crate::environment::{chroot_dir, Environment, Key};
use crate::notice::{failure, progress, success, Notice, Severity};
use crate::process::{
    lemma_take_step, matches_model, quiet, take_step, telling, Event, EventView, Invocation,
    Misstep, Presence, Request, RequestView, Step, StepView,
};
use crate::sync::{
    after_sync, begin_sync, missing_chroot_notice, sync_advance, sync_begun, sync_chroot,
    sync_pending, sync_steps_left, SyncStage,
};
use crate::text::mentions;
use vstd::prelude::*;

verus! {

/// How far an update has come.
#[derive(Clone, Copy, Debug, PartialEq, Eq, Structural)]
pub enum UpdateStage {
    /// Nothing has been requested yet.
    Start,
    /// Asked what is at the chroot directory.
    ProbingRoot,
    /// Upgrading every package of the root image.
    Upgrading,
    /// Bringing the working copy in line with the upgraded root image.
    Syncing(SyncStage),
    /// The update is over.
    Done,
}

/// The request that an update at `stage` is waiting on, if it waits on one.
pub open spec fn update_pending(home: Seq<char>, stage: UpdateStage) -> Option<RequestView> {
    match stage {
        UpdateStage::Start => None,
        UpdateStage::ProbingRoot => Some(RequestView::Probe { path: chroot_dir(home) }),
        UpdateStage::Upgrading => Some(RequestView::Run(upgrade(home))),
        UpdateStage::Syncing(inner) => sync_pending(home, inner),
        UpdateStage::Done => None,
    }
}

/// Whether an update at `stage` is over.
pub open spec fn update_over(stage: UpdateStage) -> bool {
    stage is Done || stage == UpdateStage::Syncing(SyncStage::Done)
}

/// The step that ends an update that went well.
pub open spec fn update_complete() -> StepView<UpdateStage> {
    telling(
        success("Chroot environment updated correctly!"@),
        RequestView::Finish { code: 0 },
        UpdateStage::Done,
    )
}

/// The step that ends an update of a chroot that does not exist.
pub open spec fn update_without_chroot() -> StepView<UpdateStage> {
    telling(
        failure(missing_chroot_notice()),
        RequestView::Finish { code: 1 },
        UpdateStage::Done,
    )
}

/// The step that ends an update whose upgrade ran and failed.
pub open spec fn upgrade_failed() -> StepView<UpdateStage> {
    telling(
        failure("An error as ocurred while updating the chroot environment."@),
        RequestView::Finish { code: 1 },
        UpdateStage::Done,
    )
}

/// What an update makes of a step of the sync that closes it: a sync that
/// went well completes the update.
pub open spec fn update_syncing(step: StepView<SyncStage>) -> StepView<UpdateStage> {
    after_sync(
        step,
        update_complete(),
        |inner: SyncStage| UpdateStage::Syncing(inner),
        UpdateStage::Done,
    )
}

/// The step that an update takes at `stage`, at which it is not over, on an
/// `event` that answers what it was waiting on and is not a failure to start
/// a program. It first asks what is at the chroot directory, and upgrades
/// only where something is there.
pub open spec fn update_advance(home: Seq<char>, stage: UpdateStage, event: EventView) -> StepView<
    UpdateStage,
> {
    match stage {
        UpdateStage::Start => quiet(
            RequestView::Probe { path: chroot_dir(home) },
            UpdateStage::ProbingRoot,
        ),
        UpdateStage::ProbingRoot => if event == EventView::Probed(Presence::Absent) {
            update_without_chroot()
        } else {
            telling(
                progress("Updating the chroot environment..."@),
                RequestView::Run(upgrade(home)),
                UpdateStage::Upgrading,
            )
        },
        UpdateStage::Upgrading => if event == EventView::Exited(true) {
            update_syncing(sync_begun(home))
        } else {
            upgrade_failed()
        },
        UpdateStage::Syncing(inner) => update_syncing(sync_advance(home, inner, event)),
        UpdateStage::Done => quiet(RequestView::Finish { code: 0 }, UpdateStage::Done),
    }
}

/// What an update at `stage` does on `event`.
pub open spec fn update_model(home: Seq<char>, stage: UpdateStage, event: EventView) -> Result<
    StepView<UpdateStage>,
    Misstep,
> {
    take_step(
        update_over(stage),
        update_pending(home, stage),
        event,
        update_advance(home, stage, event),
        UpdateStage::Done,
    )
}

/// What an update makes of a step of the sync that closes it.
fn update_sync_step(step: Step<SyncStage>) -> (outer: Step<UpdateStage>)
    ensures
        outer@ == update_syncing(step@),
{
    let Step { notices, request, stage } = step;
    match request {
        Request::Finish { code } => {
            if code == 0 {
                let mut notices = notices;
                let ghost told = notices.deep_view();
                let complete = Notice::success("Chroot environment updated correctly!".to_owned());
                notices.push(complete);
                assert(notices.deep_view() =~= told + seq![complete@]);
                Step { notices, request: Request::Finish { code }, stage: UpdateStage::Done }
            } else {
                Step { notices, request: Request::Finish { code }, stage: UpdateStage::Done }
            }
        },
        Request::Abort { diagnostic } => Step {
            notices,
            request: Request::Abort { diagnostic },
            stage: UpdateStage::Done,
        },
        other => Step { notices, request: other, stage: UpdateStage::Syncing(stage) },
    }
}

/// Takes one step of an update of the chroot: where the chroot exists, it
/// upgrades every package of the root image and, once that went well, brings
/// the working copy in line with it.
///
/// `stage` is where the update stands and `event` is what came of the request
/// it made last; an update begins at `UpdateStage::Start` with `Event::Begin`.
pub fn update_chroot_packages(env: &Environment, stage: UpdateStage, event: &Event) -> (result:
    Result<Step<UpdateStage>, Misstep>)
    ensures
        matches_model(result, update_model(env.home(), stage, event@)),
{
    match (stage, event) {
        (UpdateStage::Done, _) => Err(Misstep::Finished),
        (UpdateStage::Syncing(inner), _) => match sync_chroot(env, inner, event) {
            Ok(step) => Ok(update_sync_step(step)),
            Err(misstep) => Err(misstep),
        },
        (UpdateStage::Start, Event::Begin) => Ok(
            Step::quiet(
                Request::Probe { path: env.value(Key::ChrootDir).to_owned() },
                UpdateStage::ProbingRoot,
            ),
        ),
        (UpdateStage::ProbingRoot, Event::Probed(Presence::Absent)) => Ok(
            Step::telling(
                Notice::failure(
                    "Chroot environment doesn't exists. Please use the -s option first.".to_owned(),
                ),
                Request::Finish { code: 1 },
                UpdateStage::Done,
            ),
        ),
        (UpdateStage::ProbingRoot, Event::Probed(_)) => Ok(
            Step::telling(
                Notice::progress("Updating the chroot environment...".to_owned()),
                Request::Run(Invocation::upgrade(env)),
                UpdateStage::Upgrading,
            ),
        ),
        (UpdateStage::Upgrading, Event::Exited(true)) => Ok(update_sync_step(begin_sync(env))),
        (UpdateStage::Upgrading, Event::Exited(false)) => Ok(
            Step::telling(
                Notice::failure(
                    "An error as ocurred while updating the chroot environment.".to_owned(),
                ),
                Request::Finish { code: 1 },
                UpdateStage::Done,
            ),
        ),
        (UpdateStage::Upgrading, Event::NotStarted) => Ok(
            Step::quiet(Request::abort_launch(env.value(Key::Nspawn)), UpdateStage::Done),
        ),
        _ => Err(Misstep::Unexpected),
    }
}

/// The steps that an update at `stage` can still take, at most.
pub open spec fn update_steps_left(stage: UpdateStage) -> nat {
    match stage {
        UpdateStage::Start => sync_steps_left(SyncStage::Start) + 2,
        UpdateStage::ProbingRoot => sync_steps_left(SyncStage::Start) + 1,
        UpdateStage::Upgrading => sync_steps_left(SyncStage::Start),
        UpdateStage::Syncing(inner) => sync_steps_left(inner),
        UpdateStage::Done => 0,
    }
}

/// Every step brings an update nearer to its end, so that nothing is tried
/// twice.
pub proof fn lemma_update_ends(home: Seq<char>, stage: UpdateStage, event: EventView)
    ensures
        update_model(home, stage, event) matches Ok(step) ==> update_steps_left(step.stage)
            < update_steps_left(stage),
{
}

/// The stage that a step leads to waits on the request that the step made,
/// and a step that ends the update leads to a stage at which it is over.
pub proof fn lemma_update_remembers_request(home: Seq<char>, stage: UpdateStage, event: EventView)
    ensures
        update_model(home, stage, event) matches Ok(step) ==> if step.request.is_final() {
            update_over(step.stage)
        } else {
            !update_over(step.stage) && update_pending(home, step.stage) == Some(step.request)
        },
{
}

/// What goes wrong ends an update. A program that could not be started
/// aborts it with a diagnostic that names the program; nothing else aborts
/// it. A program that ran and failed ends it with exit code 1 and a notice of
/// the failure. No other exit code is asked for but 0.
pub proof fn lemma_update_failures(home: Seq<char>, stage: UpdateStage, event: EventView)
    ensures
        update_model(home, stage, event) matches Ok(step) ==> {
            &&& step.request is Abort <==> event is NotStarted
            &&& event is NotStarted ==> step.request is Abort && mentions(
                step.request->diagnostic,
                update_pending(home, stage).unwrap().invocation().unwrap().program,
            )
            &&& event == EventView::Exited(false) ==> {
                &&& step.request == RequestView::Finish { code: 1 }
                &&& step.notices.len() == 1
                &&& step.notices[0].severity == Severity::Failure
            }
            &&& step.request matches RequestView::Finish { code } ==> code == 0 || code == 1
        },
{
    lemma_take_step(
        update_over(stage),
        update_pending(home, stage),
        event,
        update_advance(home, stage, event),
        UpdateStage::Done,
    );
}

/// An update first asks what is at the chroot directory, and where nothing is
/// there it ends at once with exit code 1: it tells the user that the chroot
/// does not exist and starts no program. The upgrade is started at one point
/// only: when something was found at the chroot directory.
pub proof fn lemma_update_needs_chroot(home: Seq<char>, stage: UpdateStage, event: EventView)
    ensures
        update_model(home, UpdateStage::Start, EventView::Begin) == Ok::<
            StepView<UpdateStage>,
            Misstep,
        >(quiet(RequestView::Probe { path: chroot_dir(home) }, UpdateStage::ProbingRoot)),
        update_model(home, UpdateStage::ProbingRoot, EventView::Probed(Presence::Absent)) == Ok::<
            StepView<UpdateStage>,
            Misstep,
        >(update_without_chroot()),
        update_model(home, stage, event) matches Ok(step) ==> (step.request == RequestView::Run(
            upgrade(home),
        ) <==> stage is ProbingRoot && event is Probed && event != EventView::Probed(
            Presence::Absent,
        )),
{
    reveal_strlit("/bin/sh");
    reveal_strlit("subvolume");
    assert("/bin/sh"@.len() == 7);
    assert("subvolume"@.len() == 9);
    assert(upgrade(home).args[1] != delete_copy(home).args[1]);
    assert(upgrade(home).args.len() == 4);
    assert(create_copy(home).args.len() == 2);
    assert(mirror(home).args.len() == 8);
}

/// An upgrade that ran and failed ends the update with exit code 1 and a
/// notice of the failure: the working copy is left as it was.
pub proof fn lemma_failed_upgrade_syncs_nothing(home: Seq<char>)
    ensures
        update_model(home, UpdateStage::Upgrading, EventView::Exited(false)) == Ok::<
            StepView<UpdateStage>,
            Misstep,
        >(upgrade_failed()),
{
}

/// An update ends well only by the sync that closes it: the mirroring command
/// exited successfully, or the snapshot was started. It then tells the user
/// that the chroot is up to date.
pub proof fn lemma_update_success(home: Seq<char>, stage: UpdateStage, event: EventView)
    ensures
        update_model(home, stage, event) matches Ok(step) ==> (step.request == (
        RequestView::Finish { code: 0 }) ==> {
            &&& {
                ||| stage == UpdateStage::Syncing(SyncStage::Mirroring) && event
                    == EventView::Exited(true)
                ||| stage == UpdateStage::Syncing(SyncStage::Snapshotting) && event is Spawned
            }
            &&& step.notices.len() > 0
            &&& step.notices.last() == success("Chroot environment updated correctly!"@)
        }),
{
}

/// The steps that an update takes as `events` come in.
pub open spec fn update_course(home: Seq<char>, events: Seq<EventView>) -> Seq<
    StepView<UpdateStage>,
> {
    course(
        |stage: UpdateStage, event: EventView| update_model(home, stage, event),
        UpdateStage::Start,
        events,
    )
}

/// Whatever the events, an update is over after nine steps.
pub proof fn lemma_update_course_is_bounded(home: Seq<char>, events: Seq<EventView>)
    ensures
        update_course(home, events).len() <= 9,
{
    let model = |stage: UpdateStage, event: EventView| update_model(home, stage, event);
    assert forall|from: UpdateStage, event: EventView|
        (#[trigger] model(from, event)) matches Ok(step) ==> update_steps_left(step.stage)
            < update_steps_left(from) by {
        lemma_update_ends(home, from, event);
    }
    lemma_course_is_bounded(
        model,
        |stage: UpdateStage| update_steps_left(stage),
        UpdateStage::Start,
        events,
    );
}

} // verus!
