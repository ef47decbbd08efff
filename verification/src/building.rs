//! Building a package inside the working copy.

use crate::commands::{build, create_copy, delete_copy, lint, linter, mirror};
use crate::course::{course, lemma_course_is_bounded};
use crate::environment::{Environment, Key};
use crate::notice::{failure, progress, success, Notice, NoticeView, Severity};
use crate::process::{
    lemma_take_step, matches_model, quiet, take_step, telling, Event, EventView, Invocation,
    Misstep, Presence, Request, RequestView, Step, StepView,
};
use crate::sync::{
    after_sync, begin_sync, sync_advance, sync_begun, sync_chroot, sync_pending, sync_steps_left,
    SyncStage,
};
use crate::text::mentions;
use vstd::prelude::*;

verus! {

/// How far a build has come.
#[derive(Clone, Copy, Debug, PartialEq, Eq, Structural)]
pub enum BuildStage {
    /// Nothing has been requested yet.
    Start,
    /// Bringing the working copy in line with the root image.
    Syncing(SyncStage),
    /// Asked whether the linter of build manifests is installed.
    LocatingLinter,
    /// Linting the build manifest.
    Linting,
    /// Building the package.
    Building,
    /// The build is over.
    Done,
}

/// The notice of how the package builder did.
pub open spec fn built_notice(went_well: bool) -> NoticeView {
    if went_well {
        success("Package built sucessfully!"@)
    } else {
        failure("Failed to build the package."@)
    }
}

/// The notice of how the linter did.
pub open spec fn linted_notice(went_well: bool) -> NoticeView {
    if went_well {
        success("No errors detected with pkgcheck!"@)
    } else {
        failure("Some errors were detected, please fix them before pushing!"@)
    }
}

/// The notice for a linter that is not installed.
pub open spec fn no_linter_notice() -> Seq<char> {
    "Consideer installing pkgcheck with pip install pkgcheck-arch --user for automatic PKGBUILD syntax error checking."@
}

/// The exit code of an operation whose last command went well or did not.
pub open spec fn exit_code(went_well: bool) -> int {
    if went_well {
        0
    } else {
        1
    }
}

/// The request that a build at `stage` is waiting on, if it waits on one.
pub open spec fn build_pending(home: Seq<char>, stage: BuildStage) -> Option<RequestView> {
    match stage {
        BuildStage::Start => None,
        BuildStage::Syncing(inner) => sync_pending(home, inner),
        BuildStage::LocatingLinter => Some(RequestView::Locate { program: linter() }),
        BuildStage::Linting => Some(RequestView::Run(lint())),
        BuildStage::Building => Some(RequestView::Run(build(home))),
        BuildStage::Done => None,
    }
}

/// Whether a build at `stage` is over.
pub open spec fn build_over(stage: BuildStage) -> bool {
    stage is Done || stage == BuildStage::Syncing(SyncStage::Done)
}

/// What a build makes of a step of the sync that opens it: after a sync that
/// went well it looks for the linter.
pub open spec fn build_syncing(step: StepView<SyncStage>) -> StepView<BuildStage> {
    after_sync(
        step,
        quiet(RequestView::Locate { program: linter() }, BuildStage::LocatingLinter),
        |inner: SyncStage| BuildStage::Syncing(inner),
        BuildStage::Done,
    )
}

/// The step that a build takes at `stage`, at which it is not over, on an
/// `event` that answers what it was waiting on and is not a failure to start
/// a program. What the linter finds is told and does not hold the build up.
pub open spec fn build_advance(home: Seq<char>, stage: BuildStage, event: EventView) -> StepView<
    BuildStage,
> {
    let went_well = event == EventView::Exited(true);
    match stage {
        BuildStage::Start => build_syncing(sync_begun(home)),
        BuildStage::Syncing(inner) => build_syncing(sync_advance(home, inner, event)),
        BuildStage::LocatingLinter => if event == EventView::Located(true) {
            telling(
                progress("Checking PKGBUILD with pkgcheck..."@),
                RequestView::Run(lint()),
                BuildStage::Linting,
            )
        } else {
            telling(
                progress(no_linter_notice()),
                RequestView::Run(build(home)),
                BuildStage::Building,
            )
        },
        BuildStage::Linting => telling(
            linted_notice(went_well),
            RequestView::Run(build(home)),
            BuildStage::Building,
        ),
        BuildStage::Building => telling(
            built_notice(went_well),
            RequestView::Finish { code: exit_code(went_well) },
            BuildStage::Done,
        ),
        BuildStage::Done => quiet(RequestView::Finish { code: 0 }, BuildStage::Done),
    }
}

/// What a build at `stage` does on `event`.
pub open spec fn build_model(home: Seq<char>, stage: BuildStage, event: EventView) -> Result<
    StepView<BuildStage>,
    Misstep,
> {
    take_step(
        build_over(stage),
        build_pending(home, stage),
        event,
        build_advance(home, stage, event),
        BuildStage::Done,
    )
}

impl Notice {
    /// The notice of how the package builder did.
    pub fn built(went_well: bool) -> (notice: Notice)
        ensures
            notice@ == built_notice(went_well),
    {
        if went_well {
            Notice::success("Package built sucessfully!".to_owned())
        } else {
            Notice::failure("Failed to build the package.".to_owned())
        }
    }

    /// The notice of how the linter did.
    pub fn linted(went_well: bool) -> (notice: Notice)
        ensures
            notice@ == linted_notice(went_well),
    {
        if went_well {
            Notice::success("No errors detected with pkgcheck!".to_owned())
        } else {
            Notice::failure("Some errors were detected, please fix them before pushing!".to_owned())
        }
    }
}

/// What a build makes of a step of the sync that opens it.
fn build_sync_step(step: Step<SyncStage>) -> (outer: Step<BuildStage>)
    ensures
        outer@ == build_syncing(step@),
{
    let Step { notices, request, stage } = step;
    match request {
        Request::Finish { code } => {
            if code == 0 {
                assert(notices.deep_view() + Seq::empty() =~= notices.deep_view());
                Step {
                    notices,
                    request: Request::Locate { program: "pkgcheck".to_owned() },
                    stage: BuildStage::LocatingLinter,
                }
            } else {
                Step { notices, request: Request::Finish { code }, stage: BuildStage::Done }
            }
        },
        Request::Abort { diagnostic } => Step {
            notices,
            request: Request::Abort { diagnostic },
            stage: BuildStage::Done,
        },
        other => Step { notices, request: other, stage: BuildStage::Syncing(stage) },
    }
}

/// Takes one step of the build of a package: it brings the working copy in
/// line with the root image, lints the build manifest where the linter is
/// installed, and builds the package inside the working copy.
///
/// `stage` is where the build stands and `event` is what came of the request
/// it made last; a build begins at `BuildStage::Start` with `Event::Begin`.
pub fn build_package(env: &Environment, stage: BuildStage, event: &Event) -> (result: Result<
    Step<BuildStage>,
    Misstep,
>)
    ensures
        matches_model(result, build_model(env.home(), stage, event@)),
{
    match (stage, event) {
        (BuildStage::Done, _) => Err(Misstep::Finished),
        (BuildStage::Syncing(inner), _) => match sync_chroot(env, inner, event) {
            Ok(step) => Ok(build_sync_step(step)),
            Err(misstep) => Err(misstep),
        },
        (BuildStage::Start, Event::Begin) => Ok(build_sync_step(begin_sync(env))),
        (BuildStage::LocatingLinter, Event::Located(true)) => Ok(
            Step::telling(
                Notice::progress("Checking PKGBUILD with pkgcheck...".to_owned()),
                Request::Run(Invocation::lint()),
                BuildStage::Linting,
            ),
        ),
        (BuildStage::LocatingLinter, Event::Located(false)) => Ok(
            Step::telling(
                Notice::progress(
                    "Consideer installing pkgcheck with pip install pkgcheck-arch --user for automatic PKGBUILD syntax error checking.".to_owned(),
                ),
                Request::Run(Invocation::build(env)),
                BuildStage::Building,
            ),
        ),
        (BuildStage::Linting, Event::Exited(went_well)) => Ok(
            Step::telling(
                Notice::linted(*went_well),
                Request::Run(Invocation::build(env)),
                BuildStage::Building,
            ),
        ),
        (BuildStage::Linting, Event::NotStarted) => Ok(
            Step::quiet(Request::abort_launch("pkgcheck"), BuildStage::Done),
        ),
        (BuildStage::Building, Event::Exited(went_well)) => Ok(
            Step::telling(
                Notice::built(*went_well),
                Request::Finish { code: if *went_well { 0 } else { 1 } },
                BuildStage::Done,
            ),
        ),
        (BuildStage::Building, Event::NotStarted) => Ok(
            Step::quiet(Request::abort_launch(env.value(Key::Makechrootpkg)), BuildStage::Done),
        ),
        _ => Err(Misstep::Unexpected),
    }
}

/// The steps that a build at `stage` can still take, at most.
pub open spec fn build_steps_left(stage: BuildStage) -> nat {
    match stage {
        BuildStage::Start => sync_steps_left(SyncStage::Start) + 3,
        BuildStage::Syncing(inner) => sync_steps_left(inner) + 3,
        BuildStage::LocatingLinter => 3,
        BuildStage::Linting => 2,
        BuildStage::Building => 1,
        BuildStage::Done => 0,
    }
}

/// Every step brings a build nearer to its end, so that nothing is tried
/// twice.
pub proof fn lemma_build_ends(home: Seq<char>, stage: BuildStage, event: EventView)
    ensures
        build_model(home, stage, event) matches Ok(step) ==> build_steps_left(step.stage)
            < build_steps_left(stage),
{
}

/// The stage that a step leads to waits on the request that the step made,
/// and a step that ends the build leads to a stage at which it is over.
pub proof fn lemma_build_remembers_request(home: Seq<char>, stage: BuildStage, event: EventView)
    ensures
        build_model(home, stage, event) matches Ok(step) ==> if step.request.is_final() {
            build_over(step.stage)
        } else {
            !build_over(step.stage) && build_pending(home, step.stage) == Some(step.request)
        },
{
}

/// What goes wrong ends a build. A program that could not be started aborts
/// it with a diagnostic that names the program; nothing else aborts it. A
/// program that ran and failed ends it with exit code 1 and a notice of the
/// failure, but for the linter, which does not hold the build up. No other
/// exit code is asked for but 0.
pub proof fn lemma_build_failures(home: Seq<char>, stage: BuildStage, event: EventView)
    ensures
        build_model(home, stage, event) matches Ok(step) ==> {
            &&& step.request is Abort <==> event is NotStarted
            &&& event is NotStarted ==> step.request is Abort && mentions(
                step.request->diagnostic,
                build_pending(home, stage).unwrap().invocation().unwrap().program,
            )
            &&& event == EventView::Exited(false) && !(stage is Linting) ==> {
                &&& step.request == RequestView::Finish { code: 1 }
                &&& step.notices.len() == 1
                &&& step.notices[0].severity == Severity::Failure
            }
            &&& step.request matches RequestView::Finish { code } ==> code == 0 || code == 1
        },
{
    lemma_take_step(
        build_over(stage),
        build_pending(home, stage),
        event,
        build_advance(home, stage, event),
        BuildStage::Done,
    );
}

/// The linter is looked for only after a sync that went well, and a sync
/// that did not ends the build: without a chroot nothing is linted or
/// built.
pub proof fn lemma_build_waits_for_sync(home: Seq<char>, stage: BuildStage, event: EventView)
    ensures
        build_model(home, stage, event) matches Ok(step) ==> {
            &&& step.request is Locate <==> {
                ||| stage == BuildStage::Syncing(SyncStage::Mirroring) && event
                    == EventView::Exited(true)
                ||| stage == BuildStage::Syncing(SyncStage::Snapshotting) && event is Spawned
            }
            &&& step.request == RequestView::Run(build(home)) ==> stage is LocatingLinter
                || stage is Linting
            &&& step.request == RequestView::Run(lint()) ==> stage is LocatingLinter
        },
        build_model(
            home,
            BuildStage::Syncing(SyncStage::ProbingRoot),
            EventView::Probed(Presence::Absent),
        ) matches Ok(step) && step.request == (RequestView::Finish { code: 1 }),
{
    reveal_strlit("-l");
    reveal_strlit("btrfs");
    assert("-l"@.len() == 2);
    assert("btrfs"@.len() == 5);
    assert(build(home).args[0] != delete_copy(home).args[0]);
    assert(build(home).args.len() == 4);
    assert(create_copy(home).args.len() == 2);
    assert(mirror(home).args.len() == 8);
    assert(lint().args.len() == 1);
}

/// What the linter finds does not hold the build up: whether it is missing,
/// passes or fails, the package is built next.
pub proof fn lemma_lint_never_blocks(home: Seq<char>, found: bool, passed: bool)
    ensures
        build_model(home, BuildStage::LocatingLinter, EventView::Located(found)) matches Ok(step)
            && (step.request == if found {
            RequestView::Run(lint())
        } else {
            RequestView::Run(build(home))
        }),
        build_model(home, BuildStage::Linting, EventView::Exited(passed)) matches Ok(step)
            && step.request == RequestView::Run(build(home)) && step.notices == seq![
            linted_notice(passed),
        ],
{
}

/// A build ends as the package builder did: with exit code 0 and a notice of
/// success where it exited successfully, with exit code 1 and a notice of
/// failure where it did not.
pub proof fn lemma_build_reports_builder(home: Seq<char>, went_well: bool)
    ensures
        build_model(home, BuildStage::Building, EventView::Exited(went_well)) == Ok::<
            StepView<BuildStage>,
            Misstep,
        >(
            telling(
                built_notice(went_well),
                RequestView::Finish { code: exit_code(went_well) },
                BuildStage::Done,
            ),
        ),
        built_notice(went_well).severity == if went_well {
            Severity::Success
        } else {
            Severity::Failure
        },
{
}

/// The steps that a build takes as `events` come in.
pub open spec fn build_course(home: Seq<char>, events: Seq<EventView>) -> Seq<
    StepView<BuildStage>,
> {
    course(
        |stage: BuildStage, event: EventView| build_model(home, stage, event),
        BuildStage::Start,
        events,
    )
}

/// Whatever the events, a build is over after ten steps.
pub proof fn lemma_build_course_is_bounded(home: Seq<char>, events: Seq<EventView>)
    ensures
        build_course(home, events).len() <= 10,
{
    let model = |stage: BuildStage, event: EventView| build_model(home, stage, event);
    assert forall|from: BuildStage, event: EventView|
        (#[trigger] model(from, event)) matches Ok(step) ==> build_steps_left(step.stage)
            < build_steps_left(from) by {
        lemma_build_ends(home, from, event);
    }
    lemma_course_is_bounded(
        model,
        |stage: BuildStage| build_steps_left(stage),
        BuildStage::Start,
        events,
    );
}

} // verus!
