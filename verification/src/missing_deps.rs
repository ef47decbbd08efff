//! Building a package whose build needs packages that no repository offers:
//! their files are installed into the working copy before the build.

use crate::building::{built_notice, exit_code};
use crate::commands::{build, clear_staged, install_staged, stage_copy};
use crate::course::{course, lemma_course_is_bounded};
use crate::environment::{Environment, Key};
use crate::notice::{failure, progress, Notice, Severity};
use crate::process::{
    lemma_take_step, matches_model, quiet, take_step, telling, Event, EventView, Invocation,
    Misstep, Request, RequestView, Step, StepView,
};
use crate::sync::{
    after_sync, begin_sync, sync_advance, sync_begun, sync_chroot, sync_pending, sync_steps_left,
    SyncStage,
};
use crate::text::{join, mentions};
use vstd::prelude::*;

verus! {

/// How far a build with missing dependencies has come.
#[derive(Clone, Copy, Debug, PartialEq, Eq, Structural)]
pub enum MissingStage {
    /// Nothing has been requested yet.
    Start,
    /// Bringing the working copy in line with the root image.
    Syncing(SyncStage),
    /// Copying the package file at this place of the list into the staging
    /// directory of the working copy.
    Copying(usize),
    /// Installing the staged packages into the working copy.
    Installing,
    /// Building the package.
    Building,
    /// Clearing the staging directory; `built` tells how the build went.
    Clearing { built: bool },
    /// The build is over.
    Done,
}

/// What the `Debug` formatting of the standard library writes for a list of
/// strings: the list in square brackets, each string quoted and escaped.
pub uninterp spec fn debug_rendering(items: Seq<Seq<char>>) -> Seq<char>;

/// The notice that the packages of `listing` are about to be installed.
pub open spec fn installing_notice(listing: Seq<char>) -> Seq<char> {
    "Installing missing packages: "@ + listing
}

/// The request that a build with the missing dependencies `missing` is
/// waiting on at `stage`, if it waits on one.
pub open spec fn missing_pending(
    home: Seq<char>,
    missing: Seq<Seq<char>>,
    stage: MissingStage,
) -> Option<RequestView> {
    match stage {
        MissingStage::Start => None,
        MissingStage::Syncing(inner) => sync_pending(home, inner),
        MissingStage::Copying(at) => if at < missing.len() {
            Some(RequestView::Run(stage_copy(home, missing[at as int])))
        } else {
            None
        },
        MissingStage::Installing => Some(RequestView::Run(install_staged(home))),
        MissingStage::Building => Some(RequestView::Run(build(home))),
        MissingStage::Clearing { .. } => Some(RequestView::Spawn(clear_staged(home))),
        MissingStage::Done => None,
    }
}

/// Whether a build with the missing dependencies `missing` is over at
/// `stage`. A stage that copies from beyond the list is never reached and is
/// taken as over.
pub open spec fn missing_over(missing: Seq<Seq<char>>, stage: MissingStage) -> bool {
    ||| stage is Done
    ||| stage == MissingStage::Syncing(SyncStage::Done)
    ||| stage matches MissingStage::Copying(at) && at >= missing.len()
}

/// The step that stages the package file at place `from` of `missing`, or,
/// once all are staged, installs them.
pub open spec fn staging(
    home: Seq<char>,
    missing: Seq<Seq<char>>,
    listing: Seq<char>,
    from: int,
) -> StepView<MissingStage> {
    if 0 <= from < missing.len() {
        quiet(
            RequestView::Run(stage_copy(home, missing[from])),
            MissingStage::Copying(from as usize),
        )
    } else {
        telling(
            progress(installing_notice(listing)),
            RequestView::Run(install_staged(home)),
            MissingStage::Installing,
        )
    }
}

/// The step that ends a build with missing dependencies with a notice of
/// what went wrong.
pub open spec fn missing_failed(text: Seq<char>) -> StepView<MissingStage> {
    telling(failure(text), RequestView::Finish { code: 1 }, MissingStage::Done)
}

/// What a build with missing dependencies makes of a step of the sync that
/// opens it: after a sync that went well it stages the first package file.
pub open spec fn missing_syncing(
    home: Seq<char>,
    missing: Seq<Seq<char>>,
    listing: Seq<char>,
    step: StepView<SyncStage>,
) -> StepView<MissingStage> {
    after_sync(
        step,
        staging(home, missing, listing, 0),
        |inner: SyncStage| MissingStage::Syncing(inner),
        MissingStage::Done,
    )
}

/// The step that a build with missing dependencies takes at `stage`, at
/// which it is not over, on an `event` that answers what it was waiting on
/// and is not a failure to start a program. `listing` is how the notice of
/// the installation shows the list.
pub open spec fn missing_advance(
    home: Seq<char>,
    missing: Seq<Seq<char>>,
    listing: Seq<char>,
    stage: MissingStage,
    event: EventView,
) -> StepView<MissingStage> {
    let went_well = event == EventView::Exited(true);
    match stage {
        MissingStage::Start => missing_syncing(home, missing, listing, sync_begun(home)),
        MissingStage::Syncing(inner) => missing_syncing(
            home,
            missing,
            listing,
            sync_advance(home, inner, event),
        ),
        MissingStage::Copying(at) => if went_well {
            staging(home, missing, listing, at + 1)
        } else {
            missing_failed("Failed to copy missing packages."@)
        },
        MissingStage::Installing => if went_well {
            quiet(RequestView::Run(build(home)), MissingStage::Building)
        } else {
            missing_failed("Failed to install missing packages."@)
        },
        MissingStage::Building => telling(
            built_notice(went_well),
            RequestView::Spawn(clear_staged(home)),
            MissingStage::Clearing { built: went_well },
        ),
        MissingStage::Clearing { built } => quiet(
            RequestView::Finish { code: exit_code(built) },
            MissingStage::Done,
        ),
        MissingStage::Done => quiet(RequestView::Finish { code: 0 }, MissingStage::Done),
    }
}

/// What a build with the missing dependencies `missing` does at `stage` on
/// `event`, where `listing` is how the notice of the installation shows the
/// list.
pub open spec fn missing_model(
    home: Seq<char>,
    missing: Seq<Seq<char>>,
    listing: Seq<char>,
    stage: MissingStage,
    event: EventView,
) -> Result<StepView<MissingStage>, Misstep> {
    take_step(
        missing_over(missing, stage),
        missing_pending(home, missing, stage),
        event,
        missing_advance(home, missing, listing, stage, event),
        MissingStage::Done,
    )
}

/// The step that stages the package file at place `from` of `missing`, or,
/// once all are staged, installs them.
fn stage_from(env: &Environment, missing: &[String], listing: &str, from: usize) -> (step: Step<
    MissingStage,
>)
    ensures
        step@ == staging(env.home(), missing.deep_view(), listing@, from as int),
{
    if from < missing.len() {
        let path = missing[from].as_str();
        assert(missing.deep_view()[from as int] == path@);
        Step::quiet(Request::Run(Invocation::stage_copy(env, path)), MissingStage::Copying(from))
    } else {
        Step::telling(
            Notice::progress(join("Installing missing packages: ", listing)),
            Request::Run(Invocation::install_staged(env)),
            MissingStage::Installing,
        )
    }
}

/// The step that ends a build with missing dependencies with a notice of
/// what went wrong.
fn missing_fails(text: &str) -> (step: Step<MissingStage>)
    ensures
        step@ == missing_failed(text@),
{
    Step::telling(Notice::failure(text.to_owned()), Request::Finish { code: 1 }, MissingStage::Done)
}

/// What a build with missing dependencies makes of a step of the sync that
/// opens it.
fn missing_sync_step(
    env: &Environment,
    missing: &[String],
    listing: &str,
    step: Step<SyncStage>,
) -> (outer: Step<MissingStage>)
    ensures
        outer@ == missing_syncing(env.home(), missing.deep_view(), listing@, step@),
{
    let Step { notices, request, stage } = step;
    match request {
        Request::Finish { code } => {
            if code == 0 {
                let mut notices = notices;
                let ghost told = notices.deep_view();
                let mut next = stage_from(env, missing, listing, 0);
                let ghost added = next.notices.deep_view();
                notices.append(&mut next.notices);
                assert(notices.deep_view() =~= told + added);
                Step { notices, request: next.request, stage: next.stage }
            } else {
                Step { notices, request: Request::Finish { code }, stage: MissingStage::Done }
            }
        },
        Request::Abort { diagnostic } => Step {
            notices,
            request: Request::Abort { diagnostic },
            stage: MissingStage::Done,
        },
        other => Step { notices, request: other, stage: MissingStage::Syncing(stage) },
    }
}

/// Takes one step of the build of a package whose build needs the package
/// files `missing`, shown to the user as `listing`: it brings the working
/// copy in line with the root image, copies each file under its own name into
/// the staging directory of the working copy, installs them in one pass,
/// builds the package, and clears the staging directory.
///
/// `stage` is where the build stands and `event` is what came of the request
/// it made last; a build begins at `MissingStage::Start` with `Event::Begin`.
pub fn build_package_with_listed_deps(
    env: &Environment,
    missing: &[String],
    listing: &str,
    stage: MissingStage,
    event: &Event,
) -> (result: Result<Step<MissingStage>, Misstep>)
    ensures
        matches_model(
            result,
            missing_model(env.home(), missing.deep_view(), listing@, stage, event@),
        ),
{
    match (stage, event) {
        (MissingStage::Done, _) => Err(Misstep::Finished),
        (MissingStage::Syncing(inner), _) => match sync_chroot(env, inner, event) {
            Ok(step) => Ok(missing_sync_step(env, missing, listing, step)),
            Err(misstep) => Err(misstep),
        },
        (MissingStage::Start, Event::Begin) => Ok(
            missing_sync_step(env, missing, listing, begin_sync(env)),
        ),
        (MissingStage::Copying(at), _) => {
            if at >= missing.len() {
                Err(Misstep::Finished)
            } else {
                match event {
                    Event::Exited(true) => Ok(stage_from(env, missing, listing, at + 1)),
                    Event::Exited(false) => Ok(missing_fails("Failed to copy missing packages.")),
                    Event::NotStarted => Ok(
                        Step::quiet(Request::abort_launch("sudo"), MissingStage::Done),
                    ),
                    _ => Err(Misstep::Unexpected),
                }
            }
        },
        (MissingStage::Installing, Event::Exited(true)) => Ok(
            Step::quiet(Request::Run(Invocation::build(env)), MissingStage::Building),
        ),
        (MissingStage::Installing, Event::Exited(false)) => Ok(
            missing_fails("Failed to install missing packages."),
        ),
        (MissingStage::Building, Event::Exited(went_well)) => Ok(
            Step::telling(
                Notice::built(*went_well),
                Request::Spawn(Invocation::clear_staged(env)),
                MissingStage::Clearing { built: *went_well },
            ),
        ),
        (MissingStage::Clearing { built }, Event::Spawned) => Ok(
            Step::quiet(Request::Finish { code: if built { 0 } else { 1 } }, MissingStage::Done),
        ),
        (MissingStage::Installing | MissingStage::Clearing { .. }, Event::NotStarted) => Ok(
            Step::quiet(Request::abort_launch(env.value(Key::Nspawn)), MissingStage::Done),
        ),
        (MissingStage::Building, Event::NotStarted) => Ok(
            Step::quiet(Request::abort_launch(env.value(Key::Makechrootpkg)), MissingStage::Done),
        ),
        _ => Err(Misstep::Unexpected),
    }
}

/// Writes a list of strings as `{:?}` does, with the `Debug` formatting of the
/// standard library: the result is named, and nothing more is claimed of it
/// than that equal lists are written alike.
#[verifier::external_body]
fn render_debug(items: &[String]) -> (text: String)
    ensures
        text@ == debug_rendering(items.deep_view()),
{
    format!("{:?}", items)
}

/// Takes one step of the build of a package whose build needs the package
/// files `missing`: it brings the working copy in line with the root image,
/// copies each file under its own name into the staging directory of the
/// working copy, installs them in one pass, builds the package, and clears
/// the staging directory. The notice of the installation shows the list as
/// `{:?}` writes it.
///
/// `stage` is where the build stands and `event` is what came of the request
/// it made last; a build begins at `MissingStage::Start` with `Event::Begin`.
pub fn build_package_with_missing_deps(
    env: &Environment,
    missing: &[String],
    stage: MissingStage,
    event: &Event,
) -> (result: Result<Step<MissingStage>, Misstep>)
    ensures
        matches_model(
            result,
            missing_model(
                env.home(),
                missing.deep_view(),
                debug_rendering(missing.deep_view()),
                stage,
                event@,
            ),
        ),
{
    let listing = render_debug(missing);
    build_package_with_listed_deps(env, missing, listing.as_str(), stage, event)
}

/// The steps that a build with the missing dependencies `missing` can still
/// take at `stage`, at most.
pub open spec fn missing_steps_left(missing: Seq<Seq<char>>, stage: MissingStage) -> nat {
    match stage {
        MissingStage::Start => sync_steps_left(SyncStage::Start) + missing.len() + 3,
        MissingStage::Syncing(inner) => sync_steps_left(inner) + missing.len() + 3,
        MissingStage::Copying(at) => if at < missing.len() {
            (missing.len() - at + 3) as nat
        } else {
            0
        },
        MissingStage::Installing => 3,
        MissingStage::Building => 2,
        MissingStage::Clearing { .. } => 1,
        MissingStage::Done => 0,
    }
}

/// Every step brings a build with missing dependencies nearer to its end, so
/// that nothing is tried twice.
pub proof fn lemma_missing_ends(
    home: Seq<char>,
    missing: Seq<Seq<char>>,
    listing: Seq<char>,
    stage: MissingStage,
    event: EventView,
)
    requires
        missing.len() <= usize::MAX,
    ensures
        missing_model(home, missing, listing, stage, event) matches Ok(step)
            ==> missing_steps_left(missing, step.stage) < missing_steps_left(missing, stage),
{
}

/// The stage that a step leads to waits on the request that the step made,
/// and a step that ends the build leads to a stage at which it is over.
pub proof fn lemma_missing_remembers_request(
    home: Seq<char>,
    missing: Seq<Seq<char>>,
    listing: Seq<char>,
    stage: MissingStage,
    event: EventView,
)
    requires
        missing.len() <= usize::MAX,
    ensures
        missing_model(home, missing, listing, stage, event) matches Ok(step)
            ==> if step.request.is_final() {
            missing_over(missing, step.stage)
        } else {
            !missing_over(missing, step.stage) && missing_pending(home, missing, step.stage)
                == Some(step.request)
        },
{
}

/// What goes wrong ends a build with missing dependencies. A program that
/// could not be started aborts it with a diagnostic that names the program;
/// nothing else aborts it. A program that ran and failed ends it with exit
/// code 1 and a notice of the failure, but for the package builder, after
/// which the staging directory is cleared first. No other exit code is asked
/// for but 0.
pub proof fn lemma_missing_failures(
    home: Seq<char>,
    missing: Seq<Seq<char>>,
    listing: Seq<char>,
    stage: MissingStage,
    event: EventView,
)
    ensures
        missing_model(home, missing, listing, stage, event) matches Ok(step) ==> {
            &&& step.request is Abort <==> event is NotStarted
            &&& event is NotStarted ==> step.request is Abort && mentions(
                step.request->diagnostic,
                missing_pending(home, missing, stage).unwrap().invocation().unwrap().program,
            )
            &&& event == EventView::Exited(false) && !(stage is Building) ==> {
                &&& step.request == RequestView::Finish { code: 1 }
                &&& step.notices.len() == 1
                &&& step.notices[0].severity == Severity::Failure
            }
            &&& step.request matches RequestView::Finish { code } ==> code == 0 || code == 1
        },
{
    lemma_take_step(
        missing_over(missing, stage),
        missing_pending(home, missing, stage),
        event,
        missing_advance(home, missing, listing, stage, event),
        MissingStage::Done,
    );
}

/// The files are staged one by one in the order of the list, each once the
/// one before it was copied, and the staged packages are installed once the
/// last was copied; a copy that ran and failed ends the build.
pub proof fn lemma_stages_in_order(
    home: Seq<char>,
    missing: Seq<Seq<char>>,
    listing: Seq<char>,
    at: usize,
    copied: bool,
)
    requires
        at < missing.len() <= usize::MAX,
    ensures
        missing_model(home, missing, listing, MissingStage::Copying(at), EventView::Exited(copied))
            matches Ok(step) && step.request == if !copied {
            RequestView::Finish { code: 1 }
        } else if at + 1 < missing.len() {
            RequestView::Run(stage_copy(home, missing[at + 1]))
        } else {
            RequestView::Run(install_staged(home))
        },
{
}

/// The package is built only once the staged packages were installed, and
/// the staging directory is cleared after the build however it went; the
/// build then ends as the package builder did.
pub proof fn lemma_missing_is_gated(
    home: Seq<char>,
    missing: Seq<Seq<char>>,
    listing: Seq<char>,
    went_well: bool,
)
    ensures
        missing_model(
            home,
            missing,
            listing,
            MissingStage::Installing,
            EventView::Exited(went_well),
        ) matches Ok(step) && step.request == if went_well {
            RequestView::Run(build(home))
        } else {
            RequestView::Finish { code: 1 }
        },
        missing_model(home, missing, listing, MissingStage::Building, EventView::Exited(went_well))
            == Ok::<StepView<MissingStage>, Misstep>(
            telling(
                built_notice(went_well),
                RequestView::Spawn(clear_staged(home)),
                MissingStage::Clearing { built: went_well },
            ),
        ),
        missing_model(
            home,
            missing,
            listing,
            MissingStage::Clearing { built: went_well },
            EventView::Spawned,
        ) == Ok::<StepView<MissingStage>, Misstep>(
            quiet(RequestView::Finish { code: exit_code(went_well) }, MissingStage::Done),
        ),
{
}

/// The steps that a build with the missing dependencies `missing` takes as
/// `events` come in.
pub open spec fn missing_course(
    home: Seq<char>,
    missing: Seq<Seq<char>>,
    listing: Seq<char>,
    events: Seq<EventView>,
) -> Seq<StepView<MissingStage>> {
    course(
        |stage: MissingStage, event: EventView|
            missing_model(home, missing, listing, stage, event),
        MissingStage::Start,
        events,
    )
}

/// Whatever the events, a build with missing dependencies is over after ten
/// steps and one more for each file of the list.
pub proof fn lemma_missing_course_is_bounded(
    home: Seq<char>,
    missing: Seq<Seq<char>>,
    listing: Seq<char>,
    events: Seq<EventView>,
)
    requires
        missing.len() <= usize::MAX,
    ensures
        missing_course(home, missing, listing, events).len() <= 10 + missing.len(),
{
    let model = |stage: MissingStage, event: EventView|
        missing_model(home, missing, listing, stage, event);
    assert forall|from: MissingStage, event: EventView|
        (#[trigger] model(from, event)) matches Ok(step) ==> missing_steps_left(
            missing,
            step.stage,
        ) < missing_steps_left(missing, from) by {
        lemma_missing_ends(home, missing, listing, from, event);
    }
    lemma_course_is_bounded(
        model,
        |stage: MissingStage| missing_steps_left(missing, stage),
        MissingStage::Start,
        events,
    );
}

} // verus!
