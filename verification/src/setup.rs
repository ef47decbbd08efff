//! Creating the chroot: the chroot directory, the root image with its base
//! packages and repositories, and the working copy.

use crate::commands::{
    bootstrap, create_copy, delete_copy, enable_multilib, fetch_strap, mirror, remove_strap,
    run_strap, set_compression, snapshot,
};
use crate::course::{course, lemma_course_is_bounded, lemma_course_links, stage_before};
use crate::environment::{chroot_dir, chroot_root, value_of, Environment, Key};
use crate::notice::{failure, progress, success, Notice, Severity};
use crate::process::{
    lemma_take_step, matches_model, quiet, take_step, telling, Event, EventView, Invocation,
    Misstep, Presence, Request, RequestView, Step, StepView,
};
use crate::sync::{
    after_sync, begin_sync, sync_advance, sync_begun, sync_chroot, sync_pending, sync_steps_left,
    SyncStage,
};
use crate::text::{join, join3, lemma_mentions_between, mentions};
use vstd::prelude::*;

verus! {

/// How far a setup has come.
#[derive(Clone, Copy, Debug, PartialEq, Eq, Structural)]
pub enum SetupStage {
    /// Nothing has been requested yet.
    Start,
    /// Asked what is at the chroot directory.
    ProbingTarget,
    /// Creating the chroot directory.
    CreatingTarget,
    /// Asked whether the bootstrap tool is installed.
    ProbingBootstrap,
    /// Populating the root image with the base packages.
    Bootstrapping,
    /// Enabling the secondary repository in the root image.
    EnablingMultilib,
    /// Setting the compression of built packages in the root image.
    SettingCompression,
    /// Fetching the bootstrap script into the root image.
    FetchingStrap,
    /// Running the bootstrap script in the root image.
    RunningStrap,
    /// Deleting the bootstrap script from the root image.
    RemovingStrap,
    /// Populating the working copy.
    Syncing(SyncStage),
    /// The setup is over.
    Done,
}

/// The request that a setup at `stage` is waiting on, if it waits on one.
pub open spec fn setup_pending(home: Seq<char>, stage: SetupStage) -> Option<RequestView> {
    match stage {
        SetupStage::Start => None,
        SetupStage::ProbingTarget => Some(RequestView::Probe { path: chroot_dir(home) }),
        SetupStage::CreatingTarget => Some(RequestView::CreateDir { path: chroot_dir(home) }),
        SetupStage::ProbingBootstrap => Some(
            RequestView::Probe { path: value_of(home, Key::Mkarchroot) },
        ),
        SetupStage::Bootstrapping => Some(RequestView::Run(bootstrap(home))),
        SetupStage::EnablingMultilib => Some(RequestView::Run(enable_multilib(home))),
        SetupStage::SettingCompression => Some(RequestView::Run(set_compression(home))),
        SetupStage::FetchingStrap => Some(RequestView::Run(fetch_strap(home))),
        SetupStage::RunningStrap => Some(RequestView::Run(run_strap(home))),
        SetupStage::RemovingStrap => Some(RequestView::Run(remove_strap(home))),
        SetupStage::Syncing(inner) => sync_pending(home, inner),
        SetupStage::Done => None,
    }
}

/// Whether a setup at `stage` is over.
pub open spec fn setup_over(stage: SetupStage) -> bool {
    stage is Done || stage == SetupStage::Syncing(SyncStage::Done)
}

/// The step that ends a setup with a notice of what went wrong.
pub open spec fn setup_failed(text: Seq<char>) -> StepView<SetupStage> {
    telling(failure(text), RequestView::Finish { code: 1 }, SetupStage::Done)
}

/// The step that ends a setup that went well.
pub open spec fn setup_complete() -> StepView<SetupStage> {
    telling(
        success("Chroot environment setup complete!"@),
        RequestView::Finish { code: 0 },
        SetupStage::Done,
    )
}

/// The notice for a chroot directory that is already there as a directory.
pub open spec fn directory_exists_notice(home: Seq<char>) -> Seq<char> {
    "The directory "@ + chroot_dir(home)
        + " already exists in the system, remove it or try with a different path."@
}

/// The notice for a chroot directory that is already there as a file.
pub open spec fn file_exists_notice(home: Seq<char>) -> Seq<char> {
    "The file "@ + chroot_dir(home)
        + " already exists in the system, remove it or try a different path."@
}

/// The diagnostic for a bootstrap tool that is not installed, and so cannot
/// be started.
pub open spec fn no_bootstrap_text(home: Seq<char>) -> Seq<char> {
    "Executable file "@ + value_of(home, Key::Mkarchroot)
        + " not found, install the devtools package from repos."@
}

/// The diagnostic for a chroot directory that could not be created.
pub open spec fn not_created_text() -> Seq<char> {
    "An error as ocurred while creating the chroot directoy."@
}

/// What a setup makes of a step of the sync that closes it: a sync that went
/// well completes the setup.
pub open spec fn setup_syncing(step: StepView<SyncStage>) -> StepView<SetupStage> {
    after_sync(
        step,
        setup_complete(),
        |inner: SyncStage| SetupStage::Syncing(inner),
        SetupStage::Done,
    )
}

/// The step that a setup takes at `stage`, at which it is not over, on an
/// `event` that answers what it was waiting on and is not a failure to start
/// a program. Each step is taken only once the one before it went well, and
/// the first that does not ends the setup with a notice.
pub open spec fn setup_advance(home: Seq<char>, stage: SetupStage, event: EventView) -> StepView<
    SetupStage,
> {
    let went_well = event == EventView::Exited(true);
    match stage {
        SetupStage::Start => quiet(
            RequestView::Probe { path: chroot_dir(home) },
            SetupStage::ProbingTarget,
        ),
        SetupStage::ProbingTarget => match event {
            EventView::Probed(Presence::Absent) => telling(
                progress("Creating chroot directory with name: "@ + chroot_dir(home)),
                RequestView::CreateDir { path: chroot_dir(home) },
                SetupStage::CreatingTarget,
            ),
            EventView::Probed(Presence::Directory) => setup_failed(directory_exists_notice(home)),
            _ => setup_failed(file_exists_notice(home)),
        },
        SetupStage::CreatingTarget => if event == EventView::Created(true) {
            telling(
                progress("Setting up chroot environment..."@),
                RequestView::Probe { path: value_of(home, Key::Mkarchroot) },
                SetupStage::ProbingBootstrap,
            )
        } else {
            quiet(RequestView::Abort { diagnostic: not_created_text() }, SetupStage::Done)
        },
        SetupStage::ProbingBootstrap => if event == EventView::Probed(Presence::Absent) {
            quiet(RequestView::Abort { diagnostic: no_bootstrap_text(home) }, SetupStage::Done)
        } else {
            quiet(RequestView::Run(bootstrap(home)), SetupStage::Bootstrapping)
        },
        SetupStage::Bootstrapping => if went_well {
            telling(
                progress("Enabling multilib repos..."@),
                RequestView::Run(enable_multilib(home)),
                SetupStage::EnablingMultilib,
            )
        } else {
            setup_failed("Failed to install base packages into chroot environment."@)
        },
        SetupStage::EnablingMultilib => if went_well {
            telling(
                progress("Changing makepkg.conf to use zstd..."@),
                RequestView::Run(set_compression(home)),
                SetupStage::SettingCompression,
            )
        } else {
            setup_failed("Failed enabling multilib repos."@)
        },
        SetupStage::SettingCompression => if went_well {
            telling(
                progress("Configuring BlackArch Linux repo in the chroot environment..."@),
                RequestView::Run(fetch_strap(home)),
                SetupStage::FetchingStrap,
            )
        } else {
            setup_failed("Failed to change makepkg.conf"@)
        },
        SetupStage::FetchingStrap => if went_well {
            quiet(RequestView::Run(run_strap(home)), SetupStage::RunningStrap)
        } else {
            setup_failed("Failed to retrieve strap.sh from blackarch.org!"@)
        },
        SetupStage::RunningStrap => if went_well {
            quiet(RequestView::Run(remove_strap(home)), SetupStage::RemovingStrap)
        } else {
            setup_failed("Can't install strap.sh into "@ + chroot_root(home) + "!"@)
        },
        SetupStage::RemovingStrap => if went_well {
            setup_syncing(sync_begun(home))
        } else {
            setup_failed("Error deleting strap.sh from chroot environment."@)
        },
        SetupStage::Syncing(inner) => setup_syncing(sync_advance(home, inner, event)),
        SetupStage::Done => quiet(RequestView::Finish { code: 0 }, SetupStage::Done),
    }
}

/// What a setup at `stage` does on `event`.
pub open spec fn setup_model(home: Seq<char>, stage: SetupStage, event: EventView) -> Result<
    StepView<SetupStage>,
    Misstep,
> {
    take_step(
        setup_over(stage),
        setup_pending(home, stage),
        event,
        setup_advance(home, stage, event),
        SetupStage::Done,
    )
}

/// The step that ends a setup with a notice of what went wrong.
fn setup_fails(text: String) -> (step: Step<SetupStage>)
    ensures
        step@ == setup_failed(text@),
{
    Step::telling(Notice::failure(text), Request::Finish { code: 1 }, SetupStage::Done)
}

/// What a setup makes of a step of the sync that closes it.
fn setup_sync_step(step: Step<SyncStage>) -> (outer: Step<SetupStage>)
    ensures
        outer@ == setup_syncing(step@),
{
    let Step { notices, request, stage } = step;
    match request {
        Request::Finish { code } => {
            if code == 0 {
                let mut notices = notices;
                let ghost told = notices.deep_view();
                let complete = Notice::success("Chroot environment setup complete!".to_owned());
                notices.push(complete);
                assert(notices.deep_view() =~= told + seq![complete@]);
                Step { notices, request: Request::Finish { code }, stage: SetupStage::Done }
            } else {
                Step { notices, request: Request::Finish { code }, stage: SetupStage::Done }
            }
        },
        Request::Abort { diagnostic } => Step {
            notices,
            request: Request::Abort { diagnostic },
            stage: SetupStage::Done,
        },
        other => Step { notices, request: other, stage: SetupStage::Syncing(stage) },
    }
}

/// Takes one step of the setup of a chroot: it refuses a chroot directory
/// that is already there, and otherwise creates it, populates the root image,
/// configures it, and populates the working copy.
///
/// `stage` is where the setup stands and `event` is what came of the request
/// it made last; a setup begins at `SetupStage::Start` with `Event::Begin`.
pub fn setup_chroot(env: &Environment, stage: SetupStage, event: &Event) -> (result: Result<
    Step<SetupStage>,
    Misstep,
>)
    ensures
        matches_model(result, setup_model(env.home(), stage, event@)),
{
    let dir = env.value(Key::ChrootDir);
    let mkarchroot = env.value(Key::Mkarchroot);
    match (stage, event) {
        (SetupStage::Done, _) => Err(Misstep::Finished),
        (SetupStage::Syncing(inner), _) => match sync_chroot(env, inner, event) {
            Ok(step) => Ok(setup_sync_step(step)),
            Err(misstep) => Err(misstep),
        },
        (SetupStage::Start, Event::Begin) => Ok(
            Step::quiet(Request::Probe { path: dir.to_owned() }, SetupStage::ProbingTarget),
        ),
        (SetupStage::ProbingTarget, Event::Probed(Presence::Absent)) => Ok(
            Step::telling(
                Notice::progress(join("Creating chroot directory with name: ", dir)),
                Request::CreateDir { path: dir.to_owned() },
                SetupStage::CreatingTarget,
            ),
        ),
        (SetupStage::ProbingTarget, Event::Probed(Presence::Directory)) => Ok(
            setup_fails(
                join3(
                    "The directory ",
                    dir,
                    " already exists in the system, remove it or try with a different path.",
                ),
            ),
        ),
        (SetupStage::ProbingTarget, Event::Probed(Presence::File)) => Ok(
            setup_fails(
                join3(
                    "The file ",
                    dir,
                    " already exists in the system, remove it or try a different path.",
                ),
            ),
        ),
        (SetupStage::CreatingTarget, Event::Created(true)) => Ok(
            Step::telling(
                Notice::progress("Setting up chroot environment...".to_owned()),
                Request::Probe { path: mkarchroot.to_owned() },
                SetupStage::ProbingBootstrap,
            ),
        ),
        (SetupStage::CreatingTarget, Event::Created(false)) => Ok(
            Step::quiet(
                Request::Abort {
                    diagnostic: "An error as ocurred while creating the chroot directoy."
                        .to_owned(),
                },
                SetupStage::Done,
            ),
        ),
        (SetupStage::ProbingBootstrap, Event::Probed(Presence::Absent)) => Ok(
            Step::quiet(
                Request::Abort {
                    diagnostic: join3(
                        "Executable file ",
                        mkarchroot,
                        " not found, install the devtools package from repos.",
                    ),
                },
                SetupStage::Done,
            ),
        ),
        (SetupStage::ProbingBootstrap, Event::Probed(_)) => Ok(
            Step::quiet(Request::Run(Invocation::bootstrap(env)), SetupStage::Bootstrapping),
        ),
        (SetupStage::Bootstrapping, Event::Exited(true)) => Ok(
            Step::telling(
                Notice::progress("Enabling multilib repos...".to_owned()),
                Request::Run(Invocation::enable_multilib(env)),
                SetupStage::EnablingMultilib,
            ),
        ),
        (SetupStage::Bootstrapping, Event::Exited(false)) => Ok(
            setup_fails("Failed to install base packages into chroot environment.".to_owned()),
        ),
        (SetupStage::EnablingMultilib, Event::Exited(true)) => Ok(
            Step::telling(
                Notice::progress("Changing makepkg.conf to use zstd...".to_owned()),
                Request::Run(Invocation::set_compression(env)),
                SetupStage::SettingCompression,
            ),
        ),
        (SetupStage::EnablingMultilib, Event::Exited(false)) => Ok(
            setup_fails("Failed enabling multilib repos.".to_owned()),
        ),
        (SetupStage::SettingCompression, Event::Exited(true)) => Ok(
            Step::telling(
                Notice::progress(
                    "Configuring BlackArch Linux repo in the chroot environment...".to_owned(),
                ),
                Request::Run(Invocation::fetch_strap(env)),
                SetupStage::FetchingStrap,
            ),
        ),
        (SetupStage::SettingCompression, Event::Exited(false)) => Ok(
            setup_fails("Failed to change makepkg.conf".to_owned()),
        ),
        (SetupStage::FetchingStrap, Event::Exited(true)) => Ok(
            Step::quiet(Request::Run(Invocation::run_strap(env)), SetupStage::RunningStrap),
        ),
        (SetupStage::FetchingStrap, Event::Exited(false)) => Ok(
            setup_fails("Failed to retrieve strap.sh from blackarch.org!".to_owned()),
        ),
        (SetupStage::RunningStrap, Event::Exited(true)) => Ok(
            Step::quiet(Request::Run(Invocation::remove_strap(env)), SetupStage::RemovingStrap),
        ),
        (SetupStage::RunningStrap, Event::Exited(false)) => Ok(
            setup_fails(join3("Can't install strap.sh into ", env.value(Key::ChrootRoot), "!")),
        ),
        (SetupStage::RemovingStrap, Event::Exited(true)) => Ok(setup_sync_step(begin_sync(env))),
        (SetupStage::RemovingStrap, Event::Exited(false)) => Ok(
            setup_fails("Error deleting strap.sh from chroot environment.".to_owned()),
        ),
        (SetupStage::Bootstrapping, Event::NotStarted) => Ok(
            Step::quiet(Request::abort_launch(mkarchroot), SetupStage::Done),
        ),
        (
            SetupStage::EnablingMultilib
            | SetupStage::SettingCompression
            | SetupStage::FetchingStrap
            | SetupStage::RunningStrap
            | SetupStage::RemovingStrap,
            Event::NotStarted,
        ) => Ok(Step::quiet(Request::abort_launch(env.value(Key::Nspawn)), SetupStage::Done)),
        _ => Err(Misstep::Unexpected),
    }
}

/// The steps that a setup at `stage` can still take, at most.
pub open spec fn setup_steps_left(stage: SetupStage) -> nat {
    match stage {
        SetupStage::Start => sync_steps_left(SyncStage::Start) + 9,
        SetupStage::ProbingTarget => sync_steps_left(SyncStage::Start) + 8,
        SetupStage::CreatingTarget => sync_steps_left(SyncStage::Start) + 7,
        SetupStage::ProbingBootstrap => sync_steps_left(SyncStage::Start) + 6,
        SetupStage::Bootstrapping => sync_steps_left(SyncStage::Start) + 5,
        SetupStage::EnablingMultilib => sync_steps_left(SyncStage::Start) + 4,
        SetupStage::SettingCompression => sync_steps_left(SyncStage::Start) + 3,
        SetupStage::FetchingStrap => sync_steps_left(SyncStage::Start) + 2,
        SetupStage::RunningStrap => sync_steps_left(SyncStage::Start) + 1,
        SetupStage::RemovingStrap => sync_steps_left(SyncStage::Start),
        SetupStage::Syncing(inner) => sync_steps_left(inner),
        SetupStage::Done => 0,
    }
}

/// Every step brings a setup nearer to its end, so that nothing is tried
/// twice.
pub proof fn lemma_setup_ends(home: Seq<char>, stage: SetupStage, event: EventView)
    ensures
        setup_model(home, stage, event) matches Ok(step) ==> setup_steps_left(step.stage)
            < setup_steps_left(stage),
{
}

/// The stage that a step leads to waits on the request that the step made,
/// and a step that ends the setup leads to a stage at which it is over.
pub proof fn lemma_setup_remembers_request(home: Seq<char>, stage: SetupStage, event: EventView)
    ensures
        setup_model(home, stage, event) matches Ok(step) ==> if step.request.is_final() {
            setup_over(step.stage)
        } else {
            !setup_over(step.stage) && setup_pending(home, step.stage) == Some(step.request)
        },
{
}

/// What goes wrong ends a setup. A program that could not be started aborts
/// it with a diagnostic that names the program, whether it failed to start or
/// the bootstrap tool was found not to be installed; a chroot directory that
/// could not be created aborts it too; nothing else does. A program that ran
/// and failed ends it with exit code 1 and a notice of the failure. No other
/// exit code is asked for but 0.
pub proof fn lemma_setup_failures(home: Seq<char>, stage: SetupStage, event: EventView)
    ensures
        setup_model(home, stage, event) matches Ok(step) ==> {
            &&& step.request is Abort <==> {
                ||| event is NotStarted
                ||| event == EventView::Created(false)
                ||| stage is ProbingBootstrap && event == EventView::Probed(Presence::Absent)
            }
            &&& event is NotStarted ==> step.request is Abort && mentions(
                step.request->diagnostic,
                setup_pending(home, stage).unwrap().invocation().unwrap().program,
            )
            &&& event == EventView::Exited(false) ==> {
                &&& step.request == RequestView::Finish { code: 1 }
                &&& step.notices.len() == 1
                &&& step.notices[0].severity == Severity::Failure
            }
            &&& step.request matches RequestView::Finish { code } ==> code == 0 || code == 1
        },
{
    lemma_take_step(
        setup_over(stage),
        setup_pending(home, stage),
        event,
        setup_advance(home, stage, event),
        SetupStage::Done,
    );
}

/// A bootstrap tool that is not installed cannot be started: the setup is
/// aborted with a diagnostic that names the path of the tool, and nothing is
/// run in its place. The bootstrap tool is started at one point only: when
/// something was found at its path.
pub proof fn lemma_setup_needs_bootstrap_tool(home: Seq<char>, stage: SetupStage, event: EventView)
    ensures
        setup_model(home, SetupStage::ProbingBootstrap, EventView::Probed(Presence::Absent))
            == Ok::<StepView<SetupStage>, Misstep>(
            quiet(RequestView::Abort { diagnostic: no_bootstrap_text(home) }, SetupStage::Done),
        ),
        mentions(no_bootstrap_text(home), value_of(home, Key::Mkarchroot)),
        setup_model(home, stage, event) matches Ok(step) ==> (step.request == RequestView::Run(
            bootstrap(home),
        ) <==> stage is ProbingBootstrap && event is Probed && event != EventView::Probed(
            Presence::Absent,
        )),
{
    lemma_mentions_between(
        "Executable file "@,
        value_of(home, Key::Mkarchroot),
        " not found, install the devtools package from repos."@,
    );
    assert(bootstrap(home).args.len() == 3);
    assert(enable_multilib(home).args.len() == 4);
    assert(set_compression(home).args.len() == 4);
    assert(fetch_strap(home).args.len() == 4);
    assert(create_copy(home).args.len() == 2);
    assert(delete_copy(home).args.len() == 4);
    assert(mirror(home).args.len() == 8);
    reveal_strlit("base");
    reveal_strlit("sh");
    reveal_strlit("rm");
    assert("base"@.len() == 4);
    assert("sh"@.len() == 2);
    assert("rm"@.len() == 2);
    assert(bootstrap(home).args[1] != run_strap(home).args[1]);
    assert(bootstrap(home).args[1] != remove_strap(home).args[1]);
}

/// A setup first asks what is at the chroot directory, and where anything is
/// there it ends at once with exit code 1: it tells the user what is in the
/// way and touches nothing.
pub proof fn lemma_setup_refuses_existing(home: Seq<char>, presence: Presence)
    requires
        presence != Presence::Absent,
    ensures
        setup_model(home, SetupStage::Start, EventView::Begin) == Ok::<
            StepView<SetupStage>,
            Misstep,
        >(quiet(RequestView::Probe { path: chroot_dir(home) }, SetupStage::ProbingTarget)),
        setup_model(home, SetupStage::ProbingTarget, EventView::Probed(presence)) matches Ok(step)
            && {
            &&& step.request == RequestView::Finish { code: 1 }
            &&& step.stage is Done
            &&& step.notices.len() == 1
            &&& step.notices[0].severity == Severity::Failure
            &&& mentions(step.notices[0].text, chroot_dir(home))
        },
{
    lemma_mentions_between(
        "The directory "@,
        chroot_dir(home),
        " already exists in the system, remove it or try with a different path."@,
    );
    lemma_mentions_between(
        "The file "@,
        chroot_dir(home),
        " already exists in the system, remove it or try a different path."@,
    );
}

/// Nothing on disk is changed before the chroot directory was found to be
/// absent, and the chroot directory is created then and at no other time.
pub proof fn lemma_setup_creates_once(home: Seq<char>, stage: SetupStage, event: EventView)
    ensures
        setup_model(home, stage, event) matches Ok(step) ==> {
            &&& step.request.may_change_disk() ==> !(stage is Start) && (stage is ProbingTarget
                ==> event == EventView::Probed(Presence::Absent))
            &&& step.request is CreateDir <==> stage is ProbingTarget && event == EventView::Probed(
                Presence::Absent,
            )
            &&& step.request matches RequestView::CreateDir { path } ==> path == chroot_dir(home)
        },
{
}

/// A setup ends well only by the sync that closes it: the mirroring command
/// exited successfully, or the snapshot was started. It then tells the user
/// that the setup is complete.
pub proof fn lemma_setup_success(home: Seq<char>, stage: SetupStage, event: EventView)
    ensures
        setup_model(home, stage, event) matches Ok(step) ==> (step.request == (RequestView::Finish {
            code: 0,
        }) ==> {
            &&& {
                ||| stage == SetupStage::Syncing(SyncStage::Mirroring) && event
                    == EventView::Exited(true)
                ||| stage == SetupStage::Syncing(SyncStage::Snapshotting) && event is Spawned
            }
            &&& step.notices.len() > 0
            &&& step.notices.last() == success("Chroot environment setup complete!"@)
        }),
{
}

/// The steps that a setup takes as `events` come in.
pub open spec fn setup_course(home: Seq<char>, events: Seq<EventView>) -> Seq<
    StepView<SetupStage>,
> {
    course(
        |stage: SetupStage, event: EventView| setup_model(home, stage, event),
        SetupStage::Start,
        events,
    )
}

/// Whatever the events, a setup is over after sixteen steps.
pub proof fn lemma_setup_course_is_bounded(home: Seq<char>, events: Seq<EventView>)
    ensures
        setup_course(home, events).len() <= 16,
{
    let model = |stage: SetupStage, event: EventView| setup_model(home, stage, event);
    assert forall|from: SetupStage, event: EventView|
        (#[trigger] model(from, event)) matches Ok(step) ==> setup_steps_left(step.stage)
            < setup_steps_left(from) by {
        lemma_setup_ends(home, from, event);
    }
    lemma_course_is_bounded(
        model,
        |stage: SetupStage| setup_steps_left(stage),
        SetupStage::Start,
        events,
    );
}

/// A setup of a chroot that is already there, as after an earlier setup,
/// takes two steps whatever else happens: it asks what is at the chroot
/// directory and ends with exit code 1. Nothing on disk is changed.
pub proof fn lemma_second_setup_fails(home: Seq<char>, events: Seq<EventView>)
    requires
        events.len() >= 2,
        events[0] is Begin,
        events[1] matches EventView::Probed(presence) && presence != Presence::Absent,
    ensures
        setup_course(home, events).len() == 2,
        setup_course(home, events)[0].request == (RequestView::Probe { path: chroot_dir(home) }),
        setup_course(home, events)[1].request == (RequestView::Finish { code: 1 }),
        forall|at: int|
            0 <= at < 2 ==> !(#[trigger] setup_course(home, events)[at]).request.may_change_disk(),
{
    let model = |stage: SetupStage, event: EventView| setup_model(home, stage, event);
    let after_first = events.drop_first();
    let after_second = after_first.drop_first();
    assert(after_first[0] == events[1]);
    let first = model(SetupStage::Start, events[0])->Ok_0;
    let second = model(first.stage, after_first[0])->Ok_0;
    assert(course(model, second.stage, after_second) =~= Seq::empty());
    assert(course(model, first.stage, after_first) =~= seq![second]);
    assert(setup_course(home, events) =~= seq![first, second]);
}

/// A setup that ends well has populated the working copy: the step before
/// its last asked for the mirroring of the root image, which then exited
/// successfully, or for the snapshot of the root image, which was then
/// started.
pub proof fn lemma_complete_setup_has_synced(home: Seq<char>, events: Seq<EventView>, at: int)
    requires
        0 <= at < setup_course(home, events).len(),
        setup_course(home, events)[at].request == (RequestView::Finish { code: 0 }),
    ensures
        at > 0,
        ({
            ||| setup_course(home, events)[at - 1].request == RequestView::Run(mirror(home))
                && events[at] == EventView::Exited(true)
            ||| setup_course(home, events)[at - 1].request == RequestView::Spawn(snapshot(home))
                && events[at] is Spawned
        }),
{
    let model = |stage: SetupStage, event: EventView| setup_model(home, stage, event);
    let steps = setup_course(home, events);
    lemma_course_links(model, SetupStage::Start, events, at);
    lemma_setup_success(home, stage_before(steps, SetupStage::Start, at), events[at]);
    lemma_course_links(model, SetupStage::Start, events, at - 1);
    lemma_setup_remembers_request(
        home,
        stage_before(steps, SetupStage::Start, at - 1),
        events[at - 1],
    );
}

} // verus!
