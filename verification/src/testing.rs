//! Trying a built package out: installing it into the working copy and
//! running a command there, and telling how the command did.

use crate::commands::{execute_in_copy, install_package};
use crate::course::{course, lemma_course_is_bounded, lemma_course_links, stage_before};
use crate::environment::{chroot_dir, Environment, Key};
use crate::notice::{failure, success, Notice, Severity};
use crate::process::{
    lemma_take_step, matches_model, quiet, take_step, telling, Event, EventView, Invocation,
    Misstep, Presence, Request, RequestView, Step, StepView,
};
use crate::sync::missing_chroot_notice;
use crate::text::{join3, lemma_mentions_between, mentions};
use vstd::prelude::*;

verus! {

/// How far a test of a package has come.
#[derive(Clone, Copy, Debug, PartialEq, Eq, Structural)]
pub enum TestStage {
    /// Nothing has been requested yet.
    Start,
    /// Asked what is at the chroot directory.
    ProbingRoot,
    /// Installing the package into the working copy.
    Installing,
    /// Running the command inside the working copy.
    Executing,
    /// The test is over.
    Done,
}

/// The notice for a package that was installed.
pub open spec fn installed_notice(package: Seq<char>) -> Seq<char> {
    "Package "@ + package + " installed correctly! Testing it now..."@
}

/// The notice for a package that could not be installed.
pub open spec fn not_installed_notice(package: Seq<char>) -> Seq<char> {
    "Package "@ + package
        + " wasn't installed in the chroot environment, please check the package name."@
}

/// The notice for a command that ran and failed.
pub open spec fn not_executed_notice() -> Seq<char> {
    "Something went wrong while trying to execute the binary in the chroot environment."@
}

/// The notice for a command that exited successfully.
pub open spec fn executed_notice() -> Seq<char> {
    "The binary was executed correctly in the chroot environment."@
}

/// The step that ends a test with a notice of what went wrong.
pub open spec fn test_failed(text: Seq<char>) -> StepView<TestStage> {
    telling(failure(text), RequestView::Finish { code: 1 }, TestStage::Done)
}

/// The request that a test at `stage` is waiting on, if it waits on one.
pub open spec fn test_pending(
    home: Seq<char>,
    package: Seq<char>,
    executable: Seq<char>,
    stage: TestStage,
) -> Option<RequestView> {
    match stage {
        TestStage::Start => None,
        TestStage::ProbingRoot => Some(RequestView::Probe { path: chroot_dir(home) }),
        TestStage::Installing => Some(RequestView::Run(install_package(home, package))),
        TestStage::Executing => Some(RequestView::Run(execute_in_copy(home, executable))),
        TestStage::Done => None,
    }
}

/// The step that a test takes at `stage`, which is not its last, on an
/// `event` that answers what it was waiting on and is not a failure to start
/// a program. It first asks what is at the chroot directory, and installs
/// only where something is there; the command is run only once the package
/// is installed, and how it did is told either way.
pub open spec fn test_advance(
    home: Seq<char>,
    package: Seq<char>,
    executable: Seq<char>,
    stage: TestStage,
    event: EventView,
) -> StepView<TestStage> {
    let went_well = event == EventView::Exited(true);
    match stage {
        TestStage::Start => quiet(
            RequestView::Probe { path: chroot_dir(home) },
            TestStage::ProbingRoot,
        ),
        TestStage::ProbingRoot => if event == EventView::Probed(Presence::Absent) {
            test_failed(missing_chroot_notice())
        } else {
            quiet(RequestView::Run(install_package(home, package)), TestStage::Installing)
        },
        TestStage::Installing => if went_well {
            telling(
                success(installed_notice(package)),
                RequestView::Run(execute_in_copy(home, executable)),
                TestStage::Executing,
            )
        } else {
            test_failed(not_installed_notice(package))
        },
        TestStage::Executing => if went_well {
            telling(
                success(executed_notice()),
                RequestView::Finish { code: 0 },
                TestStage::Done,
            )
        } else {
            test_failed(not_executed_notice())
        },
        TestStage::Done => quiet(RequestView::Finish { code: 0 }, TestStage::Done),
    }
}

/// What a test at `stage` does on `event`.
pub open spec fn test_model(
    home: Seq<char>,
    package: Seq<char>,
    executable: Seq<char>,
    stage: TestStage,
    event: EventView,
) -> Result<StepView<TestStage>, Misstep> {
    take_step(
        stage is Done,
        test_pending(home, package, executable, stage),
        event,
        test_advance(home, package, executable, stage, event),
        TestStage::Done,
    )
}

/// The step that ends a test with a notice of what went wrong.
fn test_fails(text: String) -> (step: Step<TestStage>)
    ensures
        step@ == test_failed(text@),
{
    Step::telling(Notice::failure(text), Request::Finish { code: 1 }, TestStage::Done)
}

/// Takes one step of the test of a built package: where the chroot exists,
/// it installs the package file `package` into the working copy and, once
/// that went well, runs `executable` there and tells how it did.
///
/// `stage` is where the test stands and `event` is what came of the request
/// it made last; a test begins at `TestStage::Start` with `Event::Begin`.
pub fn test_package(
    env: &Environment,
    package: &str,
    executable: &str,
    stage: TestStage,
    event: &Event,
) -> (result: Result<Step<TestStage>, Misstep>)
    ensures
        matches_model(result, test_model(env.home(), package@, executable@, stage, event@)),
{
    match (stage, event) {
        (TestStage::Done, _) => Err(Misstep::Finished),
        (TestStage::Start, Event::Begin) => Ok(
            Step::quiet(
                Request::Probe { path: env.value(Key::ChrootDir).to_owned() },
                TestStage::ProbingRoot,
            ),
        ),
        (TestStage::ProbingRoot, Event::Probed(Presence::Absent)) => Ok(
            test_fails(
                "Chroot environment doesn't exists. Please use the -s option first.".to_owned(),
            ),
        ),
        (TestStage::ProbingRoot, Event::Probed(_)) => Ok(
            Step::quiet(
                Request::Run(Invocation::install_package(env, package)),
                TestStage::Installing,
            ),
        ),
        (TestStage::Installing, Event::Exited(true)) => Ok(
            Step::telling(
                Notice::success(
                    join3("Package ", package, " installed correctly! Testing it now..."),
                ),
                Request::Run(Invocation::execute_in_copy(env, executable)),
                TestStage::Executing,
            ),
        ),
        (TestStage::Installing, Event::Exited(false)) => Ok(
            test_fails(
                join3(
                    "Package ",
                    package,
                    " wasn't installed in the chroot environment, please check the package name.",
                ),
            ),
        ),
        (TestStage::Executing, Event::Exited(true)) => Ok(
            Step::telling(
                Notice::success(
                    "The binary was executed correctly in the chroot environment.".to_owned(),
                ),
                Request::Finish { code: 0 },
                TestStage::Done,
            ),
        ),
        (TestStage::Executing, Event::Exited(false)) => Ok(
            test_fails(
                "Something went wrong while trying to execute the binary in the chroot environment.".to_owned(),
            ),
        ),
        (TestStage::Installing | TestStage::Executing, Event::NotStarted) => Ok(
            Step::quiet(Request::abort_launch("sudo"), TestStage::Done),
        ),
        _ => Err(Misstep::Unexpected),
    }
}

/// The steps that a test at `stage` can still take, at most.
pub open spec fn test_steps_left(stage: TestStage) -> nat {
    match stage {
        TestStage::Start => 4,
        TestStage::ProbingRoot => 3,
        TestStage::Installing => 2,
        TestStage::Executing => 1,
        TestStage::Done => 0,
    }
}

/// Every step brings a test nearer to its end, so that nothing is tried
/// twice.
pub proof fn lemma_test_ends(
    home: Seq<char>,
    package: Seq<char>,
    executable: Seq<char>,
    stage: TestStage,
    event: EventView,
)
    ensures
        test_model(home, package, executable, stage, event) matches Ok(step) ==> test_steps_left(
            step.stage,
        ) < test_steps_left(stage),
{
}

/// The stage that a step leads to waits on the request that the step made,
/// and a step that ends the test leads to its last stage.
pub proof fn lemma_test_remembers_request(
    home: Seq<char>,
    package: Seq<char>,
    executable: Seq<char>,
    stage: TestStage,
    event: EventView,
)
    ensures
        test_model(home, package, executable, stage, event) matches Ok(step)
            ==> if step.request.is_final() {
            step.stage is Done
        } else {
            test_pending(home, package, executable, step.stage) == Some(step.request)
        },
{
}

/// What goes wrong ends a test. A program that could not be started aborts
/// it with a diagnostic that names the program; nothing else aborts it. A
/// program that ran and failed ends it with exit code 1 and a notice of the
/// failure. No other exit code is asked for but 0.
pub proof fn lemma_test_failures(
    home: Seq<char>,
    package: Seq<char>,
    executable: Seq<char>,
    stage: TestStage,
    event: EventView,
)
    ensures
        test_model(home, package, executable, stage, event) matches Ok(step) ==> {
            &&& step.request is Abort <==> event is NotStarted
            &&& event is NotStarted ==> step.request is Abort && mentions(
                step.request->diagnostic,
                test_pending(
                    home,
                    package,
                    executable,
                    stage,
                ).unwrap().invocation().unwrap().program,
            )
            &&& event == EventView::Exited(false) ==> {
                &&& step.request == RequestView::Finish { code: 1 }
                &&& step.notices.len() == 1
                &&& step.notices[0].severity == Severity::Failure
            }
            &&& step.request matches RequestView::Finish { code } ==> code == 0 || code == 1
        },
{
    lemma_take_step(
        stage is Done,
        test_pending(home, package, executable, stage),
        event,
        test_advance(home, package, executable, stage, event),
        TestStage::Done,
    );
}

/// A test first asks what is at the chroot directory, and where nothing is
/// there it ends at once with exit code 1: it tells the user that the chroot
/// does not exist and starts no program. The installation is started at one
/// point only: when something was found at the chroot directory.
pub proof fn lemma_test_needs_chroot(
    home: Seq<char>,
    package: Seq<char>,
    executable: Seq<char>,
    stage: TestStage,
    event: EventView,
)
    ensures
        test_model(home, package, executable, TestStage::Start, EventView::Begin) == Ok::<
            StepView<TestStage>,
            Misstep,
        >(quiet(RequestView::Probe { path: chroot_dir(home) }, TestStage::ProbingRoot)),
        test_model(
            home,
            package,
            executable,
            TestStage::ProbingRoot,
            EventView::Probed(Presence::Absent),
        ) == Ok::<StepView<TestStage>, Misstep>(test_failed(missing_chroot_notice())),
        test_model(home, package, executable, stage, event) matches Ok(step) ==> (step.request
            == RequestView::Run(install_package(home, package)) <==> stage is ProbingRoot
            && event is Probed && event != EventView::Probed(Presence::Absent)),
{
    assert(install_package(home, package).args.len() == 6);
    assert(execute_in_copy(home, executable).args.len() == 5);
}

/// How the command did is told: a command that exited successfully ends the
/// test with exit code 0 and a notice of success, one that ran and failed
/// with exit code 1 and a notice of failure.
pub proof fn lemma_test_reports_command(
    home: Seq<char>,
    package: Seq<char>,
    executable: Seq<char>,
    went_well: bool,
)
    ensures
        test_model(home, package, executable, TestStage::Executing, EventView::Exited(went_well))
            == Ok::<StepView<TestStage>, Misstep>(
            if went_well {
                telling(
                    success(executed_notice()),
                    RequestView::Finish { code: 0 },
                    TestStage::Done,
                )
            } else {
                test_failed(not_executed_notice())
            },
        ),
{
}

/// A package that could not be installed ends the test with exit code 1 and
/// a notice of the failure that names the package; the command is not run.
pub proof fn lemma_failed_install_runs_nothing(
    home: Seq<char>,
    package: Seq<char>,
    executable: Seq<char>,
)
    ensures
        test_model(home, package, executable, TestStage::Installing, EventView::Exited(false))
            == Ok::<StepView<TestStage>, Misstep>(test_failed(not_installed_notice(package))),
        mentions(not_installed_notice(package), package),
{
    lemma_mentions_between(
        "Package "@,
        package,
        " wasn't installed in the chroot environment, please check the package name."@,
    );
}

/// The command is run at one point only: when the installation of the
/// package exited successfully.
pub proof fn lemma_runs_after_install_only(
    home: Seq<char>,
    package: Seq<char>,
    executable: Seq<char>,
    stage: TestStage,
    event: EventView,
)
    ensures
        test_model(home, package, executable, stage, event) matches Ok(step) ==> (step.request
            == RequestView::Run(execute_in_copy(home, executable)) <==> stage is Installing && event
            == EventView::Exited(true)),
{
    assert(install_package(home, package).args.len() == 6);
    assert(execute_in_copy(home, executable).args.len() == 5);
}

/// The steps that a test of `package` with `executable` takes as `events`
/// come in.
pub open spec fn test_course(
    home: Seq<char>,
    package: Seq<char>,
    executable: Seq<char>,
    events: Seq<EventView>,
) -> Seq<StepView<TestStage>> {
    course(
        |stage: TestStage, event: EventView| test_model(home, package, executable, stage, event),
        TestStage::Start,
        events,
    )
}

/// Whatever the events, a test is over after four steps.
pub proof fn lemma_test_course_is_bounded(
    home: Seq<char>,
    package: Seq<char>,
    executable: Seq<char>,
    events: Seq<EventView>,
)
    ensures
        test_course(home, package, executable, events).len() <= 4,
{
    let model = |stage: TestStage, event: EventView|
        test_model(home, package, executable, stage, event);
    assert forall|from: TestStage, event: EventView|
        (#[trigger] model(from, event)) matches Ok(step) ==> test_steps_left(step.stage)
            < test_steps_left(from) by {
        lemma_test_ends(home, package, executable, from, event);
    }
    lemma_course_is_bounded(
        model,
        |stage: TestStage| test_steps_left(stage),
        TestStage::Start,
        events,
    );
}

/// Whatever the events, a test of a package whose installation did not exit
/// successfully never runs the command.
pub proof fn lemma_uninstalled_is_never_run(
    home: Seq<char>,
    package: Seq<char>,
    executable: Seq<char>,
    events: Seq<EventView>,
    at: int,
)
    requires
        events.len() >= 3 ==> events[2] != EventView::Exited(true),
        0 <= at < test_course(home, package, executable, events).len(),
    ensures
        test_course(home, package, executable, events)[at].request != RequestView::Run(
            execute_in_copy(home, executable),
        ),
{
    let model = |stage: TestStage, event: EventView|
        test_model(home, package, executable, stage, event);
    let steps = test_course(home, package, executable, events);
    lemma_course_links(model, TestStage::Start, events, at);
    let before = stage_before(steps, TestStage::Start, at);
    lemma_runs_after_install_only(home, package, executable, before, events[at]);
    if before is Installing && at != 2 {
        lemma_course_links(model, TestStage::Start, events, at - 1);
        if at > 2 {
            lemma_course_links(model, TestStage::Start, events, at - 2);
            lemma_course_links(model, TestStage::Start, events, at - 3);
            lemma_test_remembers_request(
                home,
                package,
                executable,
                stage_before(steps, TestStage::Start, at - 3),
                events[at - 3],
            );
        }
    }
}

} // verus!
