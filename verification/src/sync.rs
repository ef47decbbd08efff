//! Bringing the working copy back in line with the root image.
//!
//! Where the working copy is the root of a subvolume on a copy-on-write
//! filesystem it is deleted and taken anew as a snapshot of the root image;
//! elsewhere the root image is mirrored into it, file by file.

use crate::commands::{create_copy, delete_copy, fs_type_query, inode_query, mirror, snapshot};
use crate::course::{course, lemma_course_is_bounded};
use crate::environment::{chroot_blackarch, chroot_dir, chroot_root, Environment, Key};
use crate::notice::{failure, progress, success, Notice, Severity};
use crate::process::{
    abort_launch, lemma_take_step, matches_model, quiet, take_step, telling, Event, EventView,
    Invocation, Misstep, Presence, Request, RequestView, Step, StepView,
};
use crate::text::{join, join3, mentions, same_text, strip_line_end, without_line_end};
use vstd::prelude::*;

verus! {

/// How far a sync has come: each stage but the first and the last waits for
/// the answer to one request.
#[derive(Clone, Copy, Debug, PartialEq, Eq, Structural)]
pub enum SyncStage {
    /// Nothing has been requested yet.
    Start,
    /// Asked what is at the chroot directory.
    ProbingRoot,
    /// Asked what is at the working copy.
    ProbingCopy,
    /// Asked for the type of the filesystem that holds the working copy.
    ReadingFsType,
    /// Asked for the inode number of the working copy; `cow_fs` tells whether
    /// its filesystem is a copy-on-write one.
    ReadingInode { cow_fs: bool },
    /// Creating the directory of the working copy.
    CreatingCopy,
    /// Deleting the subvolume of the working copy.
    DeletingCopy,
    /// Taking a snapshot of the root image as the new working copy.
    Snapshotting,
    /// Mirroring the root image into the working copy.
    Mirroring,
    /// The sync is over.
    Done,
}

/// Whether the answer to the filesystem query names a copy-on-write
/// filesystem.
pub open spec fn names_cow_fs(output: Seq<char>) -> bool {
    without_line_end(output) == "btrfs"@
}

/// Whether the answer to the inode query is the inode number that the root of
/// a subvolume has.
pub open spec fn names_subvolume_root(output: Seq<char>) -> bool {
    without_line_end(output) == "256"@
}

/// The notice that opens a sync.
pub open spec fn syncing_notice(home: Seq<char>) -> Seq<char> {
    "Syncing chroot copy "@ + chroot_blackarch(home) + " with "@ + chroot_root(home) + " ..."@
}

/// The notice for a chroot directory that does not exist.
pub open spec fn missing_chroot_notice() -> Seq<char> {
    "Chroot environment doesn't exists. Please use the -s option first."@
}

/// The request that a sync at `stage` is waiting on, if it waits on one.
pub open spec fn sync_pending(home: Seq<char>, stage: SyncStage) -> Option<RequestView> {
    match stage {
        SyncStage::Start => None,
        SyncStage::ProbingRoot => Some(RequestView::Probe { path: chroot_dir(home) }),
        SyncStage::ProbingCopy => Some(RequestView::Probe { path: chroot_blackarch(home) }),
        SyncStage::ReadingFsType => Some(RequestView::Capture(fs_type_query(home))),
        SyncStage::ReadingInode { .. } => Some(RequestView::Capture(inode_query(home))),
        SyncStage::CreatingCopy => Some(RequestView::Run(create_copy(home))),
        SyncStage::DeletingCopy => Some(RequestView::Run(delete_copy(home))),
        SyncStage::Snapshotting => Some(RequestView::Spawn(snapshot(home))),
        SyncStage::Mirroring => Some(RequestView::Run(mirror(home))),
        SyncStage::Done => None,
    }
}

/// The first step of a sync: it tells the user what is about to happen and
/// asks what is at the chroot directory.
pub open spec fn sync_begun(home: Seq<char>) -> StepView<SyncStage> {
    telling(
        progress(syncing_notice(home)),
        RequestView::Probe { path: chroot_dir(home) },
        SyncStage::ProbingRoot,
    )
}

/// The step that ends a sync that went well and tells the user nothing.
pub open spec fn sync_closed() -> StepView<SyncStage> {
    quiet(RequestView::Finish { code: 0 }, SyncStage::Done)
}

/// The step that ends a sync with a notice of what went wrong.
pub open spec fn sync_failed(text: Seq<char>) -> StepView<SyncStage> {
    telling(failure(text), RequestView::Finish { code: 1 }, SyncStage::Done)
}

/// The step that a sync takes at `stage`, which is not its last, on an
/// `event` that answers what it was waiting on and is not a failure to start
/// a program.
pub open spec fn sync_advance(home: Seq<char>, stage: SyncStage, event: EventView) -> StepView<
    SyncStage,
> {
    match stage {
        SyncStage::Start => sync_begun(home),
        SyncStage::ProbingRoot => if event == EventView::Probed(Presence::Absent) {
            sync_failed(missing_chroot_notice())
        } else {
            quiet(RequestView::Probe { path: chroot_blackarch(home) }, SyncStage::ProbingCopy)
        },
        SyncStage::ProbingCopy => if event == EventView::Probed(Presence::Absent) {
            quiet(RequestView::Run(create_copy(home)), SyncStage::CreatingCopy)
        } else {
            quiet(RequestView::Capture(fs_type_query(home)), SyncStage::ReadingFsType)
        },
        SyncStage::ReadingFsType => quiet(
            RequestView::Capture(inode_query(home)),
            SyncStage::ReadingInode { cow_fs: names_cow_fs(event->Captured_0) },
        ),
        SyncStage::ReadingInode { cow_fs } => if cow_fs && names_subvolume_root(
            event->Captured_0,
        ) {
            quiet(RequestView::Run(delete_copy(home)), SyncStage::DeletingCopy)
        } else {
            quiet(RequestView::Run(mirror(home)), SyncStage::Mirroring)
        },
        SyncStage::CreatingCopy => if event == EventView::Exited(true) {
            quiet(RequestView::Run(mirror(home)), SyncStage::Mirroring)
        } else {
            sync_failed("Failed to create working copy of chroot environment."@)
        },
        SyncStage::DeletingCopy => if event == EventView::Exited(true) {
            quiet(RequestView::Spawn(snapshot(home)), SyncStage::Snapshotting)
        } else {
            sync_failed("Failed to delete chroot copy."@)
        },
        SyncStage::Snapshotting => sync_closed(),
        SyncStage::Mirroring => if event == EventView::Exited(true) {
            telling(
                success("Chroot environment is ready!"@),
                RequestView::Finish { code: 0 },
                SyncStage::Done,
            )
        } else {
            sync_failed("Failed to create copy of root chroot environment."@)
        },
        SyncStage::Done => sync_closed(),
    }
}

/// What a sync at `stage` does on `event`.
pub open spec fn sync_model(home: Seq<char>, stage: SyncStage, event: EventView) -> Result<
    StepView<SyncStage>,
    Misstep,
> {
    take_step(
        stage is Done,
        sync_pending(home, stage),
        event,
        sync_advance(home, stage, event),
        SyncStage::Done,
    )
}

/// Whether `output`, once its line ending is taken off, reads `word`.
fn reads(output: &str, word: &str) -> (same: bool)
    ensures
        same == (without_line_end(output@) == word@),
{
    let kept = strip_line_end(output);
    same_text(kept.as_str(), word)
}

/// The step that ends a sync with a notice of what went wrong.
fn sync_fails(text: &str) -> (step: Step<SyncStage>)
    ensures
        step@ == sync_failed(text@),
{
    Step::telling(Notice::failure(text.to_owned()), Request::Finish { code: 1 }, SyncStage::Done)
}

/// The step that aborts a sync because `program` could not be started.
fn sync_aborts(program: &str) -> (step: Step<SyncStage>)
    ensures
        step@ == quiet(abort_launch(program@), SyncStage::Done),
{
    Step::quiet(Request::abort_launch(program), SyncStage::Done)
}

/// The first step of a sync.
pub fn begin_sync(env: &Environment) -> (step: Step<SyncStage>)
    ensures
        step@ == sync_begun(env.home()),
{
    let root = env.value(Key::ChrootRoot);
    let copy = env.value(Key::ChrootBlackarch);
    let text = join(
        join3("Syncing chroot copy ", copy, " with ").as_str(),
        join(root, " ...").as_str(),
    );
    assert(text@ =~= syncing_notice(env.home()));
    Step::telling(
        Notice::progress(text),
        Request::Probe { path: env.value(Key::ChrootDir).to_owned() },
        SyncStage::ProbingRoot,
    )
}

/// Takes one step of a sync of the working copy with the root image.
///
/// `stage` is where the sync stands and `event` is what came of the request
/// it made last; a sync begins at `SyncStage::Start` with `Event::Begin`.
pub fn sync_chroot(env: &Environment, stage: SyncStage, event: &Event) -> (result: Result<
    Step<SyncStage>,
    Misstep,
>)
    ensures
        matches_model(result, sync_model(env.home(), stage, event@)),
{
    match (stage, event) {
        (SyncStage::Done, _) => Err(Misstep::Finished),
        (SyncStage::Start, Event::Begin) => Ok(begin_sync(env)),
        (SyncStage::ProbingRoot, Event::Probed(Presence::Absent)) => Ok(
            sync_fails("Chroot environment doesn't exists. Please use the -s option first."),
        ),
        (SyncStage::ProbingRoot, Event::Probed(_)) => Ok(
            Step::quiet(
                Request::Probe { path: env.value(Key::ChrootBlackarch).to_owned() },
                SyncStage::ProbingCopy,
            ),
        ),
        (SyncStage::ProbingCopy, Event::Probed(Presence::Absent)) => Ok(
            Step::quiet(Request::Run(Invocation::create_copy(env)), SyncStage::CreatingCopy),
        ),
        (SyncStage::ProbingCopy, Event::Probed(_)) => Ok(
            Step::quiet(Request::Capture(Invocation::fs_type_query(env)), SyncStage::ReadingFsType),
        ),
        (SyncStage::ReadingFsType, Event::Captured(output)) => {
            let cow_fs = reads(output.as_str(), "btrfs");
            Ok(
                Step::quiet(
                    Request::Capture(Invocation::inode_query(env)),
                    SyncStage::ReadingInode { cow_fs },
                ),
            )
        },
        (SyncStage::ReadingInode { cow_fs }, Event::Captured(output)) => {
            if cow_fs && reads(output.as_str(), "256") {
                Ok(Step::quiet(Request::Run(Invocation::delete_copy(env)), SyncStage::DeletingCopy))
            } else {
                Ok(Step::quiet(Request::Run(Invocation::mirror(env)), SyncStage::Mirroring))
            }
        },
        (SyncStage::CreatingCopy, Event::Exited(true)) => Ok(
            Step::quiet(Request::Run(Invocation::mirror(env)), SyncStage::Mirroring),
        ),
        (SyncStage::CreatingCopy, Event::Exited(false)) => Ok(
            sync_fails("Failed to create working copy of chroot environment."),
        ),
        (SyncStage::DeletingCopy, Event::Exited(true)) => Ok(
            Step::quiet(Request::Spawn(Invocation::snapshot(env)), SyncStage::Snapshotting),
        ),
        (SyncStage::DeletingCopy, Event::Exited(false)) => Ok(
            sync_fails("Failed to delete chroot copy."),
        ),
        (SyncStage::Snapshotting, Event::Spawned) => Ok(
            Step::quiet(Request::Finish { code: 0 }, SyncStage::Done),
        ),
        (SyncStage::Mirroring, Event::Exited(true)) => Ok(
            Step::telling(
                Notice::success("Chroot environment is ready!".to_owned()),
                Request::Finish { code: 0 },
                SyncStage::Done,
            ),
        ),
        (SyncStage::Mirroring, Event::Exited(false)) => Ok(
            sync_fails("Failed to create copy of root chroot environment."),
        ),
        (SyncStage::ReadingFsType | SyncStage::ReadingInode { .. }, Event::NotStarted) => Ok(
            sync_aborts("stat"),
        ),
        (
            SyncStage::CreatingCopy
            | SyncStage::DeletingCopy
            | SyncStage::Snapshotting
            | SyncStage::Mirroring,
            Event::NotStarted,
        ) => Ok(sync_aborts("sudo")),
        _ => Err(Misstep::Unexpected),
    }
}

/// What an operation makes of a step of a sync that it contains, where
/// `next` is how the operation goes on after the sync, `syncing` is its stage
/// for a stage of the sync, and `done` is the stage at which it is over.
///
/// After a sync that went well the operation goes on, telling what the sync
/// told and then what it has to tell itself; a sync that ended otherwise ends
/// the operation in the same way; and any other step is handed on.
pub open spec fn after_sync<S>(
    step: StepView<SyncStage>,
    next: StepView<S>,
    syncing: spec_fn(SyncStage) -> S,
    done: S,
) -> StepView<S> {
    if step.request == (RequestView::Finish { code: 0 }) {
        StepView {
            notices: step.notices + next.notices,
            request: next.request,
            stage: next.stage,
        }
    } else if step.request.is_final() {
        StepView { notices: step.notices, request: step.request, stage: done }
    } else {
        StepView { notices: step.notices, request: step.request, stage: syncing(step.stage) }
    }
}

/// The steps that a sync at `stage` can still take, at most.
pub open spec fn sync_steps_left(stage: SyncStage) -> nat {
    match stage {
        SyncStage::Start => 7,
        SyncStage::ProbingRoot => 6,
        SyncStage::ProbingCopy => 5,
        SyncStage::ReadingFsType => 4,
        SyncStage::ReadingInode { .. } => 3,
        SyncStage::CreatingCopy => 2,
        SyncStage::DeletingCopy => 2,
        SyncStage::Snapshotting => 1,
        SyncStage::Mirroring => 1,
        SyncStage::Done => 0,
    }
}

/// Every step brings a sync nearer to its end, so that nothing is tried
/// twice.
pub proof fn lemma_sync_ends(home: Seq<char>, stage: SyncStage, event: EventView)
    ensures
        sync_model(home, stage, event) matches Ok(step) ==> sync_steps_left(step.stage)
            < sync_steps_left(stage),
{
}

/// The stage that a step leads to waits on the request that the step made,
/// and a step that ends the sync leads to its last stage.
pub proof fn lemma_sync_remembers_request(home: Seq<char>, stage: SyncStage, event: EventView)
    ensures
        sync_model(home, stage, event) matches Ok(step) ==> if step.request.is_final() {
            step.stage is Done
        } else {
            sync_pending(home, step.stage) == Some(step.request)
        },
{
}

/// What goes wrong ends a sync. A program that could not be started aborts
/// it with a diagnostic that names the program; nothing else aborts it. A
/// program that ran and failed ends it with exit code 1 and a notice of the
/// failure. No other exit code is asked for but 0.
pub proof fn lemma_sync_failures(home: Seq<char>, stage: SyncStage, event: EventView)
    ensures
        sync_model(home, stage, event) matches Ok(step) ==> {
            &&& step.request is Abort <==> event is NotStarted
            &&& event is NotStarted ==> step.request is Abort && mentions(
                step.request->diagnostic,
                sync_pending(home, stage).unwrap().invocation().unwrap().program,
            )
            &&& event == EventView::Exited(false) ==> {
                &&& step.request == RequestView::Finish { code: 1 }
                &&& step.notices.len() == 1
                &&& step.notices[0].severity == Severity::Failure
            }
            &&& step.request matches RequestView::Finish { code } ==> code == 0 || code == 1
        },
{
    lemma_take_step(
        stage is Done,
        sync_pending(home, stage),
        event,
        sync_advance(home, stage, event),
        SyncStage::Done,
    );
}

/// A sync first asks what is at the chroot directory, and where nothing is
/// there it ends at once: it tells the user that the chroot does not exist
/// and starts no program.
pub proof fn lemma_sync_needs_chroot(home: Seq<char>)
    ensures
        sync_model(home, SyncStage::Start, EventView::Begin) == Ok::<StepView<SyncStage>, Misstep>(
            sync_begun(home),
        ),
        sync_begun(home).request == (RequestView::Probe { path: chroot_dir(home) }),
        sync_model(home, SyncStage::ProbingRoot, EventView::Probed(Presence::Absent)) == Ok::<
            StepView<SyncStage>,
            Misstep,
        >(sync_failed(missing_chroot_notice())),
{
}

/// A working copy that is the root of a subvolume on a copy-on-write
/// filesystem is replaced, not merged: the subvolume is deleted, and once it
/// is, a snapshot of the root image is started in its place; the sync then
/// ends without waiting for the snapshot or telling how it went.
pub proof fn lemma_cow_copy_is_replaced(home: Seq<char>, fs_type: Seq<char>, inode: Seq<char>)
    requires
        names_cow_fs(fs_type),
        names_subvolume_root(inode),
    ensures
        sync_model(home, SyncStage::ReadingFsType, EventView::Captured(fs_type)) == Ok::<
            StepView<SyncStage>,
            Misstep,
        >(
            quiet(
                RequestView::Capture(inode_query(home)),
                SyncStage::ReadingInode { cow_fs: true },
            ),
        ),
        sync_model(home, SyncStage::ReadingInode { cow_fs: true }, EventView::Captured(inode))
            == Ok::<StepView<SyncStage>, Misstep>(
            quiet(RequestView::Run(delete_copy(home)), SyncStage::DeletingCopy),
        ),
        sync_model(home, SyncStage::DeletingCopy, EventView::Exited(true)) == Ok::<
            StepView<SyncStage>,
            Misstep,
        >(quiet(RequestView::Spawn(snapshot(home)), SyncStage::Snapshotting)),
        sync_model(home, SyncStage::Snapshotting, EventView::Spawned) == Ok::<
            StepView<SyncStage>,
            Misstep,
        >(sync_closed()),
{
}

/// The snapshot is started at one point only: when the subvolume of the
/// working copy was deleted. A deletion that ran and failed ends the sync
/// with exit code 1 and a notice of the failure.
pub proof fn lemma_snapshot_replaces_deleted_copy(
    home: Seq<char>,
    stage: SyncStage,
    event: EventView,
)
    ensures
        sync_model(home, stage, event) matches Ok(step) ==> (step.request is Spawn
            <==> stage is DeletingCopy && event == EventView::Exited(true)),
        sync_model(home, SyncStage::DeletingCopy, EventView::Exited(false)) == Ok::<
            StepView<SyncStage>,
            Misstep,
        >(sync_failed("Failed to delete chroot copy."@)),
{
}

/// A working copy that is anything else is brought in line by the mirroring
/// command, which depends on nothing but the home directory, so that it is
/// the same on every run: it copies from the root image into the working
/// copy and deletes from the working copy what the root image does not hold.
/// Only how that command went is told.
pub proof fn lemma_plain_copy_is_mirrored(
    home: Seq<char>,
    cow_fs: bool,
    inode: Seq<char>,
    mirrored: bool,
)
    requires
        !(cow_fs && names_subvolume_root(inode)),
    ensures
        sync_model(home, SyncStage::ReadingInode { cow_fs }, EventView::Captured(inode)) == Ok::<
            StepView<SyncStage>,
            Misstep,
        >(quiet(RequestView::Run(mirror(home)), SyncStage::Mirroring)),
        mirror(home).args.len() == 8,
        mirror(home).args[2] == "--delete"@,
        mirror(home).args[6] == chroot_root(home),
        mirror(home).args[7] == chroot_blackarch(home),
        sync_model(home, SyncStage::Mirroring, EventView::Exited(mirrored)) matches Ok(step) && {
            &&& step.request == RequestView::Finish { code: if mirrored { 0int } else { 1int } }
            &&& step.notices.len() == 1
            &&& step.notices[0].severity == if mirrored {
                Severity::Success
            } else {
                Severity::Failure
            }
        },
{
}

/// The root image is mirrored into the working copy only where the working
/// copy was just created or was found not to be the root of a subvolume on a
/// copy-on-write filesystem.
pub proof fn lemma_mirrors_plain_copy_only(home: Seq<char>, stage: SyncStage, event: EventView)
    ensures
        sync_model(home, stage, event) matches Ok(step) ==> (step.request == RequestView::Run(
            mirror(home),
        ) <==> {
            ||| stage is CreatingCopy && event == EventView::Exited(true)
            ||| stage matches SyncStage::ReadingInode { cow_fs } && event is Captured && !(cow_fs
                && names_subvolume_root(event->Captured_0))
        }),
{
    assert(mirror(home).args.len() == 8);
    assert(create_copy(home).args.len() == 2);
    assert(delete_copy(home).args.len() == 4);
}

/// A sync ends well in two ways only: the mirroring command exited
/// successfully, or the snapshot was started.
pub proof fn lemma_sync_success(home: Seq<char>, stage: SyncStage, event: EventView)
    ensures
        sync_model(home, stage, event) matches Ok(step) ==> (step.request == (RequestView::Finish {
            code: 0,
        }) ==> {
            ||| stage is Mirroring && event == EventView::Exited(true)
            ||| stage is Snapshotting && event is Spawned
        }),
{
}

/// The steps that a sync takes as `events` come in.
pub open spec fn sync_course(home: Seq<char>, events: Seq<EventView>) -> Seq<StepView<SyncStage>> {
    course(
        |stage: SyncStage, event: EventView| sync_model(home, stage, event),
        SyncStage::Start,
        events,
    )
}

/// Whatever the events, a sync is over after seven steps.
pub proof fn lemma_sync_course_is_bounded(home: Seq<char>, events: Seq<EventView>)
    ensures
        sync_course(home, events).len() <= 7,
{
    let model = |stage: SyncStage, event: EventView| sync_model(home, stage, event);
    assert forall|from: SyncStage, event: EventView|
        (#[trigger] model(from, event)) matches Ok(step) ==> sync_steps_left(step.stage)
            < sync_steps_left(from) by {
        lemma_sync_ends(home, from, event);
    }
    lemma_course_is_bounded(
        model,
        |stage: SyncStage| sync_steps_left(stage),
        SyncStage::Start,
        events,
    );
}

} // verus!
