use chroot_devtools::environment::Environment;
use chroot_devtools::notice::{Notice, Severity};
use chroot_devtools::process::{Event, Invocation, Misstep, Presence, Request, Step};
use chroot_devtools::sync::{begin_sync, sync_chroot, SyncStage};

const ROOT: &str = "/home/u/blackarch_chroot/root/";
const COPY: &str = "/home/u/blackarch_chroot/blackarch/";

fn call(program: &str, args: &[&str]) -> Invocation {
    Invocation {
        program: program.to_string(),
        args: args.iter().map(|arg| arg.to_string()).collect(),
    }
}

fn mirror() -> Request {
    Request::Run(call("sudo", &["rsync", "-a", "--delete", "-q", "-W", "-x", ROOT, COPY]))
}

fn run(events: Vec<Event>) -> Vec<Step<SyncStage>> {
    let env = Environment::resolve("/home/u");
    let mut stage = SyncStage::Start;
    let mut steps = Vec::new();
    for event in events {
        let step = sync_chroot(&env, stage, &event).expect("the event answers the request");
        stage = step.stage;
        steps.push(step);
    }
    steps
}

fn requests(steps: &[Step<SyncStage>]) -> Vec<Request> {
    steps.iter().map(|step| step.request.clone()).collect()
}

#[test]
fn sync_begins_by_asking_for_the_chroot_directory() {
    let steps = run(vec![Event::Begin]);
    assert_eq!(
        steps[0].notices,
        vec![Notice::progress(format!("Syncing chroot copy {} with {} ...", COPY, ROOT))]
    );
    assert_eq!(steps[0].request, Request::Probe { path: "/home/u/blackarch_chroot".to_string() });
    assert_eq!(steps[0].stage, SyncStage::ProbingRoot);
    assert_eq!(begin_sync(&Environment::resolve("/home/u")), steps[0]);
}

#[test]
fn sync_without_a_chroot_ends_with_a_notice() {
    let steps = run(vec![Event::Begin, Event::Probed(Presence::Absent)]);
    assert_eq!(
        steps[1].notices,
        vec![Notice::failure(
            "Chroot environment doesn't exists. Please use the -s option first.".to_string()
        )]
    );
    assert_eq!(steps[1].request, Request::Finish { code: 1 });
    assert_eq!(steps[1].stage, SyncStage::Done);
}

#[test]
fn sync_creates_a_missing_working_copy_and_mirrors() {
    let steps = run(vec![
        Event::Begin,
        Event::Probed(Presence::Directory),
        Event::Probed(Presence::Absent),
        Event::Exited(true),
        Event::Exited(true),
    ]);
    assert_eq!(
        requests(&steps),
        vec![
            Request::Probe { path: "/home/u/blackarch_chroot".to_string() },
            Request::Probe { path: COPY.to_string() },
            Request::Run(call("sudo", &["mkdir", COPY])),
            mirror(),
            Request::Finish { code: 0 },
        ]
    );
    assert_eq!(steps[4].notices, vec![Notice::success("Chroot environment is ready!".to_string())]);
    assert!(steps[1].notices.is_empty() && steps[2].notices.is_empty());
}

#[test]
fn sync_stops_when_the_working_copy_cannot_be_created() {
    let steps = run(vec![
        Event::Begin,
        Event::Probed(Presence::Directory),
        Event::Probed(Presence::Absent),
        Event::Exited(false),
    ]);
    assert_eq!(steps[3].request, Request::Finish { code: 1 });
    assert_eq!(
        steps[3].notices,
        vec![Notice::failure("Failed to create working copy of chroot environment.".to_string())]
    );
}

#[test]
fn sync_mirrors_on_a_plain_filesystem() {
    let steps = run(vec![
        Event::Begin,
        Event::Probed(Presence::Directory),
        Event::Probed(Presence::Directory),
        Event::Captured("ext2/ext3\n".to_string()),
        Event::Captured("1835009\n".to_string()),
        Event::Exited(true),
    ]);
    assert_eq!(
        requests(&steps),
        vec![
            Request::Probe { path: "/home/u/blackarch_chroot".to_string() },
            Request::Probe { path: COPY.to_string() },
            Request::Capture(call("stat", &["-f", "-c", "%T", COPY])),
            Request::Capture(call("stat", &["-c", "%i", COPY])),
            mirror(),
            Request::Finish { code: 0 },
        ]
    );
    assert_eq!(steps[3].stage, SyncStage::ReadingInode { cow_fs: false });
}

#[test]
fn sync_twice_asks_for_the_same_mirroring() {
    let events = vec![
        Event::Begin,
        Event::Probed(Presence::Directory),
        Event::Probed(Presence::Directory),
        Event::Captured("xfs\n".to_string()),
        Event::Captured("256\n".to_string()),
        Event::Exited(true),
    ];
    let first = run(events.clone());
    let second = run(events);
    assert_eq!(first, second);
    assert_eq!(first[4].request, mirror());
}

#[test]
fn sync_reports_a_failed_mirroring() {
    let steps = run(vec![
        Event::Begin,
        Event::Probed(Presence::Directory),
        Event::Probed(Presence::Directory),
        Event::Captured("tmpfs\n".to_string()),
        Event::Captured("2\n".to_string()),
        Event::Exited(false),
    ]);
    assert_eq!(steps[5].request, Request::Finish { code: 1 });
    assert_eq!(
        steps[5].notices,
        vec![Notice::failure("Failed to create copy of root chroot environment.".to_string())]
    );
}

#[test]
fn sync_replaces_a_subvolume_by_a_snapshot() {
    let steps = run(vec![
        Event::Begin,
        Event::Probed(Presence::Directory),
        Event::Probed(Presence::Directory),
        Event::Captured("btrfs\n".to_string()),
        Event::Captured("256\n".to_string()),
        Event::Exited(true),
        Event::Spawned,
    ]);
    assert_eq!(
        requests(&steps)[4..],
        [
            Request::Run(call("sudo", &["btrfs", "subvolume", "delete", COPY])),
            Request::Spawn(call("sudo", &["btrfs", "subvolume", "snapshot", ROOT, COPY])),
            Request::Finish { code: 0 },
        ]
    );
    assert_eq!(steps[3].stage, SyncStage::ReadingInode { cow_fs: true });
    assert!(steps[4..].iter().all(|step| step.notices.is_empty()));
    assert!(!requests(&steps).contains(&mirror()));
}

#[test]
fn sync_takes_no_snapshot_when_the_deletion_failed() {
    let steps = run(vec![
        Event::Begin,
        Event::Probed(Presence::Directory),
        Event::Probed(Presence::Directory),
        Event::Captured("btrfs".to_string()),
        Event::Captured("256".to_string()),
        Event::Exited(false),
    ]);
    assert_eq!(steps[5].request, Request::Finish { code: 1 });
    assert_eq!(
        steps[5].notices,
        vec![Notice::failure("Failed to delete chroot copy.".to_string())]
    );
    assert_eq!(steps[5].stage, SyncStage::Done);
}

#[test]
fn sync_mirrors_a_directory_on_a_copy_on_write_filesystem() {
    let steps = run(vec![
        Event::Begin,
        Event::Probed(Presence::Directory),
        Event::Probed(Presence::Directory),
        Event::Captured("btrfs\n".to_string()),
        Event::Captured("257\n".to_string()),
    ]);
    assert_eq!(steps[4].request, mirror());
    assert_eq!(steps[4].stage, SyncStage::Mirroring);
}

#[test]
fn sync_mirrors_a_subvolume_root_of_another_filesystem() {
    let steps = run(vec![
        Event::Begin,
        Event::Probed(Presence::Directory),
        Event::Probed(Presence::Directory),
        Event::Captured("btrfs2\n".to_string()),
        Event::Captured("256\n".to_string()),
    ]);
    assert_eq!(steps[4].request, mirror());
}

#[test]
fn sync_aborts_when_a_program_cannot_be_started() {
    let env = Environment::resolve("/home/u");
    for (stage, program) in [
        (SyncStage::ReadingFsType, "stat"),
        (SyncStage::ReadingInode { cow_fs: true }, "stat"),
        (SyncStage::CreatingCopy, "sudo"),
        (SyncStage::DeletingCopy, "sudo"),
        (SyncStage::Snapshotting, "sudo"),
        (SyncStage::Mirroring, "sudo"),
    ] {
        let step = sync_chroot(&env, stage, &Event::NotStarted).unwrap();
        assert_eq!(
            step.request,
            Request::Abort { diagnostic: format!("Failed to start {}", program) }
        );
        assert!(step.notices.is_empty());
        assert_eq!(step.stage, SyncStage::Done);
    }
}

#[test]
fn sync_takes_no_step_once_it_is_over() {
    let env = Environment::resolve("/home/u");
    for event in [Event::Begin, Event::Exited(true), Event::NotStarted, Event::Spawned] {
        assert_eq!(sync_chroot(&env, SyncStage::Done, &event), Err(Misstep::Finished));
    }
}

#[test]
fn sync_refuses_an_event_that_answers_another_request() {
    let env = Environment::resolve("/home/u");
    let unexpected = [
        (SyncStage::Start, Event::Exited(true)),
        (SyncStage::Start, Event::NotStarted),
        (SyncStage::ProbingRoot, Event::Begin),
        (SyncStage::ProbingRoot, Event::NotStarted),
        (SyncStage::ProbingCopy, Event::Exited(true)),
        (SyncStage::ReadingFsType, Event::Exited(true)),
        (SyncStage::ReadingInode { cow_fs: false }, Event::Spawned),
        (SyncStage::CreatingCopy, Event::Captured("x".to_string())),
        (SyncStage::DeletingCopy, Event::Spawned),
        (SyncStage::Snapshotting, Event::Exited(true)),
        (SyncStage::Mirroring, Event::Probed(Presence::File)),
        (SyncStage::Mirroring, Event::Located(true)),
        (SyncStage::Mirroring, Event::Created(true)),
    ];
    for (stage, event) in unexpected {
        assert_eq!(sync_chroot(&env, stage, &event), Err(Misstep::Unexpected));
    }
}

#[test]
fn sync_is_over_within_seven_steps() {
    let longest = run(vec![
        Event::Begin,
        Event::Probed(Presence::Directory),
        Event::Probed(Presence::Directory),
        Event::Captured("btrfs\n".to_string()),
        Event::Captured("256\n".to_string()),
        Event::Exited(true),
        Event::Spawned,
    ]);
    assert_eq!(longest.len(), 7);
    assert_eq!(longest[6].stage, SyncStage::Done);
    assert_eq!(longest[6].notices.len(), 0);
    assert!(longest.iter().all(|step| step
        .notices
        .iter()
        .all(|notice| notice.severity != Severity::Failure)));
}
