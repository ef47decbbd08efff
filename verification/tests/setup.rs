use chroot_devtools::environment::Environment;
use chroot_devtools::setup::{setup_chroot, SetupStage};
use chroot_devtools::notice::Notice;
use chroot_devtools::process::{Event, Invocation, Misstep, Presence, Request, Step};
use chroot_devtools::sync::SyncStage;

const DIR: &str = "/home/u/blackarch_chroot";
const ROOT: &str = "/home/u/blackarch_chroot/root/";
const COPY: &str = "/home/u/blackarch_chroot/blackarch/";
const NSPAWN: &str = "/usr/bin/arch-nspawn";

fn call(program: &str, args: &[&str]) -> Invocation {
    Invocation {
        program: program.to_string(),
        args: args.iter().map(|arg| arg.to_string()).collect(),
    }
}

fn setup(events: Vec<Event>) -> Vec<Step<SetupStage>> {
    let env = Environment::resolve("/home/u");
    let mut stage = SetupStage::Start;
    let mut steps = Vec::new();
    for event in events {
        let step = setup_chroot(&env, stage, &event).expect("the event answers the request");
        stage = step.stage;
        steps.push(step);
    }
    steps
}

fn up_to_the_sync() -> Vec<Event> {
    vec![
        Event::Begin,
        Event::Probed(Presence::Absent),
        Event::Created(true),
        Event::Probed(Presence::File),
        Event::Exited(true),
        Event::Exited(true),
        Event::Exited(true),
        Event::Exited(true),
        Event::Exited(true),
        Event::Exited(true),
    ]
}

#[test]
fn setup_runs_every_step_in_order() {
    let mut events = up_to_the_sync();
    events.extend([
        Event::Probed(Presence::Directory),
        Event::Probed(Presence::Absent),
        Event::Exited(true),
        Event::Exited(true),
    ]);
    let steps = setup(events);
    let requests: Vec<Request> = steps.iter().map(|step| step.request.clone()).collect();
    assert_eq!(
        requests,
        vec![
            Request::Probe { path: DIR.to_string() },
            Request::CreateDir { path: DIR.to_string() },
            Request::Probe { path: "/usr/bin/mkarchroot".to_string() },
            Request::Run(call("/usr/bin/mkarchroot", &[ROOT, "base", "base-devel"])),
            Request::Run(call(
                NSPAWN,
                &[
                    ROOT,
                    "/bin/sh",
                    "-c",
                    "echo -e '\n[multilib]\nInclude = /etc/pacman.d/mirrorlist\n' | sudo tee -a /etc/pacman.conf > /dev/null",
                ]
            )),
            Request::Run(call(
                NSPAWN,
                &[
                    ROOT,
                    "/bin/sh",
                    "-c",
                    "sed -i 's/^PKGEXT.*/PKGEXT='\\''.pkg.tar.zst'\\''/g' /etc/makepkg.conf",
                ]
            )),
            Request::Run(call(NSPAWN, &[ROOT, "curl", "-O", "https://blackarch.org/strap.sh"])),
            Request::Run(call(NSPAWN, &[ROOT, "sh", "strap.sh"])),
            Request::Run(call(NSPAWN, &[ROOT, "rm", "strap.sh"])),
            Request::Probe { path: DIR.to_string() },
            Request::Probe { path: COPY.to_string() },
            Request::Run(call("sudo", &["mkdir", COPY])),
            Request::Run(call(
                "sudo",
                &["rsync", "-a", "--delete", "-q", "-W", "-x", ROOT, COPY]
            )),
            Request::Finish { code: 0 },
        ]
    );
    let notices: Vec<Vec<Notice>> = steps.iter().map(|step| step.notices.clone()).collect();
    assert_eq!(
        notices,
        vec![
            vec![],
            vec![Notice::progress(format!("Creating chroot directory with name: {}", DIR))],
            vec![Notice::progress("Setting up chroot environment...".to_string())],
            vec![],
            vec![Notice::progress("Enabling multilib repos...".to_string())],
            vec![Notice::progress("Changing makepkg.conf to use zstd...".to_string())],
            vec![Notice::progress(
                "Configuring BlackArch Linux repo in the chroot environment...".to_string()
            )],
            vec![],
            vec![],
            vec![Notice::progress(format!("Syncing chroot copy {} with {} ...", COPY, ROOT))],
            vec![],
            vec![],
            vec![],
            vec![
                Notice::success("Chroot environment is ready!".to_string()),
                Notice::success("Chroot environment setup complete!".to_string()),
            ],
        ]
    );
    assert_eq!(steps[9].stage, SetupStage::Syncing(SyncStage::ProbingRoot));
    assert_eq!(steps[13].stage, SetupStage::Done);
}

#[test]
fn setup_refuses_an_existing_directory() {
    let steps = setup(vec![Event::Begin, Event::Probed(Presence::Directory)]);
    assert_eq!(steps[0].request, Request::Probe { path: DIR.to_string() });
    assert_eq!(steps[1].request, Request::Finish { code: 1 });
    assert_eq!(
        steps[1].notices,
        vec![Notice::failure(
            "The directory /home/u/blackarch_chroot already exists in the system, remove it or try with a different path.".to_string()
        )]
    );
    assert_eq!(steps[1].stage, SetupStage::Done);
}

#[test]
fn setup_refuses_an_existing_file() {
    let steps = setup(vec![Event::Begin, Event::Probed(Presence::File)]);
    assert_eq!(steps[1].request, Request::Finish { code: 1 });
    assert_eq!(
        steps[1].notices,
        vec![Notice::failure(
            "The file /home/u/blackarch_chroot already exists in the system, remove it or try a different path.".to_string()
        )]
    );
}

#[test]
fn setup_run_twice_fails_the_second_time() {
    let mut events = up_to_the_sync();
    events.extend([
        Event::Probed(Presence::Directory),
        Event::Probed(Presence::Absent),
        Event::Exited(true),
        Event::Exited(true),
    ]);
    let first = setup(events);
    assert_eq!(first.last().unwrap().request, Request::Finish { code: 0 });
    let second = setup(vec![Event::Begin, Event::Probed(Presence::Directory)]);
    assert_eq!(second.len(), 2);
    assert_eq!(second[1].request, Request::Finish { code: 1 });
    assert!(second.iter().all(|step| matches!(
        step.request,
        Request::Probe { .. } | Request::Finish { .. }
    )));
}

#[test]
fn setup_aborts_when_the_directory_cannot_be_created() {
    let steps = setup(vec![Event::Begin, Event::Probed(Presence::Absent), Event::Created(false)]);
    assert_eq!(
        steps[2].request,
        Request::Abort {
            diagnostic: "An error as ocurred while creating the chroot directoy.".to_string()
        }
    );
    assert_eq!(steps[2].stage, SetupStage::Done);
}

#[test]
fn setup_needs_the_bootstrap_tool() {
    let steps = setup(vec![
        Event::Begin,
        Event::Probed(Presence::Absent),
        Event::Created(true),
        Event::Probed(Presence::Absent),
    ]);
    assert_eq!(
        steps[3].request,
        Request::Abort {
            diagnostic: "Executable file /usr/bin/mkarchroot not found, install the devtools package from repos.".to_string()
        }
    );
    assert!(steps[3].notices.is_empty());
    assert_eq!(steps[3].stage, SetupStage::Done);
    let env = Environment::resolve("/home/u");
    assert_eq!(
        setup_chroot(&env, steps[3].stage, &Event::Exited(true)),
        Err(Misstep::Finished)
    );
}

#[test]
fn setup_names_the_bootstrap_tool_it_cannot_start() {
    for events in [
        vec![
            Event::Begin,
            Event::Probed(Presence::Absent),
            Event::Created(true),
            Event::Probed(Presence::Absent),
        ],
        vec![
            Event::Begin,
            Event::Probed(Presence::Absent),
            Event::Created(true),
            Event::Probed(Presence::File),
            Event::NotStarted,
        ],
    ] {
        let steps = setup(events);
        match &steps.last().unwrap().request {
            Request::Abort { diagnostic } => assert!(diagnostic.contains("/usr/bin/mkarchroot")),
            other => panic!("expected an abort, got {:?}", other),
        }
        assert!(steps.iter().all(|step| !matches!(
            &step.request,
            Request::Run(run) if run.program == "/usr/bin/arch-nspawn"
        )));
    }
}

#[test]
fn setup_stops_at_the_first_step_that_fails() {
    let texts = [
        "Failed to install base packages into chroot environment.",
        "Failed enabling multilib repos.",
        "Failed to change makepkg.conf",
        "Failed to retrieve strap.sh from blackarch.org!",
        "Can't install strap.sh into /home/u/blackarch_chroot/root/!",
        "Error deleting strap.sh from chroot environment.",
    ];
    for (failing, text) in texts.iter().enumerate() {
        let mut events = up_to_the_sync();
        events.truncate(4 + failing);
        events.push(Event::Exited(false));
        let steps = setup(events);
        let last = steps.last().unwrap();
        assert_eq!(last.request, Request::Finish { code: 1 });
        assert_eq!(last.notices, vec![Notice::failure(text.to_string())]);
        assert_eq!(last.stage, SetupStage::Done);
        assert_eq!(steps.len(), 5 + failing);
    }
}

#[test]
fn setup_is_not_complete_when_the_sync_fails() {
    let mut events = up_to_the_sync();
    events.extend([
        Event::Probed(Presence::Directory),
        Event::Probed(Presence::Directory),
        Event::Captured("ext2/ext3\n".to_string()),
        Event::Captured("12\n".to_string()),
        Event::Exited(false),
    ]);
    let steps = setup(events);
    let last = steps.last().unwrap();
    assert_eq!(last.request, Request::Finish { code: 1 });
    assert_eq!(
        last.notices,
        vec![Notice::failure("Failed to create copy of root chroot environment.".to_string())]
    );
    assert_eq!(last.stage, SetupStage::Done);
}

#[test]
fn setup_completes_after_a_snapshot() {
    let mut events = up_to_the_sync();
    events.extend([
        Event::Probed(Presence::Directory),
        Event::Probed(Presence::Directory),
        Event::Captured("btrfs\n".to_string()),
        Event::Captured("256\n".to_string()),
        Event::Exited(true),
        Event::Spawned,
    ]);
    let steps = setup(events);
    let last = steps.last().unwrap();
    assert_eq!(last.request, Request::Finish { code: 0 });
    assert_eq!(
        last.notices,
        vec![Notice::success("Chroot environment setup complete!".to_string())]
    );
}

#[test]
fn setup_aborts_when_a_tool_cannot_be_started() {
    let env = Environment::resolve("/home/u");
    let stages = [
        (SetupStage::Bootstrapping, "/usr/bin/mkarchroot"),
        (SetupStage::EnablingMultilib, NSPAWN),
        (SetupStage::SettingCompression, NSPAWN),
        (SetupStage::FetchingStrap, NSPAWN),
        (SetupStage::RunningStrap, NSPAWN),
        (SetupStage::RemovingStrap, NSPAWN),
        (SetupStage::Syncing(SyncStage::Mirroring), "sudo"),
        (SetupStage::Syncing(SyncStage::ReadingFsType), "stat"),
    ];
    for (stage, program) in stages {
        let step = setup_chroot(&env, stage, &Event::NotStarted).unwrap();
        assert_eq!(
            step.request,
            Request::Abort { diagnostic: format!("Failed to start {}", program) }
        );
        assert!(step.notices.is_empty());
        assert_eq!(step.stage, SetupStage::Done);
    }
}

#[test]
fn setup_refuses_what_it_did_not_ask_for() {
    let env = Environment::resolve("/home/u");
    assert_eq!(setup_chroot(&env, SetupStage::Done, &Event::Begin), Err(Misstep::Finished));
    assert_eq!(
        setup_chroot(&env, SetupStage::Syncing(SyncStage::Done), &Event::Begin),
        Err(Misstep::Finished)
    );
    assert_eq!(
        setup_chroot(&env, SetupStage::Start, &Event::Exited(true)),
        Err(Misstep::Unexpected)
    );
    assert_eq!(
        setup_chroot(&env, SetupStage::ProbingTarget, &Event::NotStarted),
        Err(Misstep::Unexpected)
    );
    assert_eq!(
        setup_chroot(&env, SetupStage::CreatingTarget, &Event::Exited(true)),
        Err(Misstep::Unexpected)
    );
    assert_eq!(
        setup_chroot(&env, SetupStage::Bootstrapping, &Event::Created(true)),
        Err(Misstep::Unexpected)
    );
    assert_eq!(
        setup_chroot(&env, SetupStage::Syncing(SyncStage::Mirroring), &Event::Spawned),
        Err(Misstep::Unexpected)
    );
}

#[test]
fn setup_takes_sixteen_steps_at_most() {
    let mut events = up_to_the_sync();
    events.extend([
        Event::Probed(Presence::Directory),
        Event::Probed(Presence::Directory),
        Event::Captured("btrfs\n".to_string()),
        Event::Captured("256\n".to_string()),
        Event::Exited(true),
        Event::Spawned,
    ]);
    let steps = setup(events);
    assert_eq!(steps.len(), 16);
    assert_eq!(steps[15].request, Request::Finish { code: 0 });
    let env = Environment::resolve("/home/u");
    assert_eq!(setup_chroot(&env, steps[15].stage, &Event::Begin), Err(Misstep::Finished));
}
