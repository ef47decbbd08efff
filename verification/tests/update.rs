use chroot_devtools::environment::Environment;
use chroot_devtools::notice::{Notice, Severity};
use chroot_devtools::process::{Event, Invocation, Misstep, Presence, Request, Step};
use chroot_devtools::sync::SyncStage;
use chroot_devtools::update::{update_chroot_packages, UpdateStage};

const DIR: &str = "/home/u/blackarch_chroot";
const ROOT: &str = "/home/u/blackarch_chroot/root/";
const NSPAWN: &str = "/usr/bin/arch-nspawn";

fn call(program: &str, args: &[&str]) -> Invocation {
    Invocation {
        program: program.to_string(),
        args: args.iter().map(|arg| arg.to_string()).collect(),
    }
}

fn update(events: Vec<Event>) -> Vec<Step<UpdateStage>> {
    let env = Environment::resolve("/home/u");
    let mut stage = UpdateStage::Start;
    let mut steps = Vec::new();
    for event in events {
        let step =
            update_chroot_packages(&env, stage, &event).expect("the event answers the request");
        stage = step.stage;
        steps.push(step);
    }
    steps
}

#[test]
fn update_asks_for_the_chroot_first() {
    let steps = update(vec![Event::Begin]);
    assert_eq!(steps[0].request, Request::Probe { path: DIR.to_string() });
    assert!(steps[0].notices.is_empty());
    assert_eq!(steps[0].stage, UpdateStage::ProbingRoot);
}

#[test]
fn update_needs_a_chroot() {
    let steps = update(vec![Event::Begin, Event::Probed(Presence::Absent)]);
    assert_eq!(steps.len(), 2);
    assert_eq!(steps[1].request, Request::Finish { code: 1 });
    assert_eq!(
        steps[1].notices,
        vec![Notice::failure(
            "Chroot environment doesn't exists. Please use the -s option first.".to_string()
        )]
    );
    assert_eq!(steps[1].stage, UpdateStage::Done);
    assert!(steps.iter().all(|step| matches!(
        step.request,
        Request::Probe { .. } | Request::Finish { .. }
    )));
}

#[test]
fn update_upgrades_and_syncs() {
    let steps = update(vec![
        Event::Begin,
        Event::Probed(Presence::Directory),
        Event::Exited(true),
        Event::Probed(Presence::Directory),
        Event::Probed(Presence::Directory),
        Event::Captured("ext2/ext3\n".to_string()),
        Event::Captured("12\n".to_string()),
        Event::Exited(true),
    ]);
    assert_eq!(
        steps[1].notices,
        vec![Notice::progress("Updating the chroot environment...".to_string())]
    );
    assert_eq!(
        steps[1].request,
        Request::Run(call(NSPAWN, &[ROOT, "/bin/sh", "-c", "pacman --noconfirm -Syuu"]))
    );
    assert_eq!(steps[1].stage, UpdateStage::Upgrading);
    assert_eq!(steps[2].request, Request::Probe { path: DIR.to_string() });
    assert_eq!(steps[2].notices.len(), 1);
    assert_eq!(steps[2].notices[0].severity, Severity::Progress);
    assert_eq!(steps[2].stage, UpdateStage::Syncing(SyncStage::ProbingRoot));
    let last = steps.last().unwrap();
    assert_eq!(last.request, Request::Finish { code: 0 });
    assert_eq!(
        last.notices,
        vec![
            Notice::success("Chroot environment is ready!".to_string()),
            Notice::success("Chroot environment updated correctly!".to_string()),
        ]
    );
}

#[test]
fn update_upgrades_whatever_is_at_the_chroot_directory() {
    let steps = update(vec![Event::Begin, Event::Probed(Presence::File)]);
    assert_eq!(
        steps[1].request,
        Request::Run(call(NSPAWN, &[ROOT, "/bin/sh", "-c", "pacman --noconfirm -Syuu"]))
    );
}

#[test]
fn update_stops_when_the_upgrade_fails() {
    let steps = update(vec![
        Event::Begin,
        Event::Probed(Presence::Directory),
        Event::Exited(false),
    ]);
    assert_eq!(steps[2].request, Request::Finish { code: 1 });
    assert_eq!(
        steps[2].notices,
        vec![Notice::failure(
            "An error as ocurred while updating the chroot environment.".to_string()
        )]
    );
    assert_eq!(steps[2].stage, UpdateStage::Done);
}

#[test]
fn update_reports_a_failed_sync() {
    let steps = update(vec![
        Event::Begin,
        Event::Probed(Presence::Directory),
        Event::Exited(true),
        Event::Probed(Presence::Absent),
    ]);
    let last = steps.last().unwrap();
    assert_eq!(last.request, Request::Finish { code: 1 });
    assert_eq!(last.notices.len(), 1);
    assert_eq!(last.notices[0].severity, Severity::Failure);
    assert_eq!(last.stage, UpdateStage::Done);
}

#[test]
fn update_aborts_when_the_tool_cannot_be_started() {
    let steps = update(vec![
        Event::Begin,
        Event::Probed(Presence::Directory),
        Event::NotStarted,
    ]);
    assert_eq!(
        steps[2].request,
        Request::Abort { diagnostic: "Failed to start /usr/bin/arch-nspawn".to_string() }
    );
}

#[test]
fn update_refuses_what_it_did_not_ask_for() {
    let env = Environment::resolve("/home/u");
    assert_eq!(
        update_chroot_packages(&env, UpdateStage::Done, &Event::Begin),
        Err(Misstep::Finished)
    );
    assert_eq!(
        update_chroot_packages(&env, UpdateStage::Start, &Event::Exited(true)),
        Err(Misstep::Unexpected)
    );
    assert_eq!(
        update_chroot_packages(&env, UpdateStage::ProbingRoot, &Event::Exited(true)),
        Err(Misstep::Unexpected)
    );
    assert_eq!(
        update_chroot_packages(&env, UpdateStage::ProbingRoot, &Event::NotStarted),
        Err(Misstep::Unexpected)
    );
    assert_eq!(
        update_chroot_packages(&env, UpdateStage::Upgrading, &Event::Begin),
        Err(Misstep::Unexpected)
    );
}

#[test]
fn update_takes_nine_steps_at_most() {
    let steps = update(vec![
        Event::Begin,
        Event::Probed(Presence::Directory),
        Event::Exited(true),
        Event::Probed(Presence::Directory),
        Event::Probed(Presence::Directory),
        Event::Captured("btrfs\n".to_string()),
        Event::Captured("256\n".to_string()),
        Event::Exited(true),
        Event::Spawned,
    ]);
    assert_eq!(steps.len(), 9);
    assert_eq!(steps[8].request, Request::Finish { code: 0 });
    assert_eq!(
        steps[8].notices,
        vec![Notice::success("Chroot environment updated correctly!".to_string())]
    );
    assert_eq!(steps[8].stage, UpdateStage::Done);
}
