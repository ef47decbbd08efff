use chroot_devtools::environment::Environment;
use chroot_devtools::notice::Notice;
use chroot_devtools::missing_deps::{
    build_package_with_listed_deps, build_package_with_missing_deps, MissingStage,
};
use chroot_devtools::process::{Event, Invocation, Misstep, Presence, Request, Step};
use chroot_devtools::sync::SyncStage;

const DIR: &str = "/home/u/blackarch_chroot";
const COPY: &str = "/home/u/blackarch_chroot/blackarch/";
const NSPAWN: &str = "/usr/bin/arch-nspawn";

fn call(program: &str, args: &[&str]) -> Invocation {
    Invocation {
        program: program.to_string(),
        args: args.iter().map(|arg| arg.to_string()).collect(),
    }
}

fn builder() -> Request {
    Request::Run(call("/usr/bin/makechrootpkg", &["-l", "blackarch", "-r", DIR]))
}

fn synced() -> Vec<Event> {
    vec![
        Event::Begin,
        Event::Probed(Presence::Directory),
        Event::Probed(Presence::Directory),
        Event::Captured("ext2/ext3\n".to_string()),
        Event::Captured("12\n".to_string()),
        Event::Exited(true),
    ]
}

fn build_with(missing: &[&str], events: Vec<Event>) -> Vec<Step<MissingStage>> {
    let env = Environment::resolve("/home/u");
    let missing: Vec<String> = missing.iter().map(|path| path.to_string()).collect();
    let mut stage = MissingStage::Start;
    let mut steps = Vec::new();
    for event in events {
        let step = build_package_with_missing_deps(&env, &missing, stage, &event)
            .expect("the event answers the request");
        stage = step.stage;
        steps.push(step);
    }
    steps
}

#[test]
fn missing_deps_are_staged_under_their_base_name() {
    let mut events = synced();
    events.push(Event::Exited(true));
    let steps = build_with(&["/tmp/foo-1.0.pkg"], events);
    assert_eq!(
        steps[5].request,
        Request::Run(call(
            "sudo",
            &["cp", "/tmp/foo-1.0.pkg", "/home/u/blackarch_chroot/blackarch/root/foo-1.0.pkg"]
        ))
    );
    assert_eq!(steps[5].stage, MissingStage::Copying(0));
    assert_eq!(
        steps[6].request,
        Request::Run(call(NSPAWN, &[COPY, "/bin/sh", "-c", "pacman -U --noconfirm root/*"]))
    );
    let copies = steps
        .iter()
        .filter(|step| matches!(&step.request, Request::Run(run) if run.args[0] == "cp"))
        .count();
    assert_eq!(copies, 1);
}

#[test]
fn missing_deps_are_staged_alike_at_any_depth() {
    for path in ["foo-1.0.pkg", "./foo-1.0.pkg", "/a/b/c/d/foo-1.0.pkg", "../../foo-1.0.pkg"] {
        let steps = build_with(&[path], synced());
        assert_eq!(
            steps[5].request,
            Request::Run(call(
                "sudo",
                &["cp", path, "/home/u/blackarch_chroot/blackarch/root/foo-1.0.pkg"]
            ))
        );
    }
}

#[test]
fn missing_deps_are_listed_as_debug_writes_them() {
    let mut events = synced();
    events.push(Event::Exited(true));
    let steps = build_with(&["/tmp/foo-1.0.pkg"], events);
    assert_eq!(
        steps[6].notices,
        vec![Notice::progress(
            "Installing missing packages: [\"/tmp/foo-1.0.pkg\"]".to_string()
        )]
    );
    let mut events = synced();
    events.extend([Event::Exited(true), Event::Exited(true)]);
    let steps = build_with(&["/tmp/a.pkg", "b \"quoted\".pkg"], events);
    assert_eq!(
        steps[7].notices,
        vec![Notice::progress(
            "Installing missing packages: [\"/tmp/a.pkg\", \"b \\\"quoted\\\".pkg\"]".to_string()
        )]
    );
}

#[test]
fn missing_deps_are_staged_in_order_then_installed_built_and_cleared() {
    let mut events = synced();
    events.extend([
        Event::Exited(true),
        Event::Exited(true),
        Event::Exited(true),
        Event::Exited(true),
        Event::Exited(true),
        Event::Spawned,
    ]);
    let steps = build_with(&["/tmp/a.pkg", "/var/b.pkg", "c.pkg"], events);
    let requests: Vec<Request> = steps[5..].iter().map(|step| step.request.clone()).collect();
    assert_eq!(
        requests,
        vec![
            Request::Run(call("sudo", &["cp", "/tmp/a.pkg", &format!("{}root/a.pkg", COPY)])),
            Request::Run(call("sudo", &["cp", "/var/b.pkg", &format!("{}root/b.pkg", COPY)])),
            Request::Run(call("sudo", &["cp", "c.pkg", &format!("{}root/c.pkg", COPY)])),
            Request::Run(call(NSPAWN, &[COPY, "/bin/sh", "-c", "pacman -U --noconfirm root/*"])),
            builder(),
            Request::Spawn(call(NSPAWN, &[COPY, "/bin/sh", "-c", "rm -rf root/*"])),
            Request::Finish { code: 0 },
        ]
    );
    assert_eq!(steps[6].stage, MissingStage::Copying(1));
    assert_eq!(steps[7].stage, MissingStage::Copying(2));
    assert_eq!(steps[8].stage, MissingStage::Installing);
    assert_eq!(steps[10].stage, MissingStage::Clearing { built: true });
    assert_eq!(steps[10].notices, vec![Notice::success("Package built sucessfully!".to_string())]);
    assert!(steps[11].notices.is_empty());
}

#[test]
fn an_empty_list_of_missing_deps_goes_straight_to_the_installation() {
    let steps = build_with(&[], synced());
    assert_eq!(
        steps[5].request,
        Request::Run(call(NSPAWN, &[COPY, "/bin/sh", "-c", "pacman -U --noconfirm root/*"]))
    );
    assert_eq!(
        steps[5].notices,
        vec![
            Notice::success("Chroot environment is ready!".to_string()),
            Notice::progress("Installing missing packages: []".to_string()),
        ]
    );
    assert_eq!(steps[5].stage, MissingStage::Installing);
}

#[test]
fn missing_deps_stop_at_a_copy_that_failed() {
    let mut events = synced();
    events.extend([Event::Exited(true), Event::Exited(false)]);
    let steps = build_with(&["/tmp/a.pkg", "/tmp/b.pkg", "/tmp/c.pkg"], events);
    assert_eq!(steps[7].request, Request::Finish { code: 1 });
    assert_eq!(
        steps[7].notices,
        vec![Notice::failure("Failed to copy missing packages.".to_string())]
    );
    assert_eq!(steps[7].stage, MissingStage::Done);
}

#[test]
fn missing_deps_that_cannot_be_installed_stop_the_build() {
    let mut events = synced();
    events.extend([Event::Exited(true), Event::Exited(false)]);
    let steps = build_with(&["/tmp/a.pkg"], events);
    assert_eq!(steps[7].request, Request::Finish { code: 1 });
    assert_eq!(
        steps[7].notices,
        vec![Notice::failure("Failed to install missing packages.".to_string())]
    );
}

#[test]
fn the_staging_directory_is_cleared_after_a_failed_build_too() {
    let mut events = synced();
    events.extend([Event::Exited(true), Event::Exited(true), Event::Exited(false), Event::Spawned]);
    let steps = build_with(&["/tmp/a.pkg"], events);
    assert_eq!(
        steps[8].request,
        Request::Spawn(call(NSPAWN, &[COPY, "/bin/sh", "-c", "rm -rf root/*"]))
    );
    assert_eq!(steps[8].notices, vec![Notice::failure("Failed to build the package.".to_string())]);
    assert_eq!(steps[8].stage, MissingStage::Clearing { built: false });
    assert_eq!(steps[9].request, Request::Finish { code: 1 });
}

#[test]
fn missing_deps_need_a_chroot() {
    let steps = build_with(&["/tmp/a.pkg"], vec![Event::Begin, Event::Probed(Presence::Absent)]);
    assert_eq!(steps[1].request, Request::Finish { code: 1 });
    assert_eq!(steps[1].stage, MissingStage::Done);
}

#[test]
fn missing_deps_abort_when_a_program_cannot_be_started() {
    let env = Environment::resolve("/home/u");
    let missing = vec!["/tmp/a.pkg".to_string()];
    for (stage, program) in [
        (MissingStage::Copying(0), "sudo"),
        (MissingStage::Installing, NSPAWN),
        (MissingStage::Building, "/usr/bin/makechrootpkg"),
        (MissingStage::Clearing { built: true }, NSPAWN),
        (MissingStage::Syncing(SyncStage::CreatingCopy), "sudo"),
    ] {
        let step =
            build_package_with_missing_deps(&env, &missing, stage, &Event::NotStarted).unwrap();
        assert_eq!(
            step.request,
            Request::Abort { diagnostic: format!("Failed to start {}", program) }
        );
        assert_eq!(step.stage, MissingStage::Done);
    }
}

#[test]
fn missing_deps_refuse_what_they_did_not_ask_for() {
    let env = Environment::resolve("/home/u");
    let missing = vec!["/tmp/a.pkg".to_string()];
    let step = |stage, event: Event| build_package_with_missing_deps(&env, &missing, stage, &event);
    assert_eq!(step(MissingStage::Done, Event::Begin), Err(Misstep::Finished));
    assert_eq!(step(MissingStage::Copying(1), Event::Exited(true)), Err(Misstep::Finished));
    assert_eq!(step(MissingStage::Copying(0), Event::Spawned), Err(Misstep::Unexpected));
    assert_eq!(step(MissingStage::Start, Event::Exited(true)), Err(Misstep::Unexpected));
    assert_eq!(step(MissingStage::Installing, Event::Spawned), Err(Misstep::Unexpected));
    assert_eq!(
        step(MissingStage::Clearing { built: true }, Event::Exited(true)),
        Err(Misstep::Unexpected)
    );
}

#[test]
fn listed_deps_are_shown_as_they_are_listed() {
    let env = Environment::resolve("/home/u");
    let missing = vec!["/tmp/a.pkg".to_string()];
    let step = build_package_with_listed_deps(
        &env,
        &missing,
        "a.pkg",
        MissingStage::Copying(0),
        &Event::Exited(true),
    )
    .unwrap();
    assert_eq!(
        step.notices,
        vec![Notice::progress("Installing missing packages: a.pkg".to_string())]
    );
    assert_eq!(step.stage, MissingStage::Installing);
}

#[test]
fn missing_deps_take_ten_steps_and_one_for_each_file_at_most() {
    let steps = build_with(
        &["/tmp/a.pkg", "/tmp/b.pkg"],
        vec![
            Event::Begin,
            Event::Probed(Presence::Directory),
            Event::Probed(Presence::Directory),
            Event::Captured("btrfs\n".to_string()),
            Event::Captured("256\n".to_string()),
            Event::Exited(true),
            Event::Spawned,
            Event::Exited(true),
            Event::Exited(true),
            Event::Exited(true),
            Event::Exited(true),
            Event::Spawned,
        ],
    );
    assert_eq!(steps.len(), 12);
    assert_eq!(steps[6].stage, MissingStage::Copying(0));
    assert_eq!(steps[11].request, Request::Finish { code: 0 });
    assert_eq!(steps[11].stage, MissingStage::Done);
}
