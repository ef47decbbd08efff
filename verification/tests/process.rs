use chroot_devtools::notice::Notice;
use chroot_devtools::process::{locate, Event, Invocation, Request, Step};

#[test]
fn invocation_keeps_program_and_arguments() {
    let invocation = Invocation::new("stat", vec!["-c", "%i", "/x"]);
    assert_eq!(invocation.program, "stat");
    assert_eq!(invocation.args, vec!["-c".to_string(), "%i".to_string(), "/x".to_string()]);
}

#[test]
fn invocation_may_have_no_arguments() {
    let invocation = Invocation::new("true", Vec::new());
    assert_eq!(invocation.program, "true");
    assert!(invocation.args.is_empty());
}

#[test]
fn abort_launch_names_the_program() {
    assert_eq!(
        Request::abort_launch("/usr/bin/mkarchroot"),
        Request::Abort { diagnostic: "Failed to start /usr/bin/mkarchroot".to_string() }
    );
}

#[test]
fn quiet_step_has_no_notice() {
    let step = Step::quiet(Request::Finish { code: 0 }, 7u8);
    assert!(step.notices.is_empty());
    assert_eq!(step.request, Request::Finish { code: 0 });
    assert_eq!(step.stage, 7u8);
}

#[test]
fn telling_step_has_one_notice() {
    let step = Step::telling(Notice::success("ok".to_string()), Request::Finish { code: 0 }, ());
    assert_eq!(step.notices, vec![Notice::success("ok".to_string())]);
}

#[test]
fn locate_answers_with_located() {
    assert!(matches!(locate("sh"), Event::Located(_)));
}

#[test]
fn locate_does_not_find_what_is_not_there() {
    assert_eq!(locate("no-such-program-on-any-search-path-4f1c"), Event::Located(false));
}

#[test]
fn located_tells_what_the_search_found() {
    assert_eq!(Event::located(true), Event::Located(true));
    assert_eq!(Event::located(false), Event::Located(false));
}
