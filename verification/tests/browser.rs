use advanced_computer_controller::browser::{
    BRIDGED_COMMAND_INTERPRETER, BROWSER_UNAVAILABLE, COMMAND_INTERPRETER,
};
use advanced_computer_controller::{open_browser, Host, Invocation, Step};

fn start(program: &str, url: &str) -> Step<Invocation, ()> {
    Step::Perform(Invocation {
        program: program.to_string(),
        args: vec!["/C".to_string(), "start".to_string(), url.to_string()],
    })
}

#[test]
fn the_browser_texts_are_fixed() {
    assert_eq!(COMMAND_INTERPRETER, "cmd");
    assert_eq!(BRIDGED_COMMAND_INTERPRETER, "/mnt/c/Windows/System32/cmd.exe");
    assert_eq!(BROWSER_UNAVAILABLE, "Browser opening not implemented for non-Windows");
}

#[test]
fn windows_starts_the_interpreter_with_the_url() {
    assert_eq!(
        open_browser(Host::Windows, "https://example.org/a?b=c", None),
        start("cmd", "https://example.org/a?b=c")
    );
}

#[test]
fn bridged_host_starts_the_interpreter_by_its_path() {
    assert_eq!(
        open_browser(Host::Bridged, "https://example.org", None),
        start("/mnt/c/Windows/System32/cmd.exe", "https://example.org")
    );
}

#[test]
fn the_url_is_handed_on_untouched() {
    assert_eq!(open_browser(Host::Windows, "", None), start("cmd", ""));
    assert_eq!(
        open_browser(Host::Windows, "a b & c \u{e9}", None),
        start("cmd", "a b & c \u{e9}")
    );
}

#[test]
fn other_host_cannot_open_a_browser() {
    let refused: Step<Invocation, ()> =
        Step::Finish(Err("Browser opening not implemented for non-Windows".to_string()));
    assert_eq!(open_browser(Host::Other, "https://example.org", None), refused);
    assert_eq!(open_browser(Host::Other, "https://example.org", Some(Ok(()))), refused);
    assert_eq!(
        open_browser(Host::Other, "https://example.org", Some(Err("late".to_string()))),
        refused
    );
}

#[test]
fn a_started_interpreter_ends_the_operation_well() {
    for host in [Host::Windows, Host::Bridged] {
        assert_eq!(open_browser(host, "https://example.org", Some(Ok(()))), Step::Finish(Ok(())));
    }
}

#[test]
fn a_failed_start_is_reported_with_its_message() {
    for host in [Host::Windows, Host::Bridged] {
        assert_eq!(
            open_browser(host, "https://example.org", Some(Err("No such file".to_string()))),
            Step::Finish(Err("No such file".to_string()))
        );
    }
}

#[test]
fn opening_a_browser_takes_one_request() {
    for host in [Host::Windows, Host::Bridged, Host::Other] {
        let mut reply = None;
        let mut requests = 0;
        let result = loop {
            match open_browser(host, "https://example.org", reply.take()) {
                Step::Perform(_) => {
                    requests += 1;
                    assert!(requests <= 1);
                    reply = Some(Ok(()));
                }
                Step::Finish(result) => break result,
            }
        };
        assert_eq!(result.is_ok(), host != Host::Other);
        assert_eq!(requests, if host == Host::Other { 0 } else { 1 });
    }
}
