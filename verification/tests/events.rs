use sidecar_lifecycle::events::{
    on_run_event, on_window_event, Notice, RunEvent, Step, WindowEvent,
};
use sidecar_lifecycle::settings::{
    EXIT_CODE, KILL_SIGNAL, MAIN_WINDOW, SIDECAR_NAME, SIDECAR_PORT,
};

fn cleanups(steps: &[Step]) -> usize {
    steps.iter().filter(|step| matches!(step, Step::Cleanup { .. })).count()
}

fn exits(steps: &[Step]) -> usize {
    steps.iter().filter(|step| matches!(step, Step::Exit { .. })).count()
}

#[test]
fn settings_are_the_fixed_ones() {
    assert_eq!(SIDECAR_PORT, 3354);
    assert_eq!(SIDECAR_NAME, "csemInsight");
    assert_eq!(MAIN_WINDOW, "main");
    assert_eq!(KILL_SIGNAL, "SIGKILL");
    assert_eq!(EXIT_CODE, 0);
}

#[test]
fn close_request_of_main_window_cleans_up_then_exits() {
    let steps = on_window_event("main", WindowEvent::CloseRequested);
    assert_eq!(
        steps,
        vec![
            Step::Announce(Notice::CloseRequested),
            Step::Cleanup { port: 3354 },
            Step::Exit { code: 0 },
        ]
    );
}

#[test]
fn destruction_of_main_window_cleans_up_then_exits() {
    let steps = on_window_event("main", WindowEvent::Destroyed);
    assert_eq!(
        steps,
        vec![
            Step::Announce(Notice::WindowDestroyed),
            Step::Cleanup { port: 3354 },
            Step::Exit { code: 0 },
        ]
    );
}

#[test]
fn main_window_shutdown_holds_one_cleanup_and_one_exit() {
    for event in [WindowEvent::CloseRequested, WindowEvent::Destroyed] {
        let steps = on_window_event("main", event);
        assert_eq!(cleanups(&steps), 1);
        assert_eq!(exits(&steps), 1);
        let cleanup_at = steps.iter().position(|step| matches!(step, Step::Cleanup { .. }));
        let exit_at = steps.iter().position(|step| matches!(step, Step::Exit { .. }));
        assert!(cleanup_at < exit_at);
    }
}

#[test]
fn other_events_of_main_window_are_ignored() {
    assert_eq!(on_window_event("main", WindowEvent::Other), Vec::<Step>::new());
}

#[test]
fn events_of_other_windows_are_ignored() {
    for label in ["", "Main", "main ", " main", "mai", "main2", "settings", "splash"] {
        for event in [WindowEvent::CloseRequested, WindowEvent::Destroyed, WindowEvent::Other] {
            assert_eq!(on_window_event(label, event), Vec::<Step>::new());
        }
    }
}

#[test]
fn exit_request_is_held_back() {
    assert_eq!(on_run_event(RunEvent::ExitRequested), vec![Step::PreventExit]);
}

#[test]
fn exit_cleans_up_once_more_without_exiting_again() {
    let steps = on_run_event(RunEvent::Exit);
    assert_eq!(steps, vec![Step::Announce(Notice::Exiting), Step::Cleanup { port: 3354 }]);
    assert_eq!(cleanups(&steps), 1);
    assert_eq!(exits(&steps), 0);
}

#[test]
fn other_run_events_are_ignored() {
    assert_eq!(on_run_event(RunEvent::Other), Vec::<Step>::new());
}

#[test]
fn notices_read_as_logged() {
    assert_eq!(Notice::CloseRequested.message(), "Close requested - exiting app");
    assert_eq!(Notice::WindowDestroyed.message(), "Window destroyed - exiting app");
    assert_eq!(Notice::Exiting.message(), "Exiting app");
}
