//! The shell's answer to the events of its windows and of its event loop.
//!
//! A handler does not act. It returns the steps that the host has to carry
//! out, in order, so that the rules can be stated and checked apart from the
//! windowing system that delivers the events.

use crate::settings::{EXIT_CODE, MAIN_WINDOW, SIDECAR_PORT};
use crate::text::same_text;
use vstd::prelude::*;

verus! {

/// What happened to a window, as far as the shell tells events apart.
#[derive(Clone, Copy, Debug, PartialEq, Eq, Structural)]
pub enum WindowEvent {
    /// The user asked to close the window.
    CloseRequested,
    /// The window is gone.
    Destroyed,
    /// Any other window event.
    Other,
}

/// What happened in the event loop, as far as the shell tells events apart.
#[derive(Clone, Copy, Debug, PartialEq, Eq, Structural)]
pub enum RunEvent {
    /// The application was asked to exit.
    ExitRequested,
    /// The application is exiting.
    Exit,
    /// Any other event.
    Other,
}

/// The line that the shell logs before it cleans up.
#[derive(Clone, Copy, Debug, PartialEq, Eq, Structural)]
pub enum Notice {
    /// The main window was asked to close.
    CloseRequested,
    /// The main window was destroyed.
    WindowDestroyed,
    /// The event loop is exiting.
    Exiting,
}

impl Notice {
    /// The text of the notice.
    pub open spec fn text(&self) -> Seq<char> {
        match self {
            Notice::CloseRequested => "Close requested - exiting app"@,
            Notice::WindowDestroyed => "Window destroyed - exiting app"@,
            Notice::Exiting => "Exiting app"@,
        }
    }

    /// The text of the notice, to be logged at info level.
    pub fn message(&self) -> (message: &'static str)
        ensures
            message@ == self.text(),
    {
        match self {
            Notice::CloseRequested => "Close requested - exiting app",
            Notice::WindowDestroyed => "Window destroyed - exiting app",
            Notice::Exiting => "Exiting app",
        }
    }
}

/// One thing that the host has to do in answer to an event.
#[derive(Clone, Copy, Debug, PartialEq, Eq, Structural)]
pub enum Step {
    /// Log the notice.
    Announce(Notice),
    /// Terminate the sidecar that listens on the port.
    Cleanup { port: u16 },
    /// Force the application to exit with the code.
    Exit { code: i32 },
    /// Keep the application from exiting on this request.
    PreventExit,
}

/// The event ends the main window: a close request for it, or its
/// destruction.
pub open spec fn ends_main_window(label: Seq<char>, event: WindowEvent) -> bool {
    label == MAIN_WINDOW@ && (event is CloseRequested || event is Destroyed)
}

/// The steps of a shutdown: announce it, clean up the sidecar port, exit.
pub open spec fn shutdown_steps(notice: Notice) -> Seq<Step> {
    seq![Step::Announce(notice), Step::Cleanup { port: SIDECAR_PORT }, Step::Exit { code: EXIT_CODE }]
}

/// The steps that answer a window event. Only the end of the main window
/// has any.
pub open spec fn window_steps(label: Seq<char>, event: WindowEvent) -> Seq<Step> {
    if label == MAIN_WINDOW@ {
        match event {
            WindowEvent::CloseRequested => shutdown_steps(Notice::CloseRequested),
            WindowEvent::Destroyed => shutdown_steps(Notice::WindowDestroyed),
            WindowEvent::Other => Seq::empty(),
        }
    } else {
        Seq::empty()
    }
}

/// The steps that answer an event of the event loop. A request to exit is
/// held back, so that the exit is the shell's own; the exit itself cleans up
/// once more.
pub open spec fn run_steps(event: RunEvent) -> Seq<Step> {
    match event {
        RunEvent::ExitRequested => seq![Step::PreventExit],
        RunEvent::Exit => seq![Step::Announce(Notice::Exiting), Step::Cleanup { port: SIDECAR_PORT }],
        RunEvent::Other => Seq::empty(),
    }
}

/// The steps of a shutdown that is announced by `notice`.
fn shutdown(notice: Notice) -> (steps: Vec<Step>)
    ensures
        steps@ == shutdown_steps(notice),
{
    let mut steps: Vec<Step> = Vec::new();
    steps.push(Step::Announce(notice));
    steps.push(Step::Cleanup { port: SIDECAR_PORT });
    steps.push(Step::Exit { code: EXIT_CODE });
    assert(steps@ =~= shutdown_steps(notice));
    steps
}

/// Answers an event of the window labelled `label`.
pub fn on_window_event(label: &str, event: WindowEvent) -> (steps: Vec<Step>)
    ensures
        steps@ == window_steps(label@, event),
{
    match event {
        WindowEvent::CloseRequested => {
            if same_text(label, MAIN_WINDOW) {
                shutdown(Notice::CloseRequested)
            } else {
                Vec::new()
            }
        },
        WindowEvent::Destroyed => {
            if same_text(label, MAIN_WINDOW) {
                shutdown(Notice::WindowDestroyed)
            } else {
                Vec::new()
            }
        },
        WindowEvent::Other => Vec::new(),
    }
}

/// Answers an event of the event loop.
pub fn on_run_event(event: RunEvent) -> (steps: Vec<Step>)
    ensures
        steps@ == run_steps(event),
{
    let mut steps: Vec<Step> = Vec::new();
    match event {
        RunEvent::ExitRequested => {
            steps.push(Step::PreventExit);
        },
        RunEvent::Exit => {
            steps.push(Step::Announce(Notice::Exiting));
            steps.push(Step::Cleanup { port: SIDECAR_PORT });
        },
        RunEvent::Other => {},
    }
    assert(steps@ =~= run_steps(event));
    steps
}

/// The steps clean up the sidecar port and exit right after, and do each
/// exactly once.
pub open spec fn cleans_up_then_exits_once(steps: Seq<Step>) -> bool {
    exists|at: int|
        {
            &&& 0 <= at
            &&& at + 1 < steps.len()
            &&& #[trigger] steps[at] == Step::Cleanup { port: SIDECAR_PORT }
            &&& steps[at + 1] == Step::Exit { code: EXIT_CODE }
            &&& forall|i: int|
                0 <= i < steps.len() && i != at ==> !(#[trigger] steps[i] is Cleanup)
            &&& forall|i: int|
                0 <= i < steps.len() && i != at + 1 ==> !(#[trigger] steps[i] is Exit)
        }
}

/// An event that ends the main window is answered by one cleanup followed by
/// one exit. Any other window event, and any event of a window with another
/// label, is answered by no step at all.
pub proof fn lemma_only_main_window_shuts_down(label: Seq<char>, event: WindowEvent)
    ensures
        ends_main_window(label, event) ==> cleans_up_then_exits_once(window_steps(label, event)),
        !ends_main_window(label, event) ==> window_steps(label, event).len() == 0,
{
    if ends_main_window(label, event) {
        let steps = window_steps(label, event);
        assert(steps[1] == Step::Cleanup { port: SIDECAR_PORT });
        assert(steps[2] == Step::Exit { code: EXIT_CODE });
        assert(steps[0] is Announce);
    }
}

} // verus!
