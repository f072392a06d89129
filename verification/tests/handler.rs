use clipboard_master::{
    notify, settle, settle_startup, CallbackResult, ClipBoardListenMessage, ClipboardHandler,
    Shutdown,
};
use std::io;
use std::sync::atomic::{AtomicBool, Ordering};
use std::sync::Arc;
use std::time::Duration;

#[test]
fn initial_selection_defaults_to_clipboard_change() {
    struct Handler {
        called: bool,
    }
    impl ClipboardHandler for Handler {
        fn on_clipboard_change(&mut self) -> CallbackResult {
            self.called = true;
            CallbackResult::Stop
        }
    }
    let mut handler = Handler { called: false };
    assert!(matches!(
        handler.on_clipboard_initial_selection(),
        CallbackResult::Stop
    ));
    assert!(handler.called);
}

struct Recorder {
    calls: Vec<&'static str>,
}

impl ClipboardHandler for Recorder {
    fn on_clipboard_change(&mut self) -> CallbackResult {
        self.calls.push("change");
        CallbackResult::Next
    }

    fn on_clipboard_initial_selection(&mut self) -> CallbackResult {
        self.calls.push("initial");
        CallbackResult::Stop
    }
}

fn message(is_initial: bool) -> ClipBoardListenMessage {
    ClipBoardListenMessage {
        _mime_types: Vec::new(),
        is_initial,
    }
}

#[test]
fn messages_go_to_their_callbacks() {
    let mut handler = Recorder { calls: Vec::new() };
    assert!(matches!(
        notify(&mut handler, &message(true)),
        CallbackResult::Stop
    ));
    assert!(matches!(
        notify(&mut handler, &message(false)),
        CallbackResult::Next
    ));
    assert_eq!(handler.calls, ["initial", "change"]);
}

#[test]
fn errors_stop_by_default() {
    let mut handler = Recorder { calls: Vec::new() };
    let error = io::Error::new(io::ErrorKind::TimedOut, "too late");
    match handler.on_clipboard_error(error) {
        CallbackResult::StopWithError(error) => {
            assert_eq!(error.kind(), io::ErrorKind::TimedOut);
            assert_eq!(error.to_string(), "too late");
        }
        _ => panic!("an error stops the handling of messages"),
    }
    assert!(handler.calls.is_empty());
}

#[test]
fn sleep_interval_defaults_to_half_a_second() {
    let handler = Recorder { calls: Vec::new() };
    assert_eq!(handler.sleep_interval(), Duration::from_millis(500));
    assert_eq!(handler.sleep_interval().as_nanos(), 500_000_000);
}

#[test]
fn callback_results_conclude_the_handling() {
    assert!(CallbackResult::Next.conclusion().is_none());
    assert!(matches!(CallbackResult::Stop.conclusion(), Some(Ok(()))));
    let error = io::Error::new(io::ErrorKind::Other, "broken");
    match CallbackResult::StopWithError(error).conclusion() {
        Some(Err(error)) => assert_eq!(error.to_string(), "broken"),
        _ => panic!("the error is propagated"),
    }
}

#[test]
fn signal_raises_the_exit_flag() {
    let flag = Arc::new(AtomicBool::new(false));
    let shutdown = Shutdown::new(flag.clone());
    assert!(!flag.load(Ordering::Relaxed));
    shutdown.signal();
    assert!(flag.load(Ordering::Relaxed));
}

#[test]
fn dropped_shutdown_raises_the_exit_flag() {
    let flag = Arc::new(AtomicBool::new(false));
    drop(Shutdown::new(flag.clone()));
    assert!(flag.load(Ordering::Relaxed));
}

struct Plain {
    changes: u32,
    answers: Vec<CallbackResult>,
}

impl ClipboardHandler for Plain {
    fn on_clipboard_change(&mut self) -> CallbackResult {
        self.changes += 1;
        self.answers.remove(0)
    }
}

#[test]
fn initial_selection_passes_every_result_of_one_change_through() {
    let error = io::Error::new(io::ErrorKind::BrokenPipe, "gone");
    let mut handler = Plain {
        changes: 0,
        answers: vec![
            CallbackResult::Next,
            CallbackResult::Stop,
            CallbackResult::StopWithError(error),
        ],
    };
    assert!(matches!(handler.on_clipboard_initial_selection(), CallbackResult::Next));
    assert_eq!(handler.changes, 1);
    assert!(matches!(handler.on_clipboard_initial_selection(), CallbackResult::Stop));
    assert_eq!(handler.changes, 2);
    match handler.on_clipboard_initial_selection() {
        CallbackResult::StopWithError(error) => {
            assert_eq!(error.kind(), io::ErrorKind::BrokenPipe);
            assert_eq!(error.to_string(), "gone");
        }
        _ => panic!("the error is passed through"),
    }
    assert_eq!(handler.changes, 3);
}

#[test]
fn settled_messages_go_to_their_callbacks() {
    let mut handler = Recorder { calls: Vec::new() };
    assert!(settle(&mut handler, Ok(message(false)), false).is_none());
    assert!(matches!(
        settle(&mut handler, Ok(message(true)), false),
        Some(Ok(()))
    ));
    assert!(settle(&mut handler, Ok(message(false)), true).is_none());
    assert_eq!(handler.calls, ["change", "initial", "change"]);
}

#[test]
fn settled_errors_end_by_default() {
    let mut handler = Recorder { calls: Vec::new() };
    let error = io::Error::new(io::ErrorKind::Other, "broken");
    match settle(&mut handler, Err(error), false) {
        Some(Err(error)) => assert_eq!(error.to_string(), "broken"),
        _ => panic!("the error is propagated"),
    }
    assert!(handler.calls.is_empty());
}

#[test]
fn errors_after_a_shutdown_are_a_success_without_callback() {
    struct Strict;
    impl ClipboardHandler for Strict {
        fn on_clipboard_change(&mut self) -> CallbackResult {
            panic!("nothing changed")
        }

        fn on_clipboard_error(&mut self, _error: io::Error) -> CallbackResult {
            panic!("the end was asked for")
        }
    }
    let error = || io::Error::new(io::ErrorKind::Other, "Exit signal received, exiting");
    assert!(matches!(settle(&mut Strict, Err(error()), true), Some(Ok(()))));
    assert!(settle_startup(error(), true).is_ok());
    match settle_startup(error(), false) {
        Err(error) => assert_eq!(error.to_string(), "Exit signal received, exiting"),
        Ok(()) => panic!("the error is propagated"),
    }
}
