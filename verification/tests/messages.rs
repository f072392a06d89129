use clipboard_master::{
    BackendFailure, ClipBoardListenMessage, DeviceEvent, ErrorKind, FailureCause, InitEvent,
    ListenError, MessageAction, MessageEvent, OfferEvent, Protocol, Shutdown, WlClipboardListener,
};
use std::sync::atomic::AtomicBool;
use std::sync::Arc;

fn ready_listener() -> WlClipboardListener {
    let mut state = WlClipboardListener::new(Arc::new(AtomicBool::new(false)));
    state.init(InitEvent::DeviceInitialized(Ok(())));
    state
}

fn select(state: &mut WlClipboardListener, mime_type: Option<&str>) {
    if let Some(mime_type) = mime_type {
        state.offer_event(OfferEvent::Offer(mime_type.to_string()));
    }
    state.device_event(
        Protocol::Ext,
        DeviceEvent::Selection {
            offer: mime_type.is_some(),
        },
    );
}

fn delivered(action: MessageAction) -> ClipBoardListenMessage {
    match action {
        MessageAction::Deliver(message) => message,
        _ => panic!("a message is due"),
    }
}

fn error(action: MessageAction) -> ListenError {
    match action {
        MessageAction::Fail(error) => error,
        _ => panic!("the wait must fail"),
    }
}

fn look(state: &mut WlClipboardListener) -> MessageAction {
    let event = state.check_exit();
    state.get_message(event)
}

#[test]
fn an_existing_selection_is_delivered_at_once_and_once() {
    let mut state = ready_listener();
    select(&mut state, Some("text/plain"));
    assert!(matches!(state.get_message(MessageEvent::Started), MessageAction::Lock));
    assert!(matches!(
        state.get_message(MessageEvent::Locked(Ok(()))),
        MessageAction::Check
    ));
    let message = delivered(look(&mut state));
    assert!(message.is_initial);
    assert_eq!(message._mime_types, ["text/plain"]);
    assert!(matches!(look(&mut state), MessageAction::Flush));
    assert!(state.mime_types.is_empty());
}

#[test]
fn an_empty_existing_selection_is_not_reported() {
    let mut state = ready_listener();
    select(&mut state, None);
    assert!(matches!(look(&mut state), MessageAction::Flush));
}

#[test]
fn a_batched_existing_selection_is_a_change() {
    let mut state = ready_listener();
    select(&mut state, Some("text/plain"));
    select(&mut state, Some("text/html"));
    let message = delivered(look(&mut state));
    assert!(!message.is_initial);
    assert_eq!(message._mime_types, ["text/plain", "text/html"]);
    assert!(matches!(look(&mut state), MessageAction::Flush));
}

#[test]
fn later_selections_are_changes_with_their_own_types() {
    let mut state = ready_listener();
    select(&mut state, Some("text/plain"));
    assert!(delivered(look(&mut state)).is_initial);
    select(&mut state, Some("image/png"));
    let message = delivered(look(&mut state));
    assert!(!message.is_initial);
    assert_eq!(message._mime_types, ["image/png"]);
}

#[test]
fn waiting_reads_and_dispatches() {
    let mut state = ready_listener();
    assert!(matches!(look(&mut state), MessageAction::Flush));
    assert!(matches!(
        state.get_message(MessageEvent::Flushed(Ok(()))),
        MessageAction::PrepareRead
    ));
    assert!(matches!(
        state.get_message(MessageEvent::Prepared(true)),
        MessageAction::Read
    ));
    assert!(matches!(
        state.get_message(MessageEvent::Read(Ok(0))),
        MessageAction::Pause(30)
    ));
    assert!(matches!(
        state.get_message(MessageEvent::Read(Err(BackendFailure {
            cause: FailureCause::WouldBlock,
            message: "would block".to_string(),
        }))),
        MessageAction::Pause(30)
    ));
    assert!(matches!(state.get_message(MessageEvent::Paused), MessageAction::Check));
    assert!(matches!(
        state.get_message(MessageEvent::Read(Ok(8))),
        MessageAction::Dispatch
    ));
    assert!(matches!(
        state.get_message(MessageEvent::Dispatched(Ok(()))),
        MessageAction::Check
    ));
}

#[test]
fn waiting_tells_why_it_fails() {
    let mut state = WlClipboardListener::new(Arc::new(AtomicBool::new(false)));
    let failed = error(state.get_message(MessageEvent::Started));
    assert_eq!(failed.message(), "Event queue not initialized");

    let mut state = ready_listener();
    let cause = || "broken".to_string();
    for (event, message) in [
        (MessageEvent::Locked(Err(cause())), "Cannot lock queue: broken"),
        (MessageEvent::Checked { exit: true }, "Exit signal received, exiting"),
        (MessageEvent::Flushed(Err(cause())), "Flush failed: broken"),
        (MessageEvent::Prepared(false), "Prepare read failed"),
        (
            MessageEvent::Read(Err(BackendFailure {
                cause: FailureCause::Io(std::io::ErrorKind::BrokenPipe),
                message: cause(),
            })),
            "Read failed: broken",
        ),
        (
            MessageEvent::Dispatched(Err(cause())),
            "Dispatch pending failed: broken",
        ),
    ] {
        let failed = error(state.get_message(event));
        assert_eq!(failed.kind(), ErrorKind::Other);
        assert_eq!(failed.message(), message);
    }
}

#[test]
fn a_finished_device_is_reported_once_and_first() {
    let mut state = ready_listener();
    select(&mut state, Some("text/plain"));
    state.device_event(Protocol::Ext, DeviceEvent::Finished);
    let failed = error(state.get_message(MessageEvent::Checked { exit: true }));
    assert_eq!(failed.message(), "Wayland ext_data_control_v1 device finished");
    let failed = error(state.get_message(MessageEvent::Checked { exit: true }));
    assert_eq!(failed.message(), "Exit signal received, exiting");
    assert!(delivered(look(&mut state)).is_initial);

    state.device_event(Protocol::Zwlr, DeviceEvent::Finished);
    let failed = error(state.get_message(MessageEvent::Dispatched(Ok(()))));
    assert_eq!(failed.kind(), ErrorKind::Other);
    assert_eq!(failed.message(), "Wayland zwlr_data_control_v1 device finished");
    assert_eq!(state.terminated_reason, None);
}

#[test]
fn a_shutdown_ends_the_wait() {
    let flag = Arc::new(AtomicBool::new(false));
    let mut state = WlClipboardListener::new(flag.clone());
    state.init(InitEvent::DeviceInitialized(Ok(())));
    select(&mut state, Some("text/plain"));
    Shutdown::new(flag).signal();
    assert_eq!(error(look(&mut state)).message(), "Exit signal received, exiting");
    assert!(state.copied);
}

#[test]
fn a_failed_call_loses_nothing() {
    let mut state = ready_listener();
    state.offer_event(OfferEvent::Offer("text/plain".to_string()));
    assert!(matches!(look(&mut state), MessageAction::Flush));
    assert!(matches!(
        state.get_message(MessageEvent::Read(Ok(8))),
        MessageAction::Dispatch
    ));
    select(&mut state, Some("text/html"));
    let failed = error(state.get_message(MessageEvent::Dispatched(Err("broken".to_string()))));
    assert_eq!(failed.kind(), ErrorKind::Other);
    let message = delivered(look(&mut state));
    assert!(message.is_initial);
    assert_eq!(message._mime_types, ["text/plain", "text/html"]);
}

#[test]
fn a_finish_stays_pending_when_a_call_fails_otherwise() {
    let mut state = ready_listener();
    state.device_event(Protocol::Ext, DeviceEvent::Finished);
    let failed = error(state.get_message(MessageEvent::Dispatched(Err("broken".to_string()))));
    assert_eq!(failed.message(), "Dispatch pending failed: broken");
    assert_eq!(state.terminated_reason, Some(Protocol::Ext));
    assert_eq!(
        error(look(&mut state)).message(),
        "Wayland ext_data_control_v1 device finished"
    );
}
