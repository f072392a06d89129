use clipboard_master::startup::{
    read_cycle, INITIALIZATION_RETRY_INTERVAL, INITIALIZATION_TIMEOUT,
};
use clipboard_master::{
    BackendFailure, CycleAction, CycleEvent, DataControlDevice, DeviceEvent, DeviceInitAction,
    DeviceInitEvent, ErrorKind, FailureCause, InitAction, InitEvent, ListenError, Protocol,
    RegistryEvent, SeatEvent, Shutdown, WaitAction, WaitEvent, WlClipboardListener,
};
use std::sync::atomic::AtomicBool;
use std::sync::Arc;

fn listener() -> WlClipboardListener {
    WlClipboardListener::new(Arc::new(AtomicBool::new(false)))
}

fn announce(state: &mut WlClipboardListener, name: u32, interface: &str, version: u32) {
    state.registry_event(RegistryEvent::Global {
        name,
        interface: interface.to_string(),
        version,
    });
}

fn failure(cause: FailureCause) -> BackendFailure {
    BackendFailure {
        cause,
        message: "the connection broke".to_string(),
    }
}

fn init_error(action: InitAction) -> ListenError {
    match action {
        InitAction::Fail(error) => error,
        _ => panic!("initialization must fail"),
    }
}

/// Runs the initialization of the device against a peer that never says anything: every step of
/// reading finds nothing, and the exit flag is raised after some pauses, if at all.
fn assert_silent_peer_initialization(cancel: bool) {
    let flag = Arc::new(AtomicBool::new(false));
    let mut state = WlClipboardListener::new(flag.clone());
    announce(&mut state, 1, "wl_seat", 1);
    announce(&mut state, 2, "ext_data_control_manager_v1", 1);
    let mut shutdown = Some(Shutdown::new(flag));
    if !cancel {
        std::mem::forget(shutdown.take());
    }
    let mut elapsed: u128 = 0;
    let mut pauses: u32 = 0;
    let mut flushes: u32 = 0;
    let mut event = DeviceInitEvent::Started;
    let error = loop {
        event = match state.initialize_data_device(event) {
            DeviceInitAction::Create(device) => {
                assert_eq!(device, DataControlDevice::Ext);
                DeviceInitEvent::Created
            }
            DeviceInitAction::Check => state.check_initialization(elapsed),
            DeviceInitAction::Dispatch => DeviceInitEvent::Cycle(CycleEvent::Dispatched(Ok(0))),
            DeviceInitAction::Flush => {
                flushes += 1;
                DeviceInitEvent::Cycle(CycleEvent::Flushed(Ok(())))
            }
            DeviceInitAction::Read => DeviceInitEvent::Cycle(CycleEvent::Read(Some(Err(failure(
                FailureCause::WouldBlock,
            ))))),
            DeviceInitAction::Redispatch => panic!("nothing was read"),
            DeviceInitAction::Pause(millis) => {
                assert_eq!(millis, 30);
                elapsed += u128::from(millis) * 1_000_000;
                pauses += 1;
                if pauses == 3 {
                    if let Some(shutdown) = shutdown.take() {
                        shutdown.signal();
                    }
                }
                DeviceInitEvent::Paused
            }
            DeviceInitAction::Ready => panic!("a silent peer cannot establish readiness"),
            DeviceInitAction::Fail(error) => break error,
        };
    };
    assert!(flushes > 0, "initialization must flush its requests");
    let (expected, expected_pauses) = if cancel {
        (ErrorKind::Interrupted, 3)
    } else {
        (ErrorKind::TimedOut, 167)
    };
    assert_eq!(error.kind(), expected);
    assert_eq!(pauses, expected_pauses);
}

#[test]
fn initialization_with_silent_peer_can_be_cancelled() {
    assert_silent_peer_initialization(true);
}

#[test]
fn initialization_with_silent_peer_times_out() {
    assert_silent_peer_initialization(false);
}

#[test]
fn the_limits_are_thirty_milliseconds_and_five_seconds() {
    assert_eq!(INITIALIZATION_RETRY_INTERVAL, 30);
    assert_eq!(INITIALIZATION_TIMEOUT, 5_000_000_000);
}

#[test]
fn initialization_goes_through_its_steps() {
    let mut state = listener();
    assert!(matches!(state.init(InitEvent::Started), InitAction::Connect));
    assert!(matches!(
        state.init(InitEvent::Connected(true)),
        InitAction::DispatchGlobals
    ));
    announce(&mut state, 1, "wl_seat", 7);
    announce(&mut state, 2, "zwlr_data_control_manager_v1", 2);
    assert!(matches!(
        state.init(InitEvent::GlobalsDispatched(Ok(()))),
        InitAction::Roundtrip
    ));
    assert!(matches!(
        state.init(InitEvent::Roundtripped(true)),
        InitAction::Roundtrip
    ));
    state.seat_event(SeatEvent::Name("seat0".to_string()));
    assert!(matches!(
        state.init(InitEvent::Roundtripped(true)),
        InitAction::InitializeDevice
    ));
    assert!(matches!(
        state.initialize_data_device(DeviceInitEvent::Started),
        DeviceInitAction::Create(DataControlDevice::Zwlr)
    ));
    assert!(matches!(
        state.initialize_data_device(DeviceInitEvent::Created),
        DeviceInitAction::Check
    ));
    assert!(matches!(
        state.initialize_data_device(state.check_initialization(0)),
        DeviceInitAction::Dispatch
    ));
    assert!(matches!(
        state.initialize_data_device(DeviceInitEvent::Cycle(CycleEvent::Dispatched(Ok(0)))),
        DeviceInitAction::Flush
    ));
    assert!(matches!(
        state.initialize_data_device(DeviceInitEvent::Cycle(CycleEvent::Flushed(Ok(())))),
        DeviceInitAction::Read
    ));
    assert!(matches!(
        state.initialize_data_device(DeviceInitEvent::Cycle(CycleEvent::Read(Some(Ok(12))))),
        DeviceInitAction::Redispatch
    ));
    state.device_event(Protocol::Zwlr, DeviceEvent::Selection { offer: false });
    assert!(matches!(
        state.initialize_data_device(DeviceInitEvent::Cycle(CycleEvent::Redispatched(Ok(1)))),
        DeviceInitAction::Check
    ));
    assert!(matches!(
        state.initialize_data_device(state.check_initialization(9_000_000_000)),
        DeviceInitAction::Ready
    ));
    assert!(!state.queue_attached);
    assert!(matches!(
        state.init(InitEvent::DeviceInitialized(Ok(()))),
        InitAction::Finish
    ));
    assert!(state.queue_attached);
    assert_eq!(state.data_device, Some(DataControlDevice::Zwlr));
    assert_eq!(state.terminated_reason, None);
}

#[test]
fn seats_without_names_are_not_waited_for() {
    let mut state = listener();
    announce(&mut state, 1, "wl_seat", 1);
    announce(&mut state, 2, "ext_data_control_manager_v1", 1);
    assert!(matches!(
        state.init(InitEvent::GlobalsDispatched(Ok(()))),
        InitAction::InitializeDevice
    ));
}

#[test]
fn initialization_tells_why_it_fails() {
    let mut state = listener();
    let error = init_error(state.init(InitEvent::Connected(false)));
    assert_eq!(error.kind(), ErrorKind::Other);
    assert_eq!(
        error.message(),
        "Cannot connect to wayland server, is it running?"
    );

    let cause = "Backend error: broken pipe".to_string();
    let error = init_error(state.init(InitEvent::GlobalsDispatched(Err(cause))));
    assert_eq!(error.kind(), ErrorKind::Other);
    assert_eq!(
        error.message(),
        "Inital dispatch failed: Backend error: broken pipe"
    );

    announce(&mut state, 1, "wl_seat", 7);
    let error = init_error(state.init(InitEvent::GlobalsDispatched(Ok(()))));
    assert_eq!(error.kind(), ErrorKind::Other);
    assert_eq!(
        error.message(),
        "Cannot get seat and data manager (neither ext_data_control_v1 nor zwlr_data_control_v1 available)"
    );

    let error = init_error(state.init(InitEvent::Roundtripped(false)));
    assert_eq!(error.kind(), ErrorKind::Other);
    assert_eq!(error.message(), "Cannot roundtrip during init");

    let error = init_error(state.init(InitEvent::DeviceInitialized(Err(ListenError::TimedOut))));
    assert_eq!(error.kind(), ErrorKind::TimedOut);
    assert_eq!(
        error.message(),
        "Timed out waiting for the initial Wayland clipboard selection"
    );
    assert!(!state.queue_attached);
}

fn wait_error(state: &mut WlClipboardListener, exit: bool, elapsed: u128) -> ListenError {
    match state.wait_for_initial_selection(WaitEvent::Checked { exit, elapsed }) {
        WaitAction::Fail(error) => error,
        _ => panic!("the wait must fail"),
    }
}

#[test]
fn the_wait_looks_at_the_device_then_the_flag_then_the_selection_then_the_clock() {
    let mut state = listener();
    state.device_event(Protocol::Zwlr, DeviceEvent::Selection { offer: true });
    state.device_event(Protocol::Zwlr, DeviceEvent::Finished);
    let error = wait_error(&mut state, true, INITIALIZATION_TIMEOUT);
    assert_eq!(error.kind(), ErrorKind::Other);
    assert_eq!(error.message(), "Wayland zwlr_data_control_v1 device finished");
    assert_eq!(state.terminated_reason, None);

    let error = wait_error(&mut state, true, INITIALIZATION_TIMEOUT);
    assert_eq!(error.kind(), ErrorKind::Interrupted);
    assert_eq!(error.message(), "Data device initialization cancelled");

    assert!(matches!(
        state.wait_for_initial_selection(WaitEvent::Checked {
            exit: false,
            elapsed: INITIALIZATION_TIMEOUT
        }),
        WaitAction::Ready
    ));

    let mut state = listener();
    assert!(matches!(
        state.wait_for_initial_selection(WaitEvent::Checked {
            exit: false,
            elapsed: INITIALIZATION_TIMEOUT - 1
        }),
        WaitAction::Dispatch
    ));
    let error = wait_error(&mut state, false, INITIALIZATION_TIMEOUT);
    assert_eq!(error.kind(), ErrorKind::TimedOut);
}

#[test]
fn the_wait_goes_on_after_progress_and_pauses_without() {
    let mut state = listener();
    assert!(matches!(
        state.wait_for_initial_selection(WaitEvent::Dispatched(Ok(3))),
        WaitAction::Check
    ));
    assert!(matches!(
        state.wait_for_initial_selection(WaitEvent::Dispatched(Ok(0))),
        WaitAction::Pause(30)
    ));
    assert!(matches!(
        state.wait_for_initial_selection(WaitEvent::Dispatched(Err(failure(
            FailureCause::WouldBlock
        )))),
        WaitAction::Pause(30)
    ));
    assert!(matches!(
        state.wait_for_initial_selection(WaitEvent::Paused),
        WaitAction::Check
    ));
}

#[test]
fn the_wait_reports_failures_under_their_kinds() {
    let mut state = listener();
    for (cause, kind) in [
        (
            FailureCause::Io(std::io::ErrorKind::BrokenPipe),
            ErrorKind::Io(std::io::ErrorKind::BrokenPipe),
        ),
        (
            FailureCause::Io(std::io::ErrorKind::ConnectionReset),
            ErrorKind::Io(std::io::ErrorKind::ConnectionReset),
        ),
        (FailureCause::Protocol, ErrorKind::Other),
        (FailureCause::BadMessage, ErrorKind::Other),
    ] {
        match state.wait_for_initial_selection(WaitEvent::Dispatched(Err(failure(cause)))) {
            WaitAction::Fail(error) => {
                assert_eq!(error.kind(), kind);
                assert_eq!(error.message(), "the connection broke");
            }
            _ => panic!("the wait must fail"),
        }
    }
}

#[test]
fn a_read_cycle_ends_with_events_or_failures() {
    assert!(matches!(
        read_cycle(CycleEvent::Dispatched(Ok(2))),
        CycleAction::Finish(Ok(2))
    ));
    assert!(matches!(
        read_cycle(CycleEvent::Dispatched(Err(failure(FailureCause::Io(std::io::ErrorKind::BrokenPipe))))),
        CycleAction::Finish(Err(_))
    ));
    assert!(matches!(
        read_cycle(CycleEvent::Flushed(Err(failure(FailureCause::Protocol)))),
        CycleAction::Finish(Err(_))
    ));
    assert!(matches!(
        read_cycle(CycleEvent::Flushed(Err(failure(FailureCause::WouldBlock)))),
        CycleAction::Read
    ));
    assert!(matches!(
        read_cycle(CycleEvent::Read(Some(Err(failure(FailureCause::WouldBlock))))),
        CycleAction::Finish(Err(_))
    ));
    assert!(matches!(read_cycle(CycleEvent::Read(None)), CycleAction::Redispatch));
    assert!(matches!(
        read_cycle(CycleEvent::Read(Some(Ok(0)))),
        CycleAction::Redispatch
    ));
    assert!(matches!(
        read_cycle(CycleEvent::Redispatched(Ok(0))),
        CycleAction::Finish(Ok(0))
    ));
}

#[test]
fn without_globals_no_device_is_created() {
    let mut state = listener();
    assert!(matches!(
        state.initialize_data_device(DeviceInitEvent::Started),
        DeviceInitAction::Check
    ));
    assert_eq!(state.data_device, None);
}
