//! How a listener gets from nothing to its first selection.
//!
//! Every function here takes what the last outside step came to and returns the next step.

use crate::error::{BackendFailure, FailureCause, ListenError};
use crate::listener::{DataControlDevice, ListenerState, WlClipboardListener};
use std::sync::atomic::{AtomicBool, Ordering};
use vstd::prelude::*;

verus! {

/// How long to pause before the connection is tried again, in milliseconds.
pub const INITIALIZATION_RETRY_INTERVAL: u64 = 30;

/// How long to wait for the existing selection, in nanoseconds.
pub const INITIALIZATION_TIMEOUT: u128 = 5_000_000_000;

/// What a step of [`WlClipboardListener::init`] came to.
pub enum InitEvent {
    /// Initialization is to begin.
    Started,
    /// Whether there is a connection.
    Connected(bool),
    /// The events up to the announcements of the globals were dispatched, or not, and why not.
    GlobalsDispatched(Result<(), String>),
    /// Whether a roundtrip to the compositor succeeded.
    Roundtripped(bool),
    /// The data device was initialized, or not.
    DeviceInitialized(Result<(), ListenError>),
}

/// A step of [`WlClipboardListener::init`].
pub enum InitAction {
    /// Connect to the compositor.
    Connect,
    /// Ask for the registry, wait for events and dispatch them.
    DispatchGlobals,
    /// Do a roundtrip, dispatching what comes.
    Roundtrip,
    /// Run [`WlClipboardListener::initialize_data_device`] to its end.
    InitializeDevice,
    /// The listener is ready for messages.
    Finish,
    /// Give up.
    Fail(ListenError),
}

/// What a step of reading the connection once came to.
pub enum CycleEvent {
    /// So many events that were already there were dispatched.
    Dispatched(Result<usize, BackendFailure>),
    /// The requests were flushed.
    Flushed(Result<(), BackendFailure>),
    /// So many bytes were read; none where another reader is at it.
    Read(Option<Result<usize, BackendFailure>>),
    /// So many events that were read were dispatched.
    Redispatched(Result<usize, BackendFailure>),
}

/// A step of reading the connection once.
pub enum CycleAction {
    Flush,
    Read,
    /// Dispatch the events that were read.
    Redispatch,
    /// The outcome: how many events were dispatched.
    Finish(Result<usize, BackendFailure>),
}

/// What a step of [`WlClipboardListener::wait_for_initial_selection`] came to.
pub enum WaitEvent {
    /// Whether the exit flag is raised, and the nanoseconds since the wait began.
    Checked { exit: bool, elapsed: u128 },
    /// The connection was read: so many events were dispatched.
    Dispatched(Result<usize, BackendFailure>),
    /// The pause is over.
    Paused,
}

/// A step of [`WlClipboardListener::wait_for_initial_selection`].
pub enum WaitAction {
    /// Look at the exit flag and the clock.
    Check,
    /// Read the connection once.
    Dispatch,
    /// Pause for so many milliseconds.
    Pause(u64),
    /// The existing selection was announced.
    Ready,
    /// Give up.
    Fail(ListenError),
}

/// What a step of [`WlClipboardListener::initialize_data_device`] came to.
pub enum DeviceInitEvent {
    /// The device is to be initialized.
    Started,
    /// The device was created.
    Created,
    /// Whether the exit flag is raised, and the nanoseconds since the wait began.
    Checked { exit: bool, elapsed: u128 },
    /// A step of reading the connection was taken.
    Cycle(CycleEvent),
    /// The pause is over.
    Paused,
}

/// A step of [`WlClipboardListener::initialize_data_device`].
pub enum DeviceInitAction {
    /// Create this device from the manager for the seat.
    Create(DataControlDevice),
    /// Look at the exit flag and the clock.
    Check,
    /// Dispatch the events that are already there.
    Dispatch,
    Flush,
    Read,
    /// Dispatch the events that were read.
    Redispatch,
    /// Pause for so many milliseconds.
    Pause(u64),
    /// The existing selection was announced.
    Ready,
    /// Give up.
    Fail(ListenError),
}

/// The step of reading the connection that follows. Events that are already there end it, and a
/// full send buffer does not, so that the compositor can make progress.
pub open spec fn cycle_action(event: CycleEvent) -> CycleAction {
    match event {
        CycleEvent::Dispatched(Ok(count)) if count == 0 => CycleAction::Flush,
        CycleEvent::Dispatched(outcome) => CycleAction::Finish(outcome),
        CycleEvent::Flushed(Err(failure)) if failure.cause != FailureCause::WouldBlock =>
            CycleAction::Finish(Err(failure)),
        CycleEvent::Flushed(_) => CycleAction::Read,
        CycleEvent::Read(Some(Err(failure))) => CycleAction::Finish(Err(failure)),
        CycleEvent::Read(_) => CycleAction::Redispatch,
        CycleEvent::Redispatched(outcome) => CycleAction::Finish(outcome),
    }
}

/// The step that follows an attempt to read the connection: look again at once after progress,
/// pause where there was none, and give up on a failure.
pub open spec fn retry_action(outcome: Result<usize, BackendFailure>) -> WaitAction {
    match outcome {
        Ok(count) if count > 0 => WaitAction::Check,
        Ok(_) => WaitAction::Pause(INITIALIZATION_RETRY_INTERVAL),
        Err(failure) if failure.cause == FailureCause::WouldBlock => WaitAction::Pause(
            INITIALIZATION_RETRY_INTERVAL,
        ),
        Err(failure) => WaitAction::Fail(ListenError::Backend(failure)),
    }
}

/// A step of waiting, as a step of the initialization that it is part of.
pub open spec fn waiting(action: WaitAction) -> DeviceInitAction {
    match action {
        WaitAction::Check => DeviceInitAction::Check,
        WaitAction::Dispatch => DeviceInitAction::Dispatch,
        WaitAction::Pause(millis) => DeviceInitAction::Pause(millis),
        WaitAction::Ready => DeviceInitAction::Ready,
        WaitAction::Fail(error) => DeviceInitAction::Fail(error),
    }
}

impl ListenerState {
    /// The step of `init` that follows the announcements: learn the name of the seat, where it
    /// is told, then initialize the device.
    pub open spec fn naming_action(self) -> InitAction {
        if self.seat_name_supported && self.seat_name is None {
            InitAction::Roundtrip
        } else {
            InitAction::InitializeDevice
        }
    }

    /// The step of `init` that follows.
    pub open spec fn init_action(self, event: InitEvent) -> InitAction {
        match event {
            InitEvent::Started => InitAction::Connect,
            InitEvent::Connected(true) => InitAction::DispatchGlobals,
            InitEvent::Connected(false) => InitAction::Fail(ListenError::Connect),
            InitEvent::GlobalsDispatched(Err(cause)) => InitAction::Fail(
                ListenError::InitialDispatch(cause),
            ),
            InitEvent::GlobalsDispatched(Ok(())) => if self.ready() {
                self.naming_action()
            } else {
                InitAction::Fail(ListenError::GlobalsMissing)
            },
            InitEvent::Roundtripped(true) => self.naming_action(),
            InitEvent::Roundtripped(false) => InitAction::Fail(ListenError::Roundtrip),
            InitEvent::DeviceInitialized(Ok(())) => InitAction::Finish,
            InitEvent::DeviceInitialized(Err(error)) => InitAction::Fail(error),
        }
    }

    /// The state after a step of `init`: only success changes it.
    pub open spec fn after_init(self, event: InitEvent) -> ListenerState {
        match event {
            InitEvent::DeviceInitialized(Ok(())) => ListenerState { queue_attached: true, ..self },
            _ => self,
        }
    }

    /// The step of the wait that follows. A finished device comes before the exit flag, the exit
    /// flag before success, and success before the end of the time.
    pub open spec fn wait_action(self, event: WaitEvent) -> WaitAction {
        match event {
            WaitEvent::Checked { exit, elapsed } => match self.terminated_reason {
                Some(protocol) => WaitAction::Fail(ListenError::DeviceFinished(protocol)),
                None => if exit {
                    WaitAction::Fail(ListenError::Cancelled)
                } else if self.selection_received {
                    WaitAction::Ready
                } else if elapsed >= INITIALIZATION_TIMEOUT {
                    WaitAction::Fail(ListenError::TimedOut)
                } else {
                    WaitAction::Dispatch
                },
            },
            WaitEvent::Dispatched(outcome) => retry_action(outcome),
            WaitEvent::Paused => WaitAction::Check,
        }
    }

    /// The state after a step of the wait: a finished device is reported once.
    pub open spec fn after_wait(self, event: WaitEvent) -> ListenerState {
        match event {
            WaitEvent::Checked { .. } => ListenerState { terminated_reason: None, ..self },
            _ => self,
        }
    }

    /// The step of the initialization of the device that follows.
    pub open spec fn device_init_action(self, event: DeviceInitEvent) -> DeviceInitAction {
        match event {
            DeviceInitEvent::Started => if self.ready() {
                DeviceInitAction::Create(self.with_device().data_device->0)
            } else {
                DeviceInitAction::Check
            },
            DeviceInitEvent::Created => DeviceInitAction::Check,
            DeviceInitEvent::Checked { exit, elapsed } => waiting(
                self.wait_action(WaitEvent::Checked { exit, elapsed }),
            ),
            DeviceInitEvent::Cycle(step) => match cycle_action(step) {
                CycleAction::Flush => DeviceInitAction::Flush,
                CycleAction::Read => DeviceInitAction::Read,
                CycleAction::Redispatch => DeviceInitAction::Redispatch,
                CycleAction::Finish(outcome) => waiting(retry_action(outcome)),
            },
            DeviceInitEvent::Paused => DeviceInitAction::Check,
        }
    }

    /// The state after a step of the initialization of the device.
    pub open spec fn after_device_init(self, event: DeviceInitEvent) -> ListenerState {
        match event {
            DeviceInitEvent::Started => self.with_device(),
            DeviceInitEvent::Checked { exit, elapsed } => self.after_wait(
                WaitEvent::Checked { exit, elapsed },
            ),
            _ => self,
        }
    }
}

/// Takes a step of reading the connection once.
pub fn read_cycle(event: CycleEvent) -> (action: CycleAction)
    ensures
        action == cycle_action(event),
{
    match event {
        CycleEvent::Dispatched(outcome) => match outcome {
            Ok(count) => {
                if count > 0 {
                    CycleAction::Finish(Ok(count))
                } else {
                    CycleAction::Flush
                }
            },
            Err(failure) => CycleAction::Finish(Err(failure)),
        },
        CycleEvent::Flushed(outcome) => match outcome {
            Ok(()) => CycleAction::Read,
            Err(failure) => {
                // Keep reading when the send buffer is full so the compositor can progress.
                if matches!(failure.cause, FailureCause::WouldBlock) {
                    CycleAction::Read
                } else {
                    CycleAction::Finish(Err(failure))
                }
            },
        },
        CycleEvent::Read(outcome) => match outcome {
            Some(Err(failure)) => CycleAction::Finish(Err(failure)),
            _ => CycleAction::Redispatch,
        },
        CycleEvent::Redispatched(outcome) => CycleAction::Finish(outcome),
    }
}

impl WlClipboardListener {
    /// Takes a step of the initialization of the listener.
    pub fn init(&mut self, event: InitEvent) -> (action: InitAction)
        ensures
            action == old(self)@.init_action(event),
            final(self)@ == old(self)@.after_init(event),
            final(self).exit_flag == old(self).exit_flag,
    {
        match event {
            InitEvent::Started => InitAction::Connect,
            InitEvent::Connected(connected) => {
                if connected {
                    InitAction::DispatchGlobals
                } else {
                    InitAction::Fail(ListenError::Connect)
                }
            },
            InitEvent::GlobalsDispatched(outcome) => match outcome {
                Ok(()) => {
                    if self.device_ready() {
                        self.after_announcements()
                    } else {
                        InitAction::Fail(ListenError::GlobalsMissing)
                    }
                },
                Err(cause) => InitAction::Fail(ListenError::InitialDispatch(cause)),
            },
            InitEvent::Roundtripped(succeeded) => {
                if succeeded {
                    self.after_announcements()
                } else {
                    InitAction::Fail(ListenError::Roundtrip)
                }
            },
            InitEvent::DeviceInitialized(outcome) => match outcome {
                Ok(()) => {
                    self.queue_attached = true;
                    InitAction::Finish
                },
                Err(error) => InitAction::Fail(error),
            },
        }
    }

    fn after_announcements(&self) -> (action: InitAction)
        ensures
            action == self@.naming_action(),
    {
        if self.seat_name_supported && self.seat_name.is_none() {
            InitAction::Roundtrip
        } else {
            InitAction::InitializeDevice
        }
    }

    /// Takes a step of the initialization of the data device.
    pub fn initialize_data_device(&mut self, event: DeviceInitEvent) -> (action: DeviceInitAction)
        ensures
            action == old(self)@.device_init_action(event),
            final(self)@ == old(self)@.after_device_init(event),
            final(self).exit_flag == old(self).exit_flag,
    {
        let waited = match event {
            DeviceInitEvent::Started => {
                return match self.set_data_device() {
                    Some(device) => DeviceInitAction::Create(device),
                    None => DeviceInitAction::Check,
                };
            },
            DeviceInitEvent::Created => {
                return DeviceInitAction::Check;
            },
            DeviceInitEvent::Checked { exit, elapsed } => self.wait_for_initial_selection(
                WaitEvent::Checked { exit, elapsed },
            ),
            DeviceInitEvent::Cycle(step) => match read_cycle(step) {
                CycleAction::Flush => {
                    return DeviceInitAction::Flush;
                },
                CycleAction::Read => {
                    return DeviceInitAction::Read;
                },
                CycleAction::Redispatch => {
                    return DeviceInitAction::Redispatch;
                },
                CycleAction::Finish(outcome) => self.wait_for_initial_selection(
                    WaitEvent::Dispatched(outcome),
                ),
            },
            DeviceInitEvent::Paused => self.wait_for_initial_selection(WaitEvent::Paused),
        };
        match waited {
            WaitAction::Check => DeviceInitAction::Check,
            WaitAction::Dispatch => DeviceInitAction::Dispatch,
            WaitAction::Pause(millis) => DeviceInitAction::Pause(millis),
            WaitAction::Ready => DeviceInitAction::Ready,
            WaitAction::Fail(error) => DeviceInitAction::Fail(error),
        }
    }

    /// Takes a step of waiting for the selection that exists at startup.
    pub fn wait_for_initial_selection(&mut self, event: WaitEvent) -> (action: WaitAction)
        ensures
            action == old(self)@.wait_action(event),
            final(self)@ == old(self)@.after_wait(event),
            final(self).exit_flag == old(self).exit_flag,
    {
        match event {
            WaitEvent::Checked { exit, elapsed } => {
                if let Some(protocol) = self.terminated_reason.take() {
                    WaitAction::Fail(ListenError::DeviceFinished(protocol))
                } else if exit {
                    WaitAction::Fail(ListenError::Cancelled)
                } else if self.selection_received {
                    WaitAction::Ready
                } else if elapsed >= INITIALIZATION_TIMEOUT {
                    WaitAction::Fail(ListenError::TimedOut)
                } else {
                    WaitAction::Dispatch
                }
            },
            WaitEvent::Dispatched(outcome) => match outcome {
                Ok(count) => {
                    if count > 0 {
                        WaitAction::Check
                    } else {
                        WaitAction::Pause(INITIALIZATION_RETRY_INTERVAL)
                    }
                },
                Err(failure) => {
                    if !matches!(failure.cause, FailureCause::WouldBlock) {
                        WaitAction::Fail(ListenError::Backend(failure))
                    } else {
                        WaitAction::Pause(INITIALIZATION_RETRY_INTERVAL)
                    }
                },
            },
            WaitEvent::Paused => WaitAction::Check,
        }
    }

    /// Looks at the exit flag, `elapsed` nanoseconds after the wait for the selection began: the
    /// event tells what the load of it gave. Other threads raise the flag at any time, so either
    /// reading of it is possible.
    pub fn check_initialization(&self, elapsed: u128) -> (event: DeviceInitEvent)
        ensures
            exists|exit: bool|
                #[trigger] call_ensures(
                    AtomicBool::load,
                    (&*self.exit_flag, Ordering::Relaxed),
                    exit,
                ) && event == (DeviceInitEvent::Checked { exit, elapsed }),
    {
        DeviceInitEvent::Checked { exit: self.exit_flag.load(Ordering::Relaxed), elapsed }
    }
}

} // verus!
