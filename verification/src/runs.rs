//! What holds of the runs of initialization and of waiting for a message.

use crate::decisions;
use crate::error::{ErrorKind, FailureCause, ListenError};
use crate::history;
use crate::history::Happening;
use crate::listener::{DeviceEvent, ListenerState};
use crate::messages::{MessageEvent, MessageStep};
use crate::startup::{
    CycleEvent, DeviceInitAction, DeviceInitEvent, InitAction, InitEvent,
    INITIALIZATION_RETRY_INTERVAL, INITIALIZATION_TIMEOUT,
};
use vstd::prelude::*;

verus! {

impl InitAction {
    /// Whether an event tells what this step came to.
    pub open spec fn answered_by(self, event: InitEvent) -> bool {
        match self {
            InitAction::Connect => event is Connected,
            InitAction::DispatchGlobals => event is GlobalsDispatched,
            InitAction::Roundtrip => event is Roundtripped,
            InitAction::InitializeDevice => event is DeviceInitialized,
            InitAction::Finish | InitAction::Fail(_) => false,
        }
    }
}

impl DeviceInitAction {
    /// Whether an event tells what this step came to.
    pub open spec fn answered_by(self, event: DeviceInitEvent) -> bool {
        match self {
            DeviceInitAction::Create(_) => event is Created,
            DeviceInitAction::Check => event is Checked,
            DeviceInitAction::Dispatch => event matches DeviceInitEvent::Cycle(
                CycleEvent::Dispatched(_),
            ),
            DeviceInitAction::Flush => event matches DeviceInitEvent::Cycle(CycleEvent::Flushed(_)),
            DeviceInitAction::Read => event matches DeviceInitEvent::Cycle(CycleEvent::Read(_)),
            DeviceInitAction::Redispatch => event matches DeviceInitEvent::Cycle(
                CycleEvent::Redispatched(_),
            ),
            DeviceInitAction::Pause(_) => event is Paused,
            DeviceInitAction::Ready | DeviceInitAction::Fail(_) => false,
        }
    }

    /// At most so many steps are taken before the exit flag and the clock are looked at, or
    /// before the end.
    pub open spec fn steps_to_check(self) -> nat {
        match self {
            DeviceInitAction::Dispatch => 5,
            DeviceInitAction::Flush => 4,
            DeviceInitAction::Read => 3,
            DeviceInitAction::Redispatch => 2,
            DeviceInitAction::Pause(_) | DeviceInitAction::Create(_) => 1,
            _ => 0,
        }
    }
}

impl MessageStep {
    /// Whether an event tells what this step came to.
    pub open spec fn answered_by(self, event: MessageEvent) -> bool {
        match self {
            MessageStep::Lock => event is Locked,
            MessageStep::Check => event is Checked,
            MessageStep::Flush => event is Flushed,
            MessageStep::PrepareRead => event is Prepared,
            MessageStep::Read => event is Read,
            MessageStep::Dispatch => event is Dispatched,
            MessageStep::Pause(_) => event is Paused,
            MessageStep::Deliver(_) | MessageStep::Fail(_) => false,
        }
    }

    /// At most so many steps are taken before the exit flag is looked at, or before the end.
    pub open spec fn steps_to_check(self) -> nat {
        match self {
            MessageStep::Flush => 4,
            MessageStep::PrepareRead => 3,
            MessageStep::Read => 2,
            MessageStep::Dispatch | MessageStep::Pause(_) | MessageStep::Lock => 1,
            _ => 0,
        }
    }
}

/// A listener that is being initialized.
pub struct Startup {
    pub state: ListenerState,
    /// The step that is due.
    pub init: InitAction,
    /// The step of the initialization of the device that is due, once that began.
    pub device: Option<DeviceInitAction>,
}

impl Startup {
    /// Initialization as it begins.
    pub open spec fn begin() -> Startup {
        Startup {
            state: ListenerState::fresh(),
            init: ListenerState::fresh().init_action(InitEvent::Started),
            device: None,
        }
    }

    /// Whether this can happen now: protocol events can at any time, and the outcome of a step
    /// where that step is due. The outcome of the initialization of the device is what its last
    /// step says.
    pub open spec fn admits(self, happening: Happening) -> bool {
        match happening {
            Happening::Registry(_)
            | Happening::Seat(_)
            | Happening::Device(_, _)
            | Happening::Offer(_) => true,
            Happening::Init(event) => self.init.answered_by(event) && match event {
                InitEvent::DeviceInitialized(Ok(())) => self.device == Some(
                    DeviceInitAction::Ready,
                ),
                InitEvent::DeviceInitialized(Err(error)) => self.device == Some(
                    DeviceInitAction::Fail(error),
                ),
                _ => true,
            },
            Happening::DeviceInit(event) => self.init is InitializeDevice && match self.device {
                None => event is Started,
                Some(action) => action.answered_by(event),
            },
            Happening::Wait(_) | Happening::Message(_) | Happening::SetDevice => false,
        }
    }

    /// Initialization after a happening.
    pub open spec fn step(self, happening: Happening) -> Startup {
        Startup {
            state: self.state.step(happening),
            init: match happening {
                Happening::Init(event) => self.state.init_action(event),
                _ => self.init,
            },
            device: match happening {
                Happening::DeviceInit(event) => Some(self.state.device_init_action(event)),
                _ => self.device,
            },
        }
    }

    /// What holds of every initialization.
    pub open spec fn well_formed(self) -> bool {
        &&& self.init is Roundtrip || self.init is InitializeDevice || self.init is Finish
            ==> self.state.ready()
        &&& self.init is InitializeDevice || self.init is Finish
            ==> self.state.seat_name_supported ==> self.state.seat_name is Some
        &&& self.device is Some ==> self.init is InitializeDevice || self.init is Finish
            || self.init is Fail
        &&& self.device is Some ==> self.state.ready()
        &&& self.device matches Some(action) ==> {
            ||| action is Fail
            ||| self.state.data_device is Some
            ||| self.state.terminated_reason is Some
        }
        &&& self.device == Some(DeviceInitAction::Ready) ==> self.state.selection_received
        &&& self.init is Finish ==> self.device == Some(DeviceInitAction::Ready)
        &&& self.state.queue_attached <==> self.init is Finish
    }
}

/// Initialization after all of this happened.
pub open spec fn startup(happenings: Seq<Happening>) -> Startup
    decreases happenings.len(),
{
    if happenings.len() == 0 {
        Startup::begin()
    } else {
        startup(happenings.drop_last()).step(happenings.last())
    }
}

/// Whether all of this can happen during initialization, in this order.
pub open spec fn is_startup(happenings: Seq<Happening>) -> bool
    decreases happenings.len(),
{
    happenings.len() == 0 || {
        &&& is_startup(happenings.drop_last())
        &&& startup(happenings.drop_last()).admits(happenings.last())
    }
}

/// What holds of every initialization is kept by whatever can happen.
proof fn lemma_startup_step(startup: Startup, happening: Happening)
    requires
        startup.well_formed(),
        startup.admits(happening),
    ensures
        startup.step(happening).well_formed(),
{
}

/// What holds of every initialization holds of each one that can happen.
proof fn lemma_startup_well_formed(happenings: Seq<Happening>)
    requires
        is_startup(happenings),
    ensures
        startup(happenings).well_formed(),
        startup(happenings).state == history::after(happenings),
    decreases happenings.len(),
{
    if happenings.len() > 0 {
        lemma_startup_well_formed(happenings.drop_last());
        lemma_startup_step(startup(happenings.drop_last()), happenings.last());
    }
}

/// Initialization succeeds only with a seat and a manager bound, with the name of the seat known
/// where the compositor tells it, with the existing selection announced, and with a device,
/// unless it is known that the device finished since.
pub proof fn law_initialization_ends_ready(happenings: Seq<Happening>)
    requires
        is_startup(happenings),
        startup(happenings).init is Finish,
    ensures
        startup(happenings).state == history::after(happenings),
        history::after(happenings).ready(),
        history::after(happenings).seat_name_supported ==> history::after(happenings).seat_name
            is Some,
        history::selections(happenings) > 0,
        history::after(happenings).data_device is Some || history::after(
            happenings,
        ).terminated_reason is Some,
        history::after(happenings).queue_attached,
{
    lemma_startup_well_formed(happenings);
    history::law_only_first_selection_is_initial(happenings);
}

/// Initialization that succeeds right after its last look, with nothing heard in between, ends
/// with a device and with no finished device to report.
pub proof fn law_initialization_ends_with_device(happenings: Seq<Happening>)
    requires
        is_startup(happenings),
        happenings.len() >= 2,
        happenings.last() == Happening::Init(InitEvent::DeviceInitialized(Ok(()))),
        happenings[happenings.len() - 2] matches Happening::DeviceInit(
            DeviceInitEvent::Checked { .. },
        ),
    ensures
        startup(happenings).init is Finish,
        history::after(happenings).data_device is Some,
        history::after(happenings).terminated_reason is None,
{
    let looked = happenings.drop_last();
    let before = looked.drop_last();
    assert(looked.last() == happenings[happenings.len() - 2]);
    assert(is_startup(looked));
    lemma_startup_well_formed(before);
    lemma_startup_well_formed(happenings);
}

/// A compositor that never announces a selection cannot establish readiness.
pub proof fn law_silent_peer_is_never_ready(happenings: Seq<Happening>)
    requires
        is_startup(happenings),
        history::selections(happenings) == 0,
    ensures
        startup(happenings).device != Some(DeviceInitAction::Ready),
        !(startup(happenings).init is Finish),
{
    lemma_startup_well_formed(happenings);
    history::law_only_first_selection_is_initial(happenings);
}

/// Until initialization succeeded there are no messages: asking for one fails.
pub proof fn law_no_message_before_initialization(happenings: Seq<Happening>)
    requires
        is_startup(happenings),
        !(startup(happenings).init is Finish),
    ensures
        history::after(happenings).message_step(MessageEvent::Started) == MessageStep::Fail(
            ListenError::QueueMissing,
        ),
{
    lemma_startup_well_formed(happenings);
}

/// The initialization of the device looks at the exit flag and the clock again after at most
/// five steps: every step but that look brings it nearer.
pub proof fn law_initialization_keeps_checking(
    state: ListenerState,
    action: DeviceInitAction,
    event: DeviceInitEvent,
)
    requires
        action.answered_by(event),
        !(action is Check),
    ensures
        state.device_init_action(event).steps_to_check() < action.steps_to_check() <= 5,
{
}

/// The connection is read only right after the requests were flushed, as far as the send buffer
/// takes them, and they are flushed only where no event was there to be dispatched.
pub proof fn law_requests_are_flushed_before_reading(state: ListenerState, event: DeviceInitEvent)
    ensures
        state.device_init_action(event) is Read ==> (event matches DeviceInitEvent::Cycle(
            CycleEvent::Flushed(outcome),
        ) && (outcome matches Err(failure) ==> failure.cause == FailureCause::WouldBlock)),
        state.device_init_action(event) is Flush <==> event == DeviceInitEvent::Cycle(
            CycleEvent::Dispatched(Ok(0)),
        ),
{
}

/// Once the time is over, or the exit flag is raised, the next look ends the initialization of
/// the device. With the flag raised it fails, and where the device did not finish the error says
/// that it was interrupted. With the time over and no selection it fails, and where neither the
/// device finished nor the flag is raised the error says that it timed out.
pub proof fn law_initialization_is_bounded(state: ListenerState, exit: bool, elapsed: u128)
    requires
        exit || elapsed >= INITIALIZATION_TIMEOUT,
    ensures
        ({
            let action = state.device_init_action(DeviceInitEvent::Checked { exit, elapsed });
            &&& action is Ready || action is Fail
            &&& exit || !state.selection_received ==> action is Fail
            &&& state.terminated_reason is None && exit ==> (action->Fail_0).spec_kind()
                == ErrorKind::Interrupted
            &&& state.terminated_reason is None && !exit && !state.selection_received ==> (
            action->Fail_0).spec_kind() == ErrorKind::TimedOut
            &&& state.terminated_reason is None && !exit && state.selection_received
                ==> action is Ready
        }),
{
}

/// How many pauses the initialization of the device made.
pub open spec fn pauses(happenings: Seq<Happening>) -> nat
    decreases happenings.len(),
{
    if happenings.len() == 0 {
        0
    } else {
        pauses(happenings.drop_last()) + if happenings.last() == Happening::DeviceInit(
            DeviceInitEvent::Paused,
        ) {
            1nat
        } else {
            0nat
        }
    }
}

/// Whether the clock never shows less time than the pauses took.
pub open spec fn clock_keeps_time(happenings: Seq<Happening>) -> bool
    decreases happenings.len(),
{
    happenings.len() == 0 || {
        &&& clock_keeps_time(happenings.drop_last())
        &&& happenings.last() matches Happening::DeviceInit(
            DeviceInitEvent::Checked { elapsed, .. },
        ) ==> elapsed >= pauses(happenings.drop_last()) * INITIALIZATION_RETRY_INTERVAL * 1_000_000
    }
}

/// Between two looks at the clock there is at most one pause, and none follows a look that finds
/// the time over.
proof fn lemma_pauses(happenings: Seq<Happening>)
    requires
        is_startup(happenings),
        clock_keeps_time(happenings),
    ensures
        pauses(happenings) <= 167,
        startup(happenings).device matches Some(action) && (action is Dispatch || action is Flush
            || action is Read || action is Redispatch || action is Pause) ==> pauses(happenings)
            <= 166,
    decreases happenings.len(),
{
    if happenings.len() > 0 {
        lemma_pauses(happenings.drop_last());
    }
}

/// The initialization of the device pauses no longer than the time it has, and one pause: it
/// ends although the compositor stays silent and the connection open.
pub proof fn law_pauses_fit_into_the_time(happenings: Seq<Happening>)
    requires
        is_startup(happenings),
        clock_keeps_time(happenings),
    ensures
        pauses(happenings) * INITIALIZATION_RETRY_INTERVAL * 1_000_000 < INITIALIZATION_TIMEOUT
            + INITIALIZATION_RETRY_INTERVAL * 1_000_000,
{
    lemma_pauses(happenings);
}

/// Waiting for a message looks at the exit flag again after at most four steps: every step but
/// that look brings it nearer.
pub proof fn law_waiting_keeps_checking(
    state: ListenerState,
    step: MessageStep,
    event: MessageEvent,
)
    requires
        step.answered_by(event),
        !(step is Check),
    ensures
        state.message_step(event).steps_to_check() < step.steps_to_check() <= 4,
{
}

/// Once the exit flag is raised, the next look ends the wait without a message, even where one
/// is due; it stays due.
pub proof fn law_exit_comes_before_messages(state: ListenerState)
    ensures
        state.message_step(MessageEvent::Checked { exit: true }) is Fail,
        state.after_message(MessageEvent::Checked { exit: true }).copied == state.copied,
        state.after_message(MessageEvent::Checked { exit: true }).notice() == state.notice(),
{
}

/// A device that finished is reported at the next look, whatever else is due, and only once.
pub proof fn law_finish_is_reported_once(state: ListenerState, exit: bool, elapsed: u128)
    requires
        state.terminated_reason is Some,
    ensures
        state.message_step(MessageEvent::Checked { exit }) == MessageStep::Fail(
            ListenError::DeviceFinished(state.terminated_reason->0),
        ),
        state.message_step(MessageEvent::Dispatched(Ok(()))) == MessageStep::Fail(
            ListenError::DeviceFinished(state.terminated_reason->0),
        ),
        state.device_init_action(DeviceInitEvent::Checked { exit, elapsed })
            == DeviceInitAction::Fail(ListenError::DeviceFinished(state.terminated_reason->0)),
        state.after_message(MessageEvent::Checked { exit }).terminated_reason is None,
        state.after_message(MessageEvent::Dispatched(Ok(()))).terminated_reason is None,
        state.after_device_init(DeviceInitEvent::Checked { exit, elapsed }).terminated_reason
            is None,
{
}

/// A message that is due when it is asked for, as after an initialization that met the existing
/// selection, is delivered at once: nothing is flushed, read or dispatched before. It is not
/// delivered a second time.
pub proof fn law_due_message_is_delivered_at_once(state: ListenerState)
    requires
        state.queue_attached,
        state.copied,
        state.terminated_reason is None,
    ensures
        ({
            let looked = MessageEvent::Checked { exit: false };
            &&& state.message_step(MessageEvent::Started) == MessageStep::Lock
            &&& state.message_step(MessageEvent::Locked(Ok(()))) == MessageStep::Check
            &&& state.after_message(MessageEvent::Started) == state
            &&& state.after_message(MessageEvent::Locked(Ok(()))) == state
            &&& state.message_step(looked) == MessageStep::Deliver(state.notice())
            &&& state.after_message(looked).message_step(looked) == MessageStep::Flush
        }),
{
}

/// A call of `get_message` that is under way.
pub struct Call {
    pub state: ListenerState,
    /// The step that is due; a message or an error ends the call.
    pub step: MessageStep,
}

impl Call {
    /// A call as it begins.
    pub open spec fn begin(state: ListenerState) -> Call {
        Call {
            state: state.after_message(MessageEvent::Started),
            step: state.message_step(MessageEvent::Started),
        }
    }

    /// Whether the call is over.
    pub open spec fn ended(self) -> bool {
        self.step is Deliver || self.step is Fail
    }

    /// Whether this can happen now: protocol events can until the call is over, and the outcome
    /// of a step where that step is due.
    pub open spec fn admits(self, happening: Happening) -> bool {
        match happening {
            Happening::Registry(_)
            | Happening::Seat(_)
            | Happening::Device(_, _)
            | Happening::Offer(_) => !self.ended(),
            Happening::Message(event) => self.step.answered_by(event),
            _ => false,
        }
    }

    /// The call after a happening.
    pub open spec fn step(self, happening: Happening) -> Call {
        Call {
            state: self.state.step(happening),
            step: match happening {
                Happening::Message(event) => self.state.message_step(event),
                _ => self.step,
            },
        }
    }

    /// What holds of every call in which the compositor brought the listener to `heard`: until
    /// the end nothing else changes the state. A message takes what it tells out of the state,
    /// an error at most the finished device that it names, and its kind is `Other`.
    pub open spec fn accounts_for(self, heard: ListenerState) -> bool {
        match self.step {
            MessageStep::Deliver(notice) => {
                &&& heard.copied
                &&& heard.terminated_reason is None
                &&& notice == heard.notice()
                &&& self.state == (ListenerState {
                    copied: false,
                    mime_types: Seq::empty(),
                    ..heard
                })
            },
            MessageStep::Fail(error) => {
                &&& error.spec_kind() == ErrorKind::Other
                &&& match error {
                    ListenError::DeviceFinished(protocol) => {
                        &&& heard.terminated_reason == Some(protocol)
                        &&& self.state == (ListenerState { terminated_reason: None, ..heard })
                    },
                    _ => self.state == heard,
                }
            },
            _ => self.state == heard,
        }
    }
}

/// The call that began in this state, after all of this happened.
pub open spec fn call(state: ListenerState, happenings: Seq<Happening>) -> Call
    decreases happenings.len(),
{
    if happenings.len() == 0 {
        Call::begin(state)
    } else {
        call(state, happenings.drop_last()).step(happenings.last())
    }
}

/// Whether all of this can happen in a call that began in this state, in this order.
pub open spec fn is_call(state: ListenerState, happenings: Seq<Happening>) -> bool
    decreases happenings.len(),
{
    happenings.len() == 0 || {
        &&& is_call(state, happenings.drop_last())
        &&& call(state, happenings.drop_last()).admits(happenings.last())
    }
}

/// The state to which the compositor alone brought the listener: the steps of the call left out.
pub open spec fn heard(state: ListenerState, happenings: Seq<Happening>) -> ListenerState
    decreases happenings.len(),
{
    if happenings.len() == 0 {
        state
    } else {
        let earlier = heard(state, happenings.drop_last());
        if happenings.last() is Message {
            earlier
        } else {
            earlier.step(happenings.last())
        }
    }
}

/// What holds of every call is kept by whatever can happen.
proof fn lemma_call_step(call: Call, heard: ListenerState, happening: Happening)
    requires
        call.accounts_for(heard),
        call.admits(happening),
    ensures
        call.step(happening).accounts_for(
            if happening is Message {
                heard
            } else {
                heard.step(happening)
            },
        ),
{
}

/// What holds of every call holds of each one that can happen.
proof fn lemma_call(state: ListenerState, happenings: Seq<Happening>)
    requires
        is_call(state, happenings),
    ensures
        call(state, happenings).accounts_for(heard(state, happenings)),
    decreases happenings.len(),
{
    if happenings.len() > 0 {
        let earlier = happenings.drop_last();
        lemma_call(state, earlier);
        lemma_call_step(call(state, earlier), heard(state, earlier), happenings.last());
    }
}

/// What a call hears adds to what is pending and takes nothing away.
proof fn lemma_heard(state: ListenerState, happenings: Seq<Happening>)
    requires
        is_call(state, happenings),
    ensures
        heard(state, happenings).mime_types == state.mime_types + history::offers(happenings),
        heard(state, happenings).copied <==> state.copied || history::copies(happenings) > 0,
        heard(state, happenings).terminated_reason is None <==> state.terminated_reason is None
            && forall|at: int|
            0 <= at < happenings.len() ==> (#[trigger] happenings[at]).finishes() is None,
    decreases happenings.len(),
{
    if happenings.len() > 0 {
        let earlier = happenings.drop_last();
        let last = happenings.len() - 1;
        lemma_heard(state, earlier);
        assert(heard(state, happenings).mime_types =~= state.mime_types + history::offers(
            happenings,
        ));
        assert(forall|at: int| 0 <= at < last ==> #[trigger] happenings[at] == earlier[at]);
        assert(forall|at: int| 0 <= at < last ==> happenings[at] == #[trigger] earlier[at]);
        assert(happenings[last] == happenings.last());
        assert(heard(state, happenings).terminated_reason is None <==> heard(
            state,
            earlier,
        ).terminated_reason is None && happenings.last().finishes() is None);
    } else {
        assert(state.mime_types + history::offers(happenings) =~= state.mime_types);
    }
}

/// A call that fails loses nothing: a message that was due or became due stays due, the types
/// that were pending or were told stay pending, and a finished device stays remembered, unless
/// the error names it.
pub proof fn law_failed_call_loses_nothing(state: ListenerState, happenings: Seq<Happening>)
    requires
        is_call(state, happenings),
        call(state, happenings).step is Fail,
    ensures
        ({
            let end = call(state, happenings).state;
            let error = call(state, happenings).step->Fail_0;
            &&& end.copied <==> state.copied || history::copies(happenings) > 0
            &&& end.mime_types == state.mime_types + history::offers(happenings)
            &&& match error {
                ListenError::DeviceFinished(protocol) => {
                    &&& heard(state, happenings).terminated_reason == Some(protocol)
                    &&& end == (ListenerState {
                        terminated_reason: None,
                        ..heard(state, happenings)
                    })
                },
                _ => end == heard(state, happenings),
            }
        }),
{
    lemma_call(state, happenings);
    lemma_heard(state, happenings);
}

/// A call that delivers a message met no finished device, neither one that was remembered nor
/// one that finished meanwhile. The message was due, and tells all types that were pending or
/// were told.
pub proof fn law_delivering_call_met_no_finish(state: ListenerState, happenings: Seq<Happening>)
    requires
        is_call(state, happenings),
        call(state, happenings).step is Deliver,
    ensures
        state.terminated_reason is None,
        forall|at: int|
            0 <= at < happenings.len() ==> (#[trigger] happenings[at]).finishes() is None,
        state.copied || history::copies(happenings) > 0,
        (call(state, happenings).step->Deliver_0).mime_types == state.mime_types
            + history::offers(happenings),
        !call(state, happenings).state.copied,
        call(state, happenings).state.mime_types == Seq::<Seq<char>>::empty(),
{
    lemma_call(state, happenings);
    lemma_heard(state, happenings);
}

/// Every error of a call has the kind `Other`.
pub proof fn law_errors_of_calls_are_other(state: ListenerState, happenings: Seq<Happening>)
    requires
        is_call(state, happenings),
        call(state, happenings).step is Fail,
    ensures
        (call(state, happenings).step->Fail_0).spec_kind() == ErrorKind::Other,
{
    lemma_call(state, happenings);
}

/// Whether this gives a call a cause to fail: a device finishes, the flag is seen raised, or a step
/// reports an error other than that it would have had to block.
pub open spec fn troubles_call(happening: Happening) -> bool {
    match happening {
        Happening::Device(_, DeviceEvent::Finished) => true,
        Happening::Message(event) => match event {
            MessageEvent::Locked(outcome) => outcome is Err,
            MessageEvent::Checked { exit } => exit,
            MessageEvent::Flushed(outcome) => outcome is Err,
            MessageEvent::Prepared(prepared) => !prepared,
            MessageEvent::Read(outcome) => decisions::broken(outcome),
            MessageEvent::Dispatched(outcome) => outcome is Err,
            MessageEvent::Started | MessageEvent::Paused => false,
        },
        _ => false,
    }
}

/// A call in an initialized listener fails only for a cause: where no step reports an error, no
/// device finished or finishes, and the flag is not raised, it waits or delivers a message.
pub proof fn law_call_fails_only_for_cause(state: ListenerState, happenings: Seq<Happening>)
    requires
        is_call(state, happenings),
        state.queue_attached,
        state.terminated_reason is None,
        forall|at: int|
            0 <= at < happenings.len() ==> !troubles_call(#[trigger] happenings[at]),
    ensures
        !(call(state, happenings).step is Fail),
        call(state, happenings).state.terminated_reason is None,
    decreases happenings.len(),
{
    if happenings.len() > 0 {
        let earlier = happenings.drop_last();
        assert forall|at: int| 0 <= at < earlier.len() implies !troubles_call(
            #[trigger] earlier[at],
        ) by {
            assert(earlier[at] == happenings[at]);
        }
        law_call_fails_only_for_cause(state, earlier);
        assert(!troubles_call(happenings[happenings.len() - 1]));
    }
}

/// Whether this gives an initialization in this state a cause to fail: there is no connection, a
/// global is missing, a device finishes, the flag is seen raised, the time is seen to be over
/// without a selection, or a step reports an error other than that it would have had to block.
pub open spec fn troubles_startup(state: ListenerState, happening: Happening) -> bool {
    match happening {
        Happening::Device(_, DeviceEvent::Finished) => true,
        Happening::Init(event) => match event {
            InitEvent::Connected(connected) => !connected,
            InitEvent::GlobalsDispatched(outcome) => outcome is Err || state.seat is None
                || state.data_manager is None,
            InitEvent::Roundtripped(succeeded) => !succeeded,
            InitEvent::Started | InitEvent::DeviceInitialized(_) => false,
        },
        Happening::DeviceInit(event) => match event {
            DeviceInitEvent::Checked { exit, elapsed } => exit || elapsed >= 5_000_000_000
                && !state.selection_received,
            DeviceInitEvent::Cycle(CycleEvent::Dispatched(outcome)) => decisions::broken(outcome),
            DeviceInitEvent::Cycle(CycleEvent::Flushed(outcome)) => decisions::broken(outcome),
            DeviceInitEvent::Cycle(CycleEvent::Read(Some(outcome))) => decisions::broken(outcome),
            DeviceInitEvent::Cycle(CycleEvent::Redispatched(outcome)) => decisions::broken(outcome),
            _ => false,
        },
        _ => false,
    }
}

/// Whether nothing gave this initialization a cause to fail.
pub open spec fn is_smooth(happenings: Seq<Happening>) -> bool
    decreases happenings.len(),
{
    happenings.len() == 0 || {
        &&& is_smooth(happenings.drop_last())
        &&& !troubles_startup(history::after(happenings.drop_last()), happenings.last())
    }
}

/// Initialization fails only for a cause.
pub proof fn law_startup_fails_only_for_cause(happenings: Seq<Happening>)
    requires
        is_startup(happenings),
        is_smooth(happenings),
    ensures
        !(startup(happenings).init is Fail),
        !(startup(happenings).device matches Some(DeviceInitAction::Fail(_))),
        history::after(happenings).terminated_reason is None,
    decreases happenings.len(),
{
    if happenings.len() > 0 {
        let earlier = happenings.drop_last();
        law_startup_fails_only_for_cause(earlier);
        lemma_startup_well_formed(earlier);
        lemma_startup_well_formed(happenings);
    }
}

} // verus!
