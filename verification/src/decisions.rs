//! What each decision of a listener comes to, told from the outcome: which inputs lead to it, and
//! what it leaves unchanged.

use crate::error::{BackendFailure, ErrorKind, FailureCause, ListenError};
use crate::globals;
use crate::globals::{BoundGlobal, GlobalKind};
use crate::handler::CallbackResult;
use crate::listener;
use crate::listener::{
    Bind, DataControlDevice, DataControlManager, DeviceEvent, ListenerState, OfferEvent, Protocol,
    RegistryEvent, Release, SeatEvent, WlClipboardListener,
};
use crate::messages::{ClipBoardListenMessage, MessageAction, MessageEvent, MessageStep};
use crate::startup;
use crate::startup::{
    CycleAction, CycleEvent, DeviceInitAction, DeviceInitEvent, InitAction, InitEvent, WaitAction,
    WaitEvent,
};
use vstd::prelude::*;

verus! {

/// Whether this is the announcement of a global of the interface with this name.
pub open spec fn announced(event: RegistryEvent, name: Seq<char>) -> bool {
    event matches RegistryEvent::Global { interface, .. } && interface@ == name
}

/// Whether a global is bound as it was announced: under its own number, and at the highest
/// version that is neither above the announced one nor above `limit`.
pub open spec fn bound_as_announced(bound: BoundGlobal, event: RegistryEvent, limit: u32) -> bool {
    event matches RegistryEvent::Global { name, version, .. } && {
        &&& bound.name == name
        &&& bound.version <= version
        &&& bound.version <= limit
        &&& bound.version == version || bound.version == limit
    }
}

/// Whether an operation failed for another reason than that it would have had to block.
pub open spec fn broken<T>(outcome: Result<T, BackendFailure>) -> bool {
    outcome matches Err(failure) && !(failure.cause is WouldBlock)
}

/// Whether an operation failed because it would have had to block.
pub open spec fn blocked<T>(outcome: Result<T, BackendFailure>) -> bool {
    outcome matches Err(failure) && failure.cause is WouldBlock
}

/// The state of a listener holds each of its fields as it is.
pub proof fn law_state_holds_every_field(listener: WlClipboardListener)
    ensures
        listener@.seat == listener.seat,
        listener@.seat_name is Some <==> listener.seat_name is Some,
        listener.seat_name matches Some(name) ==> listener@.seat_name == Some(name@),
        listener@.seat_name_supported == listener.seat_name_supported,
        listener@.data_manager == listener.data_manager,
        listener@.data_device == listener.data_device,
        listener@.terminated_reason == listener.terminated_reason,
        listener@.mime_types.len() == listener.mime_types@.len(),
        forall|i: int|
            0 <= i < listener.mime_types@.len() ==> #[trigger] listener@.mime_types[i]
                == listener.mime_types@[i]@,
        listener@.queue_attached == listener.queue_attached,
        listener@.copied == listener.copied,
        listener@.selection_received == listener.selection_received,
        listener@.initial_selection == listener.initial_selection,
{
}

/// What a message says is what it holds.
pub proof fn law_notice_holds_every_field(message: ClipBoardListenMessage)
    ensures
        message@.is_initial == message.is_initial,
        message@.mime_types.len() == message._mime_types@.len(),
        forall|i: int|
            0 <= i < message._mime_types@.len() ==> #[trigger] message@.mime_types[i]
                == message._mime_types@[i]@,
{
}

/// A step of `get_message` is told apart from every other one, with all that it carries.
pub proof fn law_steps_are_told_apart(action: MessageAction)
    ensures
        action@ is Lock <==> action is Lock,
        action@ is Check <==> action is Check,
        action@ is Flush <==> action is Flush,
        action@ is PrepareRead <==> action is PrepareRead,
        action@ is Read <==> action is Read,
        action@ is Dispatch <==> action is Dispatch,
        action@ is Pause <==> action is Pause,
        action@ is Deliver <==> action is Deliver,
        action@ is Fail <==> action is Fail,
        action matches MessageAction::Pause(millis) ==> action@ == MessageStep::Pause(millis),
        action matches MessageAction::Deliver(message) ==> action@ == MessageStep::Deliver(
            message@,
        ),
        action matches MessageAction::Fail(error) ==> action@ == MessageStep::Fail(error),
{
}

/// Whether a device can be created depends on the seat and the manager alone, and needs both.
pub proof fn law_ready_needs_seat_and_manager(state: ListenerState)
    ensures
        state.ready() <==> state.seat is Some && state.data_manager is Some,
{
}

/// Of a registry event the global that is told to be bound is the one that the state records,
/// under the announced number and at a version that both sides speak. A seat is bound exactly
/// where the first one is announced, an ext manager wherever one is, and a zwlr manager exactly
/// where no ext manager is bound. Nothing else of the state changes.
pub proof fn law_bound_global_is_recorded(state: ListenerState, event: RegistryEvent)
    ensures
        ({
            let after = state.after_registry(event);
            let ext_bound = state.data_manager matches Some(DataControlManager::Ext(_));
            &&& (state.binding(event) matches Some(Bind::Seat(_))) <==> announced(event, "wl_seat"@)
                && state.seat is None
            &&& (state.binding(event) matches Some(Bind::Manager(DataControlManager::Ext(_))))
                <==> announced(event, "ext_data_control_manager_v1"@)
            &&& (state.binding(event) matches Some(Bind::Manager(DataControlManager::Zwlr(_))))
                <==> announced(event, "zwlr_data_control_manager_v1"@) && !ext_bound
            &&& match state.binding(event) {
                Some(Bind::Seat(bound)) => {
                    &&& bound_as_announced(bound, event, 11)
                    &&& after.seat == Some(bound)
                    &&& after.seat_name_supported <==> event->version >= 2
                    &&& after.data_manager == state.data_manager
                },
                Some(Bind::Manager(manager)) => {
                    &&& manager matches DataControlManager::Ext(bound) ==> bound_as_announced(
                        bound,
                        event,
                        1,
                    )
                    &&& manager matches DataControlManager::Zwlr(bound) ==> bound_as_announced(
                        bound,
                        event,
                        2,
                    )
                    &&& after.data_manager == Some(manager)
                    &&& after.seat == state.seat
                    &&& after.seat_name_supported == state.seat_name_supported
                },
                None => after == state,
            }
            &&& after == (ListenerState {
                seat: after.seat,
                seat_name_supported: after.seat_name_supported,
                data_manager: after.data_manager,
                ..state
            })
        }),
{
    globals::law_names_tell_kinds_apart("wl_seat"@, GlobalKind::Seat);
    globals::law_names_tell_kinds_apart(
        "ext_data_control_manager_v1"@,
        GlobalKind::ExtManager,
    );
    globals::law_names_tell_kinds_apart(
        "zwlr_data_control_manager_v1"@,
        GlobalKind::ZwlrManager,
    );
}

/// Binding is settled by what is announced and by what is bound: a listener that differs in
/// nothing else binds the same.
pub proof fn law_binding_looks_at_bound_globals_only(
    one: ListenerState,
    other: ListenerState,
    event: RegistryEvent,
)
    requires
        one.seat is Some <==> other.seat is Some,
        (one.data_manager matches Some(DataControlManager::Ext(_))) <==> (other.data_manager matches
            Some(DataControlManager::Ext(_))),
    ensures
        one.binding(event) == other.binding(event),
{
}

/// A seat event changes the name of the seat alone: to the name that it tells, if it tells one.
pub proof fn law_seat_is_named_as_told(state: ListenerState, event: SeatEvent)
    ensures
        event matches SeatEvent::Name(name) ==> state.after_seat(event).seat_name == Some(name@),
        event is Other ==> state.after_seat(event).seat_name == state.seat_name,
        state.after_seat(event) == (ListenerState {
            seat_name: state.after_seat(event).seat_name,
            ..state
        }),
{
}

/// A message becomes due exactly by a selection with an offer, and no device event undoes that. A
/// selection, with an offer or not, is the initial one exactly where it is the first. A device is
/// lost, and remembered as finished, exactly where it finishes.
pub proof fn law_device_events_change_one_thing_each(
    state: ListenerState,
    protocol: Protocol,
    event: DeviceEvent,
)
    ensures
        ({
            let after = state.after_device(protocol, event);
            &&& after.copied <==> state.copied || event == (DeviceEvent::Selection { offer: true })
            &&& after.selection_received <==> state.selection_received || event is Selection
            &&& event is Selection ==> after.initial_selection != state.selection_received
            &&& !(event is Selection) ==> after.initial_selection == state.initial_selection
            &&& event is Finished ==> after.data_device is None && after.terminated_reason == Some(
                protocol,
            )
            &&& !(event is Finished) ==> after.data_device == state.data_device
                && after.terminated_reason == state.terminated_reason
            &&& after == (ListenerState {
                copied: after.copied,
                selection_received: after.selection_received,
                initial_selection: after.initial_selection,
                data_device: after.data_device,
                terminated_reason: after.terminated_reason,
                ..state
            })
        }),
{
}

/// Of two selections in a row the second is a live change, whatever came before, and a message is
/// due after them where one of them has an offer.
pub proof fn law_second_selection_is_a_change(
    state: ListenerState,
    protocol: Protocol,
    first: bool,
    second: bool,
)
    ensures
        ({
            let once = state.after_device(protocol, DeviceEvent::Selection { offer: first });
            let twice = once.after_device(protocol, DeviceEvent::Selection { offer: second });
            &&& once.selection_received && twice.selection_received
            &&& !twice.initial_selection
            &&& first || second ==> twice.copied
            &&& !first && !second ==> twice.copied == state.copied
        }),
{
}

/// An offer is destroyed exactly where one comes with a selection, primary or not. A device is
/// destroyed exactly where it finishes and the listener still holds one of its protocol.
pub proof fn law_what_is_released(state: ListenerState, protocol: Protocol, event: DeviceEvent)
    ensures
        state.release(protocol, event) is Offer <==> event == (DeviceEvent::Selection {
            offer: true,
        }) || event == (DeviceEvent::PrimarySelection { offer: true }),
        state.release(protocol, event) is Device <==> event is Finished && (protocol is Ext
            && state.data_device == Some(DataControlDevice::Ext) || protocol is Zwlr
            && state.data_device == Some(DataControlDevice::Zwlr)),
{
}

/// An offer event changes the pending types alone: the type that it tells comes behind them, if it
/// tells one.
pub proof fn law_offered_type_comes_last(state: ListenerState, event: OfferEvent)
    ensures
        event matches OfferEvent::Offer(mime_type) ==> {
            let after = state.after_offer(event).mime_types;
            &&& after.len() == state.mime_types.len() + 1
            &&& after.last() == mime_type@
            &&& after.drop_last() == state.mime_types
        },
        event is Other ==> state.after_offer(event).mime_types == state.mime_types,
        state.after_offer(event) == (ListenerState {
            mime_types: state.after_offer(event).mime_types,
            ..state
        }),
{
    if let OfferEvent::Offer(mime_type) = event {
        assert(state.after_offer(event).mime_types.drop_last() =~= state.mime_types);
    }
}

/// The device that is created speaks the protocol of the manager, whatever else the listener
/// knows. Without a seat or a manager the device stays as it was. Nothing else changes.
pub proof fn law_device_speaks_protocol_of_manager(state: ListenerState)
    ensures
        state.seat is Some && (state.data_manager matches Some(DataControlManager::Ext(_)))
            ==> state.with_device().data_device == Some(DataControlDevice::Ext),
        state.seat is Some && (state.data_manager matches Some(DataControlManager::Zwlr(_)))
            ==> state.with_device().data_device == Some(DataControlDevice::Zwlr),
        state.seat is None || state.data_manager is None ==> state.with_device() == state,
        state.with_device() == (ListenerState {
            data_device: state.with_device().data_device,
            ..state
        }),
{
}

/// Where a seat and a manager are bound, of either protocol, initialization goes on after the
/// announcements, first to the name of the seat where one is told and not known yet. It fails for
/// missing globals exactly where one of the two is not bound. Every other failure has its own
/// cause.
pub proof fn law_init_outcomes(state: ListenerState, event: InitEvent)
    ensures
        ({
            let action = state.init_action(event);
            let bound = state.seat is Some && state.data_manager is Some;
            let unnamed = state.seat_name_supported && state.seat_name is None;
            let dispatched = event matches InitEvent::GlobalsDispatched(Ok(_));
            let goes_on = dispatched && bound || event == InitEvent::Roundtripped(true);
            &&& action is Connect <==> event is Started
            &&& action is DispatchGlobals <==> event == InitEvent::Connected(true)
            &&& action is Roundtrip <==> goes_on && unnamed
            &&& action is InitializeDevice <==> goes_on && !unnamed
            &&& action is Finish <==> (event matches InitEvent::DeviceInitialized(Ok(_)))
            &&& event matches InitEvent::DeviceInitialized(Err(error)) ==> action
                == InitAction::Fail(error)
            &&& !(event is DeviceInitialized) ==> {
                &&& action == InitAction::Fail(ListenError::Connect) <==> event
                    == InitEvent::Connected(false)
                &&& action == InitAction::Fail(ListenError::GlobalsMissing) <==> dispatched
                    && !bound
                &&& action == InitAction::Fail(ListenError::Roundtrip) <==> event
                    == InitEvent::Roundtripped(false)
            }
            &&& event matches InitEvent::GlobalsDispatched(Err(cause)) ==> action
                == InitAction::Fail(ListenError::InitialDispatch(cause))
        }),
{
}

/// The listener is ready for messages exactly from the success of its initialization on, and
/// initialization changes nothing else.
pub proof fn law_init_attaches_queue(state: ListenerState, event: InitEvent)
    ensures
        state.after_init(event).queue_attached <==> state.queue_attached || (event matches
            InitEvent::DeviceInitialized(Ok(_))),
        state.after_init(event) == (ListenerState {
            queue_attached: state.after_init(event).queue_attached,
            ..state
        }),
{
}

/// Reading the connection once flushes exactly where no event was there, reads exactly where the
/// requests were flushed as far as the send buffer takes them, dispatches again exactly where the
/// read did not fail, and otherwise ends with the outcome of its last step.
pub proof fn law_cycle_outcomes(event: CycleEvent)
    ensures
        ({
            let action = startup::cycle_action(event);
            &&& action is Flush <==> event == CycleEvent::Dispatched(Ok(0))
            &&& action is Read <==> (event matches CycleEvent::Flushed(outcome) && !broken(outcome))
            &&& action is Redispatch <==> (event is Read && !(event matches CycleEvent::Read(
                Some(Err(_)),
            )))
            &&& event matches CycleEvent::Dispatched(outcome) ==> outcome != Ok::<
                usize,
                BackendFailure,
            >(0) ==> action == CycleAction::Finish(outcome)
            &&& event matches CycleEvent::Flushed(Err(failure)) ==> !(failure.cause is WouldBlock)
                ==> action == CycleAction::Finish(Err(failure))
            &&& event matches CycleEvent::Read(Some(Err(failure))) ==> action
                == CycleAction::Finish(Err(failure))
            &&& event matches CycleEvent::Redispatched(outcome) ==> action == CycleAction::Finish(
                outcome,
            )
        }),
{
}

/// A look during the wait for the existing selection succeeds exactly where the selection was
/// announced, at whatever time, and neither the device finished nor the flag is raised. It times
/// out exactly where there is no selection and five seconds are over.
pub proof fn law_wait_look_outcomes(state: ListenerState, exit: bool, elapsed: u128)
    ensures
        ({
            let action = state.wait_action(WaitEvent::Checked { exit, elapsed });
            let alive = state.terminated_reason is None;
            let waiting = alive && !exit && !state.selection_received;
            &&& action is Ready <==> alive && !exit && state.selection_received
            &&& action is Dispatch <==> waiting && elapsed < 5_000_000_000
            &&& action == WaitAction::Fail(ListenError::TimedOut) <==> waiting && elapsed
                >= 5_000_000_000
            &&& action == WaitAction::Fail(ListenError::Cancelled) <==> alive && exit
            &&& state.terminated_reason matches Some(protocol) ==> action == WaitAction::Fail(
                ListenError::DeviceFinished(protocol),
            )
        }),
{
}

/// Once the selection was announced, the time does not matter: two looks at different times come
/// to the same.
pub proof fn law_time_matters_only_without_selection(
    state: ListenerState,
    exit: bool,
    early: u128,
    late: u128,
)
    requires
        state.selection_received,
    ensures
        state.wait_action(WaitEvent::Checked { exit, elapsed: early }) == state.wait_action(
            WaitEvent::Checked { exit, elapsed: late },
        ),
        state.device_init_action(DeviceInitEvent::Checked { exit, elapsed: early })
            == state.device_init_action(DeviceInitEvent::Checked { exit, elapsed: late }),
{
}

/// After progress the wait looks again at once. Without progress it pauses for thirty
/// milliseconds, and then looks again. It gives up on a failure, and on no other outcome.
pub proof fn law_wait_retry_outcomes(state: ListenerState, outcome: Result<usize, BackendFailure>)
    ensures
        ({
            let action = state.wait_action(WaitEvent::Dispatched(outcome));
            &&& action is Check <==> (outcome matches Ok(count) && count > 0)
            &&& action is Pause <==> outcome == Ok::<usize, BackendFailure>(0) || blocked(outcome)
            &&& action matches WaitAction::Pause(millis) ==> millis == 30
            &&& outcome matches Err(failure) ==> !(failure.cause is WouldBlock) ==> action
                == WaitAction::Fail(ListenError::Backend(failure))
            &&& state.wait_action(WaitEvent::Paused) is Check
        }),
{
}

/// The wait changes nothing but that a look forgets a finished device.
pub proof fn law_wait_forgets_finish_only(state: ListenerState, event: WaitEvent)
    ensures
        event is Checked ==> state.after_wait(event).terminated_reason is None,
        !(event is Checked) ==> state.after_wait(event).terminated_reason
            == state.terminated_reason,
        state.after_wait(event) == (ListenerState {
            terminated_reason: state.after_wait(event).terminated_reason,
            ..state
        }),
{
}

/// The initialization of the device begins with the device of the bound manager, and with a look
/// where none can be created.
pub proof fn law_device_init_creates_device_of_manager(state: ListenerState)
    ensures
        ({
            let action = state.device_init_action(DeviceInitEvent::Started);
            let after = state.after_device_init(DeviceInitEvent::Started);
            &&& action == DeviceInitAction::Create(DataControlDevice::Ext) <==> state.seat is Some
                && (state.data_manager matches Some(DataControlManager::Ext(_)))
            &&& action == DeviceInitAction::Create(DataControlDevice::Zwlr) <==> state.seat is Some
                && (state.data_manager matches Some(DataControlManager::Zwlr(_)))
            &&& action is Create || action is Check
            &&& action matches DeviceInitAction::Create(device) ==> after.data_device == Some(
                device,
            )
            &&& action is Check ==> after.data_device == state.data_device
            &&& after == (ListenerState { data_device: after.data_device, ..state })
        }),
{
}

/// A look during the initialization of the device succeeds exactly where the existing selection
/// was announced, at whatever time, and neither the device finished nor the flag is raised. It
/// times out exactly where there is no selection and five seconds are over. It changes nothing but
/// that a finished device is forgotten.
pub proof fn law_device_init_look_outcomes(state: ListenerState, exit: bool, elapsed: u128)
    ensures
        ({
            let look = DeviceInitEvent::Checked { exit, elapsed };
            let action = state.device_init_action(look);
            let alive = state.terminated_reason is None;
            let waiting = alive && !exit && !state.selection_received;
            &&& action is Ready <==> alive && !exit && state.selection_received
            &&& action is Dispatch <==> waiting && elapsed < 5_000_000_000
            &&& action == DeviceInitAction::Fail(ListenError::TimedOut) <==> waiting && elapsed
                >= 5_000_000_000
            &&& action == DeviceInitAction::Fail(ListenError::Cancelled) <==> alive && exit
            &&& state.terminated_reason matches Some(protocol) ==> action == DeviceInitAction::Fail(
                ListenError::DeviceFinished(protocol),
            )
            &&& state.after_device_init(look) == (ListenerState {
                terminated_reason: None,
                ..state
            })
        }),
{
}

/// Between two looks the initialization of the device reads the connection once: it flushes where
/// no event was there, reads where the requests were flushed as far as possible, dispatches what
/// was read, pauses for thirty milliseconds where there was nothing, and gives up on a failure.
/// None of this changes the state.
pub proof fn law_device_init_cycle_outcomes(state: ListenerState, step: CycleEvent)
    ensures
        ({
            let event = DeviceInitEvent::Cycle(step);
            let action = state.device_init_action(event);
            &&& action is Flush <==> step == CycleEvent::Dispatched(Ok(0))
            &&& action is Read <==> (step matches CycleEvent::Flushed(outcome) && !broken(outcome))
            &&& action is Redispatch <==> (step is Read && !(step matches CycleEvent::Read(
                Some(Err(_)),
            )))
            &&& action is Check <==> (step matches CycleEvent::Dispatched(Ok(count)) && count > 0)
                || (step matches CycleEvent::Redispatched(Ok(count)) && count > 0)
            &&& action is Pause <==> {
                ||| step == CycleEvent::Redispatched(Ok(0))
                ||| step matches CycleEvent::Dispatched(outcome) && blocked(outcome)
                ||| step matches CycleEvent::Read(Some(outcome)) && blocked(outcome)
                ||| step matches CycleEvent::Redispatched(outcome) && blocked(outcome)
            }
            &&& action matches DeviceInitAction::Pause(millis) ==> millis == 30
            &&& step matches CycleEvent::Dispatched(Err(failure)) ==> !(failure.cause is WouldBlock)
                ==> action == DeviceInitAction::Fail(ListenError::Backend(failure))
            &&& step matches CycleEvent::Flushed(Err(failure)) ==> !(failure.cause is WouldBlock)
                ==> action == DeviceInitAction::Fail(ListenError::Backend(failure))
            &&& step matches CycleEvent::Read(Some(Err(failure))) ==> !(failure.cause is WouldBlock)
                ==> action == DeviceInitAction::Fail(ListenError::Backend(failure))
            &&& step matches CycleEvent::Redispatched(Err(failure)) ==> !(failure.cause is WouldBlock)
                ==> action == DeviceInitAction::Fail(ListenError::Backend(failure))
            &&& action matches DeviceInitAction::Fail(error) ==> error is Backend
            &&& state.after_device_init(event) == state
        }),
{
}

/// After the device was created, and after every pause, comes a look, and the state stays.
pub proof fn law_device_init_looks_again(state: ListenerState)
    ensures
        state.device_init_action(DeviceInitEvent::Created) is Check,
        state.device_init_action(DeviceInitEvent::Paused) is Check,
        state.after_device_init(DeviceInitEvent::Created) == state,
        state.after_device_init(DeviceInitEvent::Paused) == state,
{
}

/// A call for a message begins with the lock of the queue wherever there is one, whatever else the
/// listener knows: it fails for a missing queue exactly where initialization left none.
pub proof fn law_call_begins_with_lock(state: ListenerState)
    ensures
        state.message_step(MessageEvent::Started) is Lock <==> state.queue_attached,
        state.message_step(MessageEvent::Started) == MessageStep::Fail(ListenError::QueueMissing)
            <==> !state.queue_attached,
        state.after_message(MessageEvent::Started) == state,
{
}

/// A look during a call delivers a message exactly where one is due and neither the device
/// finished nor the flag is raised; the message holds all pending types, and says whether the
/// latest selection is the initial one. Where nothing stands against it and no message is due the
/// wait goes on.
pub proof fn law_message_look_outcomes(state: ListenerState, exit: bool)
    ensures
        ({
            let look = MessageEvent::Checked { exit };
            let step = state.message_step(look);
            let after = state.after_message(look);
            let alive = state.terminated_reason is None;
            &&& step is Deliver <==> alive && !exit && state.copied
            &&& step is Flush <==> alive && !exit && !state.copied
            &&& step == MessageStep::Fail(ListenError::Exit) <==> alive && exit
            &&& state.terminated_reason matches Some(protocol) ==> step == MessageStep::Fail(
                ListenError::DeviceFinished(protocol),
            )
            &&& step matches MessageStep::Deliver(notice) ==> {
                &&& notice.mime_types == state.mime_types
                &&& notice.is_initial == state.initial_selection
                &&& !after.copied
                &&& after.mime_types.len() == 0
            }
            &&& !(step is Deliver) ==> after.copied == state.copied && after.mime_types
                == state.mime_types
            &&& after.terminated_reason is None
            &&& after == (ListenerState {
                copied: after.copied,
                mime_types: after.mime_types,
                terminated_reason: None,
                ..state
            })
        }),
{
}

/// Once the queue is locked and after every pause comes a look; flushing leads to the read, a read
/// that brought something to its dispatch, and one that brought nothing to a pause of thirty
/// milliseconds.
pub proof fn law_message_waiting_outcomes(state: ListenerState, event: MessageEvent)
    requires
        !(event is Started) && !(event is Checked),
    ensures
        ({
            let step = state.message_step(event);
            let dispatched = event matches MessageEvent::Dispatched(Ok(_));
            &&& step is Check <==> event is Paused || (event matches MessageEvent::Locked(Ok(_)))
                || dispatched && state.terminated_reason is None
            &&& step is PrepareRead <==> (event matches MessageEvent::Flushed(Ok(_)))
            &&& step is Read <==> event == MessageEvent::Prepared(true)
            &&& step is Dispatch <==> (event matches MessageEvent::Read(Ok(count)) && count > 0)
            &&& step is Pause <==> event == MessageEvent::Read(Ok(0)) || (event matches
                MessageEvent::Read(outcome) && blocked(outcome))
            &&& step matches MessageStep::Pause(millis) ==> millis == 30
            &&& !(step is Deliver)
        }),
{
}

/// Each failure of a call outside its looks has its own cause, and tells it.
pub proof fn law_message_failure_outcomes(state: ListenerState, event: MessageEvent)
    requires
        !(event is Started) && !(event is Checked),
    ensures
        ({
            let step = state.message_step(event);
            &&& step is Fail <==> {
                ||| event matches MessageEvent::Locked(Err(_))
                ||| event matches MessageEvent::Flushed(Err(_))
                ||| event == MessageEvent::Prepared(false)
                ||| event matches MessageEvent::Read(outcome) && broken(outcome)
                ||| event matches MessageEvent::Dispatched(Err(_))
                ||| event is Dispatched && state.terminated_reason is Some
            }
            &&& event matches MessageEvent::Locked(Err(cause)) ==> step == MessageStep::Fail(
                ListenError::Lock(cause),
            )
            &&& event matches MessageEvent::Flushed(Err(cause)) ==> step == MessageStep::Fail(
                ListenError::Flush(cause),
            )
            &&& event == MessageEvent::Prepared(false) ==> step == MessageStep::Fail(
                ListenError::PrepareRead,
            )
            &&& event matches MessageEvent::Read(Err(failure)) ==> !(failure.cause is WouldBlock)
                ==> step == MessageStep::Fail(ListenError::Read(failure.message))
            &&& event matches MessageEvent::Dispatched(Err(cause)) ==> step == MessageStep::Fail(
                ListenError::DispatchPending(cause),
            )
            &&& event matches MessageEvent::Dispatched(Ok(_)) ==> (state.terminated_reason matches
                Some(protocol) ==> step == MessageStep::Fail(ListenError::DeviceFinished(protocol)))
        }),
{
}

/// Outside its looks a call changes nothing but that a finished device is forgotten once events
/// were dispatched.
pub proof fn law_message_waiting_keeps_state(state: ListenerState, event: MessageEvent)
    requires
        !(event is Checked),
    ensures
        event matches MessageEvent::Dispatched(Ok(_)) ==> state.after_message(event) == (
        ListenerState { terminated_reason: None, ..state }),
        !(event matches MessageEvent::Dispatched(Ok(_))) ==> state.after_message(event) == state,
{
}

/// An error is interrupted exactly where initialization was cancelled, timed out exactly where the
/// time was over, and has the kind of the I/O error where a failed operation is one.
pub proof fn law_error_kinds(error: ListenError)
    ensures
        error.spec_kind() is Interrupted <==> error is Cancelled,
        error.spec_kind() is TimedOut <==> error is TimedOut,
        error.spec_kind() is WouldBlock <==> (error matches ListenError::Backend(failure)
            && failure.cause is WouldBlock),
        error.spec_kind() is Io <==> (error matches ListenError::Backend(failure)
            && failure.cause is Io),
        error matches ListenError::Backend(failure) ==> (failure.cause matches FailureCause::Io(kind)
            ==> error.spec_kind() == ErrorKind::Io(kind)),
        error matches ListenError::Backend(failure) ==> (failure.cause is Protocol
            || failure.cause is BadMessage ==> error.spec_kind() is Other),
{
}

/// The text of an error that has a cause begins with what failed and ends with the whole cause.
pub proof fn law_text_tells_cause(error: ListenError)
    ensures
        error matches ListenError::InitialDispatch(cause) ==> error.text()
            == "Inital dispatch failed: "@ + cause@,
        error matches ListenError::Lock(cause) ==> error.text() == "Cannot lock queue: "@ + cause@,
        error matches ListenError::Flush(cause) ==> error.text() == "Flush failed: "@ + cause@,
        error matches ListenError::DispatchPending(cause) ==> error.text()
            == "Dispatch pending failed: "@ + cause@,
        error matches ListenError::Read(cause) ==> error.text() == "Read failed: "@ + cause@,
        error matches ListenError::Backend(failure) ==> error.text() == failure.message@,
{
}

/// The text of an error without a cause says what happened, and of a finished device which
/// protocol it spoke.
pub proof fn law_text_tells_what_happened(error: ListenError)
    ensures
        error is Connect ==> error.text() == "Cannot connect to wayland server, is it running?"@,
        error is GlobalsMissing ==> error.text()
            == "Cannot get seat and data manager (neither ext_data_control_v1 nor zwlr_data_control_v1 available)"@,
        error is Roundtrip ==> error.text() == "Cannot roundtrip during init"@,
        error == ListenError::DeviceFinished(Protocol::Ext) ==> error.text()
            == "Wayland ext_data_control_v1 device finished"@,
        error == ListenError::DeviceFinished(Protocol::Zwlr) ==> error.text()
            == "Wayland zwlr_data_control_v1 device finished"@,
        error is Cancelled ==> error.text() == "Data device initialization cancelled"@,
        error is TimedOut ==> error.text()
            == "Timed out waiting for the initial Wayland clipboard selection"@,
        error is QueueMissing ==> error.text() == "Event queue not initialized"@,
        error is Exit ==> error.text() == "Exit signal received, exiting"@,
        error is PrepareRead ==> error.text() == "Prepare read failed"@,
{
}

/// The handling of messages goes on exactly after `Next`, ends well exactly after `Stop`, and ends
/// with an error exactly where the callback propagates that error.
pub proof fn law_callback_result_decides(result: CallbackResult)
    ensures
        result.ending() is None <==> result is Next,
        (result.ending() matches Some(Ok(_))) <==> result is Stop,
        (result.ending() matches Some(Err(_))) <==> result is StopWithError,
        result matches CallbackResult::StopWithError(error) ==> result.ending() == Some(
            Err::<(), std::io::Error>(error),
        ),
{
}

/// The version at which a global is bound is the highest one that neither side exceeds.
pub proof fn law_common_version_is_highest(advertised: u32, supported: u32, other: u32)
    ensures
        globals::common_version(advertised, supported) <= advertised,
        globals::common_version(advertised, supported) <= supported,
        other <= advertised && other <= supported ==> other <= globals::common_version(
            advertised,
            supported,
        ),
{
}

/// The texts of a list of strings are theirs, one by one.
pub proof fn law_texts_are_told_one_by_one(strings: Seq<String>)
    ensures
        listener::texts(strings).len() == strings.len(),
        forall|i: int|
            0 <= i < strings.len() ==> #[trigger] listener::texts(strings)[i] == strings[i]@,
{
}

} // verus!
