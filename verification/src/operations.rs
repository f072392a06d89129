//! What a caller can rely on of each operation: its arguments, its result and the listener before
//! and after it, told by the fields.

use crate::decisions;
use crate::error::{ErrorKind, FailureCause, ListenError};
use crate::globals::{bind_version, GlobalInterface};
use crate::handler::{notify, settle, settle_startup, CallbackResult, ClipboardHandler};
use crate::listener::{
    Bind, DataControlDevice, DataControlManager, DeviceEvent, OfferEvent, Protocol, RegistryEvent,
    Release, SeatEvent, WlClipboardListener,
};
use crate::messages::{ClipBoardListenMessage, MessageAction, MessageEvent};
use crate::shutdown::Shutdown;
use crate::startup::{
    read_cycle, CycleAction, CycleEvent, DeviceInitAction, DeviceInitEvent, InitAction, InitEvent,
    WaitAction, WaitEvent,
};
use std::sync::atomic::{AtomicBool, Ordering};
use std::sync::Arc;
use vstd::prelude::*;

verus! {

/// Whether two lists of strings read the same.
pub open spec fn same_texts(one: Seq<String>, other: Seq<String>) -> bool {
    &&& one.len() == other.len()
    &&& forall|i: int| 0 <= i < one.len() ==> (#[trigger] one[i])@ == other[i]@
}

/// Whether what is known of the seat and the manager stays.
pub open spec fn keeps_globals(before: WlClipboardListener, after: WlClipboardListener) -> bool {
    &&& after.seat == before.seat
    &&& after.seat_name_supported == before.seat_name_supported
    &&& after.data_manager == before.data_manager
    &&& keeps_name(before, after)
}

/// Whether the name of the seat stays.
pub open spec fn keeps_name(before: WlClipboardListener, after: WlClipboardListener) -> bool {
    match (before.seat_name, after.seat_name) {
        (Some(one), Some(other)) => one@ == other@,
        (None, None) => true,
        _ => false,
    }
}

/// Whether what is known of the device stays.
pub open spec fn keeps_device(before: WlClipboardListener, after: WlClipboardListener) -> bool {
    &&& after.data_device == before.data_device
    &&& after.terminated_reason == before.terminated_reason
}

/// Whether what is known of the selection stays.
pub open spec fn keeps_selection(before: WlClipboardListener, after: WlClipboardListener) -> bool {
    &&& after.copied == before.copied
    &&& after.selection_received == before.selection_received
    &&& after.initial_selection == before.initial_selection
}

/// Whether the pending types stay.
pub open spec fn keeps_types(before: WlClipboardListener, after: WlClipboardListener) -> bool {
    same_texts(before.mime_types@, after.mime_types@)
}

/// Whether the queue and the exit flag stay.
pub open spec fn keeps_links(before: WlClipboardListener, after: WlClipboardListener) -> bool {
    &&& after.queue_attached == before.queue_attached
    &&& after.exit_flag == before.exit_flag
}

/// Texts that are the same as a whole are the same one by one.
proof fn lemma_same_texts(one: Seq<String>, other: Seq<String>)
    requires
        crate::listener::texts(one) == crate::listener::texts(other),
    ensures
        same_texts(one, other),
{
    decisions::law_texts_are_told_one_by_one(one);
    decisions::law_texts_are_told_one_by_one(other);
    assert forall|i: int| 0 <= i < one.len() implies (#[trigger] one[i])@ == other[i]@ by {
        assert(crate::listener::texts(one)[i] == crate::listener::texts(other)[i]);
    }
}

/// A new listener knows nothing, and stops by the flag that it is given.
pub proof fn law_new(exit_flag: Arc<AtomicBool>, listener: WlClipboardListener)
    requires
        call_ensures(WlClipboardListener::new, (exit_flag,), listener),
    ensures
        listener.exit_flag == exit_flag,
        listener.seat is None && listener.seat_name is None && !listener.seat_name_supported,
        listener.data_manager is None && listener.data_device is None,
        listener.terminated_reason is None && listener.mime_types@.len() == 0,
        !listener.queue_attached && !listener.copied,
        !listener.selection_received && !listener.initial_selection,
{
    assert(crate::listener::texts(listener.mime_types@).len() == 0);
}

/// The global that a registry event tells to bind is the one that the listener records: under the
/// announced number, at a version that neither the announcement nor the interface exceeds. The
/// first seat is bound, every ext manager is, and a zwlr manager where no ext manager is bound.
pub proof fn law_registry_event(
    listener: &mut WlClipboardListener,
    event: RegistryEvent,
    bind: Option<Bind>,
)
    requires
        call_ensures(WlClipboardListener::registry_event, (listener, event), bind),
    ensures
        (bind matches Some(Bind::Seat(_))) <==> decisions::announced(event, "wl_seat"@)
            && old(listener).seat is None,
        (bind matches Some(Bind::Manager(DataControlManager::Ext(_)))) <==> decisions::announced(
            event,
            "ext_data_control_manager_v1"@,
        ),
        (bind matches Some(Bind::Manager(DataControlManager::Zwlr(_)))) <==> decisions::announced(
            event,
            "zwlr_data_control_manager_v1"@,
        ) && !(old(listener).data_manager matches Some(DataControlManager::Ext(_))),
        bind matches Some(Bind::Seat(bound)) ==> {
            &&& decisions::bound_as_announced(bound, event, 11)
            &&& final(listener).seat == Some(bound)
            &&& final(listener).seat_name_supported <==> event->version >= 2
        },
        !(bind matches Some(Bind::Seat(_))) ==> final(listener).seat == old(listener).seat
            && final(listener).seat_name_supported == old(listener).seat_name_supported,
        bind matches Some(Bind::Manager(DataControlManager::Ext(bound)))
            ==> decisions::bound_as_announced(bound, event, 1),
        bind matches Some(Bind::Manager(DataControlManager::Zwlr(bound)))
            ==> decisions::bound_as_announced(bound, event, 2),
        bind matches Some(Bind::Manager(manager)) ==> final(listener).data_manager == Some(manager),
        !(bind matches Some(Bind::Manager(_))) ==> final(listener).data_manager
            == old(listener).data_manager,
        keeps_name(*old(listener), *final(listener)),
        keeps_device(*old(listener), *final(listener)),
        keeps_selection(*old(listener), *final(listener)),
        keeps_types(*old(listener), *final(listener)),
        keeps_links(*old(listener), *final(listener)),
{
    decisions::law_bound_global_is_recorded(listener@, event);
    lemma_same_texts(listener.mime_types@, final(listener).mime_types@);
}

/// A seat event names the seat as it tells, and changes nothing else.
pub proof fn law_seat_event(listener: &mut WlClipboardListener, event: SeatEvent)
    requires
        call_ensures(WlClipboardListener::seat_event, (listener, event), ()),
    ensures
        event matches SeatEvent::Name(name) ==> (final(listener).seat_name matches Some(known)
            && known@ == name@),
        event is Other ==> keeps_name(*old(listener), *final(listener)),
        final(listener).seat == old(listener).seat,
        final(listener).seat_name_supported == old(listener).seat_name_supported,
        final(listener).data_manager == old(listener).data_manager,
        keeps_device(*old(listener), *final(listener)),
        keeps_selection(*old(listener), *final(listener)),
        keeps_types(*old(listener), *final(listener)),
        keeps_links(*old(listener), *final(listener)),
{
    lemma_same_texts(listener.mime_types@, final(listener).mime_types@);
}

/// A selection with an offer makes a message due; the first selection, with an offer or not, is
/// the initial one, and every later one is not. A device that finishes is forgotten and
/// remembered as finished. What is destroyed is the offer that came along, or a finished device
/// that the listener held.
pub proof fn law_device_event(
    listener: &mut WlClipboardListener,
    protocol: Protocol,
    event: DeviceEvent,
    release: Release,
)
    requires
        call_ensures(WlClipboardListener::device_event, (listener, protocol, event), release),
    ensures
        release is Offer <==> event == (DeviceEvent::Selection { offer: true }) || event == (
        DeviceEvent::PrimarySelection { offer: true }),
        release is Device <==> event is Finished && (protocol is Ext && old(listener).data_device
            == Some(DataControlDevice::Ext) || protocol is Zwlr && old(listener).data_device == Some(
            DataControlDevice::Zwlr,
        )),
        event is Selection ==> {
            &&& final(listener).selection_received
            &&& final(listener).initial_selection != old(listener).selection_received
            &&& final(listener).copied <==> old(listener).copied || event->Selection_offer
        },
        !(event is Selection) ==> keeps_selection(*old(listener), *final(listener)),
        event is Finished ==> final(listener).data_device is None
            && final(listener).terminated_reason == Some(protocol),
        !(event is Finished) ==> keeps_device(*old(listener), *final(listener)),
        keeps_globals(*old(listener), *final(listener)),
        keeps_types(*old(listener), *final(listener)),
        keeps_links(*old(listener), *final(listener)),
{
    lemma_same_texts(listener.mime_types@, final(listener).mime_types@);
}

/// An offer event puts the type that it tells behind the pending ones, and changes nothing else.
pub proof fn law_offer_event(listener: &mut WlClipboardListener, event: OfferEvent)
    requires
        call_ensures(WlClipboardListener::offer_event, (listener, event), ()),
    ensures
        event is Other ==> keeps_types(*old(listener), *final(listener)),
        event matches OfferEvent::Offer(mime_type) ==> {
            let after = final(listener).mime_types@;
            &&& after.len() == old(listener).mime_types@.len() + 1
            &&& after.last()@ == mime_type@
            &&& same_texts(old(listener).mime_types@, after.drop_last())
        },
        keeps_globals(*old(listener), *final(listener)),
        keeps_device(*old(listener), *final(listener)),
        keeps_selection(*old(listener), *final(listener)),
        keeps_links(*old(listener), *final(listener)),
{
    let after = final(listener).mime_types@;
    match event {
        OfferEvent::Offer(mime_type) => {
            let told = crate::listener::texts(after);
            assert(told == crate::listener::texts(listener.mime_types@).push(mime_type@));
            assert(told.len() == after.len());
            assert(told.last() == after.last()@);
            assert(crate::listener::texts(after.drop_last()) =~= told.drop_last());
            assert(told.drop_last() =~= crate::listener::texts(listener.mime_types@));
            lemma_same_texts(listener.mime_types@, after.drop_last());
        },
        OfferEvent::Other => {
            lemma_same_texts(listener.mime_types@, after);
        },
    }
}

/// A device can be created exactly where a seat and a manager are bound.
pub proof fn law_device_ready(listener: &WlClipboardListener, ready: bool)
    requires
        call_ensures(WlClipboardListener::device_ready, (listener,), ready),
    ensures
        ready <==> listener.seat is Some && listener.data_manager is Some,
{
}

/// With a seat, a device of the protocol of the manager is created and held, whatever else the
/// listener knows. Without a seat or a manager nothing happens.
pub proof fn law_set_data_device(
    listener: &mut WlClipboardListener,
    device: Option<DataControlDevice>,
)
    requires
        call_ensures(WlClipboardListener::set_data_device, (listener,), device),
    ensures
        device == Some(DataControlDevice::Ext) <==> old(listener).seat is Some && (
        old(listener).data_manager matches Some(DataControlManager::Ext(_))),
        device == Some(DataControlDevice::Zwlr) <==> old(listener).seat is Some && (
        old(listener).data_manager matches Some(DataControlManager::Zwlr(_))),
        device is Some ==> final(listener).data_device == device,
        device is None ==> final(listener).data_device == old(listener).data_device,
        final(listener).terminated_reason == old(listener).terminated_reason,
        keeps_globals(*old(listener), *final(listener)),
        keeps_selection(*old(listener), *final(listener)),
        keeps_types(*old(listener), *final(listener)),
        keeps_links(*old(listener), *final(listener)),
{
    lemma_same_texts(listener.mime_types@, final(listener).mime_types@);
}

/// Initialization connects, dispatches the announcements, goes on exactly where a seat and a
/// manager are bound, waits for the name of the seat exactly where one is told and not known yet,
/// and ends well exactly where the device was initialized. Every failure has its own cause.
pub proof fn law_init(listener: &mut WlClipboardListener, event: InitEvent, action: InitAction)
    requires
        call_ensures(WlClipboardListener::init, (listener, event), action),
    ensures
        ({
            let bound = old(listener).seat is Some && old(listener).data_manager is Some;
            let unnamed = old(listener).seat_name_supported && old(listener).seat_name is None;
            let dispatched = event matches InitEvent::GlobalsDispatched(Ok(_));
            let goes_on = dispatched && bound || event == InitEvent::Roundtripped(true);
            &&& action is Connect <==> event is Started
            &&& action is DispatchGlobals <==> event == InitEvent::Connected(true)
            &&& action is Roundtrip <==> goes_on && unnamed
            &&& action is InitializeDevice <==> goes_on && !unnamed
            &&& action is Finish <==> (event matches InitEvent::DeviceInitialized(Ok(_)))
            &&& dispatched && !bound ==> action == InitAction::Fail(ListenError::GlobalsMissing)
            &&& event == InitEvent::Connected(false) ==> action == InitAction::Fail(
                ListenError::Connect,
            )
            &&& event == InitEvent::Roundtripped(false) ==> action == InitAction::Fail(
                ListenError::Roundtrip,
            )
        }),
        event matches InitEvent::GlobalsDispatched(Err(cause)) ==> action == InitAction::Fail(
            ListenError::InitialDispatch(cause),
        ),
        event matches InitEvent::DeviceInitialized(Err(error)) ==> action == InitAction::Fail(error),
        final(listener).queue_attached <==> old(listener).queue_attached || action is Finish,
        final(listener).exit_flag == old(listener).exit_flag,
        keeps_globals(*old(listener), *final(listener)),
        keeps_device(*old(listener), *final(listener)),
        keeps_selection(*old(listener), *final(listener)),
        keeps_types(*old(listener), *final(listener)),
{
    lemma_same_texts(listener.mime_types@, final(listener).mime_types@);
}

/// A look during the wait succeeds exactly where the existing selection was announced, at whatever
/// time, and neither the device finished nor the flag is raised. It times out exactly where there
/// is no selection and five seconds are over. A finished device is reported first, and once.
pub proof fn law_wait_look(
    listener: &mut WlClipboardListener,
    exit: bool,
    elapsed: u128,
    action: WaitAction,
)
    requires
        call_ensures(
            WlClipboardListener::wait_for_initial_selection,
            (listener, (WaitEvent::Checked { exit, elapsed })),
            action,
        ),
    ensures
        ({
            let alive = old(listener).terminated_reason is None;
            let waiting = alive && !exit && !old(listener).selection_received;
            &&& action is Ready <==> alive && !exit && old(listener).selection_received
            &&& action is Dispatch <==> waiting && elapsed < 5_000_000_000
            &&& action == WaitAction::Fail(ListenError::TimedOut) <==> waiting && elapsed
                >= 5_000_000_000
            &&& action == WaitAction::Fail(ListenError::Cancelled) <==> alive && exit
        }),
        old(listener).terminated_reason matches Some(protocol) ==> action == WaitAction::Fail(
            ListenError::DeviceFinished(protocol),
        ),
        final(listener).terminated_reason is None,
        final(listener).data_device == old(listener).data_device,
        keeps_globals(*old(listener), *final(listener)),
        keeps_selection(*old(listener), *final(listener)),
        keeps_types(*old(listener), *final(listener)),
        keeps_links(*old(listener), *final(listener)),
{
    lemma_same_texts(listener.mime_types@, final(listener).mime_types@);
}

/// After progress the wait looks again at once, without progress it pauses for thirty
/// milliseconds, after which it looks again, and it gives up on a failure alone. None of this
/// changes the listener.
pub proof fn law_wait_retry(
    listener: &mut WlClipboardListener,
    event: WaitEvent,
    action: WaitAction,
)
    requires
        call_ensures(WlClipboardListener::wait_for_initial_selection, (listener, event), action),
        !(event is Checked),
    ensures
        action is Check <==> event is Paused || (event matches WaitEvent::Dispatched(Ok(count))
            && count > 0),
        action is Pause <==> event == WaitEvent::Dispatched(Ok(0)) || (event matches
            WaitEvent::Dispatched(outcome) && decisions::blocked(outcome)),
        action matches WaitAction::Pause(millis) ==> millis == 30,
        event matches WaitEvent::Dispatched(Err(failure)) ==> !(failure.cause is WouldBlock)
            ==> action == WaitAction::Fail(ListenError::Backend(failure)),
        keeps_globals(*old(listener), *final(listener)),
        keeps_device(*old(listener), *final(listener)),
        keeps_selection(*old(listener), *final(listener)),
        keeps_types(*old(listener), *final(listener)),
        keeps_links(*old(listener), *final(listener)),
{
    lemma_same_texts(listener.mime_types@, final(listener).mime_types@);
}

/// The initialization of the device begins with the device of the bound manager, and with a look
/// where none can be created.
pub proof fn law_device_init_start(listener: &mut WlClipboardListener, action: DeviceInitAction)
    requires
        call_ensures(
            WlClipboardListener::initialize_data_device,
            (listener, DeviceInitEvent::Started),
            action,
        ),
    ensures
        action == DeviceInitAction::Create(DataControlDevice::Ext) <==> old(listener).seat is Some && (
        old(listener).data_manager matches Some(DataControlManager::Ext(_))),
        action == DeviceInitAction::Create(DataControlDevice::Zwlr) <==> old(listener).seat is Some && (
        old(listener).data_manager matches Some(DataControlManager::Zwlr(_))),
        action is Check <==> old(listener).seat is None || old(listener).data_manager is None,
        action matches DeviceInitAction::Create(device) ==> final(listener).data_device == Some(
            device,
        ),
        action is Check ==> final(listener).data_device == old(listener).data_device,
        final(listener).terminated_reason == old(listener).terminated_reason,
        keeps_globals(*old(listener), *final(listener)),
        keeps_selection(*old(listener), *final(listener)),
        keeps_types(*old(listener), *final(listener)),
        keeps_links(*old(listener), *final(listener)),
{
    lemma_same_texts(listener.mime_types@, final(listener).mime_types@);
}

/// A look during the initialization of the device succeeds exactly where the existing selection
/// was announced, at whatever time, and neither the device finished nor the flag is raised. It
/// times out exactly where there is no selection and five seconds are over.
pub proof fn law_device_init_look(
    listener: &mut WlClipboardListener,
    exit: bool,
    elapsed: u128,
    action: DeviceInitAction,
)
    requires
        call_ensures(
            WlClipboardListener::initialize_data_device,
            (listener, (DeviceInitEvent::Checked { exit, elapsed })),
            action,
        ),
    ensures
        ({
            let alive = old(listener).terminated_reason is None;
            let waiting = alive && !exit && !old(listener).selection_received;
            &&& action is Ready <==> alive && !exit && old(listener).selection_received
            &&& action is Dispatch <==> waiting && elapsed < 5_000_000_000
            &&& action == DeviceInitAction::Fail(ListenError::TimedOut) <==> waiting && elapsed
                >= 5_000_000_000
            &&& action == DeviceInitAction::Fail(ListenError::Cancelled) <==> alive && exit
        }),
        old(listener).terminated_reason matches Some(protocol) ==> action == DeviceInitAction::Fail(
            ListenError::DeviceFinished(protocol),
        ),
        final(listener).terminated_reason is None,
        final(listener).data_device == old(listener).data_device,
        keeps_globals(*old(listener), *final(listener)),
        keeps_selection(*old(listener), *final(listener)),
        keeps_types(*old(listener), *final(listener)),
        keeps_links(*old(listener), *final(listener)),
{
    lemma_same_texts(listener.mime_types@, final(listener).mime_types@);
}

/// Between two looks the initialization of the device reads the connection once, pauses for thirty
/// milliseconds where there was nothing, and gives up on a failure alone. None of this changes the
/// listener.
pub proof fn law_device_init_cycle(
    listener: &mut WlClipboardListener,
    step: CycleEvent,
    action: DeviceInitAction,
)
    requires
        call_ensures(
            WlClipboardListener::initialize_data_device,
            (listener, DeviceInitEvent::Cycle(step)),
            action,
        ),
    ensures
        action is Flush <==> step == CycleEvent::Dispatched(Ok(0)),
        action is Read <==> (step matches CycleEvent::Flushed(outcome) && !decisions::broken(
            outcome,
        )),
        action is Redispatch <==> step is Read && !(step matches CycleEvent::Read(Some(Err(_)))),
        action is Check <==> (step matches CycleEvent::Dispatched(Ok(count)) && count > 0) || (
        step matches CycleEvent::Redispatched(Ok(count)) && count > 0),
        action is Pause <==> {
            ||| step == CycleEvent::Redispatched(Ok(0))
            ||| step matches CycleEvent::Dispatched(outcome) && decisions::blocked(outcome)
            ||| step matches CycleEvent::Read(Some(outcome)) && decisions::blocked(outcome)
            ||| step matches CycleEvent::Redispatched(outcome) && decisions::blocked(outcome)
        },
        action matches DeviceInitAction::Pause(millis) ==> millis == 30,
        step matches CycleEvent::Dispatched(Err(failure)) ==> !(failure.cause is WouldBlock)
            ==> action == DeviceInitAction::Fail(ListenError::Backend(failure)),
        step matches CycleEvent::Flushed(Err(failure)) ==> !(failure.cause is WouldBlock) ==> action
            == DeviceInitAction::Fail(ListenError::Backend(failure)),
        step matches CycleEvent::Read(Some(Err(failure))) ==> !(failure.cause is WouldBlock)
            ==> action == DeviceInitAction::Fail(ListenError::Backend(failure)),
        step matches CycleEvent::Redispatched(Err(failure)) ==> !(failure.cause is WouldBlock)
            ==> action == DeviceInitAction::Fail(ListenError::Backend(failure)),
        keeps_globals(*old(listener), *final(listener)),
        keeps_device(*old(listener), *final(listener)),
        keeps_selection(*old(listener), *final(listener)),
        keeps_types(*old(listener), *final(listener)),
        keeps_links(*old(listener), *final(listener)),
{
    lemma_same_texts(listener.mime_types@, final(listener).mime_types@);
}

/// After the device was created, and after every pause, comes a look, and the listener stays.
pub proof fn law_device_init_looks_again(
    listener: &mut WlClipboardListener,
    event: DeviceInitEvent,
    action: DeviceInitAction,
)
    requires
        call_ensures(WlClipboardListener::initialize_data_device, (listener, event), action),
        event is Created || event is Paused,
    ensures
        action is Check,
        keeps_globals(*old(listener), *final(listener)),
        keeps_device(*old(listener), *final(listener)),
        keeps_selection(*old(listener), *final(listener)),
        keeps_types(*old(listener), *final(listener)),
        keeps_links(*old(listener), *final(listener)),
{
    lemma_same_texts(listener.mime_types@, final(listener).mime_types@);
}

/// Reading the connection once ends with the outcome of its last step.
pub proof fn law_read_cycle(event: CycleEvent, action: CycleAction)
    requires
        call_ensures(read_cycle, (event,), action),
    ensures
        action is Flush <==> event == CycleEvent::Dispatched(Ok(0)),
        action is Read <==> (event matches CycleEvent::Flushed(outcome) && !decisions::broken(
            outcome,
        )),
        action is Redispatch <==> event is Read && !(event matches CycleEvent::Read(Some(Err(_)))),
        action matches CycleAction::Finish(outcome) ==> {
            ||| event == CycleEvent::Dispatched(outcome)
            ||| event == CycleEvent::Redispatched(outcome)
            ||| outcome matches Err(failure) && (event == CycleEvent::Flushed(Err(failure))
                || event == CycleEvent::Read(Some(Err(failure))))
        },
{
}

/// A call for a message begins with the lock of the queue wherever there is one, and fails for a
/// missing queue exactly where there is none. It leaves the listener as it is.
pub proof fn law_message_start(listener: &mut WlClipboardListener, action: MessageAction)
    requires
        call_ensures(WlClipboardListener::get_message, (listener, MessageEvent::Started), action),
    ensures
        action is Lock <==> old(listener).queue_attached,
        action == MessageAction::Fail(ListenError::QueueMissing) <==> !old(listener).queue_attached,
        keeps_globals(*old(listener), *final(listener)),
        keeps_device(*old(listener), *final(listener)),
        keeps_selection(*old(listener), *final(listener)),
        keeps_types(*old(listener), *final(listener)),
        keeps_links(*old(listener), *final(listener)),
{
    decisions::law_steps_are_told_apart(action);
    lemma_same_texts(listener.mime_types@, final(listener).mime_types@);
}

/// A look delivers a message exactly where one is due and neither the device finished nor the flag
/// is raised. The message takes all pending types along, and says whether the latest selection is
/// the initial one. Where no message is delivered, what is due and pending stays.
pub proof fn law_message_look(
    listener: &mut WlClipboardListener,
    exit: bool,
    action: MessageAction,
)
    requires
        call_ensures(
            WlClipboardListener::get_message,
            (listener, (MessageEvent::Checked { exit })),
            action,
        ),
    ensures
        ({
            let alive = old(listener).terminated_reason is None;
            &&& action is Deliver <==> alive && !exit && old(listener).copied
            &&& action is Flush <==> alive && !exit && !old(listener).copied
            &&& action == MessageAction::Fail(ListenError::Exit) <==> alive && exit
        }),
        old(listener).terminated_reason matches Some(protocol) ==> action == MessageAction::Fail(
            ListenError::DeviceFinished(protocol),
        ),
        action matches MessageAction::Deliver(message) ==> {
            &&& same_texts(old(listener).mime_types@, message._mime_types@)
            &&& message.is_initial == old(listener).initial_selection
            &&& !final(listener).copied
            &&& final(listener).mime_types@.len() == 0
        },
        !(action is Deliver) ==> final(listener).copied == old(listener).copied && keeps_types(
            *old(listener),
            *final(listener),
        ),
        final(listener).terminated_reason is None,
        final(listener).data_device == old(listener).data_device,
        final(listener).selection_received == old(listener).selection_received,
        final(listener).initial_selection == old(listener).initial_selection,
        keeps_globals(*old(listener), *final(listener)),
        keeps_links(*old(listener), *final(listener)),
{
    decisions::law_steps_are_told_apart(action);
    match action {
        MessageAction::Deliver(message) => {
            lemma_same_texts(listener.mime_types@, message._mime_types@);
            assert(crate::listener::texts(final(listener).mime_types@).len() == 0);
        },
        _ => {
            lemma_same_texts(listener.mime_types@, final(listener).mime_types@);
        },
    }
}

/// Outside its looks a call locks, flushes, prepares, reads and dispatches in turn, pauses for
/// thirty milliseconds where there was nothing to read, and fails for a reported error or a
/// finished device alone. What is due and pending stays.
pub proof fn law_message_waiting(
    listener: &mut WlClipboardListener,
    event: MessageEvent,
    action: MessageAction,
)
    requires
        call_ensures(WlClipboardListener::get_message, (listener, event), action),
        !(event is Started) && !(event is Checked),
    ensures
        ({
            let dispatched = event matches MessageEvent::Dispatched(Ok(_));
            &&& action is Check <==> event is Paused || (event matches MessageEvent::Locked(Ok(_)))
                || dispatched && old(listener).terminated_reason is None
            &&& action is PrepareRead <==> (event matches MessageEvent::Flushed(Ok(_)))
            &&& action is Read <==> event == MessageEvent::Prepared(true)
            &&& action is Dispatch <==> (event matches MessageEvent::Read(Ok(count)) && count > 0)
            &&& action is Pause <==> event == MessageEvent::Read(Ok(0)) || (event matches
                MessageEvent::Read(outcome) && decisions::blocked(outcome))
            &&& dispatched ==> final(listener).terminated_reason is None
            &&& !dispatched ==> final(listener).terminated_reason == old(listener).terminated_reason
            &&& dispatched ==> (old(listener).terminated_reason matches Some(protocol) ==> action
                == MessageAction::Fail(ListenError::DeviceFinished(protocol)))
        }),
        action matches MessageAction::Pause(millis) ==> millis == 30,
        event matches MessageEvent::Locked(Err(cause)) ==> action == MessageAction::Fail(
            ListenError::Lock(cause),
        ),
        event matches MessageEvent::Flushed(Err(cause)) ==> action == MessageAction::Fail(
            ListenError::Flush(cause),
        ),
        event == MessageEvent::Prepared(false) ==> action == MessageAction::Fail(
            ListenError::PrepareRead,
        ),
        event matches MessageEvent::Read(Err(failure)) ==> !(failure.cause is WouldBlock) ==> action
            == MessageAction::Fail(ListenError::Read(failure.message)),
        event matches MessageEvent::Dispatched(Err(cause)) ==> action == MessageAction::Fail(
            ListenError::DispatchPending(cause),
        ),
        final(listener).data_device == old(listener).data_device,
        keeps_globals(*old(listener), *final(listener)),
        keeps_selection(*old(listener), *final(listener)),
        keeps_types(*old(listener), *final(listener)),
        keeps_links(*old(listener), *final(listener)),
{
    decisions::law_steps_are_told_apart(action);
    lemma_same_texts(listener.mime_types@, final(listener).mime_types@);
}

/// A look at the flag tells what the load of this listener's own flag gave.
pub proof fn law_looks_load_own_flag(
    listener: &WlClipboardListener,
    elapsed: u128,
    message_event: MessageEvent,
    init_event: DeviceInitEvent,
)
    requires
        call_ensures(WlClipboardListener::check_exit, (listener,), message_event),
        call_ensures(
            WlClipboardListener::check_initialization,
            (listener, elapsed),
            init_event,
        ),
    ensures
        message_event matches MessageEvent::Checked { exit } && call_ensures(
            AtomicBool::load,
            (&*listener.exit_flag, Ordering::Relaxed),
            exit,
        ),
        init_event matches DeviceInitEvent::Checked { exit, elapsed: told } && told == elapsed
            && call_ensures(AtomicBool::load, (&*listener.exit_flag, Ordering::Relaxed), exit),
{
}

/// The version at which a global is bound is the highest one that neither side exceeds.
pub proof fn law_bind_version(
    advertised: u32,
    interface: &GlobalInterface,
    version: u32,
    other: u32,
)
    requires
        call_ensures(bind_version, (advertised, interface), version),
    ensures
        version <= advertised && version <= interface.version,
        other <= advertised && other <= interface.version ==> other <= version,
{
}

/// The kind of an error is that of the I/O error where a failed operation is one, interrupted
/// exactly where initialization was cancelled, and timed out exactly where the time was over.
pub proof fn law_kind(error: &ListenError, kind: ErrorKind)
    requires
        call_ensures(ListenError::kind, (error,), kind),
    ensures
        kind is Interrupted <==> error is Cancelled,
        kind is TimedOut <==> error is TimedOut,
        kind is WouldBlock <==> (*error matches ListenError::Backend(failure)
            && failure.cause is WouldBlock),
        kind is Io <==> (*error matches ListenError::Backend(failure) && failure.cause is Io),
        *error matches ListenError::Backend(failure) ==> (failure.cause matches FailureCause::Io(
            reported,
        ) ==> kind == ErrorKind::Io(reported)),
{
}

/// The text of an error that has a cause ends with the whole cause, and what stands before it does
/// not depend on the cause.
pub proof fn law_message_tells_cause(
    one: &ListenError,
    one_text: String,
    other: &ListenError,
    other_text: String,
)
    requires
        call_ensures(ListenError::message, (one,), one_text),
        call_ensures(ListenError::message, (other,), other_text),
    ensures
        cause_of(*one) matches Some(cause) ==> {
            &&& one_text@.len() >= cause.len()
            &&& one_text@.skip(one_text@.len() - cause.len()) == cause
        },
        same_failure(*one, *other) ==> {
            let one_cause = cause_of(*one)->0;
            let other_cause = cause_of(*other)->0;
            one_text@.take(one_text@.len() - one_cause.len()) == other_text@.take(
                other_text@.len() - other_cause.len(),
            )
        },
{
    if let Some(cause) = cause_of(*one) {
        assert(one_text@.skip(one_text@.len() - cause.len()) =~= cause);
        if same_failure(*one, *other) {
            let other_cause = cause_of(*other)->0;
            assert(one_text@.take(one_text@.len() - cause.len()) =~= other_text@.take(
                other_text@.len() - other_cause.len(),
            ));
        }
    }
}

/// The cause that an error carries, if it carries one.
pub open spec fn cause_of(error: ListenError) -> Option<Seq<char>> {
    match error {
        ListenError::InitialDispatch(cause) => Some(cause@),
        ListenError::Backend(failure) => Some(failure.message@),
        ListenError::Lock(cause) => Some(cause@),
        ListenError::Flush(cause) => Some(cause@),
        ListenError::DispatchPending(cause) => Some(cause@),
        ListenError::Read(cause) => Some(cause@),
        _ => None,
    }
}

/// Whether the same thing failed, for whatever causes.
pub open spec fn same_failure(one: ListenError, other: ListenError) -> bool {
    ||| one is InitialDispatch && other is InitialDispatch
    ||| one is Backend && other is Backend
    ||| one is Lock && other is Lock
    ||| one is Flush && other is Flush
    ||| one is DispatchPending && other is DispatchPending
    ||| one is Read && other is Read
}

/// The handling of messages goes on exactly after `Next`, ends well exactly after `Stop`, and ends
/// with an error exactly where the callback propagates that error.
pub proof fn law_conclusion(
    result: CallbackResult,
    conclusion: Option<Result<(), std::io::Error>>,
)
    requires
        call_ensures(CallbackResult::conclusion, (result,), conclusion),
    ensures
        conclusion is None <==> result is Next,
        (conclusion matches Some(Ok(_))) <==> result is Stop,
        result matches CallbackResult::StopWithError(error) ==> conclusion == Some(
            Err::<(), std::io::Error>(error),
        ),
{
}

/// A handler hears of the selection that existed at startup through the callback for it, and of
/// every other one through the callback for changes; the result is that of the callback.
pub proof fn law_notify<H: ClipboardHandler>(
    handler: &mut H,
    message: &ClipBoardListenMessage,
    result: CallbackResult,
)
    requires
        call_ensures(notify::<H>, (handler, message), result),
    ensures
        message.is_initial ==> exists|called: &mut H|
            #![trigger call_ensures(H::on_clipboard_initial_selection, (called,), result)]
            *called == *old(handler) && *final(called) == *final(handler) && call_ensures(
                H::on_clipboard_initial_selection,
                (called,),
                result,
            ),
        !message.is_initial ==> exists|called: &mut H|
            #![trigger call_ensures(H::on_clipboard_change, (called,), result)]
            *called == *old(handler) && *final(called) == *final(handler) && call_ensures(
                H::on_clipboard_change,
                (called,),
                result,
            ),
{
    decisions::law_notice_holds_every_field(*message);
}

/// An error after the flag was raised ends the handling of messages well, and no callback hears of
/// it.
pub proof fn law_settle_after_exit<H: ClipboardHandler>(
    handler: &mut H,
    error: std::io::Error,
    conclusion: Option<Result<(), std::io::Error>>,
)
    requires
        call_ensures(settle::<H>, (handler, Err(error), true), conclusion),
    ensures
        conclusion matches Some(Ok(_)),
        *final(handler) == *old(handler),
{
}

/// What a callback answers to a message decides, whether the flag is raised or not: the handling
/// of messages goes on after `Next`, ends well after `Stop`, and ends with the error that the
/// callback propagates.
pub proof fn law_settle_message<H: ClipboardHandler>(
    handler: &mut H,
    message: ClipBoardListenMessage,
    exit: bool,
    conclusion: Option<Result<(), std::io::Error>>,
)
    requires
        call_ensures(settle::<H>, (handler, Ok(message), exit), conclusion),
    ensures
        message.is_initial ==> exists|called: &mut H, result: CallbackResult|
            #![trigger call_ensures(H::on_clipboard_initial_selection, (called,), result)]
            *called == *old(handler) && *final(called) == *final(handler) && call_ensures(
                H::on_clipboard_initial_selection,
                (called,),
                result,
            ) && concludes(result, conclusion),
        !message.is_initial ==> exists|called: &mut H, result: CallbackResult|
            #![trigger call_ensures(H::on_clipboard_change, (called,), result)]
            *called == *old(handler) && *final(called) == *final(handler) && call_ensures(
                H::on_clipboard_change,
                (called,),
                result,
            ) && concludes(result, conclusion),
{
    decisions::law_notice_holds_every_field(message);
}

/// What a callback answers to an error decides while the flag is not raised.
pub proof fn law_settle_error<H: ClipboardHandler>(
    handler: &mut H,
    error: std::io::Error,
    conclusion: Option<Result<(), std::io::Error>>,
)
    requires
        call_ensures(settle::<H>, (handler, Err(error), false), conclusion),
    ensures
        exists|called: &mut H, result: CallbackResult|
            #![trigger call_ensures(H::on_clipboard_error, (called, error), result)]
            *called == *old(handler) && *final(called) == *final(handler) && call_ensures(
                H::on_clipboard_error,
                (called, error),
                result,
            ) && concludes(result, conclusion),
{
}

/// Whether the handling of messages ends as a callback answered.
pub open spec fn concludes(
    result: CallbackResult,
    conclusion: Option<Result<(), std::io::Error>>,
) -> bool {
    &&& conclusion is None <==> result is Next
    &&& (conclusion matches Some(Ok(_))) <==> result is Stop
    &&& result matches CallbackResult::StopWithError(error) ==> conclusion == Some(
        Err::<(), std::io::Error>(error),
    )
}

/// An initialization that failed is a success exactly where the flag was raised, and else fails
/// with its own error.
pub proof fn law_settle_startup(
    error: std::io::Error,
    exit: bool,
    conclusion: Result<(), std::io::Error>,
)
    requires
        call_ensures(settle_startup, (error, exit), conclusion),
    ensures
        conclusion is Ok <==> exit,
        conclusion matches Err(told) ==> told == error,
{
}

/// A shutdown that is signalled stores `true` in the flag that it was made for.
pub proof fn law_signal(exit_flag: Arc<AtomicBool>, shutdown: Shutdown)
    requires
        call_ensures(Shutdown::new, (exit_flag,), shutdown),
        call_ensures(Shutdown::signal, (shutdown,), ()),
    ensures
        call_ensures(AtomicBool::store, (&*exit_flag, true, Ordering::Relaxed), ()),
{
}

} // verus!
