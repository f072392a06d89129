//! What holds of a listener whatever happens to it, and in whatever order.

use crate::globals;
use crate::globals::{BoundGlobal, GlobalKind, WL_SEAT_NAME_VERSION};
use crate::listener::{
    DataControlManager, DeviceEvent, ListenerState, OfferEvent, Protocol, RegistryEvent, Release,
    SeatEvent,
};
use crate::messages::{MessageEvent, MessageStep, Notice};
use crate::startup::{DeviceInitEvent, InitEvent, WaitEvent};
use vstd::prelude::*;

verus! {

/// Something that a listener is told, or told to do.
pub enum Happening {
    Registry(RegistryEvent),
    Seat(SeatEvent),
    Device(Protocol, DeviceEvent),
    Offer(OfferEvent),
    Init(InitEvent),
    DeviceInit(DeviceInitEvent),
    Wait(WaitEvent),
    Message(MessageEvent),
    /// The data device is set, apart from any initialization.
    SetDevice,
}

impl Happening {
    /// Whether a global of this kind is announced.
    pub open spec fn announces(self, kind: GlobalKind) -> bool {
        self matches Happening::Registry(RegistryEvent::Global { interface, .. })
            && globals::global_kind(interface@) == kind
    }

    /// The number under which a global is announced.
    pub open spec fn announced_name(self) -> u32
        recommends
            self is Registry,
    {
        self->Registry_0->name
    }

    /// The version at which a global is announced.
    pub open spec fn announced_version(self) -> u32
        recommends
            self is Registry,
    {
        self->Registry_0->version
    }

    /// Whether the selection is set, to an offer or to nothing.
    pub open spec fn selects(self) -> bool {
        self matches Happening::Device(_, DeviceEvent::Selection { .. })
    }

    /// Whether the selection is set to an offer.
    pub open spec fn copies(self) -> bool {
        self matches Happening::Device(_, DeviceEvent::Selection { offer: true })
    }

    /// The types that an offer tells: one or none.
    pub open spec fn offered(self) -> Seq<Seq<char>> {
        match self {
            Happening::Offer(OfferEvent::Offer(mime_type)) => seq![mime_type@],
            _ => Seq::empty(),
        }
    }

    /// The protocol of the device that finishes, if one does.
    pub open spec fn finishes(self) -> Option<Protocol> {
        match self {
            Happening::Device(protocol, DeviceEvent::Finished) => Some(protocol),
            _ => None,
        }
    }

    /// Whether the listener looks whether its device finished.
    pub open spec fn looks(self) -> bool {
        match self {
            Happening::DeviceInit(DeviceInitEvent::Checked { .. }) => true,
            Happening::Wait(WaitEvent::Checked { .. }) => true,
            Happening::Message(MessageEvent::Checked { .. }) => true,
            Happening::Message(MessageEvent::Dispatched(Ok(()))) => true,
            _ => false,
        }
    }
}

impl ListenerState {
    /// The state after a happening.
    pub open spec fn step(self, happening: Happening) -> ListenerState {
        match happening {
            Happening::Registry(event) => self.after_registry(event),
            Happening::Seat(event) => self.after_seat(event),
            Happening::Device(protocol, event) => self.after_device(protocol, event),
            Happening::Offer(event) => self.after_offer(event),
            Happening::Init(event) => self.after_init(event),
            Happening::DeviceInit(event) => self.after_device_init(event),
            Happening::Wait(event) => self.after_wait(event),
            Happening::Message(event) => self.after_message(event),
            Happening::SetDevice => self.with_device(),
        }
    }

    /// The message that a happening makes the listener deliver, if any.
    pub open spec fn delivered(self, happening: Happening) -> Option<Notice> {
        match happening {
            Happening::Message(event) => match self.message_step(event) {
                MessageStep::Deliver(notice) => Some(notice),
                _ => None,
            },
            _ => None,
        }
    }
}

/// The state of a listener that began afresh and to which all of this happened.
pub open spec fn after(history: Seq<Happening>) -> ListenerState
    decreases history.len(),
{
    if history.len() == 0 {
        ListenerState::fresh()
    } else {
        after(history.drop_last()).step(history.last())
    }
}

/// The message delivered at a point of the history, if any.
pub open spec fn delivered_at(history: Seq<Happening>, at: int) -> Option<Notice> {
    after(history.take(at)).delivered(history[at])
}

/// The first announcement of a global of this kind.
pub open spec fn first_announcement(history: Seq<Happening>, kind: GlobalKind) -> Option<Happening>
    decreases history.len(),
{
    if history.len() == 0 {
        None
    } else {
        match first_announcement(history.drop_last(), kind) {
            Some(earlier) => Some(earlier),
            None => if history.last().announces(kind) {
                Some(history.last())
            } else {
                None
            },
        }
    }
}

/// The last announcement of a global of this kind.
pub open spec fn last_announcement(history: Seq<Happening>, kind: GlobalKind) -> Option<Happening>
    decreases history.len(),
{
    if history.len() == 0 {
        None
    } else if history.last().announces(kind) {
        Some(history.last())
    } else {
        last_announcement(history.drop_last(), kind)
    }
}

/// An announced global, bound at the highest version that both sides speak.
pub open spec fn bound(announcement: Happening, kind: GlobalKind) -> BoundGlobal {
    BoundGlobal {
        name: announcement.announced_name(),
        version: globals::common_version(
            announcement.announced_version(),
            globals::supported_version(kind),
        ),
    }
}

/// The last name that was told of the seat.
pub open spec fn last_name(history: Seq<Happening>) -> Option<Seq<char>>
    decreases history.len(),
{
    if history.len() == 0 {
        None
    } else {
        match history.last() {
            Happening::Seat(SeatEvent::Name(name)) => Some(name@),
            _ => last_name(history.drop_last()),
        }
    }
}

/// How often the selection was set.
pub open spec fn selections(history: Seq<Happening>) -> nat
    decreases history.len(),
{
    if history.len() == 0 {
        0
    } else {
        selections(history.drop_last()) + if history.last().selects() {
            1nat
        } else {
            0nat
        }
    }
}

/// How often the selection was set to an offer.
pub open spec fn copies(history: Seq<Happening>) -> nat
    decreases history.len(),
{
    if history.len() == 0 {
        0
    } else {
        copies(history.drop_last()) + if history.last().copies() {
            1nat
        } else {
            0nat
        }
    }
}

/// All types that offers told, in order.
pub open spec fn offers(history: Seq<Happening>) -> Seq<Seq<char>>
    decreases history.len(),
{
    if history.len() == 0 {
        Seq::empty()
    } else {
        offers(history.drop_last()) + history.last().offered()
    }
}

/// All messages that were delivered, in order.
pub open spec fn messages(history: Seq<Happening>) -> Seq<Notice>
    decreases history.len(),
{
    if history.len() == 0 {
        Seq::empty()
    } else {
        let earlier = messages(history.drop_last());
        match after(history.drop_last()).delivered(history.last()) {
            Some(notice) => earlier.push(notice),
            None => earlier,
        }
    }
}

/// The protocol of the last device that finished, unless the listener has looked since.
pub open spec fn unseen_finish(history: Seq<Happening>) -> Option<Protocol>
    decreases history.len(),
{
    if history.len() == 0 {
        None
    } else {
        match history.last().finishes() {
            Some(protocol) => Some(protocol),
            None => if history.last().looks() {
                None
            } else {
                unseen_finish(history.drop_last())
            },
        }
    }
}

/// How often a device was created.
pub open spec fn devices_created(history: Seq<Happening>) -> nat
    decreases history.len(),
{
    if history.len() == 0 {
        0
    } else {
        let creates = after(history.drop_last()).ready() && (history.last() is SetDevice
            || history.last() == Happening::DeviceInit(DeviceInitEvent::Started));
        devices_created(history.drop_last()) + if creates {
            1nat
        } else {
            0nat
        }
    }
}

/// How often a device was destroyed.
pub open spec fn devices_destroyed(history: Seq<Happening>) -> nat
    decreases history.len(),
{
    if history.len() == 0 {
        0
    } else {
        let destroys = match history.last() {
            Happening::Device(protocol, event) => after(history.drop_last()).release(
                protocol,
                event,
            ) == Release::Device,
            _ => false,
        };
        devices_destroyed(history.drop_last()) + if destroys {
            1nat
        } else {
            0nat
        }
    }
}

/// The types in a list of messages, one message after the other.
pub open spec fn types_in(notices: Seq<Notice>) -> Seq<Seq<char>>
    decreases notices.len(),
{
    if notices.len() == 0 {
        Seq::empty()
    } else {
        types_in(notices.drop_last()) + notices.last().mime_types
    }
}

/// The manager of the ext protocol is preferred, in whatever order the managers are announced:
/// the last ext manager is bound where there is one, else the last zwlr manager.
pub proof fn law_ext_manager_is_preferred(history: Seq<Happening>)
    ensures
        after(history).data_manager == (match (
            last_announcement(history, GlobalKind::ExtManager),
            last_announcement(history, GlobalKind::ZwlrManager),
        ) {
            (Some(ext), _) => Some(DataControlManager::Ext(bound(ext, GlobalKind::ExtManager))),
            (None, Some(zwlr)) => Some(
                DataControlManager::Zwlr(bound(zwlr, GlobalKind::ZwlrManager)),
            ),
            (None, None) => None,
        }),
    decreases history.len(),
{
    if history.len() > 0 {
        law_ext_manager_is_preferred(history.drop_last());
    }
}

/// The first seat that is announced is bound and stays, and its version alone decides whether
/// its name is waited for.
pub proof fn law_first_seat_is_kept(history: Seq<Happening>)
    ensures
        match first_announcement(history, GlobalKind::Seat) {
            Some(seat) => {
                &&& after(history).seat == Some(bound(seat, GlobalKind::Seat))
                &&& after(history).seat_name_supported == (seat.announced_version()
                    >= WL_SEAT_NAME_VERSION)
            },
            None => after(history).seat is None && !after(history).seat_name_supported,
        },
    decreases history.len(),
{
    if history.len() > 0 {
        law_first_seat_is_kept(history.drop_last());
    }
}

/// The name of the seat is the last one that was told.
pub proof fn law_seat_has_last_name(history: Seq<Happening>)
    ensures
        after(history).seat_name == last_name(history),
    decreases history.len(),
{
    if history.len() > 0 {
        law_seat_has_last_name(history.drop_last());
    }
}

/// No global is bound at a version higher than the library speaks.
pub proof fn law_bound_versions_are_supported(history: Seq<Happening>)
    ensures
        after(history).seat matches Some(seat) ==> seat.version <= globals::supported_version(
            GlobalKind::Seat,
        ),
        after(history).data_manager matches Some(DataControlManager::Ext(manager))
            ==> manager.version <= globals::supported_version(GlobalKind::ExtManager),
        after(history).data_manager matches Some(DataControlManager::Zwlr(manager))
            ==> manager.version <= globals::supported_version(GlobalKind::ZwlrManager),
{
    law_first_seat_is_kept(history);
    law_ext_manager_is_preferred(history);
}

/// The first selection, even an empty one, is the one that existed at startup; every later one
/// is a live change.
pub proof fn law_only_first_selection_is_initial(history: Seq<Happening>)
    ensures
        after(history).selection_received <==> selections(history) > 0,
        after(history).initial_selection <==> selections(history) == 1,
    decreases history.len(),
{
    if history.len() > 0 {
        law_only_first_selection_is_initial(history.drop_last());
    }
}

/// What happened last does not change what was delivered before.
proof fn lemma_delivered_before_last(history: Seq<Happening>, at: int)
    requires
        0 <= at < history.len() - 1,
    ensures
        delivered_at(history, at) == delivered_at(history.drop_last(), at),
{
    assert(history.take(at) =~= history.drop_last().take(at));
}

/// A message is due exactly while some selection with an offer was set after the last message.
pub proof fn law_message_is_due_after_copy(history: Seq<Happening>)
    ensures
        after(history).copied <==> exists|at: int|
            0 <= at < history.len() && #[trigger] history[at].copies() && forall|later: int|
                at < later < history.len() ==> #[trigger] delivered_at(history, later) is None,
    decreases history.len(),
{
    if history.len() > 0 {
        let earlier = history.drop_last();
        let last = history.len() - 1;
        law_message_is_due_after_copy(earlier);
        assert(history.take(last) =~= earlier);
        if after(history).copied {
            if history.last().copies() {
                assert(history[last].copies());
            } else {
                let at = choose|at: int|
                    0 <= at < earlier.len() && #[trigger] earlier[at].copies() && forall|later: int|
                        at < later < earlier.len() ==> #[trigger] delivered_at(earlier, later)
                            is None;
                assert(history[at].copies());
                assert forall|later: int| at < later < history.len() implies #[trigger] delivered_at(
                    history,
                    later,
                ) is None by {
                    if later < last {
                        lemma_delivered_before_last(history, later);
                    }
                }
            }
        }
        if exists|at: int|
            0 <= at < history.len() && #[trigger] history[at].copies() && forall|later: int|
                at < later < history.len() ==> #[trigger] delivered_at(history, later) is None {
            let at = choose|at: int|
                0 <= at < history.len() && #[trigger] history[at].copies() && forall|later: int|
                    at < later < history.len() ==> #[trigger] delivered_at(history, later) is None;
            if at < last {
                assert(earlier[at].copies());
                assert forall|later: int| at < later < earlier.len() implies #[trigger] delivered_at(
                    earlier,
                    later,
                ) is None by {
                    lemma_delivered_before_last(history, later);
                }
                assert(delivered_at(history, last) is None);
            }
        }
    }
}

/// A message tells the types that were pending. It is the initial one exactly where the
/// selection was set once: a selection that existed at startup and was followed by another
/// before the message is a change.
pub proof fn law_message_is_initial_only_alone(history: Seq<Happening>, at: int)
    requires
        0 <= at < history.len(),
    ensures
        delivered_at(history, at) matches Some(notice) ==> {
            &&& notice.is_initial <==> selections(history.take(at)) == 1
            &&& notice.mime_types == after(history.take(at)).mime_types
            &&& after(history.take(at)).copied
        },
{
    law_only_first_selection_is_initial(history.take(at));
}

/// Every message stands for at least one selection with an offer of its own, so an empty
/// selection, at startup or later, is not reported.
pub proof fn law_no_message_without_copy(history: Seq<Happening>)
    ensures
        messages(history).len() + (if after(history).copied {
            1int
        } else {
            0int
        }) <= copies(history) <= selections(history),
        copies(history) == 0 ==> messages(history).len() == 0,
    decreases history.len(),
{
    if history.len() > 0 {
        law_no_message_without_copy(history.drop_last());
    }
}

/// At most one message is the initial one, and then it is the first.
pub proof fn law_initial_message_comes_first(history: Seq<Happening>)
    ensures
        forall|i: int|
            0 <= i < messages(history).len() && (#[trigger] messages(history)[i]).is_initial ==> i
                == 0,
    decreases history.len(),
{
    if history.len() > 0 {
        let earlier = history.drop_last();
        law_initial_message_comes_first(earlier);
        law_no_message_without_copy(earlier);
        law_only_first_selection_is_initial(earlier);
    }
}

/// Each type that an offer tells goes into exactly one message, in order, or is still pending.
pub proof fn law_no_type_is_lost(history: Seq<Happening>)
    ensures
        types_in(messages(history)) + after(history).mime_types == offers(history),
    decreases history.len(),
{
    if history.len() > 0 {
        let earlier = history.drop_last();
        law_no_type_is_lost(earlier);
        match after(earlier).delivered(history.last()) {
            Some(notice) => {
                assert(messages(history).drop_last() =~= messages(earlier));
            },
            None => {},
        }
        assert(types_in(messages(history)) + after(history).mime_types =~= offers(history));
    } else {
        assert(types_in(messages(history)) + after(history).mime_types =~= offers(history));
    }
}

/// What a happening does to the memory of a finished device.
proof fn lemma_step_of_finish(state: ListenerState, happening: Happening)
    ensures
        state.step(happening).terminated_reason == (match happening.finishes() {
            Some(protocol) => Some(protocol),
            None => if happening.looks() {
                None
            } else {
                state.terminated_reason
            },
        }),
{
}

/// The memory of a finished device, told from the history alone.
proof fn lemma_unseen_finish(history: Seq<Happening>)
    ensures
        after(history).terminated_reason == unseen_finish(history),
    decreases history.len(),
{
    if history.len() > 0 {
        lemma_unseen_finish(history.drop_last());
        lemma_step_of_finish(after(history.drop_last()), history.last());
    }
}

/// That a device finished is remembered until the listener looks or another one finishes.
pub proof fn law_finish_is_pending_until_looked_at(history: Seq<Happening>, at: int)
    requires
        0 <= at < history.len(),
        history[at].finishes() is Some,
        forall|later: int|
            at < later < history.len() ==> !(#[trigger] history[later]).looks()
                && history[later].finishes() is None,
    ensures
        after(history).terminated_reason == history[at].finishes(),
    decreases history.len(),
{
    lemma_unseen_finish(history);
    if at < history.len() - 1 {
        let earlier = history.drop_last();
        assert(!history[history.len() - 1].looks());
        assert forall|later: int| at < later < earlier.len() implies !(
        #[trigger] earlier[later]).looks() && earlier[later].finishes() is None by {
            assert(earlier[later] == history[later]);
        }
        law_finish_is_pending_until_looked_at(earlier, at);
        lemma_unseen_finish(earlier);
    }
}

/// A finished device is never made up: where one is remembered, one finished since the listener
/// last looked.
pub proof fn law_pending_finish_happened(history: Seq<Happening>) -> (at: int)
    requires
        after(history).terminated_reason is Some,
    ensures
        0 <= at < history.len(),
        history[at].finishes() == after(history).terminated_reason,
        forall|later: int|
            at < later < history.len() ==> !(#[trigger] history[later]).looks()
                && history[later].finishes() is None,
    decreases history.len(),
{
    lemma_unseen_finish(history);
    let last = history.len() - 1;
    if history.last().finishes() is Some {
        last
    } else {
        let earlier = history.drop_last();
        lemma_unseen_finish(earlier);
        let at = law_pending_finish_happened(earlier);
        assert forall|later: int| at < later < history.len() implies !(
        #[trigger] history[later]).looks() && history[later].finishes() is None by {
            if later < last {
                assert(history[later] == earlier[later]);
            }
        }
        at
    }
}

/// A device exists only where a seat and a manager are bound.
pub proof fn law_device_has_seat_and_manager(history: Seq<Happening>)
    ensures
        after(history).data_device is Some ==> after(history).ready(),
    decreases history.len(),
{
    if history.len() > 0 {
        law_device_has_seat_and_manager(history.drop_last());
    }
}

/// No device is destroyed twice: each one that is destroyed was created, and one that the
/// listener holds is not destroyed yet.
pub proof fn law_device_is_destroyed_at_most_once(history: Seq<Happening>)
    ensures
        devices_destroyed(history) + (if after(history).data_device is Some {
            1int
        } else {
            0int
        }) <= devices_created(history),
    decreases history.len(),
{
    if history.len() > 0 {
        law_device_is_destroyed_at_most_once(history.drop_last());
    }
}

/// The two protocols are treated alike, but for the name under which a finished device is
/// remembered.
pub proof fn law_protocols_are_treated_alike(state: ListenerState, event: DeviceEvent)
    ensures
        (ListenerState {
            terminated_reason: None,
            ..state.after_device(Protocol::Ext, event)
        }) == (ListenerState {
            terminated_reason: None,
            ..state.after_device(Protocol::Zwlr, event)
        }),
        event != DeviceEvent::Finished ==> state.after_device(Protocol::Ext, event)
            == state.after_device(Protocol::Zwlr, event) && state.release(Protocol::Ext, event)
            == state.release(Protocol::Zwlr, event),
{
}

} // verus!
