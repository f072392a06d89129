//! The state of a clipboard listener and what protocol events do to it.

use crate::globals;
use crate::globals::{
    bind_version, ext_manager_interface, seat_interface, zwlr_manager_interface, BoundGlobal,
    GlobalKind, WL_SEAT_NAME_VERSION,
};
use std::sync::atomic::AtomicBool;
use std::sync::Arc;
use vstd::prelude::*;

verus! {

/// The protocols through which a compositor shows the clipboard.
#[derive(Debug, Clone, Copy, PartialEq, Eq, Structural)]
pub enum Protocol {
    /// `ext_data_control_v1`, the standard one.
    Ext,
    /// `zwlr_data_control_v1`, for older compositors.
    Zwlr,
}

/// The bound manager of a data control protocol.
#[derive(Debug, Clone, Copy, PartialEq, Eq, Structural)]
pub enum DataControlManager {
    Ext(BoundGlobal),
    Zwlr(BoundGlobal),
}

/// The data device that a manager created for the seat.
#[derive(Debug, Clone, Copy, PartialEq, Eq, Structural)]
pub enum DataControlDevice {
    Ext,
    Zwlr,
}

/// An event of `wl_registry`.
pub enum RegistryEvent {
    /// A global was announced.
    Global { name: u32, interface: String, version: u32 },
    /// Any other event.
    Other,
}

/// An event of `wl_seat`.
pub enum SeatEvent {
    /// The seat has this name.
    Name(String),
    /// Any other event.
    Other,
}

/// An event of a data control device.
#[derive(Debug, Clone, Copy, PartialEq, Eq, Structural)]
pub enum DeviceEvent {
    /// An offer was introduced.
    DataOffer,
    /// The device is no longer valid.
    Finished,
    /// The primary selection was set, to an offer or to nothing.
    PrimarySelection { offer: bool },
    /// The selection was set, to an offer or to nothing.
    Selection { offer: bool },
    /// Any other event.
    Other,
}

/// An event of a data control offer.
pub enum OfferEvent {
    /// The offer can be had as this type.
    Offer(String),
    /// Any other event.
    Other,
}

/// A global to bind, at the version that it is to have.
#[derive(Debug, Clone, Copy, PartialEq, Eq, Structural)]
pub enum Bind {
    Seat(BoundGlobal),
    Manager(DataControlManager),
}

/// The object to destroy after an event of a device.
#[derive(Debug, Clone, Copy, PartialEq, Eq, Structural)]
pub enum Release {
    Nothing,
    /// The offer that the event carries.
    Offer,
    /// The device that sent the event.
    Device,
}

/// Listens to the selection of one seat.
pub struct WlClipboardListener {
    /// The seat, once bound.
    pub seat: Option<BoundGlobal>,
    /// The name of the seat, once known.
    pub seat_name: Option<String>,
    /// Whether the compositor tells the name of the seat.
    pub seat_name_supported: bool,
    /// The manager, once bound.
    pub data_manager: Option<DataControlManager>,
    /// The device, while it is valid.
    pub data_device: Option<DataControlDevice>,
    /// The protocol whose device finished, until that is reported.
    pub terminated_reason: Option<Protocol>,
    /// The types offered since the last message.
    pub mime_types: Vec<String>,
    /// Whether initialization left an event queue to read from.
    pub queue_attached: bool,
    /// Raised to stop the listener.
    pub exit_flag: Arc<AtomicBool>,
    /// Whether a selection with an offer is yet to be reported.
    pub copied: bool,
    /// Whether the existing selection, empty or not, was announced.
    pub selection_received: bool,
    /// Whether the latest selection is the one that existed at startup.
    pub initial_selection: bool,
}

/// What a listener knows, apart from its exit flag.
#[verifier::ext_equal]
pub struct ListenerState {
    pub seat: Option<BoundGlobal>,
    pub seat_name: Option<Seq<char>>,
    pub seat_name_supported: bool,
    pub data_manager: Option<DataControlManager>,
    pub data_device: Option<DataControlDevice>,
    pub terminated_reason: Option<Protocol>,
    pub mime_types: Seq<Seq<char>>,
    pub queue_attached: bool,
    pub copied: bool,
    pub selection_received: bool,
    pub initial_selection: bool,
}

/// The texts of a list of strings.
pub open spec fn texts(strings: Seq<String>) -> Seq<Seq<char>> {
    strings.map_values(|s: String| s@)
}

impl View for WlClipboardListener {
    type V = ListenerState;

    open spec fn view(&self) -> ListenerState {
        ListenerState {
            seat: self.seat,
            seat_name: match self.seat_name {
                Some(name) => Some(name@),
                None => None,
            },
            seat_name_supported: self.seat_name_supported,
            data_manager: self.data_manager,
            data_device: self.data_device,
            terminated_reason: self.terminated_reason,
            mime_types: texts(self.mime_types@),
            queue_attached: self.queue_attached,
            copied: self.copied,
            selection_received: self.selection_received,
            initial_selection: self.initial_selection,
        }
    }
}

impl DataControlManager {
    /// The protocol that the manager speaks.
    pub open spec fn protocol(self) -> Protocol {
        match self {
            DataControlManager::Ext(_) => Protocol::Ext,
            DataControlManager::Zwlr(_) => Protocol::Zwlr,
        }
    }
}

impl DataControlDevice {
    /// The device that speaks this protocol.
    pub open spec fn of(protocol: Protocol) -> DataControlDevice {
        match protocol {
            Protocol::Ext => DataControlDevice::Ext,
            Protocol::Zwlr => DataControlDevice::Zwlr,
        }
    }
}

impl ListenerState {
    /// The state before anything was heard from the compositor.
    pub open spec fn fresh() -> ListenerState {
        ListenerState {
            seat: None,
            seat_name: None,
            seat_name_supported: false,
            data_manager: None,
            data_device: None,
            terminated_reason: None,
            mime_types: Seq::empty(),
            queue_attached: false,
            copied: false,
            selection_received: false,
            initial_selection: false,
        }
    }

    /// Whether a data device can be created.
    pub open spec fn ready(self) -> bool {
        self.seat is Some && self.data_manager is Some
    }

    /// What a registry event leads to: the global to bind, if any. The first seat is taken, every
    /// ext manager is, and a zwlr manager only while no ext manager is bound.
    pub open spec fn binding(self, event: RegistryEvent) -> Option<Bind> {
        match event {
            RegistryEvent::Global { name, interface, version } => {
                let kind = globals::global_kind(interface@);
                let bound = BoundGlobal {
                    name,
                    version: globals::common_version(version, globals::supported_version(kind)),
                };
                match kind {
                    GlobalKind::Seat if self.seat is None => Some(Bind::Seat(bound)),
                    GlobalKind::ExtManager => Some(Bind::Manager(DataControlManager::Ext(bound))),
                    GlobalKind::ZwlrManager if !(self.data_manager matches Some(
                        DataControlManager::Ext(_),
                    )) => Some(Bind::Manager(DataControlManager::Zwlr(bound))),
                    _ => None,
                }
            },
            RegistryEvent::Other => None,
        }
    }

    /// The state after a registry event.
    pub open spec fn after_registry(self, event: RegistryEvent) -> ListenerState {
        match (self.binding(event), event) {
            (Some(Bind::Seat(bound)), RegistryEvent::Global { version, .. }) => ListenerState {
                seat: Some(bound),
                seat_name_supported: version >= WL_SEAT_NAME_VERSION,
                ..self
            },
            (Some(Bind::Manager(manager)), _) => ListenerState {
                data_manager: Some(manager),
                ..self
            },
            _ => self,
        }
    }

    /// The state after a seat event.
    pub open spec fn after_seat(self, event: SeatEvent) -> ListenerState {
        match event {
            SeatEvent::Name(name) => ListenerState { seat_name: Some(name@), ..self },
            SeatEvent::Other => self,
        }
    }

    /// The state after an event of a device that speaks `protocol`.
    pub open spec fn after_device(self, protocol: Protocol, event: DeviceEvent) -> ListenerState {
        match event {
            DeviceEvent::Finished => ListenerState {
                data_device: None,
                terminated_reason: Some(protocol),
                ..self
            },
            DeviceEvent::Selection { offer } => ListenerState {
                selection_received: true,
                initial_selection: !self.selection_received,
                copied: self.copied || offer,
                ..self
            },
            _ => self,
        }
    }

    /// The object to destroy after an event of a device that speaks `protocol`: the offer that
    /// came with a selection, and a finished device that the listener still holds.
    pub open spec fn release(self, protocol: Protocol, event: DeviceEvent) -> Release {
        match event {
            DeviceEvent::Finished if self.data_device == Some(DataControlDevice::of(protocol)) =>
                Release::Device,
            DeviceEvent::PrimarySelection { offer: true } => Release::Offer,
            DeviceEvent::Selection { offer: true } => Release::Offer,
            _ => Release::Nothing,
        }
    }

    /// The state after an offer event.
    pub open spec fn after_offer(self, event: OfferEvent) -> ListenerState {
        match event {
            OfferEvent::Offer(mime_type) => ListenerState {
                mime_types: self.mime_types.push(mime_type@),
                ..self
            },
            OfferEvent::Other => self,
        }
    }

    /// The state once a device was created from the seat and the manager, where both are bound.
    pub open spec fn with_device(self) -> ListenerState {
        if self.ready() {
            ListenerState {
                data_device: Some(DataControlDevice::of(self.data_manager->0.protocol())),
                ..self
            }
        } else {
            self
        }
    }
}

impl WlClipboardListener {
    /// A listener that has heard nothing yet and stops when `exit_flag` is raised.
    pub fn new(exit_flag: Arc<AtomicBool>) -> (listener: WlClipboardListener)
        ensures
            listener@ == ListenerState::fresh(),
            listener.exit_flag == exit_flag,
    {
        let listener = WlClipboardListener {
            seat: None,
            seat_name: None,
            seat_name_supported: false,
            data_manager: None,
            data_device: None,
            terminated_reason: None,
            mime_types: Vec::new(),
            queue_attached: false,
            exit_flag,
            copied: false,
            selection_received: false,
            initial_selection: false,
        };
        assert(texts(listener.mime_types@) =~= Seq::empty());
        listener
    }

    /// Takes an event of the registry. Returns the global to bind, which is then regarded as
    /// bound.
    pub fn registry_event(&mut self, event: RegistryEvent) -> (bind: Option<Bind>)
        ensures
            bind == old(self)@.binding(event),
            final(self)@ == old(self)@.after_registry(event),
            final(self).exit_flag == old(self).exit_flag,
    {
        match event {
            RegistryEvent::Global { name, interface, version } => {
                let seat = seat_interface();
                let ext = ext_manager_interface();
                let zwlr = zwlr_manager_interface();
                if interface == seat.name {
                    if self.seat.is_none() {
                        self.seat_name_supported = version >= WL_SEAT_NAME_VERSION;
                        let bound = BoundGlobal { name, version: bind_version(version, &seat) };
                        self.seat = Some(bound);
                        return Some(Bind::Seat(bound));
                    }
                } else if interface == ext.name {
                    // Prefer the ext protocol, also over a manager of the other one.
                    let bound = BoundGlobal { name, version: bind_version(version, &ext) };
                    let manager = DataControlManager::Ext(bound);
                    self.data_manager = Some(manager);
                    return Some(Bind::Manager(manager));
                } else if interface == zwlr.name {
                    // Only use zwlr while ext is not bound.
                    let ext_bound = matches!(self.data_manager, Some(DataControlManager::Ext(_)));
                    if !ext_bound {
                        let bound = BoundGlobal { name, version: bind_version(version, &zwlr) };
                        let manager = DataControlManager::Zwlr(bound);
                        self.data_manager = Some(manager);
                        return Some(Bind::Manager(manager));
                    }
                }
                None
            },
            RegistryEvent::Other => None,
        }
    }

    /// Takes an event of the seat.
    pub fn seat_event(&mut self, event: SeatEvent)
        ensures
            final(self)@ == old(self)@.after_seat(event),
            final(self).exit_flag == old(self).exit_flag,
    {
        match event {
            SeatEvent::Name(name) => {
                self.seat_name = Some(name);
            },
            SeatEvent::Other => {},
        }
    }

    /// Takes an event of a device that speaks `protocol`. Returns the object to destroy.
    pub fn device_event(&mut self, protocol: Protocol, event: DeviceEvent) -> (release: Release)
        ensures
            release == old(self)@.release(protocol, event),
            final(self)@ == old(self)@.after_device(protocol, event),
            final(self).exit_flag == old(self).exit_flag,
    {
        match event {
            DeviceEvent::DataOffer => Release::Nothing,
            DeviceEvent::Finished => {
                let device = self.data_device.take();
                self.terminated_reason = Some(protocol);
                match (protocol, device) {
                    (Protocol::Ext, Some(DataControlDevice::Ext)) => Release::Device,
                    (Protocol::Zwlr, Some(DataControlDevice::Zwlr)) => Release::Device,
                    _ => Release::Nothing,
                }
            },
            DeviceEvent::PrimarySelection { offer } => {
                if offer {
                    Release::Offer
                } else {
                    Release::Nothing
                }
            },
            DeviceEvent::Selection { offer } => {
                // The first selection is the existing one, even when it is empty. A later one in
                // the same batch is a live change.
                let initial = !self.selection_received;
                self.selection_received = true;
                self.initial_selection = initial;
                if offer {
                    self.copied = true;
                    Release::Offer
                } else {
                    Release::Nothing
                }
            },
            DeviceEvent::Other => Release::Nothing,
        }
    }

    /// Takes an event of an offer.
    pub fn offer_event(&mut self, event: OfferEvent)
        ensures
            final(self)@ == old(self)@.after_offer(event),
            final(self).exit_flag == old(self).exit_flag,
    {
        match event {
            OfferEvent::Offer(mime_type) => {
                self.mime_types.push(mime_type);
                assert(texts(self.mime_types@) =~= texts(old(self).mime_types@).push(mime_type@));
            },
            OfferEvent::Other => {},
        }
    }

    /// Whether a data device can be created: the seat and a manager are bound.
    pub fn device_ready(&self) -> (ready: bool)
        ensures
            ready == self@.ready(),
    {
        self.seat.is_some() && self.data_manager.is_some()
    }

    /// Takes a data device of the bound manager for the bound seat. Returns the device to create;
    /// nothing happens while one of the two is missing.
    pub fn set_data_device(&mut self) -> (device: Option<DataControlDevice>)
        ensures
            final(self)@ == old(self)@.with_device(),
            device == (if old(self)@.ready() {
                final(self)@.data_device
            } else {
                None
            }),
            final(self).exit_flag == old(self).exit_flag,
    {
        match (self.seat, self.data_manager) {
            (Some(_), Some(DataControlManager::Ext(_))) => {
                self.data_device = Some(DataControlDevice::Ext);
                self.data_device
            },
            (Some(_), Some(DataControlManager::Zwlr(_))) => {
                self.data_device = Some(DataControlDevice::Zwlr);
                self.data_device
            },
            _ => None,
        }
    }
}

} // verus!
