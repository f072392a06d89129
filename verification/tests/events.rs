use clipboard_master::{
    bind_version, Bind, BoundGlobal, DataControlDevice, DataControlManager, DeviceEvent,
    GlobalInterface, OfferEvent, Protocol, RegistryEvent, Release, SeatEvent, WlClipboardListener,
};
use std::sync::atomic::AtomicBool;
use std::sync::Arc;
use wayland_client::protocol::wl_seat::WlSeat;
use wayland_client::Proxy;
use wayland_protocols::ext::data_control::v1::client::ext_data_control_manager_v1::ExtDataControlManagerV1;
use wayland_protocols_wlr::data_control::v1::client::zwlr_data_control_manager_v1::ZwlrDataControlManagerV1;

const SEAT: &str = "wl_seat";
const EXT: &str = "ext_data_control_manager_v1";
const ZWLR: &str = "zwlr_data_control_manager_v1";

fn listener() -> WlClipboardListener {
    WlClipboardListener::new(Arc::new(AtomicBool::new(false)))
}

fn announce(state: &mut WlClipboardListener, name: u32, interface: &str, version: u32) -> Option<Bind> {
    state.registry_event(RegistryEvent::Global {
        name,
        interface: interface.to_string(),
        version,
    })
}

fn global(name: u32, version: u32) -> BoundGlobal {
    BoundGlobal { name, version }
}

fn assert_selection_batches(protocol: Protocol) {
    for (received, copied, offers, expected) in [
        (false, false, &[true][..], Some(true)),
        (false, false, &[false][..], None),
        (false, false, &[false, true][..], Some(false)),
        (false, false, &[true, true][..], Some(false)),
        (false, false, &[true, false][..], Some(false)),
        (true, true, &[false][..], Some(false)),
        (true, false, &[false][..], None),
    ] {
        let mut state = listener();
        state.copied = copied;
        state.selection_received = received;
        state.initial_selection = received;
        for &has_offer in offers {
            let release = state.device_event(protocol, DeviceEvent::Selection { offer: has_offer });
            assert_eq!(release == Release::Offer, has_offer);
        }
        assert!(state.selection_received);
        assert_eq!(
            state.copied.then_some(state.initial_selection),
            expected,
            "received={received}, copied={copied}, offers={offers:?}",
        );
    }
}

#[test]
fn ext_selection_batches_classify_startup() {
    assert_selection_batches(Protocol::Ext);
}

#[test]
fn zwlr_selection_batches_classify_startup() {
    assert_selection_batches(Protocol::Zwlr);
}

#[test]
fn a_fresh_listener_knows_nothing() {
    let state = listener();
    assert_eq!(state.seat, None);
    assert_eq!(state.seat_name, None);
    assert!(!state.seat_name_supported);
    assert_eq!(state.data_manager, None);
    assert_eq!(state.data_device, None);
    assert_eq!(state.terminated_reason, None);
    assert!(state.mime_types.is_empty());
    assert!(!state.queue_attached && !state.copied);
    assert!(!state.selection_received && !state.initial_selection);
    assert!(!state.device_ready());
}

#[test]
fn the_lower_version_is_bound() {
    let interface = GlobalInterface {
        name: SEAT.to_string(),
        version: 7,
    };
    assert_eq!(bind_version(3, &interface), 3);
    assert_eq!(bind_version(7, &interface), 7);
    assert_eq!(bind_version(9, &interface), 7);
    assert_eq!(bind_version(0, &interface), 0);
}

#[test]
fn globals_are_bound_at_the_versions_of_the_interfaces() {
    let mut state = listener();
    let supported = WlSeat::interface().version;
    assert_eq!(supported, 11);
    assert_eq!(
        announce(&mut state, 4, WlSeat::interface().name, u32::MAX),
        Some(Bind::Seat(global(4, supported)))
    );
    let supported = ZwlrDataControlManagerV1::interface().version;
    assert_eq!(supported, 2);
    assert_eq!(
        announce(&mut state, 5, ZwlrDataControlManagerV1::interface().name, u32::MAX),
        Some(Bind::Manager(DataControlManager::Zwlr(global(5, supported))))
    );
    let supported = ExtDataControlManagerV1::interface().version;
    assert_eq!(supported, 1);
    assert_eq!(
        announce(&mut state, 6, ExtDataControlManagerV1::interface().name, u32::MAX),
        Some(Bind::Manager(DataControlManager::Ext(global(6, supported))))
    );
}

#[test]
fn the_first_seat_is_kept() {
    let mut state = listener();
    assert_eq!(announce(&mut state, 1, SEAT, 1), Some(Bind::Seat(global(1, 1))));
    assert!(!state.seat_name_supported);
    assert_eq!(announce(&mut state, 2, SEAT, 9), None);
    assert_eq!(state.seat, Some(global(1, 1)));
    assert!(!state.seat_name_supported);
}

#[test]
fn seat_names_come_with_version_two() {
    let mut state = listener();
    announce(&mut state, 1, SEAT, 2);
    assert!(state.seat_name_supported);
    state.seat_event(SeatEvent::Other);
    assert_eq!(state.seat_name, None);
    state.seat_event(SeatEvent::Name("seat0".to_string()));
    state.seat_event(SeatEvent::Name("seat1".to_string()));
    assert_eq!(state.seat_name.as_deref(), Some("seat1"));
}

#[test]
fn ext_is_preferred_in_any_order() {
    let mut state = listener();
    assert!(announce(&mut state, 1, ZWLR, 2).is_some());
    assert!(announce(&mut state, 2, EXT, 1).is_some());
    assert_eq!(state.data_manager, Some(DataControlManager::Ext(global(2, 1))));

    let mut state = listener();
    assert!(announce(&mut state, 2, EXT, 1).is_some());
    assert_eq!(announce(&mut state, 1, ZWLR, 2), None);
    assert_eq!(state.data_manager, Some(DataControlManager::Ext(global(2, 1))));
}

#[test]
fn a_later_manager_of_the_same_protocol_replaces_the_earlier() {
    let mut state = listener();
    announce(&mut state, 1, ZWLR, 1);
    assert_eq!(
        announce(&mut state, 3, ZWLR, 2),
        Some(Bind::Manager(DataControlManager::Zwlr(global(3, 2))))
    );
    announce(&mut state, 4, EXT, 1);
    assert_eq!(
        announce(&mut state, 5, EXT, 1),
        Some(Bind::Manager(DataControlManager::Ext(global(5, 1))))
    );
    assert_eq!(state.data_manager, Some(DataControlManager::Ext(global(5, 1))));
}

#[test]
fn other_globals_are_ignored() {
    let mut state = listener();
    assert_eq!(announce(&mut state, 1, "wl_compositor", 6), None);
    assert_eq!(announce(&mut state, 1, "wl_seat_", 6), None);
    assert_eq!(announce(&mut state, 1, "", 6), None);
    assert_eq!(state.registry_event(RegistryEvent::Other), None);
    assert_eq!(state.seat, None);
    assert_eq!(state.data_manager, None);
}

#[test]
fn a_device_needs_a_seat_and_a_manager() {
    let mut state = listener();
    assert_eq!(state.set_data_device(), None);
    announce(&mut state, 1, SEAT, 9);
    assert!(!state.device_ready());
    assert_eq!(state.set_data_device(), None);
    announce(&mut state, 2, ZWLR, 2);
    assert!(state.device_ready());
    assert_eq!(state.set_data_device(), Some(DataControlDevice::Zwlr));
    assert_eq!(state.data_device, Some(DataControlDevice::Zwlr));
    announce(&mut state, 3, EXT, 1);
    assert_eq!(state.set_data_device(), Some(DataControlDevice::Ext));
    assert_eq!(state.data_device, Some(DataControlDevice::Ext));
}

#[test]
fn a_finished_device_is_destroyed_once() {
    let mut state = listener();
    state.data_device = Some(DataControlDevice::Ext);
    assert_eq!(state.device_event(Protocol::Ext, DeviceEvent::Finished), Release::Device);
    assert_eq!(state.data_device, None);
    assert_eq!(state.terminated_reason, Some(Protocol::Ext));
    assert_eq!(state.device_event(Protocol::Ext, DeviceEvent::Finished), Release::Nothing);
}

#[test]
fn a_finished_device_of_the_other_protocol_is_let_go() {
    let mut state = listener();
    state.data_device = Some(DataControlDevice::Ext);
    assert_eq!(state.device_event(Protocol::Zwlr, DeviceEvent::Finished), Release::Nothing);
    assert_eq!(state.data_device, None);
    assert_eq!(state.terminated_reason, Some(Protocol::Zwlr));
}

#[test]
fn primary_selections_are_destroyed_and_ignored() {
    let mut state = listener();
    for protocol in [Protocol::Ext, Protocol::Zwlr] {
        assert_eq!(
            state.device_event(protocol, DeviceEvent::PrimarySelection { offer: true }),
            Release::Offer
        );
        assert_eq!(
            state.device_event(protocol, DeviceEvent::PrimarySelection { offer: false }),
            Release::Nothing
        );
        assert_eq!(state.device_event(protocol, DeviceEvent::DataOffer), Release::Nothing);
        assert_eq!(state.device_event(protocol, DeviceEvent::Other), Release::Nothing);
    }
    assert!(!state.selection_received && !state.copied);
    assert_eq!(state.terminated_reason, None);
}

#[test]
fn offered_types_are_kept_in_order() {
    let mut state = listener();
    state.offer_event(OfferEvent::Offer("text/plain".to_string()));
    state.offer_event(OfferEvent::Other);
    state.offer_event(OfferEvent::Offer("text/html".to_string()));
    state.offer_event(OfferEvent::Offer("text/plain".to_string()));
    assert_eq!(state.mime_types, ["text/plain", "text/html", "text/plain"]);
}

#[test]
fn a_device_that_is_set_again_is_destroyed_once() {
    let mut state = listener();
    announce(&mut state, 1, SEAT, 9);
    announce(&mut state, 2, EXT, 1);
    assert_eq!(state.set_data_device(), Some(DataControlDevice::Ext));
    assert_eq!(state.set_data_device(), Some(DataControlDevice::Ext));
    assert_eq!(state.device_event(Protocol::Ext, DeviceEvent::Finished), Release::Device);
    assert_eq!(state.device_event(Protocol::Ext, DeviceEvent::Finished), Release::Nothing);
}
