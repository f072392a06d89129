//! The registry globals that the listener binds.

use vstd::prelude::*;
use wayland_client::protocol::wl_seat::WlSeat;
use wayland_client::Proxy;
use wayland_protocols::ext::data_control::v1::client::ext_data_control_manager_v1::ExtDataControlManagerV1;
use wayland_protocols_wlr::data_control::v1::client::zwlr_data_control_manager_v1::ZwlrDataControlManagerV1;

verus! {

/// The first version of `wl_seat` that announces the name of the seat.
pub const WL_SEAT_NAME_VERSION: u32 = 2;

/// Name and highest supported version of a Wayland interface.
pub struct GlobalInterface {
    pub name: String,
    pub version: u32,
}

/// A global of the registry, bound at a version.
#[derive(Debug, Clone, Copy, PartialEq, Eq, Structural)]
pub struct BoundGlobal {
    /// The number by which the registry announced the global.
    pub name: u32,
    /// The version at which it is bound.
    pub version: u32,
}

/// The interfaces that the listener tells apart when a global is announced.
#[derive(Debug, Clone, Copy, PartialEq, Eq, Structural)]
pub enum GlobalKind {
    Seat,
    ExtManager,
    ZwlrManager,
    Unrelated,
}

/// The kind of the global whose interface has this name.
pub open spec fn global_kind(interface: Seq<char>) -> GlobalKind {
    if interface == "wl_seat"@ {
        GlobalKind::Seat
    } else if interface == "ext_data_control_manager_v1"@ {
        GlobalKind::ExtManager
    } else if interface == "zwlr_data_control_manager_v1"@ {
        GlobalKind::ZwlrManager
    } else {
        GlobalKind::Unrelated
    }
}

/// The highest version of the interfaces of this kind that the library speaks; 0 for the others.
pub open spec fn supported_version(kind: GlobalKind) -> u32 {
    match kind {
        GlobalKind::Seat => 11,
        GlobalKind::ExtManager => 1,
        GlobalKind::ZwlrManager => 2,
        GlobalKind::Unrelated => 0,
    }
}

/// The lower of two versions.
pub open spec fn common_version(advertised: u32, supported: u32) -> u32 {
    if advertised <= supported {
        advertised
    } else {
        supported
    }
}

/// The name of the interface of this kind; empty for the others.
pub open spec fn interface_name(kind: GlobalKind) -> Seq<char> {
    match kind {
        GlobalKind::Seat => "wl_seat"@,
        GlobalKind::ExtManager => "ext_data_control_manager_v1"@,
        GlobalKind::ZwlrManager => "zwlr_data_control_manager_v1"@,
        GlobalKind::Unrelated => Seq::empty(),
    }
}

/// The name of an interface and its kind determine each other: no name shadows another one.
pub proof fn law_names_tell_kinds_apart(interface: Seq<char>, kind: GlobalKind)
    requires
        kind != GlobalKind::Unrelated,
    ensures
        global_kind(interface) == kind <==> interface == interface_name(kind),
{
    reveal_strlit("wl_seat");
    reveal_strlit("ext_data_control_manager_v1");
    reveal_strlit("zwlr_data_control_manager_v1");
    assert("wl_seat"@.len() == 7);
    assert("ext_data_control_manager_v1"@.len() == 27);
    assert("zwlr_data_control_manager_v1"@.len() == 28);
}

/// Calls `<WlSeat as Proxy>::interface`, the static description of `wl_seat` that is generated
/// from the protocol file of `wayland_client`: its name and the version in that file.
#[verifier::external_body]
pub(crate) fn seat_interface() -> (interface: GlobalInterface)
    ensures
        interface.name@ == "wl_seat"@,
        interface.version == 11,
{
    let described = WlSeat::interface();
    GlobalInterface { name: String::from(described.name), version: described.version }
}

/// Calls `<ExtDataControlManagerV1 as Proxy>::interface`, the static description of
/// `ext_data_control_manager_v1` that is generated from the protocol file of
/// `wayland_protocols`: its name and the version in that file.
#[verifier::external_body]
pub(crate) fn ext_manager_interface() -> (interface: GlobalInterface)
    ensures
        interface.name@ == "ext_data_control_manager_v1"@,
        interface.version == 1,
{
    let described = ExtDataControlManagerV1::interface();
    GlobalInterface { name: String::from(described.name), version: described.version }
}

/// Calls `<ZwlrDataControlManagerV1 as Proxy>::interface`, the static description of
/// `zwlr_data_control_manager_v1` that is generated from the protocol file of
/// `wayland_protocols_wlr`: its name and the version in that file.
#[verifier::external_body]
pub(crate) fn zwlr_manager_interface() -> (interface: GlobalInterface)
    ensures
        interface.name@ == "zwlr_data_control_manager_v1"@,
        interface.version == 2,
{
    let described = ZwlrDataControlManagerV1::interface();
    GlobalInterface { name: String::from(described.name), version: described.version }
}

/// The version at which to bind a global that is advertised at `advertised_version`: the highest
/// one that both sides speak.
pub fn bind_version(advertised_version: u32, interface: &GlobalInterface) -> (version: u32)
    ensures
        version == common_version(advertised_version, interface.version),
        version <= advertised_version,
        version <= interface.version,
        version == advertised_version || version == interface.version,
{
    if advertised_version <= interface.version {
        advertised_version
    } else {
        interface.version
    }
}

} // verus!
