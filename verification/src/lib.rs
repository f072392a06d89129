//! Clipboard master
//!
//! Provides simple way to track updates of clipboard.
//!
//! A [`WlClipboardListener`] holds what is known of a Wayland clipboard. It makes no system call:
//! it is told what the compositor sends and what each step of reading the connection came to, and
//! answers with the object to bind or destroy, or with the next step to take. A message that it
//! delivers goes to a [`ClipboardHandler`] through [`settle`], and a [`Shutdown`] stops it.

pub mod decisions;
pub mod error;
pub mod globals;
pub mod handler;
pub mod history;
pub mod listener;
pub mod messages;
pub mod operations;
pub mod runs;
pub mod shutdown;
pub mod startup;

pub use error::{BackendFailure, ErrorKind, FailureCause, ListenError};
pub use globals::{bind_version, BoundGlobal, GlobalInterface};
pub use handler::{notify, settle, settle_startup, CallbackResult, ClipboardHandler};
pub use listener::{
    Bind, DataControlDevice, DataControlManager, DeviceEvent, OfferEvent, Protocol, RegistryEvent,
    Release, SeatEvent, WlClipboardListener,
};
pub use messages::{ClipBoardListenMessage, MessageAction, MessageEvent};
pub use shutdown::Shutdown;
pub use startup::{
    CycleAction, CycleEvent, DeviceInitAction, DeviceInitEvent, InitAction, InitEvent, WaitAction,
    WaitEvent,
};
