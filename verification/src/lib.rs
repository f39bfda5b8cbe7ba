//! A cross-platform system-tray core: one icon in the desktop's notification
//! area with an attached popup menu.
//!
//! This crate is the event-bridging and state-machine layer. It owns the
//! icon state machine (configured resource, shown or hidden), the menu index
//! allocator and the callback table, and it translates raw platform
//! notifications into one canonical event vocabulary. The platform itself —
//! the native window, menu and icon handles — is an external collaborator:
//! every mutation of it is issued as an explicit [`command::NativeCommand`]
//! in an ordered queue that the embedder drains and performs on the thread
//! owning the native handles, and every native notification comes back
//! through the [`channel`] module's event channel.

pub mod app;
pub mod channel;
pub mod command;
pub mod error;
pub mod event;
pub mod icon;
pub mod laws;
pub mod pump;
pub mod wide;

pub use app::Application;
pub use app::AppView;
pub use app::TOOLTIP_CHAR_LIMIT;
pub use channel::EventReceiver;
pub use channel::EventSender;
pub use channel::ReceiveOutcome;
pub use channel::event_channel;
pub use command::NativeCommand;
pub use command::NativeCommandView;
pub use error::SystrayError;
pub use error::os_error;
pub use event::SystrayEvent;
pub use icon::IconResource;
pub use icon::IconResourceView;
pub use icon::IconStatus;
pub use icon::TrayIcon;
pub use icon::TrayIconView;
pub use pump::NativeNotification;
pub use pump::PumpAction;
pub use pump::classify_notification;
pub use wide::to_wstring;
