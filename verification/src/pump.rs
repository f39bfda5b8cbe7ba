//! Classification of raw native notifications.
//!
//! The thread that pumps the platform's message source reduces each raw
//! notification to a [`NativeNotification`] — plain values only — and asks
//! [`classify_notification`] what to do with it. Everything the pump then
//! performs (emitting an event, displaying the popup menu at the pointer,
//! leaving the loop) is native work done by the embedder; the decision which
//! of them to perform is made here.

use vstd::prelude::*;
use crate::event::SystrayEvent;

verus! {

/// A raw native notification, reduced to plain values.
#[derive(Clone, Copy, Debug, PartialEq, Eq, Structural)]
pub enum NativeNotification {
    /// A menu entry was activated; `item_id` is the identifier the native
    /// menu reports, already resolved to the entry's position, or `-1` when
    /// the native menu does not recognise the activation (a separator or a
    /// submenu header).
    MenuCommand { item_id: i32 },
    /// The primary mouse button was released over the tray icon.
    LeftButtonUp,
    /// The secondary mouse button was released over the tray icon.
    RightButtonUp,
    /// The native window is being destroyed.
    Destroyed,
    /// Any notification the tray does not care about.
    Other,
}

/// What the pump must do with one notification.
#[derive(Clone, Copy, Debug, PartialEq, Eq, Structural)]
pub enum PumpAction {
    /// Send this canonical event to the caller, best-effort: a caller that
    /// has gone away does not stop the pump.
    Emit(SystrayEvent),
    /// Transfer focus to the tray's window and display the popup menu at the
    /// pointer position, synchronously with the native loop.
    ShowPopupMenu,
    /// Leave the pump; the native loop is over.
    StopPump,
    /// Do nothing.
    Ignore,
}

/// The pump's decision for `n`.
pub open spec fn spec_classify(n: NativeNotification) -> PumpAction {
    match n {
        NativeNotification::MenuCommand { item_id } => if item_id >= 0 {
            PumpAction::Emit(SystrayEvent::MenuItemClick(item_id as u32))
        } else {
            PumpAction::Ignore
        },
        NativeNotification::LeftButtonUp => PumpAction::Emit(SystrayEvent::LeftButtonClick),
        NativeNotification::RightButtonUp => PumpAction::ShowPopupMenu,
        NativeNotification::Destroyed => PumpAction::StopPump,
        NativeNotification::Other => PumpAction::Ignore,
    }
}

/// Classifies one native notification. Menu activations carry the zero-based
/// entry index; an unrecognised identifier is dropped silently, since a
/// separator or submenu can produce one and that is not an error.
pub fn classify_notification(n: &NativeNotification) -> (a: PumpAction)
    ensures
        a == spec_classify(*n),
{
    match n {
        NativeNotification::MenuCommand { item_id } => {
            if *item_id >= 0 {
                PumpAction::Emit(SystrayEvent::MenuItemClick(*item_id as u32))
            } else {
                PumpAction::Ignore
            }
        },
        NativeNotification::LeftButtonUp => PumpAction::Emit(SystrayEvent::LeftButtonClick),
        NativeNotification::RightButtonUp => PumpAction::ShowPopupMenu,
        NativeNotification::Destroyed => PumpAction::StopPump,
        NativeNotification::Other => PumpAction::Ignore,
    }
}

} // verus!
