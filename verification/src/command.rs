//! The commands the tray core issues to the platform's native surface.
//!
//! The core never touches a native handle itself: each mutation of the
//! notification area is recorded as one `NativeCommand` in an ordered queue,
//! and the embedder drains that queue and performs each command against the
//! platform (marshalling onto the thread that owns the native handles).

use vstd::prelude::*;
use crate::icon::{IconResource, IconResourceView};

verus! {

/// One mutation of the native surface, in the order it must be performed.
#[derive(Clone, Debug)]
pub enum NativeCommand {
    /// Insert a labelled menu entry at this zero-based index.
    AddMenuItem { index: u32, label: String },
    /// Insert a separator at this zero-based index.
    AddMenuSeparator { index: u32 },
    /// Replace the tooltip text (already truncated to the native limit).
    SetTooltip { text: String },
    /// Load this resource and place it in the notification area.
    SetIcon { resource: IconResource },
    /// Remove the icon from the notification area.
    RemoveIcon,
    /// Tear the native window, menu and loop down.
    Destroy,
}

/// The mathematical value of a [`NativeCommand`].
pub enum NativeCommandView {
    AddMenuItem { index: u32, label: Seq<char> },
    AddMenuSeparator { index: u32 },
    SetTooltip { text: Seq<char> },
    SetIcon { resource: IconResourceView },
    RemoveIcon,
    Destroy,
}

impl View for NativeCommand {
    type V = NativeCommandView;

    open spec fn view(&self) -> NativeCommandView {
        match self {
            NativeCommand::AddMenuItem { index, label } => NativeCommandView::AddMenuItem {
                index: *index,
                label: label@,
            },
            NativeCommand::AddMenuSeparator { index } => NativeCommandView::AddMenuSeparator {
                index: *index,
            },
            NativeCommand::SetTooltip { text } => NativeCommandView::SetTooltip { text: text@ },
            NativeCommand::SetIcon { resource } => NativeCommandView::SetIcon {
                resource: resource@,
            },
            NativeCommand::RemoveIcon => NativeCommandView::RemoveIcon,
            NativeCommand::Destroy => NativeCommandView::Destroy,
        }
    }
}

} // verus!
