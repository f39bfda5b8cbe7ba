//! Icon resources and the icon state machine's data.

use vstd::prelude::*;

verus! {

/// Where the platform should take the tray icon's image from.
#[derive(Debug)]
pub enum IconResource {
    /// An icon file on disk, by path.
    File(String),
    /// A named icon resource compiled into the running executable.
    Resource(String),
    /// An icon image already in memory, with the pixel size to load it at.
    Buffer { bytes: Vec<u8>, width: u32, height: u32 },
}

/// The mathematical value of an [`IconResource`]: the same variants over
/// sequences.
pub enum IconResourceView {
    File(Seq<char>),
    Resource(Seq<char>),
    Buffer { bytes: Seq<u8>, width: u32, height: u32 },
}

impl View for IconResource {
    type V = IconResourceView;

    open spec fn view(&self) -> IconResourceView {
        match self {
            IconResource::File(path) => IconResourceView::File(path@),
            IconResource::Resource(name) => IconResourceView::Resource(name@),
            IconResource::Buffer { bytes, width, height } => IconResourceView::Buffer {
                bytes: bytes@,
                width: *width,
                height: *height,
            },
        }
    }
}

impl Clone for IconResource {
    fn clone(&self) -> (r: IconResource)
        ensures
            r@ == self@,
    {
        match self {
            IconResource::File(path) => IconResource::File(path.clone()),
            IconResource::Resource(name) => IconResource::Resource(name.clone()),
            IconResource::Buffer { bytes, width, height } => {
                let copy = bytes.clone();
                proof {
                    assert forall|i: int| 0 <= i < bytes@.len() implies copy@[i] == bytes@[i] by {
                        assert(vstd::pervasive::cloned::<u8>(bytes[i], copy[i]));
                    }
                    assert(copy@ =~= bytes@);
                }
                IconResource::Buffer { bytes: copy, width: *width, height: *height }
            },
        }
    }
}

impl PartialEq for IconResource {
    fn eq(&self, other: &IconResource) -> (r: bool) {
        match (self, other) {
            (IconResource::File(a), IconResource::File(b)) => *a == *b,
            (IconResource::Resource(a), IconResource::Resource(b)) => *a == *b,
            (
                IconResource::Buffer { bytes: b1, width: w1, height: h1 },
                IconResource::Buffer { bytes: b2, width: w2, height: h2 },
            ) => {
                let same_bytes = *b1 == *b2;
                proof {
                    if same_bytes {
                        assert(b1@ =~= b2@);
                    }
                    if b1@ == b2@ {
                        assert(b1@.len() == b2@.len());
                        assert(forall|i: int| 0 <= i < b1@.len() ==> b1@[i] == b2@[i]);
                    }
                }
                same_bytes && *w1 == *w2 && *h1 == *h2
            },
            _ => false,
        }
    }
}

impl vstd::std_specs::cmp::PartialEqSpecImpl for IconResource {
    open spec fn obeys_eq_spec() -> bool {
        true
    }

    open spec fn eq_spec(&self, other: &IconResource) -> bool {
        self@ == other@
    }
}

impl Eq for IconResource {
}

/// Whether the configured icon is currently present in the notification area.
#[derive(Clone, Copy, Debug, PartialEq, Eq, Structural)]
pub enum IconStatus {
    SHOW,
    HIDE,
}

/// The remembered icon configuration: which resource was last supplied and
/// whether it is currently shown. A tray core that never saw a resource holds
/// no `TrayIcon` at all, so a `TrayIcon` always carries a real resource.
#[derive(Debug)]
pub struct TrayIcon {
    pub status: IconStatus,
    pub resource: IconResource,
}

/// The mathematical value of a [`TrayIcon`].
pub struct TrayIconView {
    pub status: IconStatus,
    pub resource: IconResourceView,
}

impl Clone for TrayIcon {
    fn clone(&self) -> (r: TrayIcon)
        ensures
            r@ == self@,
    {
        TrayIcon { status: self.status, resource: self.resource.clone() }
    }
}

impl View for TrayIcon {
    type V = TrayIconView;

    open spec fn view(&self) -> TrayIconView {
        TrayIconView { status: self.status, resource: self.resource@ }
    }
}

} // verus!
