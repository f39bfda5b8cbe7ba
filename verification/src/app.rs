//! The application core: the public object a caller holds for one tray icon.
//!
//! The core owns the icon state machine, the menu index allocator and the
//! callback table. It performs no native call itself: every mutation of the
//! native surface is appended to an ordered command queue, and the embedder
//! drains that queue with [`Application::take_commands`] and performs each
//! command on the thread that owns the native handles. This is the
//! marshalled discipline: exactly one thread ever touches the native handle
//! set, and the caller's thread only ever touches this core.
//!
//! `F` is the type of the menu callbacks. A callback takes no arguments and
//! runs synchronously during [`Application::dispatch`]; one that wants to
//! show or hide the icon, or to quit, captures its own handle for asking the
//! owner to do so. An embedder that mixes many closure types instantiates
//! `F` with a boxed function, such as `Box<dyn Fn()>`.

use vstd::prelude::*;
use vstd::string::StrSliceExecFns;
use crate::command::{NativeCommand, NativeCommandView};
use crate::error::SystrayError;
use crate::event::SystrayEvent;
use crate::icon::{IconResource, IconResourceView, IconStatus, TrayIcon, TrayIconView};

verus! {

/// The longest tooltip the native notification area accepts, in characters;
/// longer texts are truncated to this many characters before they are queued.
pub const TOOLTIP_CHAR_LIMIT: usize = 127;

/// The mathematical state of an [`Application`]: the icon state machine, the
/// next free menu index, the set of menu indices with a registered callback,
/// the queue of native commands not yet drained, and whether the core was
/// shut down.
#[verifier::ext_equal]
pub struct AppView {
    pub icon: Option<TrayIconView>,
    pub menu_idx: u32,
    pub registered: Set<u32>,
    pub commands: Seq<NativeCommandView>,
    pub closed: bool,
}

/// The state a fresh core starts in: nothing configured, nothing queued.
pub open spec fn spec_init() -> AppView {
    AppView {
        icon: None,
        menu_idx: 0,
        registered: Set::empty(),
        commands: Seq::empty(),
        closed: false,
    }
}

/// Whether this resource is configured and currently shown.
pub open spec fn spec_shows(v: AppView, r: IconResourceView) -> bool {
    match v.icon {
        Some(t) => t.status == IconStatus::SHOW && t.resource == r,
        None => false,
    }
}

/// One step of the icon state machine for `show_icon`: a no-op when the same
/// resource is already shown, otherwise one queued native set-icon call and a
/// transition to shown.
pub open spec fn spec_show_icon(v: AppView, r: IconResourceView) -> AppView {
    if spec_shows(v, r) {
        v
    } else {
        AppView {
            icon: Some(TrayIconView { status: IconStatus::SHOW, resource: r }),
            commands: v.commands.push(NativeCommandView::SetIcon { resource: r }),
            ..v
        }
    }
}

/// One step for `hide_icon`: nothing to remove while no resource was ever
/// configured; otherwise one queued native removal, the resource retained.
pub open spec fn spec_hide_icon(v: AppView) -> AppView {
    match v.icon {
        None => v,
        Some(t) => AppView {
            icon: Some(TrayIconView { status: IconStatus::HIDE, resource: t.resource }),
            commands: v.commands.push(NativeCommandView::RemoveIcon),
            ..v
        },
    }
}

/// One step for `reshow_icon`: redisplays the remembered resource when it is
/// hidden, does nothing when it is already shown or none was ever configured
/// (the latter is the error case).
pub open spec fn spec_reshow_icon(v: AppView) -> AppView {
    match v.icon {
        None => v,
        Some(t) => if t.status == IconStatus::SHOW {
            v
        } else {
            AppView {
                icon: Some(TrayIconView { status: IconStatus::SHOW, resource: t.resource }),
                commands: v.commands.push(NativeCommandView::SetIcon { resource: t.resource }),
                ..v
            }
        },
    }
}

/// One step for a successful `add_menu_item`: the next index is handed out,
/// the insertion is queued, and a callback is registered under that index.
pub open spec fn spec_add_menu_item(v: AppView, label: Seq<char>) -> AppView {
    AppView {
        menu_idx: (v.menu_idx + 1) as u32,
        registered: v.registered.insert(v.menu_idx),
        commands: v.commands.push(
            NativeCommandView::AddMenuItem { index: v.menu_idx, label: label },
        ),
        ..v
    }
}

/// One step for a successful `add_menu_separator`: the next index is handed
/// out and the insertion is queued, with no callback registered.
pub open spec fn spec_add_menu_separator(v: AppView) -> AppView {
    AppView {
        menu_idx: (v.menu_idx + 1) as u32,
        commands: v.commands.push(NativeCommandView::AddMenuSeparator { index: v.menu_idx }),
        ..v
    }
}

/// Tooltip text as the native surface will receive it.
pub open spec fn spec_truncate_tooltip(t: Seq<char>) -> Seq<char> {
    if t.len() <= TOOLTIP_CHAR_LIMIT {
        t
    } else {
        t.subrange(0, TOOLTIP_CHAR_LIMIT as int)
    }
}

/// One step for `set_tooltip`: the truncated text is queued.
pub open spec fn spec_set_tooltip(v: AppView, t: Seq<char>) -> AppView {
    AppView {
        commands: v.commands.push(
            NativeCommandView::SetTooltip { text: spec_truncate_tooltip(t) },
        ),
        ..v
    }
}

/// One step for `quit`: on the first call, a best-effort icon removal
/// followed by a queued teardown; afterwards a no-op.
pub open spec fn spec_quit(v: AppView) -> AppView {
    if v.closed {
        v
    } else {
        let h = spec_hide_icon(v);
        AppView { commands: h.commands.push(NativeCommandView::Destroy), closed: true, ..h }
    }
}

/// The application core for one tray icon, with callbacks of type `F`.
pub struct Application<F: Fn() -> ()> {
    icon: Option<TrayIcon>,
    menu_idx: u32,
    callback: Vec<(u32, F)>,
    commands: Vec<NativeCommand>,
    closed: bool,
}

impl<F: Fn() -> ()> View for Application<F> {
    type V = AppView;

    closed spec fn view(&self) -> AppView {
        AppView {
            icon: match self.icon {
                Some(t) => Some(t@),
                None => None,
            },
            menu_idx: self.menu_idx,
            registered: Set::new(
                |k: u32|
                    exists|i: int|
                        0 <= i < self.callback@.len() && (#[trigger] self.callback@[i]).0 == k,
            ),
            commands: self.commands@.map_values(|c: NativeCommand| c@),
            closed: self.closed,
        }
    }
}

impl<F: Fn() -> ()> Application<F> {
    /// Internal consistency: registered indices are pairwise distinct and all
    /// below the next free index, so a fresh index never collides; and every
    /// stored callback can be called.
    pub closed spec fn wf(&self) -> bool {
        &&& forall|i: int, j: int|
            0 <= i < j < self.callback@.len() ==> (#[trigger] self.callback@[i]).0 != (
            #[trigger] self.callback@[j]).0
        &&& forall|i: int|
            0 <= i < self.callback@.len() ==> (#[trigger] self.callback@[i]).0 < self.menu_idx
        &&& forall|i: int|
            0 <= i < self.callback@.len() ==> call_requires((#[trigger] self.callback@[i]).1, ())
    }

    /// Creates a core with nothing configured and nothing queued. The native
    /// window and menu are the embedder's to create; their construction
    /// failure is reported by the embedder, never by a value of this type.
    pub fn new() -> (a: Application<F>)
        ensures
            a.wf(),
            a@ == spec_init(),
    {
        let a = Application {
            icon: None,
            menu_idx: 0,
            callback: Vec::new(),
            commands: Vec::new(),
            closed: false,
        };
        proof {
            assert(a@.registered =~= Set::<u32>::empty());
            assert(a@.commands =~= Seq::<NativeCommandView>::empty());
            assert(a@ =~= spec_init());
        }
        a
    }

    /// Allocates the next menu index, queues the native insertion of a
    /// labelled entry there, and registers `f` as its callback. An empty
    /// label is rejected up front, since the native surface mis-renders or
    /// rejects such entries, and the core is left unchanged.
    pub fn add_menu_item(&mut self, item_name: &String, f: F) -> (r: Result<u32, SystrayError>)
        requires
            old(self).wf(),
            old(self)@.menu_idx < u32::MAX,
            call_requires(f, ()),
        ensures
            final(self).wf(),
            item_name@.len() == 0 ==> final(self)@ == old(self)@ && (r matches Err(
                SystrayError::OsError(d),
            ) && d@ == "add_menu_item: empty item name"@),
            item_name@.len() > 0 ==> r == Ok::<u32, SystrayError>(old(self)@.menu_idx)
                && final(self)@ == spec_add_menu_item(old(self)@, item_name@),
            item_name@.len() > 0 ==> !old(self)@.registered.contains(old(self)@.menu_idx),
    {
        if item_name.as_str().unicode_len() == 0 {
            return Err(SystrayError::OsError("add_menu_item: empty item name".to_owned()));
        }
        let idx = self.menu_idx;
        self.commands.push(NativeCommand::AddMenuItem { index: idx, label: item_name.clone() });
        self.callback.push((idx, f));
        self.menu_idx = idx + 1;
        proof {
            let olds = old(self).callback@;
            let news = self.callback@;
            assert forall|k: u32|
                self@.registered.contains(k) == old(self)@.registered.insert(idx).contains(
                k,
            ) by {
                if self@.registered.contains(k) {
                    let i = choose|i: int|
                        0 <= i < news.len() && (#[trigger] news[i]).0 == k;
                    if i < olds.len() {
                        assert(news[i] == olds[i]);
                        assert(olds[i].0 == k);
                        assert(old(self)@.registered.contains(k));
                    } else {
                        assert(news[i].0 == idx);
                    }
                }
                if old(self)@.registered.insert(idx).contains(k) {
                    if k == idx {
                        assert(news[news.len() - 1].0 == k);
                        assert(self@.registered.contains(k));
                    } else {
                        let i = choose|i: int|
                            0 <= i < olds.len() && (#[trigger] olds[i]).0 == k;
                        assert(news[i] == olds[i]);
                        assert(news[i].0 == k);
                        assert(self@.registered.contains(k));
                    }
                }
            }
            assert(self@.registered =~= old(self)@.registered.insert(idx));
            assert(self@.commands =~= old(self)@.commands.push(
                NativeCommandView::AddMenuItem { index: idx, label: item_name@ },
            ));
            assert(self@ =~= spec_add_menu_item(old(self)@, item_name@));
            if old(self)@.registered.contains(idx) {
                let i = choose|i: int|
                    0 <= i < olds.len() && (#[trigger] olds[i]).0 == idx;
                assert(olds[i].0 < old(self).menu_idx);
            }
        }
        Ok(idx)
    }

    /// Allocates the next menu index and queues the native insertion of a
    /// separator there; no callback is registered.
    pub fn add_menu_separator(&mut self) -> (r: Result<u32, SystrayError>)
        requires
            old(self).wf(),
            old(self)@.menu_idx < u32::MAX,
        ensures
            final(self).wf(),
            r == Ok::<u32, SystrayError>(old(self)@.menu_idx),
            final(self)@ == spec_add_menu_separator(old(self)@),
    {
        let idx = self.menu_idx;
        self.commands.push(NativeCommand::AddMenuSeparator { index: idx });
        self.menu_idx = idx + 1;
        proof {
            assert(self@.registered =~= old(self)@.registered);
            assert(self@.commands =~= old(self)@.commands.push(
                NativeCommandView::AddMenuSeparator { index: idx },
            ));
            assert(self@ =~= spec_add_menu_separator(old(self)@));
        }
        Ok(idx)
    }

    /// Shows `icon`. When the very same resource is already shown this is a
    /// successful no-op with no native call; otherwise the native set-icon
    /// call is queued and the state machine moves to shown-with-`icon`.
    pub fn show_icon(&mut self, icon: IconResource) -> (r: Result<(), SystrayError>)
        requires
            old(self).wf(),
        ensures
            final(self).wf(),
            r == Ok::<(), SystrayError>(()),
            final(self)@ == spec_show_icon(old(self)@, icon@),
    {
        let needs_call: bool = match &self.icon {
            Some(t) => t.status == IconStatus::HIDE || !(t.resource == icon),
            None => true,
        };
        if needs_call {
            self.commands.push(NativeCommand::SetIcon { resource: icon.clone() });
            self.icon = Some(TrayIcon { status: IconStatus::SHOW, resource: icon });
            proof {
                assert(self@.registered =~= old(self)@.registered);
                assert(self@.commands =~= old(self)@.commands.push(
                    NativeCommandView::SetIcon { resource: icon@ },
                ));
                assert(self@ =~= spec_show_icon(old(self)@, icon@));
            }
        } else {
            proof {
                assert(spec_shows(old(self)@, icon@));
            }
        }
        Ok(())
    }

    /// Redisplays the resource remembered from an earlier `show_icon`. While
    /// no resource was ever configured there is nothing to show, and
    /// `ShowIconWithoutSetError` is returned; an icon already shown is left
    /// alone.
    pub fn reshow_icon(&mut self) -> (r: Result<(), SystrayError>)
        requires
            old(self).wf(),
        ensures
            final(self).wf(),
            final(self)@ == spec_reshow_icon(old(self)@),
            r matches Ok(_) <==> old(self)@.icon is Some,
            old(self)@.icon is None ==> r == Err::<(), SystrayError>(
                SystrayError::ShowIconWithoutSetError,
            ),
    {
        let resource: IconResource = match &self.icon {
            None => {
                return Err(SystrayError::ShowIconWithoutSetError);
            },
            Some(t) => {
                if t.status == IconStatus::SHOW {
                    return Ok(());
                }
                t.resource.clone()
            },
        };
        self.commands.push(NativeCommand::SetIcon { resource: resource.clone() });
        self.icon = Some(TrayIcon { status: IconStatus::SHOW, resource });
        proof {
            assert(self@.registered =~= old(self)@.registered);
            assert(self@.commands =~= old(self)@.commands.push(
                NativeCommandView::SetIcon { resource: old(self)@.icon->Some_0.resource },
            ));
            assert(self@ =~= spec_reshow_icon(old(self)@));
        }
        Ok(())
    }

    /// Removes the icon from the notification area. While no resource was
    /// ever configured this succeeds without queueing a native removal;
    /// otherwise the removal is queued — even when the state already records
    /// hidden, since removal is idempotent at the native layer — and the
    /// resource stays remembered for a later redisplay.
    pub fn hide_icon(&mut self) -> (r: Result<(), SystrayError>)
        requires
            old(self).wf(),
        ensures
            final(self).wf(),
            r == Ok::<(), SystrayError>(()),
            final(self)@ == spec_hide_icon(old(self)@),
    {
        let resource: IconResource = match &self.icon {
            None => {
                return Ok(());
            },
            Some(t) => t.resource.clone(),
        };
        self.commands.push(NativeCommand::RemoveIcon);
        self.icon = Some(TrayIcon { status: IconStatus::HIDE, resource });
        proof {
            assert(self@.registered =~= old(self)@.registered);
            assert(self@.commands =~= old(self)@.commands.push(NativeCommandView::RemoveIcon));
            assert(self@ =~= spec_hide_icon(old(self)@));
        }
        Ok(())
    }

    /// Queues a tooltip update, truncating the text to the native buffer
    /// limit rather than ever overrunning it.
    pub fn set_tooltip(&mut self, tooltip: &String) -> (r: Result<(), SystrayError>)
        requires
            old(self).wf(),
        ensures
            final(self).wf(),
            r == Ok::<(), SystrayError>(()),
            final(self)@ == spec_set_tooltip(old(self)@, tooltip@),
    {
        let len = tooltip.as_str().unicode_len();
        let text: String = if len > TOOLTIP_CHAR_LIMIT {
            tooltip.as_str().substring_char(0, TOOLTIP_CHAR_LIMIT).to_owned()
        } else {
            tooltip.clone()
        };
        self.commands.push(NativeCommand::SetTooltip { text });
        proof {
            assert(self@.registered =~= old(self)@.registered);
            assert(self@.commands =~= old(self)@.commands.push(
                NativeCommandView::SetTooltip { text: spec_truncate_tooltip(tooltip@) },
            ));
            assert(self@ =~= spec_set_tooltip(old(self)@, tooltip@));
        }
        Ok(())
    }

    /// Shuts the core down: a best-effort icon removal, then the queued
    /// teardown of the native window, menu and loop. Calling it again later
    /// is a no-op.
    pub fn quit(&mut self)
        requires
            old(self).wf(),
        ensures
            final(self).wf(),
            final(self)@ == spec_quit(old(self)@),
    {
        if self.closed {
            return ;
        }
        let _ = self.hide_icon();
        self.commands.push(NativeCommand::Destroy);
        self.closed = true;
        proof {
            assert(self@.commands =~= spec_hide_icon(old(self)@).commands.push(
                NativeCommandView::Destroy,
            ));
            assert(self@ =~= spec_quit(old(self)@));
        }
    }

    /// Hands the queued native commands to the embedder, in the order they
    /// were issued, and leaves the queue empty.
    pub fn take_commands(&mut self) -> (r: Vec<NativeCommand>)
        requires
            old(self).wf(),
        ensures
            final(self).wf(),
            r@.map_values(|c: NativeCommand| c@) == old(self)@.commands,
            final(self)@ == (AppView { commands: Seq::empty(), ..old(self)@ }),
    {
        let mut r: Vec<NativeCommand> = Vec::new();
        core::mem::swap(&mut r, &mut self.commands);
        proof {
            assert(self@.registered =~= old(self)@.registered);
            assert(self@.commands =~= Seq::<NativeCommandView>::empty());
            assert(self@ =~= (AppView { commands: Seq::empty(), ..old(self)@ }));
        }
        r
    }

    /// Runs the callback registered under the index named by a menu
    /// activation, exactly once, and reports whether one ran. Activations of
    /// indices with no callback — separators, or entries torn down while a
    /// notification was still queued — are silently ignored, and a primary
    /// button activation is surfaced to the caller instead of being handled
    /// here.
    pub fn dispatch(&self, event: &SystrayEvent) -> (handled: bool)
        requires
            self.wf(),
        ensures
            handled == match *event {
                SystrayEvent::MenuItemClick(idx) => self@.registered.contains(idx),
                SystrayEvent::LeftButtonClick => false,
            },
    {
        match event {
            SystrayEvent::MenuItemClick(idx) => {
                let mut i: usize = 0;
                while i < self.callback.len()
                    invariant
                        self.wf(),
                        0 <= i <= self.callback@.len(),
                        *event == SystrayEvent::MenuItemClick(*idx),
                        forall|j: int| 0 <= j < i ==> (#[trigger] self.callback@[j]).0 != *idx,
                    decreases self.callback@.len() - i,
                {
                    if self.callback[i].0 == *idx {
                        (self.callback[i].1)();
                        proof {
                            assert((i as int) < self.callback@.len() && self.callback@[
                                i as int
                            ].0 == *idx);
                            assert(self@.registered.contains(*idx));
                        }
                        return true;
                    }
                    i = i + 1;
                }
                proof {
                    if self@.registered.contains(*idx) {
                        let j = choose|j: int|
                            0 <= j < self.callback@.len() && (#[trigger] self.callback@[j]).0
                                == *idx;
                        assert(self.callback@[j].0 != *idx);
                    }
                }
                false
            },
            SystrayEvent::LeftButtonClick => false,
        }
    }
}

} // verus!
