//! The laws of the icon state machine and the menu index allocator, proved
//! over the same transition functions the executable methods are specified
//! with.

use vstd::prelude::*;
use crate::app::{
    spec_add_menu_item, spec_add_menu_separator, spec_hide_icon, spec_init, spec_quit,
    spec_show_icon, spec_shows, AppView,
};
use crate::command::NativeCommandView;
use crate::icon::IconResourceView;

verus! {

/// Showing the same resource twice in a row queues exactly one native
/// set-icon call: the second show is a no-op, whatever state it starts from.
pub proof fn lemma_show_icon_idempotent(v: AppView, r: IconResourceView)
    ensures
        spec_show_icon(spec_show_icon(v, r), r) == spec_show_icon(v, r),
        !spec_shows(v, r) ==> spec_show_icon(v, r).commands == v.commands.push(
            NativeCommandView::SetIcon { resource: r },
        ),
{
    assert(spec_shows(spec_show_icon(v, r), r));
}

/// Showing two different resources in a row queues two native set-icon
/// calls, one for each resource, in order.
pub proof fn lemma_show_icon_two_resources(v: AppView, r1: IconResourceView, r2: IconResourceView)
    requires
        !spec_shows(v, r1),
        r1 != r2,
    ensures
        spec_show_icon(spec_show_icon(v, r1), r2).commands == v.commands + seq![
            NativeCommandView::SetIcon { resource: r1 },
            NativeCommandView::SetIcon { resource: r2 },
        ],
{
    let v1 = spec_show_icon(v, r1);
    assert(!spec_shows(v1, r2));
    assert(spec_show_icon(v1, r2).commands =~= v.commands + seq![
        NativeCommandView::SetIcon { resource: r1 },
        NativeCommandView::SetIcon { resource: r2 },
    ]);
}

/// Hiding and then re-showing the same resource is never short-circuited:
/// show, hide, show queues three native calls — set, remove, set.
pub proof fn lemma_show_hide_show(v: AppView, r: IconResourceView)
    requires
        !spec_shows(v, r),
    ensures
        spec_show_icon(spec_hide_icon(spec_show_icon(v, r)), r).commands == v.commands + seq![
            NativeCommandView::SetIcon { resource: r },
            NativeCommandView::RemoveIcon,
            NativeCommandView::SetIcon { resource: r },
        ],
{
    let v1 = spec_show_icon(v, r);
    let v2 = spec_hide_icon(v1);
    assert(!spec_shows(v2, r));
    assert(spec_show_icon(v2, r).commands =~= v.commands + seq![
        NativeCommandView::SetIcon { resource: r },
        NativeCommandView::RemoveIcon,
        NativeCommandView::SetIcon { resource: r },
    ]);
}

/// Shutting down twice is safe: the second `quit` changes nothing and
/// queues nothing.
pub proof fn lemma_quit_idempotent(v: AppView)
    ensures
        spec_quit(spec_quit(v)) == spec_quit(v),
{
}

/// One menu insertion in the allocator's bookkeeping: an item when `label`
/// is some text, a separator when it is `None`.
pub open spec fn spec_add_entry(v: AppView, label: Option<Seq<char>>) -> AppView {
    match label {
        Some(l) => spec_add_menu_item(v, l),
        None => spec_add_menu_separator(v),
    }
}

/// The indices a run of successful insertions hands back, in call order:
/// each call returns the `menu_idx` of the state it starts from, as the
/// methods' own contracts state.
pub open spec fn spec_returned_indices(v: AppView, entries: Seq<Option<Seq<char>>>) -> Seq<u32>
    decreases entries.len(),
{
    if entries.len() == 0 {
        Seq::empty()
    } else {
        seq![v.menu_idx] + spec_returned_indices(spec_add_entry(v, entries[0]), entries.drop_first())
    }
}

/// A run of successful insertions from state `v` returns the consecutive
/// indices `v.menu_idx`, `v.menu_idx + 1`, …, one per insertion.
pub proof fn lemma_menu_indices_consecutive(v: AppView, entries: Seq<Option<Seq<char>>>)
    requires
        v.menu_idx + entries.len() <= u32::MAX,
    ensures
        spec_returned_indices(v, entries) == Seq::new(
            entries.len(),
            |k: int| (v.menu_idx + k) as u32,
        ),
    decreases entries.len(),
{
    if entries.len() == 0 {
        assert(spec_returned_indices(v, entries) =~= Seq::new(
            entries.len(),
            |k: int| (v.menu_idx + k) as u32,
        ));
    } else {
        let v1 = spec_add_entry(v, entries[0]);
        assert(v1.menu_idx == v.menu_idx + 1);
        lemma_menu_indices_consecutive(v1, entries.drop_first());
        assert(spec_returned_indices(v, entries) =~= Seq::new(
            entries.len(),
            |k: int| (v.menu_idx + k) as u32,
        ));
    }
}

/// On a fresh core the returned indices are exactly 0, 1, 2, …: strictly
/// increasing integers starting at zero with no gaps, one per successful
/// insertion.
pub proof fn lemma_menu_indices_dense_from_start(entries: Seq<Option<Seq<char>>>)
    requires
        entries.len() <= u32::MAX,
    ensures
        spec_returned_indices(spec_init(), entries) == Seq::new(
            entries.len(),
            |k: int| k as u32,
        ),
        forall|k: int|
            0 < k < entries.len() ==> #[trigger] spec_returned_indices(spec_init(), entries)[k]
                == spec_returned_indices(spec_init(), entries)[k - 1] + 1,
{
    lemma_menu_indices_consecutive(spec_init(), entries);
    assert(spec_returned_indices(spec_init(), entries) =~= Seq::new(
        entries.len(),
        |k: int| k as u32,
    ));
}

} // verus!
