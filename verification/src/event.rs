//! The canonical event vocabulary delivered from the native loop to the caller.

use vstd::prelude::*;

verus! {

/// A platform notification translated into the one cross-platform vocabulary.
///
/// Values are produced on the native loop side and consumed by the caller;
/// they are immutable once constructed.
#[derive(Clone, Copy, Debug, PartialEq, Eq, Structural)]
pub enum SystrayEvent {
    /// The menu entry allocated under this zero-based index was activated.
    MenuItemClick(u32),
    /// The tray icon itself was activated with the primary button.
    LeftButtonClick,
}

} // verus!
