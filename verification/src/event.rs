//! Events handed to the application loop: either an input read from the
//! terminal, or a periodic tick that drives redrawing and polling.

use vstd::prelude::*;

verus! {

/// One event of the application loop.
pub enum Event<I> {
    /// An input value, such as a key press.
    Input(I),
    /// A periodic tick.
    Tick,
}

} // verus!
