//! What the event loop delivers.

use vstd::prelude::*;

verus! {

/// An input, or a tick of the timer.
pub enum Event<I> {
    Input(I),
    Tick,
}

} // verus!
