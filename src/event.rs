//! What the input listener hands to the browser loop.
use vstd::prelude::*;

verus! {

/// One event of the input stream.
pub enum Event<I> {
    /// A key, as the terminal decoded it.
    Input(I),
}

} // verus!
