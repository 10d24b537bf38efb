//! What a reader answers.

use vstd::prelude::*;

verus! {

/// What a reader makes of the bytes that arrived so far.
#[derive(Debug, PartialEq, Eq)]
pub enum Step<V> {
    /// So many bytes more have to be read before the reader can go on. Never
    /// zero, and never past the end of the message that is being read.
    Need(usize),
    /// The message is complete, and this is what it says.
    Done(V),
}

} // verus!
