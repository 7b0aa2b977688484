use vstd::prelude::*;

pub mod dash_parser;
pub mod utils;

verus! {

/// The one failure a decode can report: the buffer held fewer unread bytes
/// than the next fixed-width read required.
#[derive(Clone, Copy, Debug, PartialEq, Eq, Structural)]
pub enum DecodeError {
    TruncatedInput,
}

} // verus!
