//! The errors that processing one frame can end in.

use vstd::prelude::*;

verus! {

/// Why a frame was not processed.
#[derive(Debug)]
pub enum NetError {
    /// The device failed to hand over or take a frame; carries its message.
    IoError(String),
    /// A header did not fit: too few bytes left, or no room in front.
    ParseError(&'static str),
    /// A well-formed header names a type or an opcode that is not handled.
    UnsupportedError(&'static str),
}

} // verus!
