//! Codec for a byte-stream adapter protocol carrying CAN-bus traffic and
//! adapter-configuration commands over a serial transport.
//!
//! The crate covers the framing/encoding layer: the in-memory CAN frame
//! representation and its validation rules (`frame`), the fixed-size
//! configuration and status command packets with their additive checksum
//! (`config`, `status`, `checksum`), the CAN data-frame wire format
//! (`codec`), and the session state machine that sequences them over an
//! injected transport (`session`). The physical serial port itself is an
//! external collaborator and is not part of this crate's logic.
use vstd::prelude::*;

pub mod checksum;
pub mod codec;
pub mod config;
pub mod frame;
pub mod session;
pub mod status;

verus! {

/// Sum of two sizes.
pub fn add(left: usize, right: usize) -> (r: usize)
    requires
        left + right <= usize::MAX,
    ensures
        r == left + right,
{
    left + right
}

} // verus!
