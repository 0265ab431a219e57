//! Fixed 20-byte adapter status query packet and its response.
//!
//! The query has the same header and checksum shape as the configuration
//! packet but command code `0x04` and all data fields zero. The response
//! comes back in the same 20-byte shape; it carries the adapter's status
//! flags at offset 3 and the receive and transmit error counters at
//! offsets 4 and 5, guarded by the same checksum over offsets 2 through 18.
use vstd::prelude::*;
use crate::checksum::checksum;
use crate::checksum::lemma_sum_of_nonneg;
use crate::checksum::sum_of;
use vstd::slice::slice_subrange;

verus! {

/// The seventeen checksum-covered bytes of a status query, offsets 2
/// through 18.
pub open spec fn status_body() -> Seq<u8> {
    seq![
        0x04u8,
        0u8,
        0u8,
        0u8,
        0u8,
        0u8,
        0u8,
        0u8,
        0u8,
        0u8,
        0u8,
        0u8,
        0u8,
        0u8,
        0u8,
        0u8,
        0u8,
    ]
}

/// All twenty bytes of a status query.
pub open spec fn status_bytes() -> Seq<u8> {
    seq![0xAAu8, 0x55u8] + status_body() + seq![(sum_of(status_body()) % 256) as u8]
}

/// One outbound status query. It carries no fields; the packet is fixed.
#[derive(Debug, PartialEq, Eq, Structural, Clone, Copy)]
pub struct StatusCommand;

impl StatusCommand {
    /// Builds the query.
    pub fn new() -> (r: StatusCommand) {
        StatusCommand
    }

    /// Lays the query out as its 20-byte packet, checksum included.
    pub fn encode(&self) -> (r: Vec<u8>)
        ensures
            r@ == status_bytes(),
            r@.len() == 20,
            r@[19] as int == sum_of(r@.subrange(2, 19)) % 256,
    {
        let mut out: Vec<u8> = Vec::new();
        out.push(0xAAu8);
        out.push(0x55u8);
        out.push(0x04u8);
        out.push(0u8);
        out.push(0u8);
        out.push(0u8);
        out.push(0u8);
        out.push(0u8);
        out.push(0u8);
        out.push(0u8);
        out.push(0u8);
        out.push(0u8);
        out.push(0u8);
        out.push(0u8);
        out.push(0u8);
        out.push(0u8);
        out.push(0u8);
        out.push(0u8);
        out.push(0u8);
        out.push(0u8);
        proof {
            assert(out@.subrange(2, 19) =~= status_body());
        }
        let body: &[u8] = slice_subrange(out.as_slice(), 2, 19);
        let c: u8 = checksum(body);
        proof {
            lemma_sum_of_nonneg(status_body());
        }
        out[19] = c;
        proof {
            assert(out@ =~= status_bytes());
            assert(out@.subrange(2, 19) =~= status_body());
        }
        out
    }
}

/// What a well-formed status response carries: the adapter's status flags
/// and its two error counters.
#[derive(Debug, PartialEq, Eq, Structural, Clone, Copy)]
pub struct StatusResponse {
    /// Adapter status flag byte.
    pub status_flags: u8,
    /// Adapter-reported receive error counter.
    pub rx_errors: u8,
    /// Adapter-reported transmit error counter.
    pub tx_errors: u8,
}

/// A well-formed status response: the 20-byte command shape, command code
/// `0x04`, and a checksum byte that matches offsets 2 through 18.
pub open spec fn status_response_well_formed(b: Seq<u8>) -> bool {
    &&& b.len() == 20
    &&& b[0] == 0xAA
    &&& b[1] == 0x55
    &&& b[2] == 0x04
    &&& b[19] as int == sum_of(b.subrange(2, 19)) % 256
}

/// Parses one inbound status response. Returns the extracted fields when
/// the packet is well formed and `None` on any short, mismarked or
/// corrupted packet.
pub fn parse_status_response(bytes: &[u8]) -> (r: Option<StatusResponse>)
    ensures
        r is Some <==> status_response_well_formed(bytes@),
        r matches Some(s) ==> {
            &&& s.status_flags == bytes@[3]
            &&& s.rx_errors == bytes@[4]
            &&& s.tx_errors == bytes@[5]
        },
{
    if bytes.len() != 20 {
        return None;
    }
    if bytes[0] != 0xAA || bytes[1] != 0x55 || bytes[2] != 0x04 {
        return None;
    }
    let body: &[u8] = slice_subrange(bytes, 2, 19);
    let c: u8 = checksum(body);
    proof {
        lemma_sum_of_nonneg(bytes@.subrange(2, 19));
    }
    if bytes[19] != c {
        return None;
    }
    Some(StatusResponse { status_flags: bytes[3], rx_errors: bytes[4], tx_errors: bytes[5] })
}

} // verus!
