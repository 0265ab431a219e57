//! Fixed 20-byte adapter configuration packet.
//!
//! Layout: start marker `0xAA`, end-of-header marker `0x55`, command code
//! `0x12`, baud-rate code, frame-format flag `0x02`, eight reserved zero
//! bytes, operation-mode code, filter/listen flag `0x01`, four reserved
//! zero bytes, and the additive checksum of offsets 2 through 18.
use vstd::prelude::*;
use crate::checksum::checksum;
use crate::checksum::lemma_sum_of_nonneg;
use crate::checksum::sum_of;
use vstd::slice::slice_subrange;

verus! {

/// Adapter CAN bit-rate selector, mapped by table to a fixed code byte.
#[derive(Debug, PartialEq, Eq, Structural, Clone, Copy)]
pub enum Baudrate {
    Baud1000k,
    Baud800k,
    Baud500k,
    Baud400k,
    Baud250k,
    Baud200k,
    Baud125k,
    Baud100k,
    Baud50k,
    Baud20k,
    Baud10k,
    Baud5k,
}

/// Adapter operation mode selector.
#[derive(Debug, PartialEq, Eq, Structural, Clone, Copy)]
pub enum OperationMode {
    Normal,
    Loopback,
    Silent,
    LoopbackAndSilent,
}

/// Wire code of a baud-rate selector.
pub open spec fn baud_code(value: Baudrate) -> u8 {
    match value {
        Baudrate::Baud1000k => 0x01,
        Baudrate::Baud800k => 0x02,
        Baudrate::Baud500k => 0x03,
        Baudrate::Baud400k => 0x04,
        Baudrate::Baud250k => 0x05,
        Baudrate::Baud200k => 0x06,
        Baudrate::Baud125k => 0x07,
        Baudrate::Baud100k => 0x08,
        Baudrate::Baud50k => 0x09,
        Baudrate::Baud20k => 0x0A,
        Baudrate::Baud10k => 0x0B,
        Baudrate::Baud5k => 0x0C,
    }
}

/// Wire code of an operation mode.
pub open spec fn mode_code(value: OperationMode) -> u8 {
    match value {
        OperationMode::Normal => 0x00,
        OperationMode::Loopback => 0x01,
        OperationMode::Silent => 0x02,
        OperationMode::LoopbackAndSilent => 0x03,
    }
}

impl From<Baudrate> for u8 {
    /// The baud-rate selector's fixed code byte.
    fn from(value: Baudrate) -> (r: u8) {
        match value {
            Baudrate::Baud1000k => 0x01u8,
            Baudrate::Baud800k => 0x02u8,
            Baudrate::Baud500k => 0x03u8,
            Baudrate::Baud400k => 0x04u8,
            Baudrate::Baud250k => 0x05u8,
            Baudrate::Baud200k => 0x06u8,
            Baudrate::Baud125k => 0x07u8,
            Baudrate::Baud100k => 0x08u8,
            Baudrate::Baud50k => 0x09u8,
            Baudrate::Baud20k => 0x0Au8,
            Baudrate::Baud10k => 0x0Bu8,
            Baudrate::Baud5k => 0x0Cu8,
        }
    }
}

impl vstd::std_specs::convert::FromSpecImpl<Baudrate> for u8 {
    open spec fn obeys_from_spec() -> bool {
        true
    }

    open spec fn from_spec(value: Baudrate) -> u8 {
        baud_code(value)
    }
}

impl From<OperationMode> for u8 {
    /// The operation mode's fixed code byte.
    fn from(value: OperationMode) -> (r: u8) {
        match value {
            OperationMode::Normal => 0x00u8,
            OperationMode::Loopback => 0x01u8,
            OperationMode::Silent => 0x02u8,
            OperationMode::LoopbackAndSilent => 0x03u8,
        }
    }
}

impl vstd::std_specs::convert::FromSpecImpl<OperationMode> for u8 {
    open spec fn obeys_from_spec() -> bool {
        true
    }

    open spec fn from_spec(value: OperationMode) -> u8 {
        mode_code(value)
    }
}

/// The seventeen checksum-covered bytes of a configuration packet, offsets
/// 2 through 18.
pub open spec fn config_body(baud: Baudrate, mode: OperationMode) -> Seq<u8> {
    seq![
        0x12u8,
        baud_code(baud),
        0x02u8,
        0u8,
        0u8,
        0u8,
        0u8,
        0u8,
        0u8,
        0u8,
        0u8,
        mode_code(mode),
        0x01u8,
        0u8,
        0u8,
        0u8,
        0u8,
    ]
}

/// All twenty bytes of a configuration packet.
pub open spec fn config_bytes(baud: Baudrate, mode: OperationMode) -> Seq<u8> {
    seq![0xAAu8, 0x55u8] + config_body(baud, mode) + seq![
        (sum_of(config_body(baud, mode)) % 256) as u8,
    ]
}

/// One outbound set-configuration command: a baud-rate selector and an
/// operation-mode selector. Construction is total; both enumerations are
/// closed sets mapped by table.
#[derive(Debug, PartialEq, Eq, Structural, Clone, Copy)]
pub struct ConfigCommand {
    /// The CAN bit rate the adapter is asked to use.
    pub baud: Baudrate,
    /// The operation mode the adapter is asked to enter.
    pub mode: OperationMode,
}

impl ConfigCommand {
    /// Builds the command for the given baud rate and mode.
    pub fn new(baud: Baudrate, mode: OperationMode) -> (r: ConfigCommand)
        ensures
            r.baud == baud,
            r.mode == mode,
    {
        ConfigCommand { baud, mode }
    }

    /// Lays the command out as its 20-byte packet, checksum included.
    pub fn encode(&self) -> (r: Vec<u8>)
        ensures
            r@ == config_bytes(self.baud, self.mode),
            r@.len() == 20,
            r@[19] as int == sum_of(r@.subrange(2, 19)) % 256,
    {
        let bcode: u8 = u8::from(self.baud);
        let mcode: u8 = u8::from(self.mode);
        let mut out: Vec<u8> = Vec::new();
        out.push(0xAAu8);
        out.push(0x55u8);
        out.push(0x12u8);
        out.push(bcode);
        out.push(0x02u8);
        out.push(0u8);
        out.push(0u8);
        out.push(0u8);
        out.push(0u8);
        out.push(0u8);
        out.push(0u8);
        out.push(0u8);
        out.push(0u8);
        out.push(mcode);
        out.push(0x01u8);
        out.push(0u8);
        out.push(0u8);
        out.push(0u8);
        out.push(0u8);
        out.push(0u8);
        proof {
            assert(out@.subrange(2, 19) =~= config_body(self.baud, self.mode));
        }
        let body: &[u8] = slice_subrange(out.as_slice(), 2, 19);
        let c: u8 = checksum(body);
        proof {
            lemma_sum_of_nonneg(config_body(self.baud, self.mode));
        }
        out[19] = c;
        proof {
            assert(out@ =~= config_bytes(self.baud, self.mode));
            assert(out@.subrange(2, 19) =~= config_body(self.baud, self.mode));
        }
        out
    }
}

} // verus!
