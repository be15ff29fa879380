//! The requests of the command line probe: one command for each kind of
//! payload that a host sends, with its arguments already read as numbers.

use vstd::prelude::*;
use crate::codes::{PayloadType, ResultCode};
use crate::hexmem::{hex_bytes, is_hex, is_hex_error, setup_writemem_hex};
use crate::payload::{Payload, PayloadValue, MAX_WRITEMEM};
use crate::setup::{
    setup_pinmode, setup_readanalog, setup_readfield, setup_readhumidity, setup_readinfo,
    setup_readmem, setup_readpin, setup_readtemperature, setup_writepin,
};

verus! {

/// A command of the probe.
#[allow(inconsistent_fields)]
#[derive(Debug, Clone, PartialEq, Eq)]
pub enum Command {
    /// `writepin <pin> <value>`
    Writepin { pin: u8, value: u8 },
    /// `pinmode <pin> <value>`
    Pinmode { pin: u8, value: u8 },
    /// `readpin <pin>`
    Readpin { pin: u8 },
    /// `readanalog <pin>`
    Readanalog { pin: u8 },
    /// `readinfo`
    Readinfo,
    /// `readhumidity`
    Readhumidity,
    /// `readtemperature`
    Readtemperature,
    /// `writemem <address> <hex>`
    Writemem { address: u16, value: String },
    /// `readmem <address> <length>`
    Readmem { address: u16, length: u8 },
    /// `readfield <index>`
    Readfield { index: u16 },
}

impl Command {
    /// The request that a command other than `writemem` stands for.
    pub open spec fn request(self) -> PayloadValue
        recommends
            !(self is Writemem),
    {
        match self {
            Command::Writepin { pin, value } => PayloadValue::Writepin { pin, state: value },
            Command::Pinmode { pin, value } => PayloadValue::Pinmode { pin, mode: value },
            Command::Readpin { pin } => PayloadValue::Readpin { pin },
            Command::Readanalog { pin } => PayloadValue::Readanalog { pin },
            Command::Readinfo => PayloadValue::Readinfo,
            Command::Readhumidity => PayloadValue::Readhumidity,
            Command::Readtemperature => PayloadValue::Readtemperature,
            Command::Readmem { address, length } => PayloadValue::Readmem { address, length },
            Command::Readfield { index } => PayloadValue::Readfield { index },
            Command::Writemem { .. } => arbitrary(),
        }
    }

    /// Makes `p` the request of the command. Every command but `writemem`
    /// gives its request and `RcOk`. `writemem` takes its value as hexadecimal
    /// text and is refused as [`setup_writemem_hex`] refuses: with the error
    /// of the decoder and `p` untouched, or with `RcInvalidMemLength`.
    pub fn setup(&self, p: &mut Payload) -> (r: Result<ResultCode, hex::FromHexError>)
        ensures
            match *self {
                Command::Writemem { address, value } => {
                    let text = value@;
                    let digits = vstd::utf8::encode_utf8(text);
                    let mem = hex_bytes(digits);
                    &&& r is Ok <==> is_hex(digits)
                    &&& r matches Err(e) ==> is_hex_error(e, digits) && *final(p) == *old(p)
                    &&& r matches Ok(rc) ==> {
                        &&& final(p).payload_type == PayloadType::PtWritemem
                        &&& rc == ResultCode::RcOk <==> mem.len() <= MAX_WRITEMEM
                        &&& rc == ResultCode::RcInvalidMemLength <==> mem.len() > MAX_WRITEMEM
                        &&& mem.len() <= MAX_WRITEMEM ==> final(p).wf() && final(p).zero_padding()
                            && final(p)@ == (PayloadValue::Writemem { address, data: mem })
                        &&& mem.len() > MAX_WRITEMEM ==> final(p).data == old(p).data
                    }
                },
                _ => r == Ok::<ResultCode, hex::FromHexError>(ResultCode::RcOk) && final(p).wf()
                    && final(p)@ == self.request(),
            },
    {
        match self {
            Command::Writepin { pin, value } => setup_writepin(p, *pin, *value),
            Command::Pinmode { pin, value } => setup_pinmode(p, *pin, *value),
            Command::Readpin { pin } => setup_readpin(p, *pin),
            Command::Readanalog { pin } => setup_readanalog(p, *pin),
            Command::Readinfo => setup_readinfo(p),
            Command::Readhumidity => setup_readhumidity(p),
            Command::Readtemperature => setup_readtemperature(p),
            Command::Writemem { address, value } => {
                return setup_writemem_hex(p, *address, value.as_str());
            },
            Command::Readmem { address, length } => setup_readmem(p, *address, *length),
            Command::Readfield { index } => setup_readfield(p, *index),
        }
        Ok(ResultCode::RcOk)
    }
}

} // verus!
