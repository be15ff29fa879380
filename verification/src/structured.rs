//! The structured projection: a named sum type with named fields, fit for a
//! text form and for user-interface bindings. Variable-length data is a byte
//! vector of exactly the bytes that are meant, with no padding behind them.

use vstd::prelude::*;
use vstd::slice::{slice_subrange, slice_to_vec};
use crate::codes::{PayloadType, ResultCode};
use crate::payload::{
    AnalogPinval, Payload, PayloadData, PayloadValue, Pinmode, Pinval, ReadField, ReadFieldReply,
    Readmem, ReadmemReplyUnion, RemoteInfo, WritememUnion, MAX_READMEM, MAX_WRITEMEM,
};
use crate::setup::padded_copy;
use crate::wire::encode_error;

verus! {

/// Structured data of a `ReadmemReply`.
#[derive(Clone, Debug, PartialEq, Eq)]
pub struct ReadmemReply {
    pub data: Vec<u8>,
}

/// Structured data of a `Writemem`.
#[derive(Clone, Debug, PartialEq, Eq)]
pub struct Writemem {
    pub address: u16,
    pub data: Vec<u8>,
}

/// One protocol message in structured form. The two temperature and humidity
/// replies hold the bits of an IEEE-754 single-precision number.
#[derive(Clone, Debug, PartialEq, Eq)]
pub enum PayloadEnum {
    PeAck,
    PeFail(u8),
    PePinmode(Pinmode),
    PeReadpin(u8),
    PeReadpinreply(Pinval),
    PeWritepin(Pinval),
    PeReadmem(Readmem),
    PeReadmemreply(ReadmemReply),
    PeWritemem(Writemem),
    PeReadinfo,
    PeReadinforeply(RemoteInfo),
    PeReadhumidity,
    PeReadhumidityreply(u32),
    PeReadtemperature,
    PeReadtemperaturereply(u32),
    PeReadanalog(u8),
    PeReadanalogreply(AnalogPinval),
    PeReadfield(ReadField),
    PeReadfieldreply(ReadFieldReply),
}

/// A structured payload under the one key that the text form wraps it in.
#[derive(Clone, Debug, PartialEq, Eq)]
pub struct PayloadSerde {
    pub payload: PayloadEnum,
}

impl View for PayloadEnum {
    type V = PayloadValue;

    open spec fn view(&self) -> PayloadValue {
        match *self {
            PayloadEnum::PeAck => PayloadValue::Ack,
            PayloadEnum::PeFail(failcode) => PayloadValue::Fail { failcode },
            PayloadEnum::PePinmode(m) => PayloadValue::Pinmode { pin: m.pin, mode: m.mode },
            PayloadEnum::PeReadpin(pin) => PayloadValue::Readpin { pin },
            PayloadEnum::PeReadpinreply(v) => PayloadValue::ReadpinReply {
                pin: v.pin,
                state: v.state,
            },
            PayloadEnum::PeWritepin(v) => PayloadValue::Writepin { pin: v.pin, state: v.state },
            PayloadEnum::PeReadmem(r) => PayloadValue::Readmem {
                address: r.address,
                length: r.length,
            },
            PayloadEnum::PeReadmemreply(r) => PayloadValue::ReadmemReply { data: r.data@ },
            PayloadEnum::PeWritemem(w) => PayloadValue::Writemem {
                address: w.address,
                data: w.data@,
            },
            PayloadEnum::PeReadinfo => PayloadValue::Readinfo,
            PayloadEnum::PeReadinforeply(i) => PayloadValue::ReadinfoReply {
                protoversion: i.protoversion,
                mac_address: i.mac_address,
                datalen: i.datalen,
                fieldcount: i.fieldcount,
            },
            PayloadEnum::PeReadhumidity => PayloadValue::Readhumidity,
            PayloadEnum::PeReadhumidityreply(humidity) => PayloadValue::ReadhumidityReply {
                humidity,
            },
            PayloadEnum::PeReadtemperature => PayloadValue::Readtemperature,
            PayloadEnum::PeReadtemperaturereply(temperature) => {
                PayloadValue::ReadtemperatureReply { temperature }
            },
            PayloadEnum::PeReadanalog(pin) => PayloadValue::Readanalog { pin },
            PayloadEnum::PeReadanalogreply(v) => PayloadValue::ReadanalogReply {
                pin: v.pin,
                state: v.state,
            },
            PayloadEnum::PeReadfield(f) => PayloadValue::Readfield { index: f.index },
            PayloadEnum::PeReadfieldreply(f) => PayloadValue::ReadfieldReply {
                index: f.index,
                offset: f.offset,
                length: f.length,
                format: f.format,
                name: f.name@,
            },
        }
    }
}

/// What a packed payload projects to: its value where it is well formed, the
/// code that the encoder refuses it with where it is not.
pub open spec fn projection(p: &Payload) -> Result<PayloadValue, ResultCode> {
    if p.wf() {
        Ok(p@)
    } else {
        Err(encode_error(p))
    }
}

/// Whether `r` is the projection of `p`.
pub open spec fn is_projection_of(r: Result<PayloadEnum, ResultCode>, p: &Payload) -> bool {
    match projection(p) {
        Ok(v) => r matches Ok(e) && e@ == v,
        Err(code) => r matches Err(c) && c == code,
    }
}

/// Whether `r` is the packing of a structured payload of value `v`: the
/// well-formed payload of that value with zero padding, or
/// `RcInvalidMemLength` where the data of `v` is longer than its kind holds.
pub open spec fn is_packing_of(r: Result<Payload, ResultCode>, v: PayloadValue) -> bool {
    if v.wf() {
        r matches Ok(p) && p.wf() && p.zero_padding() && p@ == v
    } else {
        r == Err::<Payload, ResultCode>(ResultCode::RcInvalidMemLength)
    }
}

impl PayloadEnum {
    /// The structured form of a packed payload.
    pub fn from_packed(p: &Payload) -> (r: Result<PayloadEnum, ResultCode>)
        ensures
            is_projection_of(r, p),
    {
        let kind = p.payload_type;
        let mismatch: Result<PayloadEnum, ResultCode> = Err(ResultCode::RcInvalidMessageType);
        match p.data {
            PayloadData::Unit => match kind {
                PayloadType::PtAck => Ok(PayloadEnum::PeAck),
                PayloadType::PtReadinfo => Ok(PayloadEnum::PeReadinfo),
                PayloadType::PtReadhumidity => Ok(PayloadEnum::PeReadhumidity),
                PayloadType::PtReadtemperature => Ok(PayloadEnum::PeReadtemperature),
                _ => mismatch,
            },
            PayloadData::Failcode(failcode) => match kind {
                PayloadType::PtFail => Ok(PayloadEnum::PeFail(failcode)),
                _ => mismatch,
            },
            PayloadData::Pin(pin) => match kind {
                PayloadType::PtReadpin => Ok(PayloadEnum::PeReadpin(pin)),
                PayloadType::PtReadanalog => Ok(PayloadEnum::PeReadanalog(pin)),
                _ => mismatch,
            },
            PayloadData::F(bits) => match kind {
                PayloadType::PtReadhumidityreply => Ok(PayloadEnum::PeReadhumidityreply(bits)),
                PayloadType::PtReadtemperaturereply => Ok(
                    PayloadEnum::PeReadtemperaturereply(bits),
                ),
                _ => mismatch,
            },
            PayloadData::Pinval(v) => match kind {
                PayloadType::PtReadpinreply => Ok(PayloadEnum::PeReadpinreply(v)),
                PayloadType::PtWritepin => Ok(PayloadEnum::PeWritepin(v)),
                _ => mismatch,
            },
            PayloadData::Pinmode(m) => match kind {
                PayloadType::PtPinmode => Ok(PayloadEnum::PePinmode(m)),
                _ => mismatch,
            },
            PayloadData::AnalogPinval(v) => match kind {
                PayloadType::PtReadanalogreply => Ok(PayloadEnum::PeReadanalogreply(v)),
                _ => mismatch,
            },
            PayloadData::Readmem(r) => match kind {
                PayloadType::PtReadmem => Ok(PayloadEnum::PeReadmem(r)),
                _ => mismatch,
            },
            PayloadData::ReadmemReply(r) => match kind {
                PayloadType::PtReadmemreply => {
                    if r.length as usize > MAX_READMEM {
                        return Err(ResultCode::RcInvalidMemLength);
                    }
                    let data = slice_to_vec(slice_subrange(r.data.as_slice(), 0, r.length as usize));
                    Ok(PayloadEnum::PeReadmemreply(ReadmemReply { data }))
                },
                _ => mismatch,
            },
            PayloadData::Writemem(w) => match kind {
                PayloadType::PtWritemem => {
                    if w.length as usize > MAX_WRITEMEM {
                        return Err(ResultCode::RcInvalidMemLength);
                    }
                    let data = slice_to_vec(slice_subrange(w.data.as_slice(), 0, w.length as usize));
                    Ok(PayloadEnum::PeWritemem(Writemem { address: w.address, data }))
                },
                _ => mismatch,
            },
            PayloadData::RemoteInfo(i) => match kind {
                PayloadType::PtReadinforeply => Ok(PayloadEnum::PeReadinforeply(i)),
                _ => mismatch,
            },
            PayloadData::ReadField(f) => match kind {
                PayloadType::PtReadfield => Ok(PayloadEnum::PeReadfield(f)),
                _ => mismatch,
            },
            PayloadData::ReadFieldReply(f) => match kind {
                PayloadType::PtReadfieldreply => Ok(PayloadEnum::PeReadfieldreply(f)),
                _ => mismatch,
            },
        }
    }

    /// The packed form of a structured payload, with zero padding behind
    /// variable-length data. Data that is longer than its kind holds is
    /// refused with `RcInvalidMemLength`.
    pub fn to_packed(&self) -> (r: Result<Payload, ResultCode>)
        ensures
            is_packing_of(r, self@),
    {
        let (payload_type, data) = match self {
            PayloadEnum::PeAck => (PayloadType::PtAck, PayloadData::Unit),
            PayloadEnum::PeFail(failcode) => (PayloadType::PtFail, PayloadData::Failcode(*failcode)),
            PayloadEnum::PePinmode(m) => (PayloadType::PtPinmode, PayloadData::Pinmode(*m)),
            PayloadEnum::PeReadpin(pin) => (PayloadType::PtReadpin, PayloadData::Pin(*pin)),
            PayloadEnum::PeReadpinreply(v) => (PayloadType::PtReadpinreply, PayloadData::Pinval(*v)),
            PayloadEnum::PeWritepin(v) => (PayloadType::PtWritepin, PayloadData::Pinval(*v)),
            PayloadEnum::PeReadanalog(pin) => (PayloadType::PtReadanalog, PayloadData::Pin(*pin)),
            PayloadEnum::PeReadanalogreply(v) => (
                PayloadType::PtReadanalogreply,
                PayloadData::AnalogPinval(*v),
            ),
            PayloadEnum::PeReadmem(r) => (PayloadType::PtReadmem, PayloadData::Readmem(*r)),
            PayloadEnum::PeReadmemreply(r) => {
                if r.data.len() > MAX_READMEM {
                    return Err(ResultCode::RcInvalidMemLength);
                }
                let packed = ReadmemReplyUnion {
                    length: r.data.len() as u8,
                    data: padded_copy(r.data.as_slice()),
                };
                assert(packed.content() =~= r.data@);
                (PayloadType::PtReadmemreply, PayloadData::ReadmemReply(packed))
            },
            PayloadEnum::PeWritemem(w) => {
                if w.data.len() > MAX_WRITEMEM {
                    return Err(ResultCode::RcInvalidMemLength);
                }
                let packed = WritememUnion {
                    address: w.address,
                    length: w.data.len() as u8,
                    data: padded_copy(w.data.as_slice()),
                };
                assert(packed.content() =~= w.data@);
                (PayloadType::PtWritemem, PayloadData::Writemem(packed))
            },
            PayloadEnum::PeReadinfo => (PayloadType::PtReadinfo, PayloadData::Unit),
            PayloadEnum::PeReadinforeply(i) => (
                PayloadType::PtReadinforeply,
                PayloadData::RemoteInfo(*i),
            ),
            PayloadEnum::PeReadhumidity => (PayloadType::PtReadhumidity, PayloadData::Unit),
            PayloadEnum::PeReadhumidityreply(bits) => (
                PayloadType::PtReadhumidityreply,
                PayloadData::F(*bits),
            ),
            PayloadEnum::PeReadtemperature => (PayloadType::PtReadtemperature, PayloadData::Unit),
            PayloadEnum::PeReadtemperaturereply(bits) => (
                PayloadType::PtReadtemperaturereply,
                PayloadData::F(*bits),
            ),
            PayloadEnum::PeReadfield(f) => (PayloadType::PtReadfield, PayloadData::ReadField(*f)),
            PayloadEnum::PeReadfieldreply(f) => (
                PayloadType::PtReadfieldreply,
                PayloadData::ReadFieldReply(*f),
            ),
        };
        Ok(Payload { payload_type, data })
    }
}

/// The two forms are inverse: packing a structured payload and projecting the
/// result gives a structured payload of the same value, and projecting a
/// packed payload and packing the result gives a payload of the same value,
/// the same payload where its padding was zero.
pub proof fn lemma_packed_structured_inverse(
    v: PayloadValue,
    packed: Result<Payload, ResultCode>,
    back: Result<PayloadEnum, ResultCode>,
)
    requires
        v.wf(),
        is_packing_of(packed, v),
        packed matches Ok(p) ==> is_projection_of(back, &p),
    ensures
        packed is Ok,
        back matches Ok(e) && e@ == v,
{
}

/// Projecting a well-formed packed payload and packing the result gives a
/// payload of the same value, the same payload where its padding was zero.
pub proof fn lemma_structured_packed_inverse(
    p: Payload,
    projected: Result<PayloadEnum, ResultCode>,
    back: Result<Payload, ResultCode>,
)
    requires
        p.wf(),
        is_projection_of(projected, &p),
        projected matches Ok(e) ==> is_packing_of(back, e@),
    ensures
        projected is Ok,
        back matches Ok(q) && q.wf() && q@ == p@,
        p.zero_padding() ==> back == Ok::<Payload, ResultCode>(p),
{
    crate::wire::lemma_size_law(p);
    if p.zero_padding() {
        crate::wire::lemma_same_value_same_payload(p, back->Ok_0);
    }
}

/// Round trip of structured payloads through the wire: decode what `encode`
/// gave for a well-formed payload and project it; pack that structured
/// payload and project it again. Every step succeeds, and the second
/// structured payload has the value of the first, which is the value of the
/// payload that was encoded.
pub proof fn lemma_projection_round_trip(
    p: Payload,
    decoded: Result<Payload, ResultCode>,
    first: Result<PayloadEnum, ResultCode>,
    packed: Result<Payload, ResultCode>,
    again: Result<PayloadEnum, ResultCode>,
)
    requires
        p.wf(),
        crate::wire::is_reading_of(decoded, crate::wire::staged(crate::wire::wire_bytes(p@))),
        decoded matches Ok(q) ==> is_projection_of(first, &q),
        first matches Ok(e) ==> is_packing_of(packed, e@),
        packed matches Ok(r) ==> is_projection_of(again, &r),
    ensures
        decoded is Ok,
        packed is Ok,
        first matches Ok(e1) && e1@ == p@,
        again matches Ok(e2) && e2@ == p@,
{
    crate::wire::lemma_decode_of_encode(p, decoded);
    crate::wire::lemma_size_law(p);
}

} // verus!
