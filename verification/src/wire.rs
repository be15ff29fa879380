//! The wire encoding: the kind tag, then the data of that kind in declaration
//! order, scalars little-endian, nothing aligned and nothing padded. A
//! variable-length payload sends its length byte and exactly that many data
//! bytes.

use vstd::prelude::*;
use vstd::slice::slice_subrange;
use crate::codes::{PayloadType, ResultCode};
use crate::le::{
    le16, le32, le64, push_le16, push_le32, push_le64, read_le16, read_le32, read_le64, u16_at,
    u32_at, u64_at,
};
use crate::payload::{
    member_matches, payload_size, spec_payload_size, AnalogPinval, Payload,
    PayloadData, PayloadValue, Pinmode, Pinval, ReadField, ReadFieldReply, Readmem,
    ReadmemReplyUnion, RemoteInfo, WritememUnion, FIELD_NAME_LEN, MAX_READMEM, MAX_WRITEMEM,
    RH_RF95_MAX_MESSAGE_LEN, zero_padded,
};
use crate::setup::padded_copy;

verus! {

/// The bytes that a value is sent as.
pub open spec fn wire_bytes(v: PayloadValue) -> Seq<u8> {
    match v {
        PayloadValue::Ack => seq![0u8],
        PayloadValue::Fail { failcode } => seq![1u8, failcode],
        PayloadValue::Pinmode { pin, mode } => seq![2u8, pin, mode],
        PayloadValue::Readpin { pin } => seq![3u8, pin],
        PayloadValue::ReadpinReply { pin, state } => seq![4u8, pin, state],
        PayloadValue::Writepin { pin, state } => seq![5u8, pin, state],
        PayloadValue::Readmem { address, length } => seq![6u8] + le16(address) + seq![length],
        PayloadValue::ReadmemReply { data } => seq![7u8, data.len() as u8] + data,
        PayloadValue::Writemem { address, data } => seq![8u8] + le16(address) + seq![
            data.len() as u8,
        ] + data,
        PayloadValue::Readinfo => seq![9u8],
        PayloadValue::ReadinfoReply { protoversion, mac_address, datalen, fieldcount } => seq![
            10u8,
        ] + le32(protoversion) + le64(mac_address) + le16(datalen) + le16(fieldcount),
        PayloadValue::Readhumidity => seq![11u8],
        PayloadValue::ReadhumidityReply { humidity } => seq![12u8] + le32(humidity),
        PayloadValue::Readtemperature => seq![13u8],
        PayloadValue::ReadtemperatureReply { temperature } => seq![14u8] + le32(temperature),
        PayloadValue::Readanalog { pin } => seq![15u8, pin],
        PayloadValue::ReadanalogReply { pin, state } => seq![16u8, pin] + le16(state),
        PayloadValue::Readfield { index } => seq![17u8] + le16(index),
        PayloadValue::ReadfieldReply { index, offset, length, format, name } => seq![18u8] + le16(
            index,
        ) + le16(offset) + seq![length, format] + name,
    }
}

/// What a buffer that starts with an encoded payload is read as. The reader
/// looks at the kind tag and at the footprint of that kind, and at nothing
/// behind it. An unknown tag is `RcInvalidMessageType`; a length byte above
/// the capacity of its kind is `RcInvalidMemLength`.
pub open spec fn parse_wire(buf: Seq<u8>) -> Result<PayloadValue, ResultCode>
    recommends
        buf.len() >= RH_RF95_MAX_MESSAGE_LEN,
{
    match PayloadType::from_code(buf[0]) {
        None => Err(ResultCode::RcInvalidMessageType),
        Some(PayloadType::PtAck) => Ok(PayloadValue::Ack),
        Some(PayloadType::PtFail) => Ok(PayloadValue::Fail { failcode: buf[1] }),
        Some(PayloadType::PtPinmode) => Ok(PayloadValue::Pinmode { pin: buf[1], mode: buf[2] }),
        Some(PayloadType::PtReadpin) => Ok(PayloadValue::Readpin { pin: buf[1] }),
        Some(PayloadType::PtReadpinreply) => Ok(
            PayloadValue::ReadpinReply { pin: buf[1], state: buf[2] },
        ),
        Some(PayloadType::PtWritepin) => Ok(PayloadValue::Writepin { pin: buf[1], state: buf[2] }),
        Some(PayloadType::PtReadmem) => Ok(
            PayloadValue::Readmem { address: u16_at(buf, 1), length: buf[3] },
        ),
        Some(PayloadType::PtReadmemreply) => if buf[1] <= MAX_READMEM {
            Ok(PayloadValue::ReadmemReply { data: buf.subrange(2, 2 + buf[1]) })
        } else {
            Err(ResultCode::RcInvalidMemLength)
        },
        Some(PayloadType::PtWritemem) => if buf[3] <= MAX_WRITEMEM {
            Ok(PayloadValue::Writemem { address: u16_at(buf, 1), data: buf.subrange(4, 4 + buf[3]) })
        } else {
            Err(ResultCode::RcInvalidMemLength)
        },
        Some(PayloadType::PtReadinfo) => Ok(PayloadValue::Readinfo),
        Some(PayloadType::PtReadinforeply) => Ok(
            PayloadValue::ReadinfoReply {
                protoversion: u32_at(buf, 1),
                mac_address: u64_at(buf, 5),
                datalen: u16_at(buf, 13),
                fieldcount: u16_at(buf, 15),
            },
        ),
        Some(PayloadType::PtReadhumidity) => Ok(PayloadValue::Readhumidity),
        Some(PayloadType::PtReadhumidityreply) => Ok(
            PayloadValue::ReadhumidityReply { humidity: u32_at(buf, 1) },
        ),
        Some(PayloadType::PtReadtemperature) => Ok(PayloadValue::Readtemperature),
        Some(PayloadType::PtReadtemperaturereply) => Ok(
            PayloadValue::ReadtemperatureReply { temperature: u32_at(buf, 1) },
        ),
        Some(PayloadType::PtReadanalog) => Ok(PayloadValue::Readanalog { pin: buf[1] }),
        Some(PayloadType::PtReadanalogreply) => Ok(
            PayloadValue::ReadanalogReply { pin: buf[1], state: u16_at(buf, 2) },
        ),
        Some(PayloadType::PtReadfield) => Ok(PayloadValue::Readfield { index: u16_at(buf, 1) }),
        Some(PayloadType::PtReadfieldreply) => Ok(
            PayloadValue::ReadfieldReply {
                index: u16_at(buf, 1),
                offset: u16_at(buf, 3),
                length: buf[5],
                format: buf[6],
                name: buf.subrange(7, 7 + FIELD_NAME_LEN as int),
            },
        ),
    }
}

/// The code with which a payload that is not well formed is refused: its data
/// area holds the member of another kind, or the right member with a length
/// byte above its capacity.
pub open spec fn encode_error(p: &Payload) -> ResultCode {
    if !member_matches(p.payload_type, p.data) {
        ResultCode::RcInvalidMessageType
    } else {
        ResultCode::RcInvalidMemLength
    }
}

/// Appends the first `n` bytes of `src`.
pub fn push_prefix(out: &mut Vec<u8>, src: &[u8], n: usize)
    requires
        n <= src@.len(),
    ensures
        final(out)@ == old(out)@ + src@.take(n as int),
{
    let mut i: usize = 0;
    while i < n
        invariant
            i <= n <= src@.len(),
            out@ == old(out)@ + src@.take(i as int),
        decreases n - i,
    {
        out.push(src[i]);
        i = i + 1;
    }
}

/// Encodes a payload. A well-formed payload gives the bytes of its value, as
/// many as `payload_size` says and never more than one radio frame; any other
/// is refused with `encode_error`.
pub fn encode(p: &Payload) -> (r: Result<Vec<u8>, ResultCode>)
    ensures
        r is Ok <==> p.wf(),
        r matches Ok(bytes) ==> bytes@ == wire_bytes(p@) && bytes@.len() == payload_size(p)
            && bytes@.len() <= RH_RF95_MAX_MESSAGE_LEN,
        r matches Err(code) ==> code == encode_error(p),
{
    let kind = p.payload_type;
    let mut out: Vec<u8> = Vec::new();
    out.push(kind.to_u8());
    match p.data {
        PayloadData::Unit => {
            match kind {
                PayloadType::PtAck | PayloadType::PtReadinfo | PayloadType::PtReadhumidity
                | PayloadType::PtReadtemperature => {},
                _ => {
                    return Err(ResultCode::RcInvalidMessageType);
                },
            }
        },
        PayloadData::Failcode(failcode) => {
            if kind != PayloadType::PtFail {
                return Err(ResultCode::RcInvalidMessageType);
            }
            out.push(failcode);
        },
        PayloadData::Pin(pin) => {
            if kind != PayloadType::PtReadpin && kind != PayloadType::PtReadanalog {
                return Err(ResultCode::RcInvalidMessageType);
            }
            out.push(pin);
        },
        PayloadData::F(bits) => {
            if kind != PayloadType::PtReadhumidityreply && kind
                != PayloadType::PtReadtemperaturereply {
                return Err(ResultCode::RcInvalidMessageType);
            }
            push_le32(&mut out, bits);
        },
        PayloadData::Pinval(v) => {
            if kind != PayloadType::PtReadpinreply && kind != PayloadType::PtWritepin {
                return Err(ResultCode::RcInvalidMessageType);
            }
            out.push(v.pin);
            out.push(v.state);
        },
        PayloadData::Pinmode(m) => {
            if kind != PayloadType::PtPinmode {
                return Err(ResultCode::RcInvalidMessageType);
            }
            out.push(m.pin);
            out.push(m.mode);
        },
        PayloadData::AnalogPinval(v) => {
            if kind != PayloadType::PtReadanalogreply {
                return Err(ResultCode::RcInvalidMessageType);
            }
            out.push(v.pin);
            push_le16(&mut out, v.state);
        },
        PayloadData::Readmem(r) => {
            if kind != PayloadType::PtReadmem {
                return Err(ResultCode::RcInvalidMessageType);
            }
            push_le16(&mut out, r.address);
            out.push(r.length);
        },
        PayloadData::ReadmemReply(r) => {
            if kind != PayloadType::PtReadmemreply {
                return Err(ResultCode::RcInvalidMessageType);
            }
            if r.length as usize > MAX_READMEM {
                return Err(ResultCode::RcInvalidMemLength);
            }
            out.push(r.length);
            push_prefix(&mut out, r.data.as_slice(), r.length as usize);
        },
        PayloadData::Writemem(w) => {
            if kind != PayloadType::PtWritemem {
                return Err(ResultCode::RcInvalidMessageType);
            }
            if w.length as usize > MAX_WRITEMEM {
                return Err(ResultCode::RcInvalidMemLength);
            }
            push_le16(&mut out, w.address);
            out.push(w.length);
            push_prefix(&mut out, w.data.as_slice(), w.length as usize);
        },
        PayloadData::RemoteInfo(i) => {
            if kind != PayloadType::PtReadinforeply {
                return Err(ResultCode::RcInvalidMessageType);
            }
            push_le32(&mut out, i.protoversion);
            push_le64(&mut out, i.mac_address);
            push_le16(&mut out, i.datalen);
            push_le16(&mut out, i.fieldcount);
        },
        PayloadData::ReadField(f) => {
            if kind != PayloadType::PtReadfield {
                return Err(ResultCode::RcInvalidMessageType);
            }
            push_le16(&mut out, f.index);
        },
        PayloadData::ReadFieldReply(f) => {
            if kind != PayloadType::PtReadfieldreply {
                return Err(ResultCode::RcInvalidMessageType);
            }
            push_le16(&mut out, f.index);
            push_le16(&mut out, f.offset);
            out.push(f.length);
            out.push(f.format);
            push_prefix(&mut out, f.name.as_slice(), FIELD_NAME_LEN);
        },
    }
    Ok(out)
}

/// The packed record of a well-formed payload: the kind tag, then the whole
/// member of the data area. It starts with the encoding of the payload; the
/// two variable-length members go on with the padding of their arrays.
pub open spec fn packed_bytes(p: &Payload) -> Seq<u8> {
    match p.data {
        PayloadData::ReadmemReply(r) => seq![p.payload_type.code(), r.length] + r.data@,
        PayloadData::Writemem(w) => seq![p.payload_type.code()] + le16(w.address) + seq![
            w.length,
        ] + w.data@,
        _ => wire_bytes(p@),
    }
}

/// The packed record of a well-formed payload starts with its encoding and
/// fits one radio frame.
pub proof fn lemma_packed_starts_with_wire(p: Payload)
    requires
        p.wf(),
    ensures
        wire_bytes(p@).len() == spec_payload_size(&p),
        spec_payload_size(&p) <= packed_bytes(&p).len() <= RH_RF95_MAX_MESSAGE_LEN,
        packed_bytes(&p).take(spec_payload_size(&p) as int) == wire_bytes(p@),
{
    let n = spec_payload_size(&p) as int;
    assert(packed_bytes(&p).take(n) =~= wire_bytes(p@));
}

/// Number of bytes of the payload that a buffer starts with, as its kind tag
/// and, for the two variable-length kinds, its length byte say. A kind tag
/// that is not known counts no bytes.
pub open spec fn staged_size(buf: Seq<u8>) -> nat {
    match PayloadType::from_code(buf[0]) {
        None => 0,
        Some(kind) => match kind {
            PayloadType::PtAck | PayloadType::PtReadinfo | PayloadType::PtReadhumidity
            | PayloadType::PtReadtemperature => 1,
            PayloadType::PtFail | PayloadType::PtReadpin | PayloadType::PtReadanalog => 2,
            PayloadType::PtPinmode | PayloadType::PtReadpinreply | PayloadType::PtWritepin
            | PayloadType::PtReadfield => 3,
            PayloadType::PtReadmem | PayloadType::PtReadanalogreply => 4,
            PayloadType::PtReadhumidityreply | PayloadType::PtReadtemperaturereply => 5,
            PayloadType::PtReadinforeply => 17,
            PayloadType::PtReadfieldreply => 32,
            PayloadType::PtReadmemreply => (2 + buf[1]) as nat,
            PayloadType::PtWritemem => (4 + buf[3]) as nat,
        },
    }
}

/// The staged size is the length of the encoding of what the buffer reads as.
/// A buffer with a known kind tag is refused by the reader exactly when its
/// staged size is more than one radio frame.
pub proof fn lemma_staged_size(buf: Seq<u8>)
    requires
        buf.len() >= RH_RF95_MAX_MESSAGE_LEN,
    ensures
        parse_wire(buf) matches Ok(v) ==> staged_size(buf) == wire_bytes(v).len(),
        parse_wire(buf) == Err::<PayloadValue, ResultCode>(ResultCode::RcInvalidMemLength)
            <==> staged_size(buf) > RH_RF95_MAX_MESSAGE_LEN,
        parse_wire(buf) == Err::<PayloadValue, ResultCode>(ResultCode::RcInvalidMessageType)
            <==> PayloadType::from_code(buf[0]) is None,
        staged_size(buf) <= 259,
{
    PayloadType::lemma_from_code_sound(buf[0]);
}

/// A buffer that starts with the encoding of a well-formed payload has the
/// size of that payload as its staged size.
pub proof fn lemma_staged_size_of_payload(p: Payload, buf: Seq<u8>)
    requires
        p.wf(),
        buf.len() >= RH_RF95_MAX_MESSAGE_LEN,
        buf.take(spec_payload_size(&p) as int) == wire_bytes(p@),
    ensures
        staged_size(buf) == spec_payload_size(&p),
        parse_wire(buf) == Ok::<PayloadValue, ResultCode>(p@),
{
    lemma_size_law(p);
    lemma_parse_of_wire(p@, buf);
    lemma_staged_size(buf);
}

/// Whether `r` is what reading `buf` gives: the error that `parse_wire` gives,
/// or the one well-formed payload with zero padding that has the value that
/// `parse_wire` gives.
pub open spec fn is_reading_of(r: Result<Payload, ResultCode>, buf: Seq<u8>) -> bool {
    match parse_wire(buf) {
        Ok(v) => r matches Ok(p) && p.wf() && p.zero_padding() && p@ == v,
        Err(code) => r == Err::<Payload, ResultCode>(code),
    }
}

/// What a buffer holds after `bytes` were stored at its start: as many of
/// them as fit in one radio frame, then what the buffer held behind them.
pub open spec fn stored(buf: Seq<u8>, bytes: Seq<u8>) -> Seq<u8> {
    let n = if bytes.len() <= RH_RF95_MAX_MESSAGE_LEN {
        bytes.len() as int
    } else {
        RH_RF95_MAX_MESSAGE_LEN as int
    };
    bytes.take(n) + buf.skip(n)
}

/// A buffer of one radio frame, in which a payload is received or staged.
#[derive(Clone, Copy, Debug, PartialEq, Eq)]
pub struct Msgbuf {
    pub buf: [u8; RH_RF95_MAX_MESSAGE_LEN],
}

impl Msgbuf {
    /// What a new buffer holds: one radio frame of zeros.
    pub open spec fn new_buf() -> Seq<u8> {
        zero_padded(Seq::<u8>::empty(), RH_RF95_MAX_MESSAGE_LEN as nat)
    }

    /// A buffer of zeros. It reads as an `Ack`.
    pub fn new() -> (m: Msgbuf)
        ensures
            m.buf@ == Msgbuf::new_buf(),
    {
        let m = Msgbuf { buf: [0u8; RH_RF95_MAX_MESSAGE_LEN] };
        m
    }

    /// The buffer after `bytes` were stored at its start.
    pub open spec fn filled(self, bytes: Seq<u8>) -> Seq<u8> {
        stored(self.buf@, bytes)
    }

    /// Stores `bytes` at the start of the buffer, as many as fit, and leaves
    /// the rest of the buffer as it was. Returns how many were stored.
    pub fn fill(&mut self, bytes: &[u8]) -> (n: usize)
        ensures
            n == if bytes@.len() <= RH_RF95_MAX_MESSAGE_LEN {
                bytes@.len()
            } else {
                RH_RF95_MAX_MESSAGE_LEN as nat
            },
            final(self).buf@ == old(self).filled(bytes@),
    {
        let n = if bytes.len() <= RH_RF95_MAX_MESSAGE_LEN {
            bytes.len()
        } else {
            RH_RF95_MAX_MESSAGE_LEN
        };
        let mut i: usize = 0;
        while i < n
            invariant
                i <= n <= RH_RF95_MAX_MESSAGE_LEN,
                n <= bytes@.len(),
                forall|j: int| 0 <= j < i ==> self.buf@[j] == bytes@[j],
                forall|j: int| i <= j < RH_RF95_MAX_MESSAGE_LEN ==> self.buf@[j] == old(self).buf@[j],
            decreases n - i,
        {
            self.buf[i] = bytes[i];
            i = i + 1;
        }
        n
    }

    /// Reads the payload at the start of the buffer.
    pub fn payload(&self) -> (r: Result<Payload, ResultCode>)
        ensures
            is_reading_of(r, self.buf@),
    {
        let buf = self.buf.as_slice();
        let kind = match PayloadType::from_u8(buf[0]) {
            None => {
                return Err(ResultCode::RcInvalidMessageType);
            },
            Some(kind) => kind,
        };
        let data = match kind {
            PayloadType::PtAck | PayloadType::PtReadinfo | PayloadType::PtReadhumidity
            | PayloadType::PtReadtemperature => PayloadData::Unit,
            PayloadType::PtFail => PayloadData::Failcode(buf[1]),
            PayloadType::PtPinmode => PayloadData::Pinmode(Pinmode { pin: buf[1], mode: buf[2] }),
            PayloadType::PtReadpin | PayloadType::PtReadanalog => PayloadData::Pin(buf[1]),
            PayloadType::PtReadpinreply | PayloadType::PtWritepin => PayloadData::Pinval(
                Pinval { pin: buf[1], state: buf[2] },
            ),
            PayloadType::PtReadmem => PayloadData::Readmem(
                Readmem { address: read_le16(buf, 1), length: buf[3] },
            ),
            PayloadType::PtReadmemreply => {
                let length = buf[1];
                if length as usize > MAX_READMEM {
                    return Err(ResultCode::RcInvalidMemLength);
                }
                let r = ReadmemReplyUnion {
                    length,
                    data: padded_copy(slice_subrange(buf, 2, 2 + length as usize)),
                };
                proof {
                    assert(r.content() =~= buf@.subrange(2, 2 + length));
                }
                PayloadData::ReadmemReply(r)
            },
            PayloadType::PtWritemem => {
                let length = buf[3];
                if length as usize > MAX_WRITEMEM {
                    return Err(ResultCode::RcInvalidMemLength);
                }
                let w = WritememUnion {
                    address: read_le16(buf, 1),
                    length,
                    data: padded_copy(slice_subrange(buf, 4, 4 + length as usize)),
                };
                proof {
                    assert(w.content() =~= buf@.subrange(4, 4 + length));
                }
                PayloadData::Writemem(w)
            },
            PayloadType::PtReadinforeply => PayloadData::RemoteInfo(
                RemoteInfo {
                    protoversion: read_le32(buf, 1),
                    mac_address: read_le64(buf, 5),
                    datalen: read_le16(buf, 13),
                    fieldcount: read_le16(buf, 15),
                },
            ),
            PayloadType::PtReadhumidityreply | PayloadType::PtReadtemperaturereply => {
                PayloadData::F(read_le32(buf, 1))
            },
            PayloadType::PtReadanalogreply => PayloadData::AnalogPinval(
                AnalogPinval { pin: buf[1], state: read_le16(buf, 2) },
            ),
            PayloadType::PtReadfield => PayloadData::ReadField(
                ReadField { index: read_le16(buf, 1) },
            ),
            PayloadType::PtReadfieldreply => {
                let name: [u8; FIELD_NAME_LEN] = padded_copy(
                    slice_subrange(buf, 7, 7 + FIELD_NAME_LEN),
                );
                proof {
                    assert(name@ =~= buf@.subrange(7, 7 + FIELD_NAME_LEN as int));
                }
                PayloadData::ReadFieldReply(
                    ReadFieldReply {
                        index: read_le16(buf, 1),
                        offset: read_le16(buf, 3),
                        length: buf[5],
                        format: buf[6],
                        name,
                    },
                )
            },
        };
        Ok(Payload { payload_type: kind, data })
    }

    /// Number of bytes of the payload that the buffer starts with, as its
    /// kind tag and length byte say; none for a kind tag that is not known.
    pub fn payload_size(&self) -> (size: usize)
        ensures
            size == staged_size(self.buf@),
            size <= 259,
    {
        let kind = match PayloadType::from_u8(self.buf[0]) {
            None => {
                return 0;
            },
            Some(kind) => kind,
        };
        match kind {
            PayloadType::PtAck | PayloadType::PtReadinfo | PayloadType::PtReadhumidity
            | PayloadType::PtReadtemperature => 1,
            PayloadType::PtFail | PayloadType::PtReadpin | PayloadType::PtReadanalog => 2,
            PayloadType::PtPinmode | PayloadType::PtReadpinreply | PayloadType::PtWritepin
            | PayloadType::PtReadfield => 3,
            PayloadType::PtReadmem | PayloadType::PtReadanalogreply => 4,
            PayloadType::PtReadhumidityreply | PayloadType::PtReadtemperaturereply => 5,
            PayloadType::PtReadinforeply => 17,
            PayloadType::PtReadfieldreply => 32,
            PayloadType::PtReadmemreply => 2 + self.buf[1] as usize,
            PayloadType::PtWritemem => 4 + self.buf[3] as usize,
        }
    }

    /// Stages a payload: stores its packed record at the start of the buffer,
    /// padding of a variable-length member included, and leaves the rest of
    /// the buffer as it was. The buffer then starts with the encoding of the
    /// payload. A payload that is not well formed is refused with
    /// `encode_error`, and the buffer is not touched.
    pub fn set_payload(&mut self, p: &Payload) -> (rc: ResultCode)
        ensures
            rc == ResultCode::RcOk <==> p.wf(),
            p.wf() ==> {
                &&& final(self).buf@ == old(self).filled(packed_bytes(p))
                &&& final(self).buf@.take(spec_payload_size(p) as int) == wire_bytes(p@)
                &&& staged_size(final(self).buf@) == spec_payload_size(p)
            },
            !p.wf() ==> rc == encode_error(p) && *final(self) == *old(self),
    {
        match encode(p) {
            Ok(bytes) => {
                let mut record = bytes;
                match p.data {
                    PayloadData::ReadmemReply(r) => {
                        let padding = slice_subrange(r.data.as_slice(), r.length as usize, MAX_READMEM);
                        push_prefix(&mut record, padding, MAX_READMEM - r.length as usize);
                        assert(record@ =~= packed_bytes(p));
                    },
                    PayloadData::Writemem(w) => {
                        let padding = slice_subrange(w.data.as_slice(), w.length as usize, MAX_WRITEMEM);
                        push_prefix(&mut record, padding, MAX_WRITEMEM - w.length as usize);
                        assert(record@ =~= packed_bytes(p));
                    },
                    _ => {},
                }
                self.fill(record.as_slice());
                proof {
                    lemma_packed_starts_with_wire(*p);
                    let n = spec_payload_size(p) as int;
                    assert(self.buf@.take(n) =~= packed_bytes(p).take(n));
                    lemma_staged_size_of_payload(*p, self.buf@);
                }
                ResultCode::RcOk
            },
            Err(code) => code,
        }
    }
}

/// One radio frame that starts with `bytes`: as many of them as fit, then
/// zeros.
pub open spec fn staged(bytes: Seq<u8>) -> Seq<u8> {
    stored(Msgbuf::new_buf(), bytes)
}

/// Decodes the payload that `bytes` starts with. At most one radio frame of
/// `bytes` is looked at, and bytes that a short input lacks are read as zero.
pub fn decode(bytes: &[u8]) -> (r: Result<Payload, ResultCode>)
    ensures
        is_reading_of(r, staged(bytes@)),
{
    let mut m = Msgbuf::new();
    m.fill(bytes);
    m.payload()
}

/// Size law: a well-formed payload has a well-formed value, and the encoding
/// of that value has exactly `payload_size` bytes, at most one radio frame.
pub proof fn lemma_size_law(p: Payload)
    requires
        p.wf(),
    ensures
        p@.wf(),
        p@.kind() == p.payload_type,
        wire_bytes(p@).len() == spec_payload_size(&p),
        1 <= wire_bytes(p@).len() <= RH_RF95_MAX_MESSAGE_LEN,
        wire_bytes(p@)[0] == p.payload_type.code(),
{
}

/// Round trip of values: a buffer that starts with the encoding of a
/// well-formed value reads as that value, whatever stands behind the encoding.
pub proof fn lemma_parse_of_wire(v: PayloadValue, buf: Seq<u8>)
    requires
        v.wf(),
        wire_bytes(v).len() <= buf.len(),
        buf.take(wire_bytes(v).len() as int) == wire_bytes(v),
    ensures
        parse_wire(buf) == Ok::<PayloadValue, ResultCode>(v),
{
    let w = wire_bytes(v);
    let n = w.len() as int;
    assert forall|i: int| 0 <= i < n implies buf[i] == w[i] by {
        assert(buf.take(n)[i] == buf[i]);
    }
    match v {
        PayloadValue::Readmem { address, .. } => {
            assert(buf.subrange(1, 3) =~= le16(address));
            crate::le::lemma_le16_round_trip(address, buf, 1);
        },
        PayloadValue::ReadmemReply { data } => {
            assert(buf.subrange(2, 2 + data.len() as int) =~= data);
        },
        PayloadValue::Writemem { address, data } => {
            assert(buf.subrange(1, 3) =~= le16(address));
            crate::le::lemma_le16_round_trip(address, buf, 1);
            assert(buf.subrange(4, 4 + data.len() as int) =~= data);
        },
        PayloadValue::ReadinfoReply { protoversion, mac_address, datalen, fieldcount } => {
            assert(buf.subrange(1, 5) =~= le32(protoversion));
            assert(buf.subrange(5, 13) =~= le64(mac_address));
            assert(buf.subrange(13, 15) =~= le16(datalen));
            assert(buf.subrange(15, 17) =~= le16(fieldcount));
            crate::le::lemma_le32_round_trip(protoversion, buf, 1);
            crate::le::lemma_le64_round_trip(mac_address, buf, 5);
            crate::le::lemma_le16_round_trip(datalen, buf, 13);
            crate::le::lemma_le16_round_trip(fieldcount, buf, 15);
        },
        PayloadValue::ReadhumidityReply { humidity } => {
            assert(buf.subrange(1, 5) =~= le32(humidity));
            crate::le::lemma_le32_round_trip(humidity, buf, 1);
        },
        PayloadValue::ReadtemperatureReply { temperature } => {
            assert(buf.subrange(1, 5) =~= le32(temperature));
            crate::le::lemma_le32_round_trip(temperature, buf, 1);
        },
        PayloadValue::ReadanalogReply { state, .. } => {
            assert(buf.subrange(2, 4) =~= le16(state));
            crate::le::lemma_le16_round_trip(state, buf, 2);
        },
        PayloadValue::Readfield { index } => {
            assert(buf.subrange(1, 3) =~= le16(index));
            crate::le::lemma_le16_round_trip(index, buf, 1);
        },
        PayloadValue::ReadfieldReply { index, offset, name, .. } => {
            assert(buf.subrange(1, 3) =~= le16(index));
            assert(buf.subrange(3, 5) =~= le16(offset));
            crate::le::lemma_le16_round_trip(index, buf, 1);
            crate::le::lemma_le16_round_trip(offset, buf, 3);
            assert(buf.subrange(7, 7 + FIELD_NAME_LEN as int) =~= name);
        },
        _ => {},
    }
}

/// What a buffer reads as is well formed, and its encoding is the start of
/// that buffer: reading forgets nothing but what stands behind the payload.
pub proof fn lemma_wire_of_parse(buf: Seq<u8>)
    requires
        buf.len() >= RH_RF95_MAX_MESSAGE_LEN,
        parse_wire(buf) is Ok,
    ensures
        parse_wire(buf)->Ok_0.wf(),
        wire_bytes(parse_wire(buf)->Ok_0).len() <= RH_RF95_MAX_MESSAGE_LEN,
        buf.take(wire_bytes(parse_wire(buf)->Ok_0).len() as int) == wire_bytes(
            parse_wire(buf)->Ok_0,
        ),
{
    let v = parse_wire(buf)->Ok_0;
    PayloadType::lemma_from_code_sound(buf[0]);
    match v {
        PayloadValue::Readmem { .. } | PayloadValue::Readfield { .. } | PayloadValue::Writemem {
            ..
        } => {
            crate::le::lemma_le16_of_read(buf, 1);
        },
        PayloadValue::ReadinfoReply { .. } => {
            crate::le::lemma_le32_of_read(buf, 1);
            crate::le::lemma_le64_of_read(buf, 5);
            crate::le::lemma_le16_of_read(buf, 13);
            crate::le::lemma_le16_of_read(buf, 15);
        },
        PayloadValue::ReadhumidityReply { .. } | PayloadValue::ReadtemperatureReply { .. } => {
            crate::le::lemma_le32_of_read(buf, 1);
        },
        PayloadValue::ReadanalogReply { .. } => {
            crate::le::lemma_le16_of_read(buf, 2);
        },
        PayloadValue::ReadfieldReply { .. } => {
            crate::le::lemma_le16_of_read(buf, 1);
            crate::le::lemma_le16_of_read(buf, 3);
        },
        _ => {},
    }
}

/// Round trip of payloads: what `encode` gives for a well-formed payload
/// decodes to a payload of the same value, equal in every named field and in
/// the bytes of variable-length data that are meant. Where the padding of the
/// first payload is zero, the two payloads are equal outright.
pub proof fn lemma_decode_of_encode(p: Payload, r: Result<Payload, ResultCode>)
    requires
        p.wf(),
        is_reading_of(r, staged(wire_bytes(p@))),
    ensures
        r matches Ok(q) && q.wf() && q@ == p@ && q.payload_type == p.payload_type,
        p.zero_padding() ==> r == Ok::<Payload, ResultCode>(p),
{
    lemma_size_law(p);
    let w = wire_bytes(p@);
    assert(staged(w).take(w.len() as int) =~= w);
    lemma_parse_of_wire(p@, staged(w));
    let q = r->Ok_0;
    lemma_size_law(q);
    if p.zero_padding() {
        lemma_same_value_same_payload(p, q);
    }
}

/// Two well-formed payloads with zero padding and the same value are equal.
pub proof fn lemma_same_value_same_payload(p: Payload, q: Payload)
    requires
        p.wf(),
        q.wf(),
        p.zero_padding(),
        q.zero_padding(),
        p@ == q@,
    ensures
        p == q,
{
    lemma_size_law(p);
    lemma_size_law(q);
    match (p.data, q.data) {
        (PayloadData::ReadmemReply(a), PayloadData::ReadmemReply(b)) => {
            assert(a.data =~= b.data);
        },
        (PayloadData::Writemem(a), PayloadData::Writemem(b)) => {
            assert(a.data =~= b.data);
        },
        (PayloadData::ReadFieldReply(a), PayloadData::ReadFieldReply(b)) => {
            assert(a.name =~= b.name);
        },
        _ => {},
    }
}

} // verus!
