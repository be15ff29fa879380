//! Constructors: one per kind of payload. Each overwrites the payload it is
//! given; the two with variable-length data check the length first.

use vstd::prelude::*;
use crate::codes::{FieldFormat, PayloadType, ResultCode};
use crate::payload::{
    zero_padded, AnalogPinval, Payload, PayloadData, PayloadValue, Pinmode, Pinval, ReadField,
    ReadFieldReply, Readmem, ReadmemReplyUnion, RemoteInfo, WritememUnion, FIELD_NAME_LEN,
    MAX_READMEM, MAX_WRITEMEM,
};

verus! {

/// The first `N` bytes of `src`, followed by zeros where `src` is shorter.
pub fn padded_copy<const N: usize>(src: &[u8]) -> (out: [u8; N])
    ensures
        src@.len() <= N ==> out@ == zero_padded(src@, N as nat),
        src@.len() > N ==> out@ == src@.take(N as int),
{
    let mut out: [u8; N] = [0u8; N];
    let mut i: usize = 0;
    let n = if src.len() <= N { src.len() } else { N };
    while i < n
        invariant
            i <= n <= N,
            n <= src@.len(),
            forall|j: int| 0 <= j < i ==> out@[j] == src@[j],
            forall|j: int| i <= j < N ==> out@[j] == 0,
        decreases n - i,
    {
        out[i] = src[i];
        i = i + 1;
    }
    out
}

/// Makes `p` an `Ack`.
pub fn setup_ack(p: &mut Payload)
    ensures
        *final(p) == (Payload { payload_type: PayloadType::PtAck, data: PayloadData::Unit }),
        final(p).wf(),
        final(p)@ == PayloadValue::Ack,
{
    p.payload_type = PayloadType::PtAck;
    p.data = PayloadData::Unit;
}

/// Makes `p` a `Readinfo` request.
pub fn setup_readinfo(p: &mut Payload)
    ensures
        *final(p) == (Payload { payload_type: PayloadType::PtReadinfo, data: PayloadData::Unit }),
        final(p).wf(),
        final(p)@ == (PayloadValue::Readinfo),
{
    p.payload_type = PayloadType::PtReadinfo;
    p.data = PayloadData::Unit;
}

/// Makes `p` a `Readhumidity` request.
pub fn setup_readhumidity(p: &mut Payload)
    ensures
        *final(p) == (Payload { payload_type: PayloadType::PtReadhumidity, data: PayloadData::Unit }),
        final(p).wf(),
        final(p)@ == (PayloadValue::Readhumidity),
{
    p.payload_type = PayloadType::PtReadhumidity;
    p.data = PayloadData::Unit;
}

/// Makes `p` a `Readtemperature` request.
pub fn setup_readtemperature(p: &mut Payload)
    ensures
        *final(p) == (Payload { payload_type: PayloadType::PtReadtemperature, data: PayloadData::Unit }),
        final(p).wf(),
        final(p)@ == (PayloadValue::Readtemperature),
{
    p.payload_type = PayloadType::PtReadtemperature;
    p.data = PayloadData::Unit;
}

/// Makes `p` a `Fail` that carries the code of `rc`.
pub fn setup_fail(p: &mut Payload, rc: ResultCode)
    ensures
        *final(p) == (Payload {
            payload_type: PayloadType::PtFail,
            data: PayloadData::Failcode(rc.code()),
        }),
        final(p).wf(),
        final(p)@ == (PayloadValue::Fail { failcode: rc.code() }),
{
    p.payload_type = PayloadType::PtFail;
    p.data = PayloadData::Failcode(rc.to_u8());
}

/// Makes `p` a `Pinmode` request.
pub fn setup_pinmode(p: &mut Payload, pin: u8, mode: u8)
    ensures
        *final(p) == (Payload { payload_type: PayloadType::PtPinmode, data: PayloadData::Pinmode(Pinmode { pin, mode }) }),
        final(p).wf(),
        final(p)@ == (PayloadValue::Pinmode { pin, mode }),
{
    p.payload_type = PayloadType::PtPinmode;
    p.data = PayloadData::Pinmode(Pinmode { pin, mode });
}

/// Makes `p` a `Readpin` request.
pub fn setup_readpin(p: &mut Payload, pin: u8)
    ensures
        *final(p) == (Payload { payload_type: PayloadType::PtReadpin, data: PayloadData::Pin(pin) }),
        final(p).wf(),
        final(p)@ == (PayloadValue::Readpin { pin }),
{
    p.payload_type = PayloadType::PtReadpin;
    p.data = PayloadData::Pin(pin);
}

/// Makes `p` a `ReadpinReply`.
pub fn setup_readpinreply(p: &mut Payload, pin: u8, state: u8)
    ensures
        *final(p) == (Payload { payload_type: PayloadType::PtReadpinreply, data: PayloadData::Pinval(Pinval { pin, state }) }),
        final(p).wf(),
        final(p)@ == (PayloadValue::ReadpinReply { pin, state }),
{
    p.payload_type = PayloadType::PtReadpinreply;
    p.data = PayloadData::Pinval(Pinval { pin, state });
}

/// Makes `p` a `Writepin` request.
pub fn setup_writepin(p: &mut Payload, pin: u8, state: u8)
    ensures
        *final(p) == (Payload { payload_type: PayloadType::PtWritepin, data: PayloadData::Pinval(Pinval { pin, state }) }),
        final(p).wf(),
        final(p)@ == (PayloadValue::Writepin { pin, state }),
{
    p.payload_type = PayloadType::PtWritepin;
    p.data = PayloadData::Pinval(Pinval { pin, state });
}

/// Makes `p` a `Readanalog` request.
pub fn setup_readanalog(p: &mut Payload, pin: u8)
    ensures
        *final(p) == (Payload { payload_type: PayloadType::PtReadanalog, data: PayloadData::Pin(pin) }),
        final(p).wf(),
        final(p)@ == (PayloadValue::Readanalog { pin }),
{
    p.payload_type = PayloadType::PtReadanalog;
    p.data = PayloadData::Pin(pin);
}

/// Makes `p` a `ReadanalogReply`.
pub fn setup_readanalogreply(p: &mut Payload, pin: u8, state: u16)
    ensures
        *final(p) == (Payload { payload_type: PayloadType::PtReadanalogreply, data: PayloadData::AnalogPinval(AnalogPinval { pin, state }) }),
        final(p).wf(),
        final(p)@ == (PayloadValue::ReadanalogReply { pin, state }),
{
    p.payload_type = PayloadType::PtReadanalogreply;
    p.data = PayloadData::AnalogPinval(AnalogPinval { pin, state });
}

/// Makes `p` a `Readmem` request.
pub fn setup_readmem(p: &mut Payload, address: u16, length: u8)
    ensures
        *final(p) == (Payload { payload_type: PayloadType::PtReadmem, data: PayloadData::Readmem(Readmem { address, length }) }),
        final(p).wf(),
        final(p)@ == (PayloadValue::Readmem { address, length }),
{
    p.payload_type = PayloadType::PtReadmem;
    p.data = PayloadData::Readmem(Readmem { address, length });
}

/// Makes `p` a `ReadmemReply` that carries `mem`, if `mem` fits. Where it does
/// not, only the kind of `p` is changed and `RcInvalidMemLength` is returned.
pub fn setup_readmemreply(p: &mut Payload, mem: &[u8]) -> (rc: ResultCode)
    ensures
        final(p).payload_type == PayloadType::PtReadmemreply,
        rc == ResultCode::RcOk <==> mem@.len() <= MAX_READMEM,
        rc == ResultCode::RcInvalidMemLength <==> mem@.len() > MAX_READMEM,
        mem@.len() <= MAX_READMEM ==> {
            &&& final(p).data matches PayloadData::ReadmemReply(r)
            &&& r.length == mem@.len()
            &&& r.data@ == zero_padded(mem@, MAX_READMEM as nat)
            &&& final(p).wf()
            &&& final(p).zero_padding()
            &&& final(p)@ == (PayloadValue::ReadmemReply { data: mem@ })
        },
        mem@.len() > MAX_READMEM ==> final(p).data == old(p).data,
{
    p.payload_type = PayloadType::PtReadmemreply;
    if mem.len() <= MAX_READMEM {
        let r = ReadmemReplyUnion { length: mem.len() as u8, data: padded_copy(mem) };
        proof {
            assert(r.content() =~= mem@);
        }
        p.data = PayloadData::ReadmemReply(r);
        ResultCode::RcOk
    } else {
        ResultCode::RcInvalidMemLength
    }
}

/// Makes `p` a `Writemem` request that carries `mem` for `address`, if `mem`
/// fits. Where it does not, only the kind of `p` is changed and
/// `RcInvalidMemLength` is returned.
pub fn setup_writemem(p: &mut Payload, address: u16, mem: &[u8]) -> (rc: ResultCode)
    ensures
        final(p).payload_type == PayloadType::PtWritemem,
        rc == ResultCode::RcOk <==> mem@.len() <= MAX_WRITEMEM,
        rc == ResultCode::RcInvalidMemLength <==> mem@.len() > MAX_WRITEMEM,
        mem@.len() <= MAX_WRITEMEM ==> {
            &&& final(p).data matches PayloadData::Writemem(w)
            &&& w.address == address
            &&& w.length == mem@.len()
            &&& w.data@ == zero_padded(mem@, MAX_WRITEMEM as nat)
            &&& final(p).wf()
            &&& final(p).zero_padding()
            &&& final(p)@ == (PayloadValue::Writemem { address, data: mem@ })
        },
        mem@.len() > MAX_WRITEMEM ==> final(p).data == old(p).data,
{
    p.payload_type = PayloadType::PtWritemem;
    if mem.len() <= MAX_WRITEMEM {
        let w = WritememUnion { address, length: mem.len() as u8, data: padded_copy(mem) };
        proof {
            assert(w.content() =~= mem@);
        }
        p.data = PayloadData::Writemem(w);
        ResultCode::RcOk
    } else {
        ResultCode::RcInvalidMemLength
    }
}

/// Makes `p` a `ReadinfoReply`. `protoversion` holds the bits of a single-precision
/// number.
pub fn setup_readinforeply(p: &mut Payload, protoversion: u32, mac_address: u64, datalen: u16, fieldcount: u16)
    ensures
        *final(p) == (Payload { payload_type: PayloadType::PtReadinforeply, data: PayloadData::RemoteInfo(RemoteInfo { protoversion, mac_address, datalen, fieldcount }) }),
        final(p).wf(),
        final(p)@ == (PayloadValue::ReadinfoReply { protoversion, mac_address, datalen, fieldcount }),
{
    p.payload_type = PayloadType::PtReadinforeply;
    p.data = PayloadData::RemoteInfo(RemoteInfo { protoversion, mac_address, datalen, fieldcount });
}

/// Makes `p` a `Readfield` request.
pub fn setup_readfield(p: &mut Payload, index: u16)
    ensures
        *final(p) == (Payload { payload_type: PayloadType::PtReadfield, data: PayloadData::ReadField(ReadField { index }) }),
        final(p).wf(),
        final(p)@ == (PayloadValue::Readfield { index }),
{
    p.payload_type = PayloadType::PtReadfield;
    p.data = PayloadData::ReadField(ReadField { index });
}

/// The name field that `name` is stored as: its first 25 bytes, NUL padded
/// where it is shorter.
pub open spec fn stored_name(name: Seq<u8>) -> Seq<u8> {
    if name.len() <= FIELD_NAME_LEN {
        zero_padded(name, FIELD_NAME_LEN as nat)
    } else {
        name.take(FIELD_NAME_LEN as int)
    }
}

/// Makes `p` a `ReadfieldReply`. The name field is never written past its 25
/// bytes: a longer `name` is cut, a shorter one is NUL padded.
pub fn setup_readfieldreply(
    p: &mut Payload,
    index: u16,
    offset: u16,
    length: u8,
    format: FieldFormat,
    name: &[u8],
)
    ensures
        final(p).payload_type == PayloadType::PtReadfieldreply,
        final(p).data matches PayloadData::ReadFieldReply(f) && f.index == index && f.offset
            == offset && f.length == length && f.format == format.code() && f.name@ == stored_name(
            name@,
        ),
        final(p).wf(),
        final(p)@ == (PayloadValue::ReadfieldReply {
            index,
            offset,
            length,
            format: format.code(),
            name: stored_name(name@),
        }),
{
    p.payload_type = PayloadType::PtReadfieldreply;
    p.data = PayloadData::ReadFieldReply(
        ReadFieldReply { index, offset, length, format: format.to_u8(), name: padded_copy(name) },
    );
}

/// Makes `p` a `ReadhumidityReply`. `humidity` holds the bits of a single-precision
/// number.
pub fn setup_readhumidityreply(p: &mut Payload, humidity: u32)
    ensures
        *final(p) == (Payload { payload_type: PayloadType::PtReadhumidityreply, data: PayloadData::F(humidity) }),
        final(p).wf(),
        final(p)@ == (PayloadValue::ReadhumidityReply { humidity }),
{
    p.payload_type = PayloadType::PtReadhumidityreply;
    p.data = PayloadData::F(humidity);
}

/// Makes `p` a `ReadtemperatureReply`. `temperature` holds the bits of a
/// single-precision number.
pub fn setup_readtemperaturereply(p: &mut Payload, temperature: u32)
    ensures
        *final(p) == (Payload { payload_type: PayloadType::PtReadtemperaturereply, data: PayloadData::F(temperature) }),
        final(p).wf(),
        final(p)@ == (PayloadValue::ReadtemperatureReply { temperature }),
{
    p.payload_type = PayloadType::PtReadtemperaturereply;
    p.data = PayloadData::F(temperature);
}

} // verus!
