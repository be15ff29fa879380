//! The payload model: a one-byte kind tag with the data of that kind.
//!
//! [`Payload`] is the packed form. Its data area holds one member at a time,
//! as the firmware's packed record does; the two variable-length members keep
//! a length byte beside a fixed-capacity array. [`PayloadValue`] is the
//! mathematical value that a well-formed payload stands for, and the contracts
//! of this crate are stated over it.

use vstd::prelude::*;
use crate::codes::{FieldFormat, PayloadType};

verus! {

/// Largest number of bytes that one encoded payload may take: one radio frame.
pub const RH_RF95_MAX_MESSAGE_LEN: usize = 251;

/// Largest number of data bytes in a `Writemem` payload.
pub const MAX_WRITEMEM: usize = 247;

/// Largest number of data bytes in a `ReadmemReply` payload.
pub const MAX_READMEM: usize = 249;

/// Width of the name field of a `ReadfieldReply` payload.
pub const FIELD_NAME_LEN: usize = 25;

/// General information about a remote node. `protoversion` holds the bits of
/// an IEEE-754 single-precision number.
#[derive(Clone, Copy, Debug, PartialEq, Eq)]
pub struct RemoteInfo {
    pub protoversion: u32,
    pub mac_address: u64,
    pub datalen: u16,
    pub fieldcount: u16,
}

/// A digital pin and its state.
#[derive(Clone, Copy, Debug, PartialEq, Eq)]
pub struct Pinval {
    pub pin: u8,
    pub state: u8,
}

/// An analog pin and the value read from it.
#[derive(Clone, Copy, Debug, PartialEq, Eq)]
pub struct AnalogPinval {
    pub pin: u8,
    pub state: u16,
}

/// A pin and the mode to set it to.
#[derive(Clone, Copy, Debug, PartialEq, Eq)]
pub struct Pinmode {
    pub pin: u8,
    pub mode: u8,
}

/// A request to read `length` bytes of remote memory at `address`.
#[derive(Clone, Copy, Debug, PartialEq, Eq)]
pub struct Readmem {
    pub address: u16,
    pub length: u8,
}

/// Packed member of a `ReadmemReply`: `length` bytes of `data` are meant, the
/// rest of the array is padding.
#[derive(Clone, Copy, Debug, PartialEq, Eq)]
pub struct ReadmemReplyUnion {
    pub length: u8,
    pub data: [u8; MAX_READMEM],
}

/// Packed member of a `Writemem`: `length` bytes of `data` are meant, the rest
/// of the array is padding.
#[derive(Clone, Copy, Debug, PartialEq, Eq)]
pub struct WritememUnion {
    pub address: u16,
    pub length: u8,
    pub data: [u8; MAX_WRITEMEM],
}

/// A request for the description of the field with this index.
#[derive(Clone, Copy, Debug, PartialEq, Eq)]
pub struct ReadField {
    pub index: u16,
}

/// Description of one field of a remote node's memory map. `name` is NUL
/// padded; `format` is the code of a [`FieldFormat`].
#[derive(Clone, Copy, Debug, PartialEq, Eq)]
pub struct ReadFieldReply {
    pub index: u16,
    pub offset: u16,
    pub length: u8,
    pub format: u8,
    pub name: [u8; FIELD_NAME_LEN],
}

/// The data area of a payload: one member at a time.
#[derive(Clone, Copy, Debug, PartialEq, Eq)]
pub enum PayloadData {
    Unit,
    Failcode(u8),
    Pin(u8),
    F(u32),
    Pinval(Pinval),
    Pinmode(Pinmode),
    AnalogPinval(AnalogPinval),
    Readmem(Readmem),
    ReadmemReply(ReadmemReplyUnion),
    Writemem(WritememUnion),
    RemoteInfo(RemoteInfo),
    ReadField(ReadField),
    ReadFieldReply(ReadFieldReply),
}

/// One protocol message in packed form.
#[derive(Clone, Copy, Debug, PartialEq, Eq)]
pub struct Payload {
    pub payload_type: PayloadType,
    pub data: PayloadData,
}

/// A payload with the ids of a direct, unrouted exchange.
#[derive(Clone, Copy, Debug, PartialEq, Eq)]
pub struct Message {
    pub fromid: u8,
    pub toid: u8,
    pub data: Payload,
}

/// What a payload says, as a mathematical value. The three floating-point
/// quantities are held as their IEEE-754 single-precision bits.
#[allow(inconsistent_fields)]
pub enum PayloadValue {
    Ack,
    Fail { failcode: u8 },
    Pinmode { pin: u8, mode: u8 },
    Readpin { pin: u8 },
    ReadpinReply { pin: u8, state: u8 },
    Writepin { pin: u8, state: u8 },
    Readmem { address: u16, length: u8 },
    ReadmemReply { data: Seq<u8> },
    Writemem { address: u16, data: Seq<u8> },
    Readinfo,
    ReadinfoReply { protoversion: u32, mac_address: u64, datalen: u16, fieldcount: u16 },
    Readhumidity,
    ReadhumidityReply { humidity: u32 },
    Readtemperature,
    ReadtemperatureReply { temperature: u32 },
    Readanalog { pin: u8 },
    ReadanalogReply { pin: u8, state: u16 },
    Readfield { index: u16 },
    ReadfieldReply { index: u16, offset: u16, length: u8, format: u8, name: Seq<u8> },
}

impl PayloadValue {
    /// The kind tag of the value.
    pub open spec fn kind(self) -> PayloadType {
        match self {
            PayloadValue::Ack => PayloadType::PtAck,
            PayloadValue::Fail { .. } => PayloadType::PtFail,
            PayloadValue::Pinmode { .. } => PayloadType::PtPinmode,
            PayloadValue::Readpin { .. } => PayloadType::PtReadpin,
            PayloadValue::ReadpinReply { .. } => PayloadType::PtReadpinreply,
            PayloadValue::Writepin { .. } => PayloadType::PtWritepin,
            PayloadValue::Readmem { .. } => PayloadType::PtReadmem,
            PayloadValue::ReadmemReply { .. } => PayloadType::PtReadmemreply,
            PayloadValue::Writemem { .. } => PayloadType::PtWritemem,
            PayloadValue::Readinfo => PayloadType::PtReadinfo,
            PayloadValue::ReadinfoReply { .. } => PayloadType::PtReadinforeply,
            PayloadValue::Readhumidity => PayloadType::PtReadhumidity,
            PayloadValue::ReadhumidityReply { .. } => PayloadType::PtReadhumidityreply,
            PayloadValue::Readtemperature => PayloadType::PtReadtemperature,
            PayloadValue::ReadtemperatureReply { .. } => PayloadType::PtReadtemperaturereply,
            PayloadValue::Readanalog { .. } => PayloadType::PtReadanalog,
            PayloadValue::ReadanalogReply { .. } => PayloadType::PtReadanalogreply,
            PayloadValue::Readfield { .. } => PayloadType::PtReadfield,
            PayloadValue::ReadfieldReply { .. } => PayloadType::PtReadfieldreply,
        }
    }

    /// A value is well formed when its variable-length data fits one radio
    /// frame and its field name has the fixed width.
    pub open spec fn wf(self) -> bool {
        match self {
            PayloadValue::ReadmemReply { data } => data.len() <= MAX_READMEM,
            PayloadValue::Writemem { data, .. } => data.len() <= MAX_WRITEMEM,
            PayloadValue::ReadfieldReply { name, .. } => name.len() == FIELD_NAME_LEN,
            _ => true,
        }
    }
}

/// `content` followed by zeros up to `width` bytes.
pub open spec fn zero_padded(content: Seq<u8>, width: nat) -> Seq<u8> {
    Seq::new(width, |i: int| if i < content.len() { content[i] } else { 0u8 })
}

impl ReadmemReplyUnion {
    /// The bytes that are meant: the first `length` of the array.
    pub open spec fn content(self) -> Seq<u8> {
        self.data@.take(self.length as int)
    }

    /// The length byte is within the capacity.
    pub open spec fn wf(self) -> bool {
        self.length <= MAX_READMEM
    }
}

impl WritememUnion {
    /// The bytes that are meant: the first `length` of the array.
    pub open spec fn content(self) -> Seq<u8> {
        self.data@.take(self.length as int)
    }

    /// The length byte is within the capacity.
    pub open spec fn wf(self) -> bool {
        self.length <= MAX_WRITEMEM
    }
}

/// Whether a member of the data area is the one that a kind of payload uses.
pub open spec fn member_matches(kind: PayloadType, data: PayloadData) -> bool {
    match kind {
        PayloadType::PtAck | PayloadType::PtReadinfo | PayloadType::PtReadhumidity
        | PayloadType::PtReadtemperature => data is Unit,
        PayloadType::PtFail => data is Failcode,
        PayloadType::PtPinmode => data is Pinmode,
        PayloadType::PtReadpin | PayloadType::PtReadanalog => data is Pin,
        PayloadType::PtReadpinreply | PayloadType::PtWritepin => data is Pinval,
        PayloadType::PtReadmem => data is Readmem,
        PayloadType::PtReadmemreply => data is ReadmemReply,
        PayloadType::PtWritemem => data is Writemem,
        PayloadType::PtReadinforeply => data is RemoteInfo,
        PayloadType::PtReadhumidityreply | PayloadType::PtReadtemperaturereply => data is F,
        PayloadType::PtReadanalogreply => data is AnalogPinval,
        PayloadType::PtReadfield => data is ReadField,
        PayloadType::PtReadfieldreply => data is ReadFieldReply,
    }
}

/// Whether the length byte of a variable-length member is within its capacity.
/// True of every other member.
pub open spec fn length_in_bounds(data: PayloadData) -> bool {
    match data {
        PayloadData::ReadmemReply(r) => r.wf(),
        PayloadData::Writemem(w) => w.wf(),
        _ => true,
    }
}

impl Payload {
    /// A payload is well formed when its data area holds the member of its
    /// kind and a variable-length member's length is within its capacity.
    pub open spec fn wf(self) -> bool {
        member_matches(self.payload_type, self.data) && length_in_bounds(self.data)
    }

    /// Padding bytes of the variable-length members are zero.
    pub open spec fn zero_padding(self) -> bool {
        match self.data {
            PayloadData::ReadmemReply(r) => r.data@ == zero_padded(r.content(), MAX_READMEM as nat),
            PayloadData::Writemem(w) => w.data@ == zero_padded(w.content(), MAX_WRITEMEM as nat),
            _ => true,
        }
    }
}

impl View for Payload {
    type V = PayloadValue;

    /// The value of a well-formed payload. Nothing is said of others.
    open spec fn view(&self) -> PayloadValue {
        match (self.payload_type, self.data) {
            (PayloadType::PtAck, PayloadData::Unit) => PayloadValue::Ack,
            (PayloadType::PtFail, PayloadData::Failcode(failcode)) => PayloadValue::Fail {
                failcode,
            },
            (PayloadType::PtPinmode, PayloadData::Pinmode(m)) => PayloadValue::Pinmode {
                pin: m.pin,
                mode: m.mode,
            },
            (PayloadType::PtReadpin, PayloadData::Pin(pin)) => PayloadValue::Readpin { pin },
            (PayloadType::PtReadpinreply, PayloadData::Pinval(v)) => PayloadValue::ReadpinReply {
                pin: v.pin,
                state: v.state,
            },
            (PayloadType::PtWritepin, PayloadData::Pinval(v)) => PayloadValue::Writepin {
                pin: v.pin,
                state: v.state,
            },
            (PayloadType::PtReadmem, PayloadData::Readmem(r)) => PayloadValue::Readmem {
                address: r.address,
                length: r.length,
            },
            (PayloadType::PtReadmemreply, PayloadData::ReadmemReply(r)) => {
                PayloadValue::ReadmemReply { data: r.content() }
            },
            (PayloadType::PtWritemem, PayloadData::Writemem(w)) => PayloadValue::Writemem {
                address: w.address,
                data: w.content(),
            },
            (PayloadType::PtReadinfo, PayloadData::Unit) => PayloadValue::Readinfo,
            (PayloadType::PtReadinforeply, PayloadData::RemoteInfo(i)) => {
                PayloadValue::ReadinfoReply {
                    protoversion: i.protoversion,
                    mac_address: i.mac_address,
                    datalen: i.datalen,
                    fieldcount: i.fieldcount,
                }
            },
            (PayloadType::PtReadhumidity, PayloadData::Unit) => PayloadValue::Readhumidity,
            (PayloadType::PtReadhumidityreply, PayloadData::F(humidity)) => {
                PayloadValue::ReadhumidityReply { humidity }
            },
            (PayloadType::PtReadtemperature, PayloadData::Unit) => PayloadValue::Readtemperature,
            (PayloadType::PtReadtemperaturereply, PayloadData::F(temperature)) => {
                PayloadValue::ReadtemperatureReply { temperature }
            },
            (PayloadType::PtReadanalog, PayloadData::Pin(pin)) => PayloadValue::Readanalog {
                pin,
            },
            (PayloadType::PtReadanalogreply, PayloadData::AnalogPinval(v)) => {
                PayloadValue::ReadanalogReply { pin: v.pin, state: v.state }
            },
            (PayloadType::PtReadfield, PayloadData::ReadField(f)) => PayloadValue::Readfield {
                index: f.index,
            },
            (PayloadType::PtReadfieldreply, PayloadData::ReadFieldReply(f)) => {
                PayloadValue::ReadfieldReply {
                    index: f.index,
                    offset: f.offset,
                    length: f.length,
                    format: f.format,
                    name: f.name@,
                }
            },
            _ => arbitrary(),
        }
    }
}

/// Number of bytes that a payload takes on the wire: the kind tag and the data
/// of its kind. Of a variable-length kind whose data area holds another
/// member, only the fixed part is counted.
pub open spec fn spec_payload_size(p: &Payload) -> usize {
    match p.payload_type {
        PayloadType::PtAck | PayloadType::PtReadinfo | PayloadType::PtReadhumidity
        | PayloadType::PtReadtemperature => 1,
        PayloadType::PtFail | PayloadType::PtReadpin | PayloadType::PtReadanalog => 2,
        PayloadType::PtPinmode | PayloadType::PtReadpinreply | PayloadType::PtWritepin
        | PayloadType::PtReadfield => 3,
        PayloadType::PtReadmem | PayloadType::PtReadanalogreply => 4,
        PayloadType::PtReadhumidityreply | PayloadType::PtReadtemperaturereply => 5,
        PayloadType::PtReadinforeply => 17,
        PayloadType::PtReadfieldreply => 32,
        PayloadType::PtReadmemreply => match p.data {
            PayloadData::ReadmemReply(r) => (2 + r.length) as usize,
            _ => 2,
        },
        PayloadType::PtWritemem => match p.data {
            PayloadData::Writemem(w) => (4 + w.length) as usize,
            _ => 4,
        },
    }
}

/// Number of bytes that a payload takes on the wire.
#[verifier::when_used_as_spec(spec_payload_size)]
pub fn payload_size(p: &Payload) -> (size: usize)
    ensures
        size == spec_payload_size(p),
        1 <= size <= 259,
        p.wf() ==> size <= RH_RF95_MAX_MESSAGE_LEN,
{
    match p.payload_type {
        PayloadType::PtAck => 1,
        PayloadType::PtFail => 2,
        PayloadType::PtPinmode => 3,
        PayloadType::PtReadpin => 2,
        PayloadType::PtReadpinreply => 3,
        PayloadType::PtWritepin => 3,
        PayloadType::PtReadanalog => 2,
        PayloadType::PtReadanalogreply => 4,
        PayloadType::PtReadmem => 4,
        PayloadType::PtReadmemreply => match p.data {
            PayloadData::ReadmemReply(r) => 2 + r.length as usize,
            _ => 2,
        },
        PayloadType::PtWritemem => match p.data {
            PayloadData::Writemem(w) => 4 + w.length as usize,
            _ => 4,
        },
        PayloadType::PtReadinfo => 1,
        PayloadType::PtReadinforeply => 17,
        PayloadType::PtReadhumidity => 1,
        PayloadType::PtReadhumidityreply => 5,
        PayloadType::PtReadtemperature => 1,
        PayloadType::PtReadtemperaturereply => 5,
        PayloadType::PtReadfield => 3,
        PayloadType::PtReadfieldreply => 32,
    }
}

/// Length of the name that a name field holds: the place of its first NUL, or
/// the width of the field where it holds none.
pub open spec fn name_len(name: Seq<u8>) -> nat
    decreases name.len(),
{
    if name.len() == 0 || name[0] == 0 {
        0
    } else {
        1 + name_len(name.drop_first())
    }
}

/// The name length is the one place up to which no byte is NUL and at which,
/// if it is inside the field, a NUL stands.
pub proof fn lemma_name_len(name: Seq<u8>)
    ensures
        name_len(name) <= name.len(),
        forall|i: int| 0 <= i < name_len(name) ==> name[i] != 0,
        name_len(name) < name.len() ==> name[name_len(name) as int] == 0,
    decreases name.len(),
{
    if name.len() > 0 && name[0] != 0 {
        let rest = name.drop_first();
        lemma_name_len(rest);
        assert forall|i: int| 0 <= i < name_len(name) implies name[i] != 0 by {
            if i > 0 {
                assert(rest[i - 1] == name[i]);
            }
        }
    }
}

/// A place up to which no byte is NUL and at which the field ends or a NUL
/// stands is the name length.
pub proof fn lemma_name_len_unique(name: Seq<u8>, n: nat)
    requires
        n <= name.len(),
        forall|i: int| 0 <= i < n ==> name[i] != 0,
        n < name.len() ==> name[n as int] == 0,
    ensures
        name_len(name) == n,
    decreases name.len(),
{
    if name.len() > 0 && name[0] != 0 {
        let rest = name.drop_first();
        assert forall|i: int| 0 <= i < n - 1 implies rest[i] != 0 by {
            assert(rest[i] == name[i + 1]);
        }
        lemma_name_len_unique(rest, (n - 1) as nat);
    }
}

impl ReadFieldReply {
    /// The format of the field, where the format byte is the code of one.
    pub fn field_format(&self) -> (format: Option<FieldFormat>)
        ensures
            format == FieldFormat::from_code(self.format),
    {
        FieldFormat::from_u8(self.format)
    }

    /// The name of the field: the bytes of the name field up to its first NUL,
    /// all 25 where it holds none.
    pub fn name_bytes(&self) -> (name: Vec<u8>)
        ensures
            name@ == self.name@.take(name_len(self.name@) as int),
            name@.len() <= FIELD_NAME_LEN,
    {
        let mut name: Vec<u8> = Vec::new();
        let mut i: usize = 0;
        while i < FIELD_NAME_LEN && self.name[i] != 0
            invariant
                i <= FIELD_NAME_LEN,
                name@ == self.name@.take(i as int),
                forall|j: int| 0 <= j < i ==> self.name@[j] != 0,
            decreases FIELD_NAME_LEN - i,
        {
            name.push(self.name[i]);
            i = i + 1;
        }
        proof {
            lemma_name_len_unique(self.name@, i as nat);
        }
        name
    }
}

impl Payload {
    /// A payload of this kind and data.
    pub fn new(payload_type: PayloadType, data: PayloadData) -> (p: Payload)
        ensures
            p == (Payload { payload_type, data }),
    {
        Payload { payload_type, data }
    }

    /// The kind of the payload.
    pub fn kind(&self) -> (kind: PayloadType)
        ensures
            kind == self.payload_type,
    {
        self.payload_type
    }
}

} // verus!
