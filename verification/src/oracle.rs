//! The test oracle: one canonical message of every kind, written to a file
//! and read back. The library says what each file holds and judges what was
//! read; the files themselves are written and read outside it.

use vstd::prelude::*;
use crate::codes::{FieldFormat, PayloadType, ResultCode};
use crate::payload::{
    name_len, payload_size, Payload, PayloadData, PayloadValue, FIELD_NAME_LEN,
};
use crate::setup::{
    setup_ack, setup_fail, setup_pinmode, setup_readanalog, setup_readanalogreply,
    setup_readfield, setup_readfieldreply, setup_readhumidity, setup_readhumidityreply,
    setup_readinfo, setup_readinforeply, setup_readmem, setup_readmemreply, setup_readpin,
    setup_readpinreply, setup_readtemperature, setup_readtemperaturereply, setup_writemem,
    setup_writepin, stored_name,
};
use crate::wire::{encode, wire_bytes, Msgbuf};

verus! {

/// Number of files of the corpus: one for each kind of payload.
pub const CORPUS_LEN: usize = 19;

/// Bits of the single-precision number nearest to 1.1, the protocol version
/// of the canonical `ReadinfoReply`.
pub const PROTOVERSION_BITS: u32 = 0x3F8C_CCCD;

/// Bits of the single-precision number nearest to 45.7, the humidity of the
/// canonical `ReadhumidityReply`.
pub const HUMIDITY_BITS: u32 = 0x4236_CCCD;

/// Bits of the single-precision number nearest to 98.6, the temperature of
/// the canonical `ReadtemperatureReply`.
pub const TEMPERATURE_BITS: u32 = 0x42C5_3333;

/// The canonical value of file `i` of the corpus.
pub open spec fn corpus_value(i: int) -> PayloadValue {
    if i == 0 {
        PayloadValue::Ack
    } else if i == 1 {
        PayloadValue::Fail { failcode: 14 }
    } else if i == 2 {
        PayloadValue::Pinmode { pin: 26, mode: 2 }
    } else if i == 3 {
        PayloadValue::Readpin { pin: 22 }
    } else if i == 4 {
        PayloadValue::ReadpinReply { pin: 26, state: 1 }
    } else if i == 5 {
        PayloadValue::Writepin { pin: 15, state: 1 }
    } else if i == 6 {
        PayloadValue::Readanalog { pin: 27 }
    } else if i == 7 {
        PayloadValue::ReadanalogReply { pin: 6, state: 500 }
    } else if i == 8 {
        PayloadValue::Readmem { address: 1500, length: 75 }
    } else if i == 9 {
        PayloadValue::ReadmemReply { data: seq![1u8, 2u8, 3u8, 4u8, 5u8] }
    } else if i == 10 {
        PayloadValue::Writemem { address: 5678, data: seq![5u8, 4u8, 3u8, 2u8, 1u8] }
    } else if i == 11 {
        PayloadValue::Readinfo
    } else if i == 12 {
        PayloadValue::ReadinfoReply {
            protoversion: PROTOVERSION_BITS,
            mac_address: 5678,
            datalen: 5000,
            fieldcount: 5,
        }
    } else if i == 13 {
        PayloadValue::Readhumidity
    } else if i == 14 {
        PayloadValue::ReadhumidityReply { humidity: HUMIDITY_BITS }
    } else if i == 15 {
        PayloadValue::Readtemperature
    } else if i == 16 {
        PayloadValue::ReadtemperatureReply { temperature: TEMPERATURE_BITS }
    } else if i == 17 {
        PayloadValue::Readfield { index: 1 }
    } else {
        PayloadValue::ReadfieldReply {
            index: 7,
            offset: 77,
            length: 20,
            format: 4,
            name: stored_name(seq![0x77u8, 0x61u8, 0x74u8]),
        }
    }
}

/// The name of file `i` of the corpus.
pub open spec fn corpus_name(i: int) -> Seq<char> {
    if i == 0 {
        "ack.bin"@
    } else if i == 1 {
        "fail.bin"@
    } else if i == 2 {
        "pinmode.bin"@
    } else if i == 3 {
        "readpin.bin"@
    } else if i == 4 {
        "readpinreply.bin"@
    } else if i == 5 {
        "writepin.bin"@
    } else if i == 6 {
        "readanalog.bin"@
    } else if i == 7 {
        "readanalogreply.bin"@
    } else if i == 8 {
        "readmem.bin"@
    } else if i == 9 {
        "readmemreply.bin"@
    } else if i == 10 {
        "writemem.bin"@
    } else if i == 11 {
        "readinfo.bin"@
    } else if i == 12 {
        "readinforeply.bin"@
    } else if i == 13 {
        "readhumidity.bin"@
    } else if i == 14 {
        "readhumidityreply.bin"@
    } else if i == 15 {
        "readtemperature.bin"@
    } else if i == 16 {
        "readtemperaturereply.bin"@
    } else if i == 17 {
        "readfield.bin"@
    } else {
        "readfieldreply.bin"@
    }
}

/// The canonical payload of file `i` of the corpus.
pub fn corpus_payload(i: usize) -> (p: Payload)
    requires
        i < CORPUS_LEN,
    ensures
        p.wf(),
        p.zero_padding(),
        p@ == corpus_value(i as int),
{
    let mut p = Payload { payload_type: PayloadType::PtAck, data: PayloadData::Unit };
    match i {
        0 => {
            setup_ack(&mut p);
        },
        1 => {
            setup_fail(&mut p, ResultCode::RcInvalidRhRouterError);
        },
        2 => {
            setup_pinmode(&mut p, 26, 2);
        },
        3 => {
            setup_readpin(&mut p, 22);
        },
        4 => {
            setup_readpinreply(&mut p, 26, 1);
        },
        5 => {
            setup_writepin(&mut p, 15, 1);
        },
        6 => {
            setup_readanalog(&mut p, 27);
        },
        7 => {
            setup_readanalogreply(&mut p, 6, 500);
        },
        8 => {
            setup_readmem(&mut p, 1500, 75);
        },
        9 => {
            let test: [u8; 5] = [1, 2, 3, 4, 5];
            setup_readmemreply(&mut p, test.as_slice());
        },
        10 => {
            let test: [u8; 5] = [5, 4, 3, 2, 1];
            setup_writemem(&mut p, 5678, test.as_slice());
        },
        11 => {
            setup_readinfo(&mut p);
        },
        12 => {
            setup_readinforeply(&mut p, PROTOVERSION_BITS, 5678, 5000, 5);
        },
        13 => {
            setup_readhumidity(&mut p);
        },
        14 => {
            setup_readhumidityreply(&mut p, HUMIDITY_BITS);
        },
        15 => {
            setup_readtemperature(&mut p);
        },
        16 => {
            setup_readtemperaturereply(&mut p, TEMPERATURE_BITS);
        },
        17 => {
            setup_readfield(&mut p, 1);
        },
        _ => {
            let name: [u8; 3] = [0x77, 0x61, 0x74];
            setup_readfieldreply(&mut p, 7, 77, 20, FieldFormat::FfUint32, name.as_slice());
        },
    }
    p
}

/// The name of file `i` of the corpus.
pub fn corpus_file_name(i: usize) -> (name: String)
    requires
        i < CORPUS_LEN,
    ensures
        name@ == corpus_name(i as int),
{
    match i {
        0 => "ack.bin".to_string(),
        1 => "fail.bin".to_string(),
        2 => "pinmode.bin".to_string(),
        3 => "readpin.bin".to_string(),
        4 => "readpinreply.bin".to_string(),
        5 => "writepin.bin".to_string(),
        6 => "readanalog.bin".to_string(),
        7 => "readanalogreply.bin".to_string(),
        8 => "readmem.bin".to_string(),
        9 => "readmemreply.bin".to_string(),
        10 => "writemem.bin".to_string(),
        11 => "readinfo.bin".to_string(),
        12 => "readinforeply.bin".to_string(),
        13 => "readhumidity.bin".to_string(),
        14 => "readhumidityreply.bin".to_string(),
        15 => "readtemperature.bin".to_string(),
        16 => "readtemperaturereply.bin".to_string(),
        17 => "readfield.bin".to_string(),
        _ => "readfieldreply.bin".to_string(),
    }
}

/// One file of the corpus: its name within the directory, and its contents.
#[derive(Debug, Clone, PartialEq, Eq)]
pub struct MessageFile {
    pub name: String,
    pub bytes: Vec<u8>,
}

/// The files of the corpus, in order: each holds the encoding of its
/// canonical value and nothing else, so its length is the size of that
/// payload.
pub fn write_message_files() -> (files: Vec<MessageFile>)
    ensures
        files@.len() == CORPUS_LEN,
        forall|i: int|
            0 <= i < CORPUS_LEN ==> (#[trigger] files@[i]).name@ == corpus_name(i) && files@[i].bytes@
                == wire_bytes(corpus_value(i)),
{
    let mut files: Vec<MessageFile> = Vec::new();
    let mut i: usize = 0;
    while i < CORPUS_LEN
        invariant
            i <= CORPUS_LEN,
            files@.len() == i,
            forall|j: int|
                0 <= j < i ==> (#[trigger] files@[j]).name@ == corpus_name(j) && files@[j].bytes@
                    == wire_bytes(corpus_value(j)),
        decreases CORPUS_LEN - i,
    {
        let p = corpus_payload(i);
        let bytes = match encode(&p) {
            Ok(bytes) => bytes,
            Err(_) => Vec::new(),
        };
        files.push(MessageFile { name: corpus_file_name(i), bytes });
        i = i + 1;
    }
    files
}

/// How a payload that was read compares with the canonical one.
#[derive(Debug, Clone, Copy, PartialEq, Eq, Structural)]
pub enum FileCheck {
    /// A named field differs.
    Fail,
    /// Every named field is equal.
    Pass,
    /// Every other named field is equal, and the one that is a
    /// single-precision number has these bits where those are expected. It
    /// passes if the two numbers are within the tolerance of the oracle.
    PassIfClose { actual: u32, expected: u32 },
}

/// Compares what was read with what was expected, named field by named field.
/// Of variable-length data the bytes that are meant are compared; of a field
/// name, the bytes up to the end of the expected name.
pub open spec fn compare(expected: PayloadValue, actual: PayloadValue) -> FileCheck {
    match (expected, actual) {
        (
            PayloadValue::ReadinfoReply { protoversion, mac_address, datalen, fieldcount },
            PayloadValue::ReadinfoReply {
                protoversion: p,
                mac_address: m,
                datalen: d,
                fieldcount: f,
            },
        ) => if mac_address == m && datalen == d && fieldcount == f {
            FileCheck::PassIfClose { actual: p, expected: protoversion }
        } else {
            FileCheck::Fail
        },
        (
            PayloadValue::ReadhumidityReply { humidity },
            PayloadValue::ReadhumidityReply { humidity: h },
        ) => FileCheck::PassIfClose { actual: h, expected: humidity },
        (
            PayloadValue::ReadtemperatureReply { temperature },
            PayloadValue::ReadtemperatureReply { temperature: t },
        ) => FileCheck::PassIfClose { actual: t, expected: temperature },
        (
            PayloadValue::ReadfieldReply { index, offset, length, format, name },
            PayloadValue::ReadfieldReply { index: i, offset: o, length: l, format: f, name: n },
        ) => if index == i && offset == o && length == l && format == f && name.take(
            name_len(name) as int,
        ) == n.take(name_len(name) as int) {
            FileCheck::Pass
        } else {
            FileCheck::Fail
        },
        _ => if expected == actual {
            FileCheck::Pass
        } else {
            FileCheck::Fail
        },
    }
}

/// Whether the first `n` bytes of two slices are the same.
fn same_prefix(a: &[u8], b: &[u8], n: usize) -> (same: bool)
    requires
        n <= a@.len(),
        n <= b@.len(),
    ensures
        same == (a@.take(n as int) == b@.take(n as int)),
{
    let mut i: usize = 0;
    while i < n
        invariant
            i <= n,
            n <= a@.len(),
            n <= b@.len(),
            a@.take(i as int) == b@.take(i as int),
        decreases n - i,
    {
        if a[i] != b[i] {
            assert(a@.take(n as int)[i as int] != b@.take(n as int)[i as int]);
            return false;
        }
        i = i + 1;
    }
    true
}

/// Length of the name in a name field: the place of its first NUL, or the
/// width of the field.
fn name_length(name: &[u8; FIELD_NAME_LEN]) -> (n: usize)
    ensures
        n == name_len(name@),
        n <= FIELD_NAME_LEN,
{
    let mut i: usize = 0;
    while i < FIELD_NAME_LEN && name[i] != 0
        invariant
            i <= FIELD_NAME_LEN,
            forall|j: int| 0 <= j < i ==> name@[j] != 0,
        decreases FIELD_NAME_LEN - i,
    {
        i = i + 1;
    }
    proof {
        crate::payload::lemma_name_len_unique(name@, i as nat);
    }
    i
}

/// Compares a payload that was read with the one that was expected.
pub fn check_payload(expected: &Payload, actual: &Payload) -> (check: FileCheck)
    requires
        expected.wf(),
        actual.wf(),
    ensures
        check == compare(expected@, actual@),
{
    proof {
        crate::wire::lemma_size_law(*expected);
        crate::wire::lemma_size_law(*actual);
    }
    if expected.payload_type != actual.payload_type {
        return FileCheck::Fail;
    }
    let pass = match (expected.data, actual.data) {
        (PayloadData::Unit, PayloadData::Unit) => true,
        (PayloadData::Failcode(e), PayloadData::Failcode(a)) => e == a,
        (PayloadData::Pin(e), PayloadData::Pin(a)) => e == a,
        (PayloadData::F(e), PayloadData::F(a)) => {
            return FileCheck::PassIfClose { actual: a, expected: e };
        },
        (PayloadData::Pinval(e), PayloadData::Pinval(a)) => e.pin == a.pin && e.state == a.state,
        (PayloadData::Pinmode(e), PayloadData::Pinmode(a)) => e.pin == a.pin && e.mode == a.mode,
        (PayloadData::AnalogPinval(e), PayloadData::AnalogPinval(a)) => e.pin == a.pin && e.state
            == a.state,
        (PayloadData::Readmem(e), PayloadData::Readmem(a)) => e.address == a.address && e.length
            == a.length,
        (PayloadData::ReadmemReply(e), PayloadData::ReadmemReply(a)) => {
            e.length == a.length && same_prefix(
                e.data.as_slice(),
                a.data.as_slice(),
                e.length as usize,
            )
        },
        (PayloadData::Writemem(e), PayloadData::Writemem(a)) => {
            e.address == a.address && e.length == a.length && same_prefix(
                e.data.as_slice(),
                a.data.as_slice(),
                e.length as usize,
            )
        },
        (PayloadData::RemoteInfo(e), PayloadData::RemoteInfo(a)) => {
            if e.mac_address == a.mac_address && e.datalen == a.datalen && e.fieldcount
                == a.fieldcount {
                return FileCheck::PassIfClose { actual: a.protoversion, expected: e.protoversion };
            }
            false
        },
        (PayloadData::ReadField(e), PayloadData::ReadField(a)) => e.index == a.index,
        (PayloadData::ReadFieldReply(e), PayloadData::ReadFieldReply(a)) => {
            let n = name_length(&e.name);
            e.index == a.index && e.offset == a.offset && e.length == a.length && e.format
                == a.format && same_prefix(e.name.as_slice(), a.name.as_slice(), n)
        },
        _ => false,
    };
    if pass {
        FileCheck::Pass
    } else {
        FileCheck::Fail
    }
}

/// What reading file `i` of the corpus comes to, when the buffer holds `buf`
/// once the file of `len` bytes was read into it: a buffer that does not
/// decode fails, and so does a file whose length is not the size of the
/// payload that was read; any other is compared with the canonical value.
pub open spec fn file_check(i: int, len: nat, buf: Seq<u8>) -> FileCheck {
    match crate::wire::parse_wire(buf) {
        Ok(v) => if len == wire_bytes(v).len() {
            compare(corpus_value(i), v)
        } else {
            FileCheck::Fail
        },
        Err(_) => FileCheck::Fail,
    }
}

/// Reads file `i` of the corpus: stores its contents at the start of the
/// buffer, over what the buffer held, and judges what the buffer then reads
/// as. The length of the file must be the size of the payload that is read.
pub fn read_msg_file(i: usize, contents: &[u8], msgbuf: &mut Msgbuf) -> (check: FileCheck)
    requires
        i < CORPUS_LEN,
    ensures
        final(msgbuf).buf@ == old(msgbuf).filled(contents@),
        check == file_check(i as int, contents@.len(), final(msgbuf).buf@),
{
    msgbuf.fill(contents);
    let expected = corpus_payload(i);
    match msgbuf.payload() {
        Ok(actual) => {
            proof {
                crate::wire::lemma_size_law(actual);
            }
            if contents.len() == payload_size(&actual) {
                check_payload(&expected, &actual)
            } else {
                FileCheck::Fail
            }
        },
        Err(_) => FileCheck::Fail,
    }
}

/// The buffer after the first `n` files were read into it in turn, starting
/// from a buffer of zeros.
pub open spec fn buffer_after(files: Seq<Vec<u8>>, n: nat) -> Seq<u8>
    decreases n,
{
    if n == 0 {
        Msgbuf::new_buf()
    } else {
        crate::wire::stored(buffer_after(files, (n - 1) as nat), files[n - 1]@)
    }
}

/// Reads the files of the corpus, whose contents are given in order, into one
/// buffer in turn, and judges each. A file that is missing fails.
pub fn read_message_files(files: &Vec<Vec<u8>>) -> (checks: Vec<FileCheck>)
    ensures
        checks@.len() == CORPUS_LEN,
        forall|i: int|
            0 <= i < CORPUS_LEN ==> #[trigger] checks@[i] == if i < files@.len() {
                file_check(i, files@[i]@.len(), buffer_after(files@, (i + 1) as nat))
            } else {
                FileCheck::Fail
            },
{
    let mut checks: Vec<FileCheck> = Vec::new();
    let mut mb = Msgbuf::new();
    let mut i: usize = 0;
    while i < CORPUS_LEN
        invariant
            i <= CORPUS_LEN,
            checks@.len() == i,
            i <= files@.len() ==> mb.buf@ == buffer_after(files@, i as nat),
            forall|j: int|
                0 <= j < i ==> #[trigger] checks@[j] == if j < files@.len() {
                    file_check(j, files@[j]@.len(), buffer_after(files@, (j + 1) as nat))
                } else {
                    FileCheck::Fail
                },
        decreases CORPUS_LEN - i,
    {
        let check = if i < files.len() {
            read_msg_file(i, files[i].as_slice(), &mut mb)
        } else {
            FileCheck::Fail
        };
        checks.push(check);
        i = i + 1;
    }
    checks
}

/// Whether every file passed, with the numbers that were to be within the
/// tolerance judged by their bits: equal bits pass, others do not.
pub fn all_pass_exactly(checks: &Vec<FileCheck>) -> (pass: bool)
    ensures
        pass == forall|i: int|
            0 <= i < checks@.len() ==> (#[trigger] checks@[i] == FileCheck::Pass || (
            checks@[i] matches FileCheck::PassIfClose { actual, expected } && actual == expected)),
{
    let mut i: usize = 0;
    while i < checks.len()
        invariant
            i <= checks@.len(),
            forall|j: int|
                0 <= j < i ==> (#[trigger] checks@[j] == FileCheck::Pass || (
                checks@[j] matches FileCheck::PassIfClose { actual, expected } && actual
                    == expected)),
        decreases checks@.len() - i,
    {
        let ok = match checks[i] {
            FileCheck::Pass => true,
            FileCheck::PassIfClose { actual, expected } => actual == expected,
            FileCheck::Fail => false,
        };
        if !ok {
            return false;
        }
        i = i + 1;
    }
    true
}

} // verus!
