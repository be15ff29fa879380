//! Serial framing. A frame is the leader `'m'`, an id, a size byte and the
//! payload block. The writer sends `payload_size` as the size and one byte
//! more than that many after it; the reader takes exactly as many bytes as the
//! size byte says. Both are kept as they are on the wire.

use vstd::prelude::*;
use vstd::slice::slice_subrange;
use crate::codes::{PayloadType, ResultCode};
use crate::payload::{spec_payload_size, Payload, PayloadValue, RH_RF95_MAX_MESSAGE_LEN};
use crate::serial_error::{ErrorKind, IOErrorKind};
use crate::wire::{parse_wire, push_prefix, staged_size, wire_bytes, Msgbuf};

verus! {

/// First byte of every frame: `'m'`.
pub const LEADER: u8 = 0x6D;

/// The byte that the writer sends last where the payload fills the whole
/// buffer and no byte stands behind it.
pub const TRAILER: u8 = 0;

/// The frame that carries what is staged in a buffer to the node `id`: the
/// leader, the id, the staged size as one byte, and one byte more than that
/// many from the start of the buffer. The last byte is thus the byte that
/// stands behind the payload in the buffer, whatever it is; where the payload
/// fills the buffer, it is [`TRAILER`].
pub open spec fn frame_bytes(id: u8, buf: Seq<u8>) -> Seq<u8> {
    let size = staged_size(buf);
    seq![LEADER, id, size as u8] + if size < RH_RF95_MAX_MESSAGE_LEN {
        buf.take(size as int + 1)
    } else {
        buf.take(RH_RF95_MAX_MESSAGE_LEN as int) + seq![TRAILER]
    }
}

/// Builds the frame that carries what is staged in `msg` to the node `toid`.
/// The size is that of the payload that the buffer starts with, as its kind
/// tag and length byte say, and is none for a kind tag that is not known. A
/// size of more than one radio frame, which only a length byte above its
/// bound gives, is refused with `RcInvalidMemLength`.
pub fn write_message(msg: &Msgbuf, toid: u8) -> (r: Result<Vec<u8>, ResultCode>)
    ensures
        r is Ok <==> staged_size(msg.buf@) <= RH_RF95_MAX_MESSAGE_LEN,
        r matches Ok(frame) ==> frame@ == frame_bytes(toid, msg.buf@) && frame@.len()
            == staged_size(msg.buf@) + 4,
        r matches Err(code) ==> code == ResultCode::RcInvalidMemLength,
{
    let size = msg.payload_size();
    if size > RH_RF95_MAX_MESSAGE_LEN {
        return Err(ResultCode::RcInvalidMemLength);
    }
    let mut frame: Vec<u8> = Vec::new();
    frame.push(LEADER);
    frame.push(toid);
    frame.push(size as u8);
    if size < RH_RF95_MAX_MESSAGE_LEN {
        push_prefix(&mut frame, msg.buf.as_slice(), size + 1);
    } else {
        push_prefix(&mut frame, msg.buf.as_slice(), RH_RF95_MAX_MESSAGE_LEN);
        frame.push(TRAILER);
    }
    assert(frame@ =~= frame_bytes(toid, msg.buf@));
    Ok(frame)
}

/// Frame law: the frame of a buffer in which a well-formed payload is staged
/// is the leader, the id, the size of the payload as one byte, the encoded
/// payload and one byte more: the byte behind the payload in the buffer, or
/// [`TRAILER`] where the payload fills the buffer.
pub proof fn lemma_frame_law(p: Payload, buf: Seq<u8>, id: u8)
    requires
        p.wf(),
        buf.len() == RH_RF95_MAX_MESSAGE_LEN,
        buf.take(spec_payload_size(&p) as int) == wire_bytes(p@),
    ensures
        staged_size(buf) == spec_payload_size(&p),
        frame_bytes(id, buf) == seq![LEADER, id, spec_payload_size(&p) as u8] + wire_bytes(p@)
            + seq![
            if spec_payload_size(&p) < RH_RF95_MAX_MESSAGE_LEN {
                buf[spec_payload_size(&p) as int]
            } else {
                TRAILER
            },
        ],
        frame_bytes(id, buf).len() == spec_payload_size(&p) + 4,
        frame_bytes(id, buf).len() <= RH_RF95_MAX_MESSAGE_LEN + 4,
{
    crate::wire::lemma_staged_size_of_payload(p, buf);
    let n = spec_payload_size(&p) as int;
    let last = if n < RH_RF95_MAX_MESSAGE_LEN {
        buf[n]
    } else {
        TRAILER
    };
    if n < RH_RF95_MAX_MESSAGE_LEN {
        assert(buf.take(n + 1) =~= buf.take(n) + seq![buf[n]]);
    } else {
        assert(buf.take(n) =~= buf);
    }
    assert(frame_bytes(id, buf) =~= seq![LEADER, id, n as u8] + wire_bytes(p@) + seq![last]);
}

/// How a byte stream starts, as the reader sees it.
pub enum Framing {
    /// The stream ends before the frame does: the read times out.
    Short,
    /// The first byte is not the leader.
    NoLeader,
    /// A header, and a body of as many bytes as its size byte says.
    Frame { fromid: u8, body: Seq<u8> },
}

/// Reads the start of a stream as a frame.
pub open spec fn framing(s: Seq<u8>) -> Framing {
    if s.len() < 1 {
        Framing::Short
    } else if s[0] != LEADER {
        Framing::NoLeader
    } else if s.len() < 3 || s.len() < 3 + s[2] {
        Framing::Short
    } else {
        Framing::Frame { fromid: s[1], body: s.subrange(3, 3 + s[2]) }
    }
}

/// Number of bytes that the reader takes from a stream for one call.
pub open spec fn consumed(s: Seq<u8>) -> nat {
    match framing(s) {
        Framing::Short => s.len(),
        Framing::NoLeader => 1,
        Framing::Frame { body, .. } => 3 + body.len(),
    }
}

/// Number of bytes that the reader takes from `input` for one call of
/// [`read_message`] or [`read_frame`]; a caller who reads on starts behind
/// them.
pub fn bytes_taken(input: &[u8]) -> (n: usize)
    ensures
        n == consumed(input@),
        n <= input@.len(),
{
    let len = input.len();
    if len < 1 {
        0
    } else if input[0] != LEADER {
        1
    } else if len < 3 || len - 3 < input[2] as usize {
        len
    } else {
        assert(input@.subrange(3, 3 + input@[2]).len() == input@[2]);
        3 + input[2] as usize
    }
}

/// What the reader of one frame waits for.
#[derive(Debug, Clone, Copy, PartialEq, Eq, Structural)]
pub enum ReadState {
    /// The leader byte.
    Leader,
    /// The id of the sender.
    FromId,
    /// The size byte.
    Size { fromid: u8 },
    /// The body, of `size` bytes.
    Body { fromid: u8, size: u8 },
}

/// What the reader says after it was given the bytes it waited for.
#[derive(Debug, Clone, Copy, PartialEq, Eq, Structural)]
pub enum ReadStep {
    /// The frame goes on: read what the reader now waits for.
    More,
    /// The byte was not the leader. The reader waits for a leader again.
    NoLeader,
    /// The frame is complete and its body is in the buffer.
    Frame { fromid: u8, size: u8 },
}

impl ReadState {
    /// Number of bytes that the reader waits for.
    pub open spec fn spec_wanted(self) -> usize {
        match self {
            ReadState::Body { size, .. } => size as usize,
            _ => 1,
        }
    }

    /// The state after `bytes`, and what the reader says of them.
    pub open spec fn after(self, bytes: Seq<u8>) -> (ReadState, ReadStep) {
        match self {
            ReadState::Leader => if bytes[0] == LEADER {
                (ReadState::FromId, ReadStep::More)
            } else {
                (ReadState::Leader, ReadStep::NoLeader)
            },
            ReadState::FromId => (ReadState::Size { fromid: bytes[0] }, ReadStep::More),
            ReadState::Size { fromid } => if bytes[0] == 0 {
                (ReadState::Leader, ReadStep::Frame { fromid, size: 0 })
            } else {
                (ReadState::Body { fromid, size: bytes[0] }, ReadStep::More)
            },
            ReadState::Body { fromid, size } => (
                ReadState::Leader,
                ReadStep::Frame { fromid, size },
            ),
        }
    }

    /// A reader at the start of a frame.
    pub fn new() -> (state: ReadState)
        ensures
            state == ReadState::Leader,
    {
        ReadState::Leader
    }

    /// Number of bytes to read next: one for each header byte, the size for
    /// the body. In a state that the reader can be in it is never zero.
    #[verifier::when_used_as_spec(spec_wanted)]
    pub fn wanted(self) -> (n: usize)
        ensures
            n == self.spec_wanted(),
    {
        match self {
            ReadState::Body { size, .. } => size as usize,
            _ => 1,
        }
    }

    /// Whether the reader can be in this state: it waits for a body only if
    /// the body has at least one byte.
    pub open spec fn wf(self) -> bool {
        self matches ReadState::Body { size, .. } ==> size > 0
    }

    /// Takes the bytes that the reader waited for. Body bytes are stored at
    /// the start of `msg`; header bytes leave `msg` as it was.
    pub fn accept(&mut self, msg: &mut Msgbuf, bytes: &[u8]) -> (step: ReadStep)
        requires
            old(self).wf(),
            bytes@.len() == old(self).wanted(),
        ensures
            final(self).wf(),
            (*final(self), step) == old(self).after(bytes@),
            *old(self) is Body ==> final(msg).buf@ == old(msg).filled(bytes@),
            !(*old(self) is Body) ==> *final(msg) == *old(msg),
    {
        match *self {
            ReadState::Leader => {
                if bytes[0] == LEADER {
                    *self = ReadState::FromId;
                    ReadStep::More
                } else {
                    ReadStep::NoLeader
                }
            },
            ReadState::FromId => {
                *self = ReadState::Size { fromid: bytes[0] };
                ReadStep::More
            },
            ReadState::Size { fromid } => {
                let size = bytes[0];
                if size == 0 {
                    *self = ReadState::Leader;
                    ReadStep::Frame { fromid, size: 0 }
                } else {
                    *self = ReadState::Body { fromid, size };
                    ReadStep::More
                }
            },
            ReadState::Body { fromid, size } => {
                msg.fill(bytes);
                *self = ReadState::Leader;
                ReadStep::Frame { fromid, size }
            },
        }
    }
}

/// Whether a kind of payload is a bare tag, with no data.
pub open spec fn spec_is_bare(kind: PayloadType) -> bool {
    kind == PayloadType::PtAck || kind == PayloadType::PtReadinfo || kind
        == PayloadType::PtReadhumidity || kind == PayloadType::PtReadtemperature
}

/// Whether a kind of payload is a bare tag, with no data.
#[verifier::when_used_as_spec(spec_is_bare)]
pub fn is_bare(kind: PayloadType) -> (bare: bool)
    ensures
        bare == spec_is_bare(kind),
{
    match kind {
        PayloadType::PtAck | PayloadType::PtReadinfo | PayloadType::PtReadhumidity
        | PayloadType::PtReadtemperature => true,
        _ => false,
    }
}

/// What the buffer reads as after a frame with this size byte was stored in
/// it. A frame of size zero stores nothing, not even a kind tag: it is taken
/// only where the buffer stands for a bare tag, and is `RcInvalidMessageType`
/// otherwise.
pub open spec fn frame_payload(size: u8, buf: Seq<u8>) -> Result<PayloadValue, ResultCode> {
    if size == 0 && !(PayloadType::from_code(buf[0]) matches Some(kind) && is_bare(kind)) {
        Err(ResultCode::RcInvalidMessageType)
    } else {
        parse_wire(buf)
    }
}

/// The kind of error that a code of the decoder is reported as.
pub open spec fn spec_decode_error_kind(code: ResultCode) -> ErrorKind {
    match code {
        ResultCode::RcInvalidMessageType => ErrorKind::InvalidMessageType,
        ResultCode::RcInvalidMemLength => ErrorKind::InvalidMemLength,
        _ => ErrorKind::Unknown,
    }
}

/// The kind of error that a code of the decoder is reported as.
pub fn decode_error_kind(code: ResultCode) -> (kind: ErrorKind)
    ensures
        kind == spec_decode_error_kind(code),
{
    match code {
        ResultCode::RcInvalidMessageType => ErrorKind::InvalidMessageType,
        ResultCode::RcInvalidMemLength => ErrorKind::InvalidMemLength,
        _ => ErrorKind::Unknown,
    }
}

/// Whether `r` is what the payload of a received frame decodes to.
pub open spec fn is_frame_payload(
    r: Result<Payload, ErrorKind>,
    size: u8,
    buf: Seq<u8>,
) -> bool {
    match frame_payload(size, buf) {
        Ok(v) => r matches Ok(p) && p.wf() && p.zero_padding() && p@ == v,
        Err(code) => r matches Err(kind) && kind == spec_decode_error_kind(code),
    }
}

/// Decodes the payload of a frame whose body was stored in `msg`.
pub fn frame_payload_of(msg: &Msgbuf, size: u8) -> (r: Result<Payload, ErrorKind>)
    ensures
        is_frame_payload(r, size, msg.buf@),
{
    if size == 0 {
        let bare = match PayloadType::from_u8(msg.buf[0]) {
            Some(kind) => is_bare(kind),
            None => false,
        };
        if !bare {
            return Err(ErrorKind::InvalidMessageType);
        }
    }
    match msg.payload() {
        Ok(p) => Ok(p),
        Err(code) => Err(decode_error_kind(code)),
    }
}

/// What taking one frame from a stream comes to, before its payload is
/// looked at.
enum Taken {
    /// The stream ended before the frame did.
    Short,
    /// The first byte was not the leader.
    NoLeader,
    /// A frame from this sender with this size byte; its body is stored.
    Frame { fromid: u8, size: u8 },
}

/// Takes one frame from the start of `input` with the reader of frames and
/// stores its body at the start of `msg`. Where no frame is complete, `msg`
/// is left as it was.
fn take_frame(input: &[u8], msg: &mut Msgbuf) -> (taken: Taken)
    ensures
        match framing(input@) {
            Framing::Short => taken is Short && *final(msg) == *old(msg),
            Framing::NoLeader => taken is NoLeader && *final(msg) == *old(msg),
            Framing::Frame { fromid: sender, body } => {
                &&& taken matches Taken::Frame { fromid, size }
                &&& fromid == sender
                &&& size == body.len()
                &&& final(msg).buf@ == old(msg).filled(body)
            },
        },
{
    let mut state = ReadState::new();
    let mut pos: usize = 0;
    let len = input.len();
    loop
        invariant
            len == input@.len(),
            pos <= len,
            *msg == *old(msg),
            state.wf(),
            match state {
                ReadState::Leader => pos == 0,
                ReadState::FromId => pos == 1 && input@[0] == LEADER,
                ReadState::Size { fromid: sender } => pos == 2 && input@[0] == LEADER && input@[1]
                    == sender,
                ReadState::Body { fromid: sender, size } => pos == 3 && input@[0] == LEADER
                    && input@[1] == sender && input@[2] == size,
            },
        decreases 3 - pos,
    {
        let n = state.wanted();
        if len - pos < n {
            return Taken::Short;
        }
        let chunk = slice_subrange(input, pos, pos + n);
        pos = pos + n;
        match state.accept(msg, chunk) {
            ReadStep::More => {},
            ReadStep::NoLeader => {
                return Taken::NoLeader;
            },
            ReadStep::Frame { fromid, size } => {
                return Taken::Frame { fromid, size };
            },
        }
    }
}

/// Reads one frame from the start of `input`, which stands for what the port
/// delivers before the read times out. The body of the frame is stored at the
/// start of `msg`, the id of the sender in `fromid`, and the payload that the
/// buffer then holds is checked as the decoder checks it.
///
/// Returns `Ok(true)` for a frame whose payload the decoder takes, the error
/// of the decoder for one that it refuses, `Ok(false)` where the first byte
/// is not the leader, and a timed-out I/O error where `input` ends before the
/// frame does; in the last two cases `msg` and `fromid` are left as they were.
pub fn read_message(input: &[u8], msg: &mut Msgbuf, fromid: &mut u8) -> (r: Result<
    bool,
    ErrorKind,
>)
    ensures
        match framing(input@) {
            Framing::Short => r matches Err(ErrorKind::Io(Ok(IOErrorKind::TimedOut)))
                && *final(msg) == *old(msg) && *final(fromid) == *old(fromid),
            Framing::NoLeader => r matches Ok(false) && *final(msg) == *old(msg) && *final(fromid)
                == *old(fromid),
            Framing::Frame { fromid: sender, body } => {
                &&& final(msg).buf@ == old(msg).filled(body)
                &&& *final(fromid) == sender
                &&& match frame_payload(body.len() as u8, final(msg).buf@) {
                    Ok(_) => r matches Ok(true),
                    Err(code) => r matches Err(kind) && kind == spec_decode_error_kind(code),
                }
            },
        },
{
    match take_frame(input, msg) {
        Taken::Short => Err(ErrorKind::Io(Ok(IOErrorKind::TimedOut))),
        Taken::NoLeader => Ok(false),
        Taken::Frame { fromid: sender, size } => {
            *fromid = sender;
            match frame_payload_of(msg, size) {
                Ok(_) => Ok(true),
                Err(kind) => Err(kind),
            }
        },
    }
}

/// Reads one frame from the start of `input` and decodes its payload. The
/// body is stored at the start of `msg` first, so a body that is shorter than
/// the footprint of its kind is completed by what `msg` held.
///
/// The outcome is `NoLeader` where the first byte is not the leader, a
/// timed-out I/O error where `input` ends before the frame does, the error of
/// the decoder where the payload is refused, and else the id of the sender
/// with the payload.
pub fn read_frame(input: &[u8], msg: &mut Msgbuf) -> (r: Result<(u8, Payload), ErrorKind>)
    ensures
        match framing(input@) {
            Framing::Short => r matches Err(ErrorKind::Io(Ok(IOErrorKind::TimedOut)))
                && *final(msg) == *old(msg),
            Framing::NoLeader => r matches Err(ErrorKind::NoLeader) && *final(msg) == *old(msg),
            Framing::Frame { fromid, body } => {
                &&& final(msg).buf@ == old(msg).filled(body)
                &&& match frame_payload(body.len() as u8, final(msg).buf@) {
                    Ok(v) => r matches Ok((sender, p)) && sender == fromid && p.wf()
                        && p.zero_padding() && p@ == v,
                    Err(code) => r matches Err(kind) && kind == spec_decode_error_kind(code),
                }
            },
        },
{
    match take_frame(input, msg) {
        Taken::Short => Err(ErrorKind::Io(Ok(IOErrorKind::TimedOut))),
        Taken::NoLeader => Err(ErrorKind::NoLeader),
        Taken::Frame { fromid, size } => match frame_payload_of(msg, size) {
            Ok(p) => Ok((fromid, p)),
            Err(kind) => Err(kind),
        },
    }
}

/// Leader resync: where a stream does not start with the leader, the reader
/// takes exactly that one byte and reports `NoLeader`, and it then waits for a
/// leader again, so the next frame is read from the following byte on.
pub proof fn lemma_leader_resync(s: Seq<u8>)
    requires
        s.len() > 0,
        s[0] != LEADER,
    ensures
        framing(s) == Framing::NoLeader,
        consumed(s) == 1,
        ReadState::Leader.after(s.take(1)) == (ReadState::Leader, ReadStep::NoLeader),
{
}

/// What is written is read back: the reader takes the header and the payload
/// of the frame of a staged well-formed payload, finds the payload that was
/// staged, and leaves only the last byte of the frame in the stream.
pub proof fn lemma_read_of_written(p: Payload, staged: Seq<u8>, id: u8, rest: Seq<u8>)
    requires
        p.wf(),
        staged.len() == RH_RF95_MAX_MESSAGE_LEN,
        staged.take(spec_payload_size(&p) as int) == wire_bytes(p@),
    ensures
        framing(frame_bytes(id, staged) + rest) == (Framing::Frame {
            fromid: id,
            body: wire_bytes(p@),
        }),
        consumed(frame_bytes(id, staged) + rest) == frame_bytes(id, staged).len() - 1,
        forall|buf: Seq<u8>|
            buf.len() == RH_RF95_MAX_MESSAGE_LEN ==> #[trigger] frame_payload(
                wire_bytes(p@).len() as u8,
                wire_bytes(p@) + buf.skip(wire_bytes(p@).len() as int),
            ) == Ok::<PayloadValue, ResultCode>(p@),
{
    crate::wire::lemma_size_law(p);
    lemma_frame_law(p, staged, id);
    let f = frame_bytes(id, staged);
    let s = f + rest;
    let n = wire_bytes(p@).len() as int;
    assert(s[0] == f[0] && s[1] == f[1] && s[2] == f[2]);
    assert(s.subrange(3, 3 + n) =~= wire_bytes(p@));
    assert forall|buf: Seq<u8>| buf.len() == RH_RF95_MAX_MESSAGE_LEN implies #[trigger] frame_payload(
        wire_bytes(p@).len() as u8,
        wire_bytes(p@) + buf.skip(wire_bytes(p@).len() as int),
    ) == Ok::<PayloadValue, ResultCode>(p@) by {
        let stored = wire_bytes(p@) + buf.skip(n);
        assert(stored.take(n) =~= wire_bytes(p@));
        crate::wire::lemma_parse_of_wire(p@, stored);
    }
}

/// Number of bytes at the start of a stream that stand before its first
/// leader: the whole stream where it holds none.
pub open spec fn spec_leader_offset(s: Seq<u8>) -> nat
    decreases s.len(),
{
    if s.len() == 0 || s[0] == LEADER {
        0
    } else {
        1 + spec_leader_offset(s.drop_first())
    }
}

/// Number of bytes to discard from `input` so that what is left starts with a
/// leader: none of the discarded bytes is a leader, and the byte behind them
/// is one unless `input` ends there.
pub fn leader_offset(input: &[u8]) -> (n: usize)
    ensures
        n == spec_leader_offset(input@),
        n <= input@.len(),
        forall|i: int| 0 <= i < n ==> input@[i] != LEADER,
        n < input@.len() ==> input@[n as int] == LEADER,
{
    let mut n: usize = 0;
    while n < input.len() && input[n] != LEADER
        invariant
            n <= input@.len(),
            forall|i: int| 0 <= i < n ==> input@[i] != LEADER,
        decreases input@.len() - n,
    {
        n = n + 1;
    }
    proof {
        lemma_leader_offset(input@, n as nat);
    }
    n
}

/// A place before which no byte is a leader, and at which the stream ends or
/// a leader stands, is the leader offset.
pub proof fn lemma_leader_offset(s: Seq<u8>, n: nat)
    requires
        n <= s.len(),
        forall|i: int| 0 <= i < n ==> s[i] != LEADER,
        n < s.len() ==> s[n as int] == LEADER,
    ensures
        spec_leader_offset(s) == n,
    decreases s.len(),
{
    if s.len() > 0 && s[0] != LEADER {
        let rest = s.drop_first();
        assert forall|i: int| 0 <= i < n - 1 implies rest[i] != LEADER by {
            assert(rest[i] == s[i + 1]);
        }
        lemma_leader_offset(rest, (n - 1) as nat);
    }
}

/// Resync: a reader that starts anywhere before the first leader of a stream
/// reports `NoLeader` and takes one byte, once for each byte that stands
/// before that leader; the read after those does not report `NoLeader`.
pub proof fn lemma_resync(s: Seq<u8>, k: nat)
    requires
        k <= spec_leader_offset(s),
    ensures
        spec_leader_offset(s) <= s.len(),
        k < spec_leader_offset(s) ==> framing(s.skip(k as int)) == Framing::NoLeader && consumed(
            s.skip(k as int),
        ) == 1,
        k == spec_leader_offset(s) ==> framing(s.skip(k as int)) != Framing::NoLeader,
    decreases s.len(),
{
    if s.len() > 0 && s[0] != LEADER {
        if k == 0 {
            lemma_resync(s.drop_first(), 0);
        } else {
            lemma_resync(s.drop_first(), (k - 1) as nat);
            assert(s.drop_first().skip(k - 1) =~= s.skip(k as int));
        }
    }
}

} // verus!
