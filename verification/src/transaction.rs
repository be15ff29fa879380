//! The request/reply transaction over a port that one caller holds at a time.
//!
//! The library decides and the caller acts: [`Transaction::start`] and
//! [`Transaction::step`] say what to do with the port next, and are told what
//! came of it. One frame is written and one frame is read. Nothing is sent
//! again and no read is repeated.

use vstd::prelude::*;
use vstd::slice::{slice_subrange, slice_to_vec};
use crate::codes::{PayloadType, ResultCode};
use crate::frame::{
    decode_error_kind, spec_decode_error_kind, frame_bytes, frame_payload, frame_payload_of,
    framing, write_message, Framing, ReadState, ReadStep,
};
use crate::payload::{Payload, PayloadData, RH_RF95_MAX_MESSAGE_LEN};
use crate::serial_error::{Error, ErrorKind, IOErrorKind};
use crate::wire::{staged, staged_size, Msgbuf};

verus! {

/// Where a transaction stands.
#[derive(Debug, Clone, Copy, PartialEq, Eq, Structural)]
pub enum TransactState {
    /// No transaction is under way.
    Idle,
    /// The request was handed out for writing; the leader of the reply is
    /// waited for.
    AwaitingLeader,
    /// The leader came; the id and the size byte are waited for.
    AwaitingHeader,
    /// The header came; the body is waited for.
    AwaitingBody,
}

/// What the caller is to do with the port.
#[derive(Debug, Clone, PartialEq, Eq)]
pub enum Action {
    /// Set the read timeout to `timeout_ms` milliseconds, write all of
    /// `frame`, then read exactly `read` bytes.
    Send { timeout_ms: u64, frame: Vec<u8>, read: usize },
    /// Read exactly this many bytes.
    Read(usize),
    /// The transaction is over, with the id of the sender and its reply, or
    /// with an error.
    Finish(Result<(u8, Payload), Error>),
}

/// What came of the last action.
#[derive(Debug, Clone, PartialEq, Eq)]
pub enum Event {
    /// The bytes that were to be read.
    Bytes(Vec<u8>),
    /// Writing or reading failed.
    Failed(Error),
}

/// One transaction: the reader of the reply frame and the buffer that the
/// reply is received in.
#[derive(Debug, Clone, Copy, PartialEq, Eq)]
pub struct Transaction {
    pub active: bool,
    pub reader: ReadState,
    pub msg: Msgbuf,
}

/// Whether the frame writer takes what is staged in a buffer: the payload
/// that the buffer starts with is no longer than one radio frame.
pub open spec fn is_sendable(request: &Msgbuf) -> bool {
    staged_size(request.buf@) <= RH_RF95_MAX_MESSAGE_LEN
}

/// Whether an error of the port is a read that timed out.
pub open spec fn spec_is_timeout(kind: &ErrorKind) -> bool {
    kind matches ErrorKind::Io(Ok(IOErrorKind::TimedOut))
}

/// Whether an error of the port is a read that timed out.
#[verifier::when_used_as_spec(spec_is_timeout)]
pub fn is_timeout(kind: &ErrorKind) -> (timed_out: bool)
    ensures
        timed_out == spec_is_timeout(kind),
{
    match kind {
        ErrorKind::Io(Ok(IOErrorKind::TimedOut)) => true,
        _ => false,
    }
}

/// The error that a failure of the port ends a transaction with: a read that
/// timed out becomes `ReplyTimeout`, with the description it came with; every
/// other error is handed on as it is.
pub fn port_failure(e: Error) -> (err: Error)
    ensures
        err.description == e.description,
        is_timeout(&e.kind) ==> err.kind == ErrorKind::ReplyTimeout,
        !is_timeout(&e.kind) ==> err == e,
{
    if is_timeout(&e.kind) {
        Error { kind: ErrorKind::ReplyTimeout, description: e.description }
    } else {
        e
    }
}

/// The description that an error of the message layer is given.
pub open spec fn spec_describe(kind: &ErrorKind) -> Seq<char> {
    match kind {
        ErrorKind::NoLeader => "the first byte of the frame was not the leader"@,
        ErrorKind::InvalidMessageType => "the kind tag of the payload is not known"@,
        ErrorKind::InvalidMemLength => "the length of the data is above the bound of its kind"@,
        ErrorKind::ReplyTimeout => "no reply came before the read timed out"@,
        ErrorKind::RemoteFail(_) => "the remote node answered with a failure"@,
        _ => "the serial link failed"@,
    }
}

/// An error of the message layer of this kind, with its description.
pub fn layer_error(kind: ErrorKind) -> (err: Error)
    ensures
        err.kind == kind,
        err.description@ == spec_describe(&kind),
{
    let description = match &kind {
        ErrorKind::NoLeader => "the first byte of the frame was not the leader".to_string(),
        ErrorKind::InvalidMessageType => "the kind tag of the payload is not known".to_string(),
        ErrorKind::InvalidMemLength => {
            "the length of the data is above the bound of its kind".to_string()
        },
        ErrorKind::ReplyTimeout => "no reply came before the read timed out".to_string(),
        ErrorKind::RemoteFail(_) => "the remote node answered with a failure".to_string(),
        _ => "the serial link failed".to_string(),
    };
    Error { kind, description }
}

impl Transaction {
    /// Where the transaction stands.
    pub open spec fn spec_state(&self) -> TransactState {
        if !self.active {
            TransactState::Idle
        } else {
            match self.reader {
                ReadState::Leader => TransactState::AwaitingLeader,
                ReadState::FromId | ReadState::Size { .. } => TransactState::AwaitingHeader,
                ReadState::Body { .. } => TransactState::AwaitingBody,
            }
        }
    }

    /// Where the transaction stands.
    #[verifier::when_used_as_spec(spec_state)]
    pub fn state(&self) -> (state: TransactState)
        ensures
            state == self.spec_state(),
    {
        if !self.active {
            TransactState::Idle
        } else {
            match self.reader {
                ReadState::Leader => TransactState::AwaitingLeader,
                ReadState::FromId => TransactState::AwaitingHeader,
                ReadState::Size { .. } => TransactState::AwaitingHeader,
                ReadState::Body { .. } => TransactState::AwaitingBody,
            }
        }
    }

    /// The reader is in a state that it can be in.
    pub open spec fn wf(&self) -> bool {
        self.reader.wf()
    }

    /// Begins a transaction with the node `to_id`, whose request is staged
    /// in `request`. The caller is told to set the timeout, to write the frame
    /// of the request and to read one byte, and the leader is waited for. A
    /// request that the frame writer refuses, because its length byte is above
    /// its bound, ends the transaction at once, with nothing written.
    pub fn start(to_id: u8, request: &Msgbuf, timeout_ms: u64) -> (r: (Transaction, Action))
        ensures
            r.0.reader == ReadState::Leader,
            r.0.msg.buf@ == Msgbuf::new_buf(),
            is_sendable(request) ==> {
                &&& r.0.state() == TransactState::AwaitingLeader
                &&& r.1 matches Action::Send { timeout_ms: t, frame, read }
                &&& t == timeout_ms
                &&& frame@ == frame_bytes(to_id, request.buf@)
                &&& read == 1
            },
            !is_sendable(request) ==> {
                &&& r.0.state() == TransactState::Idle
                &&& r.1 matches Action::Finish(Err(err))
                &&& err.kind == ErrorKind::InvalidMemLength
                &&& err.description@ == spec_describe(&err.kind)
            },
    {
        let msg = Msgbuf::new();
        match write_message(request, to_id) {
            Ok(frame) => (
                Transaction { active: true, reader: ReadState::Leader, msg },
                Action::Send { timeout_ms, frame, read: 1 },
            ),
            Err(code) => (
                Transaction { active: false, reader: ReadState::Leader, msg },
                Action::Finish(Err(layer_error(decode_error_kind(code)))),
            ),
        }
    }
}

/// Whether `r` ends a transaction as a frame of this size ends it, once its
/// body is in `buf`: with the sender and the payload that the buffer reads as,
/// or with the error of the decoder.
pub open spec fn is_reply(
    r: Result<(u8, Payload), Error>,
    fromid: u8,
    size: u8,
    buf: Seq<u8>,
) -> bool {
    match frame_payload(size, buf) {
        Ok(v) => r matches Ok((sender, p)) && sender == fromid && p.wf() && p.zero_padding() && p@
            == v,
        Err(code) => r matches Err(err) && err.kind == spec_decode_error_kind(code)
            && err.description@ == spec_describe(&err.kind),
    }
}

/// Whether `r` is the end that a failure of the port gives a transaction.
pub open spec fn is_port_failure(r: Result<(u8, Payload), Error>, e: Error) -> bool {
    r matches Err(err) && err.description == e.description && (if is_timeout(&e.kind) {
        err.kind == ErrorKind::ReplyTimeout
    } else {
        err == e
    })
}

impl Transaction {
    /// The transition of the transaction: whether, from `self` and on `event`,
    /// the transaction goes to `next` and tells the caller `action`.
    ///
    /// A failure of the port ends the transaction, a timed-out read as
    /// `ReplyTimeout`. Bytes go to the reader of the frame: while the frame
    /// goes on the caller is told what to read next; a first byte that is not
    /// the leader ends the transaction with `NoLeader`; a complete frame ends
    /// it with what the buffer reads as.
    pub open spec fn steps_to(self, event: Event, next: Transaction, action: Action) -> bool {
        match event {
            Event::Failed(e) => {
                &&& !next.active
                &&& next.reader == ReadState::Leader
                &&& next.msg == self.msg
                &&& action matches Action::Finish(r)
                &&& is_port_failure(r, e)
            },
            Event::Bytes(bytes) => match self.reader.after(bytes@) {
                (reader, ReadStep::More) => {
                    &&& next.active
                    &&& next.reader == reader
                    &&& next.msg == self.msg
                    &&& action matches Action::Read(n)
                    &&& n == reader.wanted()
                },
                (reader, ReadStep::NoLeader) => {
                    &&& !next.active
                    &&& next.reader == reader
                    &&& next.msg == self.msg
                    &&& action matches Action::Finish(Err(err))
                    &&& err.kind == ErrorKind::NoLeader
                    &&& err.description@ == spec_describe(&err.kind)
                },
                (reader, ReadStep::Frame { fromid, size }) => {
                    &&& !next.active
                    &&& next.reader == reader
                    &&& next.msg.buf@ == if self.reader is Body {
                        self.msg.filled(bytes@)
                    } else {
                        self.msg.buf@
                    }
                    &&& action matches Action::Finish(r)
                    &&& is_reply(r, fromid, size, next.msg.buf@)
                },
            },
        }
    }

    /// Takes what came of the last action and says what to do next.
    pub fn step(&mut self, event: Event) -> (action: Action)
        requires
            old(self).wf(),
            old(self).state() != TransactState::Idle,
            event matches Event::Bytes(bytes) ==> bytes@.len() == old(self).reader.wanted(),
        ensures
            final(self).wf(),
            old(self).steps_to(event, *final(self), action),
    {
        match event {
            Event::Failed(e) => {
                self.active = false;
                self.reader = ReadState::Leader;
                Action::Finish(Err(port_failure(e)))
            },
            Event::Bytes(bytes) => {
                let mut reader = self.reader;
                let mut msg = self.msg;
                let step = reader.accept(&mut msg, bytes.as_slice());
                self.reader = reader;
                self.msg = msg;
                match step {
                    ReadStep::More => Action::Read(reader.wanted()),
                    ReadStep::NoLeader => {
                        self.active = false;
                        Action::Finish(Err(layer_error(ErrorKind::NoLeader)))
                    },
                    ReadStep::Frame { fromid, size } => {
                        self.active = false;
                        match frame_payload_of(&self.msg, size) {
                            Ok(p) => Action::Finish(Ok((fromid, p))),
                            Err(kind) => Action::Finish(Err(layer_error(kind))),
                        }
                    },
                }
            },
        }
    }
}

/// What a whole transaction comes to when the port delivers `reply` before
/// the read times out: the error of a stream that ends too early is
/// `ReplyTimeout`, that of a wrong first byte is `NoLeader`, and a frame gives
/// what a new buffer reads as with the body stored in it.
pub open spec fn is_outcome(r: Result<(u8, Payload), Error>, reply: Seq<u8>) -> bool {
    match framing(reply) {
        Framing::Short => r matches Err(err) && err.kind == ErrorKind::ReplyTimeout
            && err.description@ == "the reply ended before the frame did"@,
        Framing::NoLeader => r matches Err(err) && err.kind == ErrorKind::NoLeader
            && err.description@ == spec_describe(&err.kind),
        Framing::Frame { fromid, body } => is_reply(
            r,
            fromid,
            body.len() as u8,
            staged(body),
        ),
    }
}

/// What was written to the port in a transaction, and how it ended.
#[derive(Debug, Clone, PartialEq, Eq)]
pub struct Exchange {
    /// The bytes that were written: the frame of the request, or nothing.
    pub written: Vec<u8>,
    /// The sender and its reply, or the error.
    pub outcome: Result<(u8, Payload), Error>,
}

/// Runs one transaction against a port that is known in advance: whatever is
/// written, the port delivers `reply` and then nothing more, so that a read
/// behind the end of `reply` times out.
///
/// The request is what is staged in `request`. One that the frame writer
/// refuses is not written. Any other is written as its frame, and the outcome
/// is that of reading one frame from `reply`.
pub fn transact(reply: &[u8], to_id: u8, request: &Msgbuf, timeout_ms: u64) -> (x: Exchange)
    ensures
        is_sendable(request) ==> x.written@ == frame_bytes(to_id, request.buf@) && is_outcome(
            x.outcome,
            reply@,
        ),
        !is_sendable(request) ==> {
            &&& x.written@.len() == 0
            &&& x.outcome matches Err(err)
            &&& err.kind == ErrorKind::InvalidMemLength
            &&& err.description@ == spec_describe(&err.kind)
        },
{
    let (mut tx, first) = Transaction::start(to_id, request, timeout_ms);
    let mut written: Vec<u8> = Vec::new();
    let mut action = first;
    let mut pos: usize = 0;
    let len = reply.len();
    if let Action::Send { timeout_ms: _, frame, read } = action {
        written = frame;
        action = Action::Read(read);
    }
    loop
        invariant
            len == reply@.len(),
            pos <= len,
            tx.wf(),
            is_sendable(request) ==> written@ == frame_bytes(to_id, request.buf@),
            !is_sendable(request) ==> {
                &&& written@.len() == 0
                &&& action matches Action::Finish(Err(err))
                &&& err.kind == ErrorKind::InvalidMemLength
                &&& err.description@ == spec_describe(&err.kind)
            },
            !(action is Send),
            action matches Action::Read(n) ==> {
                &&& is_sendable(request)
                &&& tx.active
                &&& n == tx.reader.wanted()
                &&& tx.msg.buf@ == Msgbuf::new_buf()
                &&& match tx.reader {
                    ReadState::Leader => pos == 0,
                    ReadState::FromId => pos == 1 && reply@[0] == crate::frame::LEADER,
                    ReadState::Size { fromid } => pos == 2 && reply@[0] == crate::frame::LEADER
                        && reply@[1] == fromid,
                    ReadState::Body { fromid, size } => pos == 3 && reply@[0]
                        == crate::frame::LEADER && reply@[1] == fromid && reply@[2] == size,
                }
            },
            action matches Action::Finish(r) ==> (is_sendable(request) ==> is_outcome(r, reply@)),
        decreases
            (if action is Finish { 0int } else { 1int }),
            4 - pos,
    {
        let n = match action {
            Action::Finish(outcome) => {
                return Exchange { written, outcome };
            },
            Action::Read(n) => n,
            Action::Send { timeout_ms: _, frame: _, read } => read,
        };
        let event = if len - pos < n {
            Event::Failed(
                Error {
                    kind: ErrorKind::Io(Ok(IOErrorKind::TimedOut)),
                    description: "the reply ended before the frame did".to_string(),
                },
            )
        } else {
            let chunk = slice_to_vec(slice_subrange(reply, pos, pos + n));
            pos = pos + n;
            Event::Bytes(chunk)
        };
        action = tx.step(event);
    }
}

/// The code that the data byte of a `Fail` stands for. A byte that is the code
/// of no result stands for `RcInvalidReplyMessage`.
pub open spec fn spec_fail_code(failcode: u8) -> ResultCode {
    match ResultCode::from_code(failcode) {
        Some(code) => code,
        None => ResultCode::RcInvalidReplyMessage,
    }
}

/// The code that the data byte of a `Fail` stands for.
#[verifier::when_used_as_spec(spec_fail_code)]
pub fn fail_code(failcode: u8) -> (code: ResultCode)
    ensures
        code == spec_fail_code(failcode),
{
    match ResultCode::from_u8(failcode) {
        Some(code) => code,
        None => ResultCode::RcInvalidReplyMessage,
    }
}

/// Tells a reply that is a failure of the remote node from every other: a
/// `Fail` becomes the error `RemoteFail` with the code it carries, any other
/// reply is handed back as it is.
pub fn remote_result(fromid: u8, reply: Payload) -> (r: Result<(u8, Payload), Error>)
    ensures
        match (reply.payload_type, reply.data) {
            (PayloadType::PtFail, PayloadData::Failcode(failcode)) => {
                &&& r matches Err(err)
                &&& err.kind == ErrorKind::RemoteFail(fail_code(failcode))
                &&& err.description@ == spec_describe(&err.kind)
            },
            _ => r == Ok::<(u8, Payload), Error>((fromid, reply)),
        },
{
    match (reply.payload_type, reply.data) {
        (PayloadType::PtFail, PayloadData::Failcode(failcode)) => Err(
            layer_error(ErrorKind::RemoteFail(fail_code(failcode))),
        ),
        _ => Ok((fromid, reply)),
    }
}

} // verus!
