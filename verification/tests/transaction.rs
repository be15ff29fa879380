use automato::codes::{PayloadType, ResultCode};
use automato::frame::write_message;
use automato::payload::{Payload, PayloadData, Pinval};
use automato::serial_error::{Error, ErrorKind, IOErrorKind};
use automato::setup::{setup_fail, setup_readpin, setup_readpinreply, setup_writepin};
use automato::wire::Msgbuf;
use automato::transaction::{
    fail_code, is_timeout, layer_error, port_failure, remote_result, transact, Action, Event,
    TransactState, Transaction,
};

fn blank() -> Payload {
    Payload::new(PayloadType::PtAck, PayloadData::Unit)
}

fn staged(p: &Payload) -> Msgbuf {
    let mut msg = Msgbuf::new();
    assert_eq!(msg.set_payload(p), ResultCode::RcOk);
    msg
}

fn readpin(pin: u8) -> Msgbuf {
    let mut p = blank();
    setup_readpin(&mut p, pin);
    staged(&p)
}

fn io_error(kind: IOErrorKind, description: &str) -> Error {
    Error { kind: ErrorKind::Io(Ok(kind)), description: description.to_string() }
}

#[test]
fn transaction_writes_the_request_and_returns_the_reply() {
    let mut reply = blank();
    setup_readpinreply(&mut reply, 22, 1);
    let stream = write_message(&staged(&reply), 9).unwrap();
    let x = transact(&stream, 9, &readpin(22), 420);
    assert_eq!(x.written, vec![b'm', 9, 2, 3, 22, 0]);
    assert_eq!(x.outcome, Ok((9, reply)));
}

#[test]
fn transaction_without_a_reply_times_out() {
    let x = transact(&[], 9, &readpin(22), 420);
    assert_eq!(x.written, vec![b'm', 9, 2, 3, 22, 0]);
    assert_eq!(x.outcome.unwrap_err().kind, ErrorKind::ReplyTimeout);
    let x = transact(&[b'm', 9, 3, 4, 22], 9, &readpin(22), 420);
    assert_eq!(x.outcome.unwrap_err().kind, ErrorKind::ReplyTimeout);
}

#[test]
fn transaction_reports_a_missing_leader_once() {
    let x = transact(&[0, b'm', 9, 1, 0], 9, &readpin(22), 420);
    assert_eq!(x.outcome.unwrap_err().kind, ErrorKind::NoLeader);
}

#[test]
fn transaction_reports_decode_errors() {
    let x = transact(&[b'm', 9, 1, 77], 9, &readpin(22), 420);
    assert_eq!(x.outcome.unwrap_err().kind, ErrorKind::InvalidMessageType);
    let x = transact(&[b'm', 9, 2, 7, 251], 9, &readpin(22), 420);
    assert_eq!(x.outcome.unwrap_err().kind, ErrorKind::InvalidMemLength);
}

#[test]
fn transaction_with_a_refused_request_writes_nothing() {
    let mut bad = Msgbuf::new();
    bad.fill(&[7, 250]);
    let x = transact(&[b'm', 9, 1, 0], 9, &bad, 420);
    assert!(x.written.is_empty());
    assert_eq!(x.outcome, Err(layer_error(ErrorKind::InvalidMemLength)));
}

#[test]
fn transaction_sends_the_byte_behind_the_request() {
    let mut request = Msgbuf::new();
    request.fill(&[0xB0, 0xB1, 0xB2, 0xB3]);
    let mut p = blank();
    setup_readpin(&mut p, 22);
    request.set_payload(&p);
    let x = transact(&[], 9, &request, 420);
    assert_eq!(x.written, vec![b'm', 9, 2, 3, 22, 0xB2]);
    let e = x.outcome.unwrap_err();
    assert_eq!(e.kind, ErrorKind::ReplyTimeout);
    assert_eq!(e.description, "the reply ended before the frame did");
}

#[test]
fn transaction_takes_a_reply_of_size_zero_as_an_ack() {
    let mut request = blank();
    setup_writepin(&mut request, 15, 1);
    let x = transact(&[b'm', 3, 0], 3, &staged(&request), 420);
    assert_eq!(x.outcome, Ok((3, blank())));
}

#[test]
fn transaction_steps_through_the_states() {
    let (mut tx, action) = Transaction::start(9, &readpin(22), 420);
    assert_eq!(
        action,
        Action::Send { timeout_ms: 420, frame: vec![b'm', 9, 2, 3, 22, 0], read: 1 }
    );
    assert_eq!(tx.state(), TransactState::AwaitingLeader);
    assert_eq!(tx.step(Event::Bytes(vec![b'm'])), Action::Read(1));
    assert_eq!(tx.state(), TransactState::AwaitingHeader);
    assert_eq!(tx.step(Event::Bytes(vec![9])), Action::Read(1));
    assert_eq!(tx.state(), TransactState::AwaitingHeader);
    assert_eq!(tx.step(Event::Bytes(vec![3])), Action::Read(3));
    assert_eq!(tx.state(), TransactState::AwaitingBody);
    let done = tx.step(Event::Bytes(vec![4, 22, 1]));
    assert_eq!(
        done,
        Action::Finish(Ok((
            9,
            Payload::new(
                PayloadType::PtReadpinreply,
                PayloadData::Pinval(Pinval { pin: 22, state: 1 })
            )
        )))
    );
    assert_eq!(tx.state(), TransactState::Idle);
}

#[test]
fn transaction_ends_on_a_wrong_first_byte() {
    let (mut tx, _) = Transaction::start(9, &readpin(22), 420);
    match tx.step(Event::Bytes(vec![b'x'])) {
        Action::Finish(Err(e)) => assert_eq!(e.kind, ErrorKind::NoLeader),
        other => panic!("unexpected action {:?}", other),
    }
    assert_eq!(tx.state(), TransactState::Idle);
}

#[test]
fn transaction_turns_a_timed_out_read_into_reply_timeout() {
    let (mut tx, _) = Transaction::start(9, &readpin(22), 420);
    tx.step(Event::Bytes(vec![b'm']));
    let action = tx.step(Event::Failed(io_error(IOErrorKind::TimedOut, "timed out")));
    assert_eq!(
        action,
        Action::Finish(Err(Error {
            kind: ErrorKind::ReplyTimeout,
            description: "timed out".to_string()
        }))
    );
    assert_eq!(tx.state(), TransactState::Idle);
}

#[test]
fn transaction_hands_other_port_errors_on() {
    let (mut tx, _) = Transaction::start(9, &readpin(22), 420);
    let broken = io_error(IOErrorKind::BrokenPipe, "pipe");
    assert_eq!(tx.step(Event::Failed(broken.clone())), Action::Finish(Err(broken)));
    let (mut tx, _) = Transaction::start(9, &readpin(22), 420);
    let gone = Error { kind: ErrorKind::NoDevice, description: "unplugged".to_string() };
    assert_eq!(tx.step(Event::Failed(gone.clone())), Action::Finish(Err(gone)));
}

#[test]
fn start_refuses_a_request_with_a_length_byte_above_its_bound() {
    let mut bad = Msgbuf::new();
    bad.fill(&[8, 0, 0, 255]);
    let (tx, action) = Transaction::start(1, &bad, 10);
    assert_eq!(tx.state(), TransactState::Idle);
    assert_eq!(action, Action::Finish(Err(layer_error(ErrorKind::InvalidMemLength))));
}

#[test]
fn only_a_timed_out_read_is_a_timeout() {
    assert!(is_timeout(&ErrorKind::Io(Ok(IOErrorKind::TimedOut))));
    assert!(!is_timeout(&ErrorKind::Io(Ok(IOErrorKind::WouldBlock))));
    assert!(!is_timeout(&ErrorKind::Io(Err("TimedOut".to_string()))));
    assert!(!is_timeout(&ErrorKind::ReplyTimeout));
    assert!(!is_timeout(&ErrorKind::NoDevice));
}

#[test]
fn port_failure_keeps_the_description() {
    let e = port_failure(io_error(IOErrorKind::TimedOut, "slow"));
    assert_eq!(e.kind, ErrorKind::ReplyTimeout);
    assert_eq!(e.description, "slow");
    let e = port_failure(io_error(IOErrorKind::Interrupted, "signal"));
    assert_eq!(e, io_error(IOErrorKind::Interrupted, "signal"));
}

#[test]
fn fail_reply_is_a_remote_failure() {
    let mut reply = blank();
    setup_fail(&mut reply, ResultCode::RcInvalidPinNumber);
    let e = remote_result(4, reply).unwrap_err();
    assert_eq!(e.kind, ErrorKind::RemoteFail(ResultCode::RcInvalidPinNumber));
    assert_eq!(e, layer_error(ErrorKind::RemoteFail(ResultCode::RcInvalidPinNumber)));
}

#[test]
fn other_replies_are_handed_back() {
    let mut reply = blank();
    setup_readpinreply(&mut reply, 22, 1);
    assert_eq!(remote_result(4, reply), Ok((4, reply)));
    assert_eq!(remote_result(4, blank()), Ok((4, blank())));
}

#[test]
fn unknown_fail_code_is_an_invalid_reply() {
    assert_eq!(fail_code(3), ResultCode::RcInvalidPinNumber);
    assert_eq!(fail_code(15), ResultCode::RcCount);
    assert_eq!(fail_code(16), ResultCode::RcInvalidReplyMessage);
    assert_eq!(fail_code(255), ResultCode::RcInvalidReplyMessage);
    let reply = Payload::new(PayloadType::PtFail, PayloadData::Failcode(99));
    assert_eq!(
        remote_result(1, reply).unwrap_err().kind,
        ErrorKind::RemoteFail(ResultCode::RcInvalidReplyMessage)
    );
}

#[test]
fn layer_errors_are_described() {
    assert_eq!(
        layer_error(ErrorKind::NoLeader).description,
        "the first byte of the frame was not the leader"
    );
    assert_eq!(
        layer_error(ErrorKind::InvalidMessageType).description,
        "the kind tag of the payload is not known"
    );
    assert_eq!(
        layer_error(ErrorKind::InvalidMemLength).description,
        "the length of the data is above the bound of its kind"
    );
    assert_eq!(
        layer_error(ErrorKind::ReplyTimeout).description,
        "no reply came before the read timed out"
    );
    assert_eq!(layer_error(ErrorKind::Unknown).description, "the serial link failed");
}
