use automato::codes::{PayloadType, ResultCode};
use automato::frame::{
    bytes_taken, frame_payload_of, is_bare, leader_offset, read_frame, read_message, write_message, ReadState,
    ReadStep,
    LEADER,
};
use automato::payload::{Payload, PayloadData, Pinmode, ReadmemReplyUnion, MAX_READMEM};
use automato::serial_error::{ErrorKind, IOErrorKind};
use automato::setup::{setup_ack, setup_pinmode, setup_readmemreply, setup_writemem};
use automato::wire::{encode, Msgbuf};

fn blank() -> Payload {
    Payload::new(PayloadType::PtAck, PayloadData::Unit)
}

fn staged(p: &Payload) -> Msgbuf {
    let mut msg = Msgbuf::new();
    assert_eq!(msg.set_payload(p), ResultCode::RcOk);
    msg
}

fn timed_out() -> ErrorKind {
    ErrorKind::Io(Ok(IOErrorKind::TimedOut))
}

#[test]
fn frame_is_leader_id_size_payload_and_one_more_byte() {
    let mut p = blank();
    setup_writemem(&mut p, 5678, &[5, 4, 3, 2, 1]);
    assert_eq!(
        write_message(&staged(&p), 7),
        Ok(vec![b'm', 7, 9, 0x08, 0x2E, 0x16, 0x05, 0x05, 0x04, 0x03, 0x02, 0x01, 0x00])
    );
    setup_ack(&mut p);
    assert_eq!(write_message(&staged(&p), 255), Ok(vec![0x6D, 255, 1, 0, 0]));
}

#[test]
fn last_byte_of_a_frame_is_the_byte_behind_the_payload() {
    let mut msg = Msgbuf::new();
    msg.fill(&[0xA0, 0xA1, 0xA2, 0xA3, 0xA4, 0xA5]);
    let mut p = blank();
    setup_pinmode(&mut p, 26, 2);
    assert_eq!(msg.set_payload(&p), ResultCode::RcOk);
    assert_eq!(write_message(&msg, 7), Ok(vec![b'm', 7, 3, 2, 26, 2, 0xA3]));
    setup_ack(&mut p);
    assert_eq!(msg.set_payload(&p), ResultCode::RcOk);
    assert_eq!(write_message(&msg, 7), Ok(vec![b'm', 7, 1, 0, 26]));
    let before = msg;
    let _ = write_message(&msg, 7);
    assert_eq!(msg, before);
}

#[test]
fn last_byte_of_a_frame_is_the_first_padding_byte_of_variable_data() {
    let mut data = [0xEEu8; MAX_READMEM];
    data[0] = 1;
    data[1] = 2;
    let p = Payload::new(
        PayloadType::PtReadmemreply,
        PayloadData::ReadmemReply(ReadmemReplyUnion { length: 2, data }),
    );
    assert_eq!(write_message(&staged(&p), 9), Ok(vec![b'm', 9, 4, 7, 2, 1, 2, 0xEE]));
}

#[test]
fn frame_of_an_unknown_tag_has_size_zero() {
    let mut msg = Msgbuf::new();
    msg.fill(&[99, 1, 2]);
    assert_eq!(msg.payload_size(), 0);
    assert_eq!(write_message(&msg, 5), Ok(vec![b'm', 5, 0, 99]));
}

#[test]
fn staged_size_follows_tag_and_length_byte() {
    let mut msg = Msgbuf::new();
    assert_eq!(msg.payload_size(), 1);
    msg.fill(&[7, 5]);
    assert_eq!(msg.payload_size(), 7);
    msg.fill(&[8, 0, 0, 5]);
    assert_eq!(msg.payload_size(), 9);
    msg.fill(&[10]);
    assert_eq!(msg.payload_size(), 17);
    msg.fill(&[18]);
    assert_eq!(msg.payload_size(), 32);
    msg.fill(&[7, 255]);
    assert_eq!(msg.payload_size(), 257);
    msg.fill(&[19]);
    assert_eq!(msg.payload_size(), 0);
}

#[test]
fn frame_law_holds_for_every_id() {
    let mut p = blank();
    setup_pinmode(&mut p, 26, 2);
    let payload = encode(&p).unwrap();
    for id in 0u8..=255 {
        let frame = write_message(&staged(&p), id).unwrap();
        assert_eq!(frame.len(), payload.len() + 4);
        assert_eq!(frame[0], LEADER);
        assert_eq!(frame[1], id);
        assert_eq!(frame[2] as usize, payload.len());
        assert_eq!(&frame[3..3 + payload.len()], &payload[..]);
    }
}

#[test]
fn frame_of_the_largest_payload_has_255_bytes() {
    let mut p = blank();
    setup_readmemreply(&mut p, &vec![3u8; 249]);
    let frame = write_message(&staged(&p), 1).unwrap();
    assert_eq!(frame.len(), 255);
    assert_eq!(frame[2], 251);
    assert_eq!(&frame[3..5], &[7, 249]);
    assert!(frame[5..254].iter().all(|b| *b == 3));
    assert_eq!(frame[254], 0);
}

#[test]
fn frame_of_a_length_byte_above_its_bound_is_refused() {
    let mut msg = Msgbuf::new();
    msg.fill(&[7, 250]);
    assert_eq!(write_message(&msg, 1), Err(ResultCode::RcInvalidMemLength));
    msg.fill(&[8, 0, 0, 248]);
    assert_eq!(write_message(&msg, 1), Err(ResultCode::RcInvalidMemLength));
    msg.fill(&[8, 0, 0, 247]);
    assert_eq!(write_message(&msg, 1).unwrap().len(), 255);
}

#[test]
fn payload_that_is_not_well_formed_is_not_staged() {
    let mut msg = Msgbuf::new();
    let p = Payload::new(PayloadType::PtAck, PayloadData::Pin(1));
    assert_eq!(msg.set_payload(&p), ResultCode::RcInvalidMessageType);
    assert_eq!(msg, Msgbuf::new());
}

#[test]
fn bytes_taken_is_what_one_read_takes() {
    assert_eq!(bytes_taken(&[]), 0);
    assert_eq!(bytes_taken(&[0, b'm', 1, 0]), 1);
    assert_eq!(bytes_taken(&[b'm']), 1);
    assert_eq!(bytes_taken(&[b'm', 1]), 2);
    assert_eq!(bytes_taken(&[b'm', 1, 0, 9]), 3);
    assert_eq!(bytes_taken(&[b'm', 1, 2, 3, 22, 0, 9]), 5);
    assert_eq!(bytes_taken(&[b'm', 1, 3, 3, 22]), 5);
}

#[test]
fn reading_on_starts_behind_the_bytes_taken() {
    let mut p = blank();
    setup_pinmode(&mut p, 26, 2);
    let mut stream = write_message(&staged(&p), 4).unwrap();
    stream.extend_from_slice(&[b'm', 5, 2, 3, 22]);
    let mut msg = Msgbuf::new();
    assert_eq!(read_frame(&stream, &mut msg), Ok((4, p)));
    let n = bytes_taken(&stream);
    assert_eq!(n, 6);
    assert_eq!(read_frame(&stream[n..], &mut msg), Err(ErrorKind::NoLeader));
    let n = n + bytes_taken(&stream[n..]);
    assert_eq!(
        read_frame(&stream[n..], &mut msg),
        Ok((5, Payload::new(PayloadType::PtReadpin, PayloadData::Pin(22))))
    );
}

#[test]
fn read_frame_gives_sender_and_payload() {
    let mut msg = Msgbuf::new();
    let r = read_frame(&[b'm', 9, 3, 2, 26, 2], &mut msg);
    assert_eq!(
        r,
        Ok((
            9,
            Payload::new(
                PayloadType::PtPinmode,
                PayloadData::Pinmode(Pinmode { pin: 26, mode: 2 })
            )
        ))
    );
    assert_eq!(&msg.buf[0..4], &[2, 26, 2, 0]);
}

#[test]
fn reader_takes_as_many_bytes_as_the_size_byte_says() {
    let mut p = blank();
    setup_pinmode(&mut p, 26, 2);
    let mut stream = write_message(&staged(&p), 4).unwrap();
    stream.extend_from_slice(&[0xEE, 0xEE]);
    let mut msg = Msgbuf::new();
    assert_eq!(read_frame(&stream, &mut msg), Ok((4, p)));
    assert_eq!(&msg.buf[0..5], &[2, 26, 2, 0, 0]);
}

#[test]
fn read_frame_reports_a_missing_leader() {
    let mut msg = Msgbuf::new();
    msg.fill(&[5, 5, 5]);
    let before = msg;
    assert_eq!(read_frame(&[b'x', b'm', 1, 0], &mut msg), Err(ErrorKind::NoLeader));
    assert_eq!(msg, before);
}

#[test]
fn after_no_leader_the_next_read_starts_at_the_following_byte() {
    let stream = [0x00, b'm', 7, 2, 3, 22];
    let mut msg = Msgbuf::new();
    let mut from = 0u8;
    assert_eq!(read_message(&stream, &mut msg, &mut from), Ok(false));
    assert_eq!(read_message(&stream[1..], &mut msg, &mut from), Ok(true));
    assert_eq!(from, 7);
    assert_eq!(&msg.buf[0..2], &[3, 22]);
}

#[test]
fn reader_waits_for_a_leader_again_after_no_leader() {
    let mut msg = Msgbuf::new();
    let mut state = ReadState::new();
    assert_eq!(state.wanted(), 1);
    assert_eq!(state.accept(&mut msg, &[0x00]), ReadStep::NoLeader);
    assert_eq!(state, ReadState::Leader);
    assert_eq!(state.accept(&mut msg, &[b'm']), ReadStep::More);
    assert_eq!(state, ReadState::FromId);
    assert_eq!(state.accept(&mut msg, &[7]), ReadStep::More);
    assert_eq!(state, ReadState::Size { fromid: 7 });
    assert_eq!(state.accept(&mut msg, &[2]), ReadStep::More);
    assert_eq!(state, ReadState::Body { fromid: 7, size: 2 });
    assert_eq!(state.wanted(), 2);
    assert_eq!(state.accept(&mut msg, &[3, 22]), ReadStep::Frame { fromid: 7, size: 2 });
    assert_eq!(state, ReadState::Leader);
    assert_eq!(&msg.buf[0..2], &[3, 22]);
}

#[test]
fn short_stream_times_out() {
    let mut msg = Msgbuf::new();
    let mut from = 42u8;
    for stream in [&[][..], &[b'm'][..], &[b'm', 1][..], &[b'm', 1, 3][..], &[b'm', 1, 3, 2, 26][..]] {
        assert_eq!(read_message(stream, &mut msg, &mut from), Err(timed_out()));
        assert_eq!(read_frame(stream, &mut msg), Err(timed_out()));
        assert_eq!(msg, Msgbuf::new());
        assert_eq!(from, 42);
    }
}

#[test]
fn frame_of_size_zero_is_complete_after_the_header() {
    let mut msg = Msgbuf::new();
    let mut from = 0u8;
    assert_eq!(read_message(&[b'm', 5, 0], &mut msg, &mut from), Ok(true));
    assert_eq!(from, 5);
    assert_eq!(msg, Msgbuf::new());
}

#[test]
fn frame_of_size_zero_is_taken_where_the_buffer_is_a_bare_tag() {
    let mut msg = Msgbuf::new();
    assert_eq!(read_frame(&[b'm', 5, 0], &mut msg), Ok((5, blank())));
    msg.fill(&[9]);
    assert_eq!(
        read_frame(&[b'm', 5, 0], &mut msg),
        Ok((5, Payload::new(PayloadType::PtReadinfo, PayloadData::Unit)))
    );
}

#[test]
fn frame_of_size_zero_is_refused_where_the_buffer_is_no_bare_tag() {
    let mut msg = Msgbuf::new();
    msg.fill(&[2, 26, 2]);
    assert_eq!(read_frame(&[b'm', 5, 0], &mut msg), Err(ErrorKind::InvalidMessageType));
    msg.fill(&[200]);
    assert_eq!(read_frame(&[b'm', 5, 0], &mut msg), Err(ErrorKind::InvalidMessageType));
}

#[test]
fn read_frame_reports_what_the_decoder_refuses() {
    let mut msg = Msgbuf::new();
    assert_eq!(read_frame(&[b'm', 5, 1, 19], &mut msg), Err(ErrorKind::InvalidMessageType));
    assert_eq!(read_frame(&[b'm', 5, 2, 7, 250], &mut msg), Err(ErrorKind::InvalidMemLength));
    assert_eq!(
        read_frame(&[b'm', 5, 4, 8, 0, 0, 248], &mut msg),
        Err(ErrorKind::InvalidMemLength)
    );
}

#[test]
fn short_body_is_completed_by_the_buffer() {
    let mut msg = Msgbuf::new();
    msg.fill(&[0, 0, 9]);
    let r = read_frame(&[b'm', 5, 2, 2, 26], &mut msg).unwrap();
    assert_eq!(
        r.1,
        Payload::new(PayloadType::PtPinmode, PayloadData::Pinmode(Pinmode { pin: 26, mode: 9 }))
    );
}

#[test]
fn bare_kinds_are_the_four_without_data() {
    let bare: Vec<u8> = (0u8..=18)
        .filter(|c| is_bare(PayloadType::from_u8(*c).unwrap()))
        .collect();
    assert_eq!(bare, vec![0, 9, 11, 13]);
}

#[test]
fn frame_payload_of_reads_the_buffer() {
    let mut msg = Msgbuf::new();
    msg.fill(&[3, 22]);
    assert_eq!(
        frame_payload_of(&msg, 2),
        Ok(Payload::new(PayloadType::PtReadpin, PayloadData::Pin(22)))
    );
    assert_eq!(frame_payload_of(&msg, 0), Err(ErrorKind::InvalidMessageType));
}

#[test]
fn read_message_refuses_an_unknown_kind_tag() {
    let mut msg = Msgbuf::new();
    let mut from = 0u8;
    assert_eq!(
        read_message(&[0x6D, 0x09, 0x02, 0xFF, 0x00], &mut msg, &mut from),
        Err(ErrorKind::InvalidMessageType)
    );
    assert_eq!(from, 9);
    assert_eq!(&msg.buf[0..2], &[0xFF, 0x00]);
    assert_eq!(
        read_frame(&[0x6D, 0x09, 0x02, 0xFF, 0x00], &mut Msgbuf::new()),
        Err(ErrorKind::InvalidMessageType)
    );
    assert_eq!(
        read_message(&[b'm', 1, 1, 19], &mut Msgbuf::new(), &mut from),
        Err(ErrorKind::InvalidMessageType)
    );
    assert_eq!(read_message(&[b'm', 1, 1, 18], &mut Msgbuf::new(), &mut from), Ok(true));
}

#[test]
fn read_message_refuses_a_length_byte_above_its_bound() {
    let mut from = 0u8;
    assert_eq!(
        read_message(&[b'm', 5, 2, 7, 250], &mut Msgbuf::new(), &mut from),
        Err(ErrorKind::InvalidMemLength)
    );
    assert_eq!(
        read_message(&[b'm', 5, 4, 8, 0, 0, 248], &mut Msgbuf::new(), &mut from),
        Err(ErrorKind::InvalidMemLength)
    );
    assert_eq!(read_message(&[b'm', 5, 2, 7, 249], &mut Msgbuf::new(), &mut from), Ok(true));
    assert_eq!(
        read_message(&[b'm', 5, 4, 8, 0, 0, 247], &mut Msgbuf::new(), &mut from),
        Ok(true)
    );
}

#[test]
fn read_message_refuses_a_frame_of_size_zero_over_a_payload_with_data() {
    let mut msg = Msgbuf::new();
    msg.fill(&[2, 26, 2]);
    let mut from = 0u8;
    assert_eq!(
        read_message(&[b'm', 5, 0], &mut msg, &mut from),
        Err(ErrorKind::InvalidMessageType)
    );
}

#[test]
fn leader_offset_is_the_place_of_the_first_leader() {
    assert_eq!(leader_offset(&[]), 0);
    assert_eq!(leader_offset(&[b'm']), 0);
    assert_eq!(leader_offset(&[0, 1, b'm', 3, b'm']), 2);
    assert_eq!(leader_offset(&[0, 1, 2]), 3);
}

#[test]
fn discarding_up_to_the_leader_finds_the_frame() {
    let stream = [9u8, 0, b'n', b'm', 7, 2, 3, 22];
    let mut msg = Msgbuf::new();
    let n = leader_offset(&stream);
    assert_eq!(n, 3);
    for k in 0..n {
        assert_eq!(read_frame(&stream[k..], &mut msg), Err(ErrorKind::NoLeader));
    }
    assert_eq!(
        read_frame(&stream[n..], &mut msg),
        Ok((7, Payload::new(PayloadType::PtReadpin, PayloadData::Pin(22))))
    );
}
