use automato::codes::{FieldFormat, PayloadType, ResultCode};
use automato::payload::{
    payload_size, Payload, PayloadData, Pinmode, ReadFieldReply, ReadmemReplyUnion, WritememUnion,
    MAX_READMEM, MAX_WRITEMEM, RH_RF95_MAX_MESSAGE_LEN,
};
use automato::setup::{
    setup_ack, setup_fail, setup_pinmode, setup_readanalog, setup_readanalogreply,
    setup_readfield, setup_readfieldreply, setup_readhumidityreply, setup_readinfo,
    setup_readinforeply, setup_readmem, setup_readmemreply, setup_readpin, setup_readpinreply,
    setup_readtemperaturereply, setup_writemem, setup_writepin,
};
use automato::wire::{decode, encode, Msgbuf};

fn blank() -> Payload {
    Payload::new(PayloadType::PtAck, PayloadData::Unit)
}

#[test]
fn ack_encodes_to_its_tag() {
    let mut p = blank();
    setup_ack(&mut p);
    assert_eq!(encode(&p), Ok(vec![0x00]));
    assert_eq!(payload_size(&p), 1);
}

#[test]
fn fail_encodes_its_code() {
    let mut p = blank();
    setup_fail(&mut p, ResultCode::RcInvalidRhRouterError);
    assert_eq!(encode(&p), Ok(vec![0x01, 0x0E]));
}

#[test]
fn pinmode_encodes_pin_and_mode() {
    let mut p = blank();
    setup_pinmode(&mut p, 26, 2);
    assert_eq!(encode(&p), Ok(vec![0x02, 0x1A, 0x02]));
}

#[test]
fn writepin_encodes_pin_and_state() {
    let mut p = blank();
    setup_writepin(&mut p, 15, 1);
    assert_eq!(encode(&p), Ok(vec![0x05, 0x0F, 0x01]));
}

#[test]
fn readmemreply_encodes_length_and_data() {
    let mut p = blank();
    assert_eq!(setup_readmemreply(&mut p, &[1, 2, 3, 4, 5]), ResultCode::RcOk);
    assert_eq!(encode(&p), Ok(vec![0x07, 0x05, 0x01, 0x02, 0x03, 0x04, 0x05]));
    assert_eq!(payload_size(&p), 7);
}

#[test]
fn writemem_encodes_address_length_and_data() {
    let mut p = blank();
    assert_eq!(setup_writemem(&mut p, 5678, &[5, 4, 3, 2, 1]), ResultCode::RcOk);
    assert_eq!(
        encode(&p),
        Ok(vec![0x08, 0x2E, 0x16, 0x05, 0x05, 0x04, 0x03, 0x02, 0x01])
    );
    assert_eq!(payload_size(&p), 9);
}

#[test]
fn readinforeply_encodes_little_endian_scalars() {
    let mut p = blank();
    setup_readinforeply(&mut p, 1.1f32.to_bits(), 5678, 5000, 5);
    let mut expected = vec![0x0A];
    expected.extend_from_slice(&1.1f32.to_le_bytes());
    expected.extend_from_slice(&[0x2E, 0x16, 0, 0, 0, 0, 0, 0]);
    expected.extend_from_slice(&[0x88, 0x13]);
    expected.extend_from_slice(&[0x05, 0x00]);
    assert_eq!(encode(&p), Ok(expected));
    assert_eq!(payload_size(&p), 17);
}

#[test]
fn readinforeply_scalars_use_every_byte() {
    let mut p = blank();
    setup_readinforeply(&mut p, 0x0403_0201, 0x0807_0605_0403_0201, 0xA1A0, 0xB1B0);
    assert_eq!(
        encode(&p),
        Ok(vec![10, 1, 2, 3, 4, 1, 2, 3, 4, 5, 6, 7, 8, 0xA0, 0xA1, 0xB0, 0xB1])
    );
    let back = decode(&encode(&p).unwrap()).unwrap();
    assert_eq!(back, p);
}

#[test]
fn readfieldreply_encodes_header_and_padded_name() {
    let mut p = blank();
    setup_readfieldreply(&mut p, 7, 77, 20, FieldFormat::FfUint32, b"wat");
    let bytes = encode(&p).unwrap();
    assert_eq!(bytes.len(), 32);
    assert_eq!(&bytes[0..10], &[0x12, 0x07, 0x00, 0x4D, 0x00, 0x14, 0x04, b'w', b'a', b't']);
    assert!(bytes[10..].iter().all(|b| *b == 0));
}

#[test]
fn small_kinds_encode_as_tag_and_fields() {
    let mut p = blank();
    setup_readpin(&mut p, 22);
    assert_eq!(encode(&p), Ok(vec![3, 22]));
    setup_readpinreply(&mut p, 26, 1);
    assert_eq!(encode(&p), Ok(vec![4, 26, 1]));
    setup_readanalog(&mut p, 27);
    assert_eq!(encode(&p), Ok(vec![15, 27]));
    setup_readanalogreply(&mut p, 6, 500);
    assert_eq!(encode(&p), Ok(vec![16, 6, 0xF4, 0x01]));
    setup_readmem(&mut p, 1500, 75);
    assert_eq!(encode(&p), Ok(vec![6, 0xDC, 0x05, 75]));
    setup_readinfo(&mut p);
    assert_eq!(encode(&p), Ok(vec![9]));
    setup_readfield(&mut p, 1);
    assert_eq!(encode(&p), Ok(vec![17, 1, 0]));
    setup_readhumidityreply(&mut p, 45.7f32.to_bits());
    assert_eq!(encode(&p), Ok(vec![12, 0xCD, 0xCC, 0x36, 0x42]));
    setup_readtemperaturereply(&mut p, 98.6f32.to_bits());
    assert_eq!(encode(&p), Ok(vec![14, 0x33, 0x33, 0xC5, 0x42]));
}

#[test]
fn encoded_length_is_payload_size() {
    let mut p = blank();
    for n in [0usize, 1, 5, 100, 249] {
        let mem = vec![0xA5u8; n];
        assert_eq!(setup_readmemreply(&mut p, &mem), ResultCode::RcOk);
        assert_eq!(encode(&p).unwrap().len(), payload_size(&p));
        assert_eq!(payload_size(&p), 2 + n);
    }
    for n in [0usize, 1, 5, 100, 247] {
        let mem = vec![0x5Au8; n];
        assert_eq!(setup_writemem(&mut p, 9, &mem), ResultCode::RcOk);
        assert_eq!(encode(&p).unwrap().len(), payload_size(&p));
        assert_eq!(payload_size(&p), 4 + n);
    }
}

#[test]
fn largest_payloads_fill_one_radio_frame() {
    let mut p = blank();
    assert_eq!(setup_readmemreply(&mut p, &vec![1u8; MAX_READMEM]), ResultCode::RcOk);
    assert_eq!(encode(&p).unwrap().len(), RH_RF95_MAX_MESSAGE_LEN);
    assert_eq!(setup_writemem(&mut p, 0, &vec![1u8; MAX_WRITEMEM]), ResultCode::RcOk);
    assert_eq!(encode(&p).unwrap().len(), RH_RF95_MAX_MESSAGE_LEN);
}

#[test]
fn readmemreply_longer_than_249_is_rejected() {
    let mut p = blank();
    setup_pinmode(&mut p, 1, 2);
    let before = p.data;
    assert_eq!(
        setup_readmemreply(&mut p, &vec![0u8; 250]),
        ResultCode::RcInvalidMemLength
    );
    assert_eq!(p.payload_type, PayloadType::PtReadmemreply);
    assert_eq!(p.data, before);
}

#[test]
fn writemem_longer_than_247_is_rejected() {
    let mut p = blank();
    setup_pinmode(&mut p, 1, 2);
    let before = p.data;
    assert_eq!(
        setup_writemem(&mut p, 7, &vec![0u8; 248]),
        ResultCode::RcInvalidMemLength
    );
    assert_eq!(p.payload_type, PayloadType::PtWritemem);
    assert_eq!(p.data, before);
}

#[test]
fn payload_left_by_a_rejected_constructor_is_not_encoded() {
    let mut p = blank();
    setup_pinmode(&mut p, 1, 2);
    setup_writemem(&mut p, 7, &vec![0u8; 248]);
    assert_eq!(encode(&p), Err(ResultCode::RcInvalidMessageType));
}

#[test]
fn decode_gives_back_what_was_encoded() {
    let mut p = blank();
    setup_writemem(&mut p, 5678, &[5, 4, 3, 2, 1]);
    assert_eq!(decode(&encode(&p).unwrap()), Ok(p));
    setup_readfieldreply(&mut p, 7, 77, 20, FieldFormat::FfUint32, b"wat");
    assert_eq!(decode(&encode(&p).unwrap()), Ok(p));
    setup_readanalogreply(&mut p, 6, 500);
    assert_eq!(decode(&encode(&p).unwrap()), Ok(p));
    setup_readmemreply(&mut p, &vec![7u8; 249]);
    assert_eq!(decode(&encode(&p).unwrap()), Ok(p));
}

#[test]
fn decode_compares_only_the_bytes_that_are_meant() {
    let mut data = [0xEEu8; MAX_READMEM];
    data[0] = 1;
    data[1] = 2;
    let p = Payload::new(
        PayloadType::PtReadmemreply,
        PayloadData::ReadmemReply(ReadmemReplyUnion { length: 2, data }),
    );
    let bytes = encode(&p).unwrap();
    assert_eq!(bytes, vec![7, 2, 1, 2]);
    let back = decode(&bytes).unwrap();
    match back.data {
        PayloadData::ReadmemReply(r) => {
            assert_eq!(r.length, 2);
            assert_eq!(&r.data[0..2], &[1, 2]);
            assert!(r.data[2..].iter().all(|b| *b == 0));
        }
        other => panic!("unexpected member {:?}", other),
    }
}

#[test]
fn decode_ignores_what_stands_behind_the_payload() {
    assert_eq!(
        decode(&[2, 26, 2, 0xFF, 0xFF]),
        Ok(Payload::new(
            PayloadType::PtPinmode,
            PayloadData::Pinmode(Pinmode { pin: 26, mode: 2 })
        ))
    );
}

#[test]
fn decode_rejects_an_unknown_tag() {
    assert_eq!(decode(&[19]), Err(ResultCode::RcInvalidMessageType));
    assert_eq!(decode(&[255, 1, 2]), Err(ResultCode::RcInvalidMessageType));
}

#[test]
fn decode_rejects_a_length_above_the_bound() {
    assert_eq!(decode(&[7, 250]), Err(ResultCode::RcInvalidMemLength));
    assert_eq!(decode(&[8, 0, 0, 248]), Err(ResultCode::RcInvalidMemLength));
    assert!(decode(&[7, 249]).is_ok());
    assert!(decode(&[8, 0, 0, 247]).is_ok());
}

#[test]
fn decode_reads_missing_bytes_as_zero() {
    assert_eq!(decode(&[]), Ok(blank()));
    assert_eq!(
        decode(&[2, 26]),
        Ok(Payload::new(
            PayloadType::PtPinmode,
            PayloadData::Pinmode(Pinmode { pin: 26, mode: 0 })
        ))
    );
}

#[test]
fn encode_rejects_a_member_of_another_kind() {
    let p = Payload::new(PayloadType::PtAck, PayloadData::Pin(3));
    assert_eq!(encode(&p), Err(ResultCode::RcInvalidMessageType));
    let p = Payload::new(PayloadType::PtFail, PayloadData::Unit);
    assert_eq!(encode(&p), Err(ResultCode::RcInvalidMessageType));
}

#[test]
fn encode_rejects_a_length_byte_above_the_capacity() {
    let p = Payload::new(
        PayloadType::PtReadmemreply,
        PayloadData::ReadmemReply(ReadmemReplyUnion { length: 250, data: [0; MAX_READMEM] }),
    );
    assert_eq!(encode(&p), Err(ResultCode::RcInvalidMemLength));
    assert_eq!(payload_size(&p), 252);
    let p = Payload::new(
        PayloadType::PtWritemem,
        PayloadData::Writemem(WritememUnion { address: 1, length: 248, data: [0; MAX_WRITEMEM] }),
    );
    assert_eq!(encode(&p), Err(ResultCode::RcInvalidMemLength));
}

#[test]
fn payload_size_counts_only_the_fixed_part_of_a_foreign_member() {
    let p = Payload::new(PayloadType::PtReadmemreply, PayloadData::Unit);
    assert_eq!(payload_size(&p), 2);
    let p = Payload::new(PayloadType::PtWritemem, PayloadData::Unit);
    assert_eq!(payload_size(&p), 4);
}

#[test]
fn msgbuf_starts_as_an_ack() {
    let m = Msgbuf::new();
    assert!(m.buf.iter().all(|b| *b == 0));
    assert_eq!(m.payload(), Ok(blank()));
}

#[test]
fn msgbuf_keeps_what_stands_behind_the_stored_bytes() {
    let mut m = Msgbuf::new();
    assert_eq!(m.fill(&[2, 26, 2]), 3);
    assert_eq!(m.fill(&[4]), 1);
    assert_eq!(&m.buf[0..4], &[4, 26, 2, 0]);
    let p = m.payload().unwrap();
    assert_eq!(p.payload_type, PayloadType::PtReadpinreply);
    assert_eq!(encode(&p), Ok(vec![4, 26, 2]));
}

#[test]
fn msgbuf_stores_no_more_than_one_radio_frame() {
    let mut m = Msgbuf::new();
    let long = vec![9u8; 300];
    assert_eq!(m.fill(&long), RH_RF95_MAX_MESSAGE_LEN);
    assert!(m.buf.iter().all(|b| *b == 9));
}

#[test]
fn msgbuf_stages_a_payload() {
    let mut m = Msgbuf::new();
    m.fill(&[0xAA; 8]);
    let mut p = blank();
    setup_readmem(&mut p, 1500, 75);
    assert_eq!(m.set_payload(&p), ResultCode::RcOk);
    assert_eq!(&m.buf[0..8], &[6, 0xDC, 0x05, 75, 0xAA, 0xAA, 0xAA, 0xAA]);
    assert_eq!(m.payload(), Ok(p));
    let bad = Payload::new(PayloadType::PtAck, PayloadData::Pin(1));
    let before = m;
    assert_eq!(m.set_payload(&bad), ResultCode::RcInvalidMessageType);
    assert_eq!(m, before);
}

#[test]
fn field_name_is_cut_at_25_bytes() {
    let mut p = blank();
    let long = b"abcdefghijklmnopqrstuvwxyz0123";
    setup_readfieldreply(&mut p, 1, 2, 3, FieldFormat::FfString, long);
    match p.data {
        PayloadData::ReadFieldReply(f) => {
            assert_eq!(&f.name[..], &long[0..25]);
            assert_eq!(f.name_bytes(), long[0..25].to_vec());
            assert_eq!(f.format, 0);
        }
        other => panic!("unexpected member {:?}", other),
    }
}

#[test]
fn field_name_ends_at_the_first_nul() {
    let mut name = [0u8; 25];
    name[0] = b'w';
    name[1] = b'a';
    name[2] = b't';
    name[4] = b'x';
    let f = ReadFieldReply { index: 0, offset: 0, length: 0, format: 0, name };
    assert_eq!(f.name_bytes(), b"wat".to_vec());
    let empty = ReadFieldReply { index: 0, offset: 0, length: 0, format: 0, name: [0; 25] };
    assert_eq!(empty.name_bytes(), Vec::<u8>::new());
    let full = ReadFieldReply { index: 0, offset: 0, length: 0, format: 0, name: [b'z'; 25] };
    assert_eq!(full.name_bytes(), vec![b'z'; 25]);
}

#[test]
fn kind_is_the_tag_of_the_payload() {
    let mut p = blank();
    setup_readinfo(&mut p);
    assert_eq!(p.kind(), PayloadType::PtReadinfo);
}

#[test]
fn format_byte_names_a_field_format() {
    let mut p = blank();
    setup_readfieldreply(&mut p, 7, 77, 20, FieldFormat::FfUint32, b"wat");
    match p.data {
        PayloadData::ReadFieldReply(f) => {
            assert_eq!(f.format, 4);
            assert_eq!(f.field_format(), Some(FieldFormat::FfUint32));
        }
        other => panic!("unexpected member {:?}", other),
    }
    let f = ReadFieldReply { index: 0, offset: 0, length: 0, format: 9, name: [0; 25] };
    assert_eq!(f.field_format(), None);
}

#[test]
fn staging_stores_the_whole_packed_record() {
    let mut data = [0xEEu8; MAX_READMEM];
    data[0] = 1;
    let p = Payload::new(
        PayloadType::PtReadmemreply,
        PayloadData::ReadmemReply(ReadmemReplyUnion { length: 1, data }),
    );
    let mut m = Msgbuf::new();
    assert_eq!(m.set_payload(&p), ResultCode::RcOk);
    assert_eq!(&m.buf[0..3], &[7, 1, 1]);
    assert!(m.buf[3..].iter().all(|b| *b == 0xEE));
    assert_eq!(m.payload_size(), payload_size(&p));
    let mut wdata = [0x55u8; MAX_WRITEMEM];
    wdata[0] = 9;
    let w = Payload::new(
        PayloadType::PtWritemem,
        PayloadData::Writemem(WritememUnion { address: 0x0102, length: 1, data: wdata }),
    );
    m.fill(&[0u8; 251]);
    assert_eq!(m.set_payload(&w), ResultCode::RcOk);
    assert_eq!(&m.buf[0..5], &[8, 2, 1, 1, 9]);
    assert!(m.buf[5..].iter().all(|b| *b == 0x55));
    assert_eq!(encode(&w), Ok(vec![8, 2, 1, 1, 9]));
}
