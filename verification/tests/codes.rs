use automato::codes::{FieldFormat, PayloadType, ResultCode};

#[test]
fn payload_type_codes_are_the_wire_tags() {
    assert_eq!(PayloadType::PtAck.to_u8(), 0);
    assert_eq!(PayloadType::PtFail.to_u8(), 1);
    assert_eq!(PayloadType::PtReadmemreply.to_u8(), 7);
    assert_eq!(PayloadType::PtWritemem.to_u8(), 8);
    assert_eq!(PayloadType::PtReadinforeply.to_u8(), 10);
    assert_eq!(PayloadType::PtReadanalog.to_u8(), 15);
    assert_eq!(PayloadType::PtReadfieldreply.to_u8(), 18);
}

#[test]
fn payload_type_reads_back_from_every_code() {
    for code in 0u8..=18 {
        assert_eq!(PayloadType::from_u8(code).unwrap().to_u8(), code);
    }
    for code in 19u8..=255 {
        assert_eq!(PayloadType::from_u8(code), None);
    }
}

#[test]
fn result_codes_keep_their_ordinals() {
    assert_eq!(ResultCode::RcOk.to_u8(), 0);
    assert_eq!(ResultCode::RcInvalidMessageType.to_u8(), 2);
    assert_eq!(ResultCode::RcInvalidMemLength.to_u8(), 5);
    assert_eq!(ResultCode::RcReplyTimeout.to_u8(), 8);
    assert_eq!(ResultCode::RcInvalidRhRouterError.to_u8(), 14);
    assert_eq!(ResultCode::RcCount.to_u8(), 15);
    for code in 0u8..=15 {
        assert_eq!(ResultCode::from_u8(code).unwrap().to_u8(), code);
    }
    assert_eq!(ResultCode::from_u8(16), None);
}

#[test]
fn field_formats_keep_their_ordinals() {
    assert_eq!(FieldFormat::FfString.to_u8(), 0);
    assert_eq!(FieldFormat::FfFloat.to_u8(), 1);
    assert_eq!(FieldFormat::FfUint32.to_u8(), 4);
    assert_eq!(FieldFormat::FfOther.to_u8(), 8);
    for code in 0u8..=8 {
        assert_eq!(FieldFormat::from_u8(code).unwrap().to_u8(), code);
    }
    assert_eq!(FieldFormat::from_u8(9), None);
}
