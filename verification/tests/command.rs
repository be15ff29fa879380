use automato::codes::{PayloadType, ResultCode};
use automato::command::Command;
use automato::payload::{Payload, PayloadData};
use automato::wire::encode;

fn bytes_of(c: Command) -> Vec<u8> {
    let mut p = Payload::new(PayloadType::PtAck, PayloadData::Unit);
    assert_eq!(c.setup(&mut p), Ok(ResultCode::RcOk));
    encode(&p).unwrap()
}

#[test]
fn every_command_gives_its_request() {
    assert_eq!(bytes_of(Command::Writepin { pin: 15, value: 1 }), vec![5, 15, 1]);
    assert_eq!(bytes_of(Command::Pinmode { pin: 26, value: 2 }), vec![2, 26, 2]);
    assert_eq!(bytes_of(Command::Readpin { pin: 22 }), vec![3, 22]);
    assert_eq!(bytes_of(Command::Readanalog { pin: 27 }), vec![15, 27]);
    assert_eq!(bytes_of(Command::Readinfo), vec![9]);
    assert_eq!(bytes_of(Command::Readhumidity), vec![11]);
    assert_eq!(bytes_of(Command::Readtemperature), vec![13]);
    assert_eq!(bytes_of(Command::Readmem { address: 1500, length: 75 }), vec![6, 0xDC, 5, 75]);
    assert_eq!(bytes_of(Command::Readfield { index: 258 }), vec![17, 2, 1]);
    assert_eq!(
        bytes_of(Command::Writemem { address: 5678, value: "0504030201".to_string() }),
        vec![8, 0x2E, 0x16, 5, 5, 4, 3, 2, 1]
    );
}

#[test]
fn writemem_command_refuses_text_that_is_not_hexadecimal() {
    let mut p = Payload::new(PayloadType::PtReadinfo, PayloadData::Unit);
    let c = Command::Writemem { address: 1, value: "12345".to_string() };
    assert_eq!(c.setup(&mut p), Err(hex::FromHexError::OddLength));
    assert_eq!(p, Payload::new(PayloadType::PtReadinfo, PayloadData::Unit));
    let c = Command::Writemem { address: 1, value: "12 4".to_string() };
    assert_eq!(
        c.setup(&mut p),
        Err(hex::FromHexError::InvalidHexCharacter { c: ' ', index: 2 })
    );
}

#[test]
fn writemem_command_refuses_too_many_bytes() {
    let mut p = Payload::new(PayloadType::PtReadinfo, PayloadData::Unit);
    let c = Command::Writemem { address: 1, value: "00".repeat(248) };
    assert_eq!(c.setup(&mut p), Ok(ResultCode::RcInvalidMemLength));
    assert_eq!(encode(&p), Err(ResultCode::RcInvalidMessageType));
}
