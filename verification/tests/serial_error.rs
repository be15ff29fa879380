use automato::serial_error::{
    ioe_from, unsupported_io_kind, Error, ErrorKind, IOErrorKind, PortErrorKind,
};

#[test]
fn named_io_kinds_keep_their_names() {
    assert_eq!(ioe_from(std::io::ErrorKind::NotFound), Ok(IOErrorKind::NotFound));
    assert_eq!(ioe_from(std::io::ErrorKind::PermissionDenied), Ok(IOErrorKind::PermissionDenied));
    assert_eq!(ioe_from(std::io::ErrorKind::ConnectionRefused), Ok(IOErrorKind::ConnectionRefused));
    assert_eq!(ioe_from(std::io::ErrorKind::ConnectionReset), Ok(IOErrorKind::ConnectionReset));
    assert_eq!(ioe_from(std::io::ErrorKind::ConnectionAborted), Ok(IOErrorKind::ConnectionAborted));
    assert_eq!(ioe_from(std::io::ErrorKind::NotConnected), Ok(IOErrorKind::NotConnected));
    assert_eq!(ioe_from(std::io::ErrorKind::AddrInUse), Ok(IOErrorKind::AddrInUse));
    assert_eq!(ioe_from(std::io::ErrorKind::AddrNotAvailable), Ok(IOErrorKind::AddrNotAvailable));
    assert_eq!(ioe_from(std::io::ErrorKind::BrokenPipe), Ok(IOErrorKind::BrokenPipe));
    assert_eq!(ioe_from(std::io::ErrorKind::AlreadyExists), Ok(IOErrorKind::AlreadyExists));
    assert_eq!(ioe_from(std::io::ErrorKind::WouldBlock), Ok(IOErrorKind::WouldBlock));
    assert_eq!(ioe_from(std::io::ErrorKind::InvalidData), Ok(IOErrorKind::InvalidData));
    assert_eq!(ioe_from(std::io::ErrorKind::TimedOut), Ok(IOErrorKind::TimedOut));
    assert_eq!(ioe_from(std::io::ErrorKind::WriteZero), Ok(IOErrorKind::WriteZero));
    assert_eq!(ioe_from(std::io::ErrorKind::Interrupted), Ok(IOErrorKind::Interrupted));
    assert_eq!(ioe_from(std::io::ErrorKind::Unsupported), Ok(IOErrorKind::Unsupported));
    assert_eq!(ioe_from(std::io::ErrorKind::UnexpectedEof), Ok(IOErrorKind::UnexpectedEof));
    assert_eq!(ioe_from(std::io::ErrorKind::OutOfMemory), Ok(IOErrorKind::OutOfMemory));
    assert_eq!(ioe_from(std::io::ErrorKind::Other), Ok(IOErrorKind::Other));
}

#[test]
fn invalid_input_is_named_apart() {
    assert_eq!(ioe_from(std::io::ErrorKind::InvalidInput), Ok(IOErrorKind::InvalidInputX));
}

#[test]
fn io_kind_without_a_name_gives_a_message() {
    let kind = std::io::Error::from_raw_os_error(20).kind();
    let expected = format!("unsupported std::io::ErrorKind: {}", kind);
    assert_eq!(ioe_from(kind), Err(expected.clone()));
    assert!(expected.len() > "unsupported std::io::ErrorKind: ".len());
}

#[test]
fn message_for_a_kind_without_a_name_ends_with_its_text() {
    assert_eq!(
        unsupported_io_kind("not a directory"),
        "unsupported std::io::ErrorKind: not a directory"
    );
    assert_eq!(unsupported_io_kind(""), "unsupported std::io::ErrorKind: ");
}

#[test]
fn port_kinds_keep_their_names() {
    assert_eq!(ErrorKind::of_port(PortErrorKind::NoDevice), ErrorKind::NoDevice);
    assert_eq!(ErrorKind::of_port(PortErrorKind::InvalidInput), ErrorKind::InvalidInput);
    assert_eq!(ErrorKind::of_port(PortErrorKind::Unknown), ErrorKind::Unknown);
    assert_eq!(
        ErrorKind::of_port(PortErrorKind::Io(std::io::ErrorKind::TimedOut)),
        ErrorKind::Io(Ok(IOErrorKind::TimedOut))
    );
    assert_eq!(
        ErrorKind::of_port(PortErrorKind::Io(std::io::ErrorKind::InvalidInput)),
        ErrorKind::Io(Ok(IOErrorKind::InvalidInputX))
    );
}

#[test]
fn port_error_keeps_its_description() {
    let e = Error::of_port(PortErrorKind::Io(std::io::ErrorKind::BrokenPipe), "gone".to_string());
    assert_eq!(
        e,
        Error { kind: ErrorKind::Io(Ok(IOErrorKind::BrokenPipe)), description: "gone".to_string() }
    );
    let kind = std::io::Error::from_raw_os_error(20).kind();
    let e = Error::of_port(PortErrorKind::Io(kind), "odd".to_string());
    assert_eq!(
        e.kind,
        ErrorKind::Io(Err(format!("unsupported std::io::ErrorKind: {}", kind)))
    );
}
