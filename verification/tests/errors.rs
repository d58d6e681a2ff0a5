use atat::coded_error::{Error as CodedError, GenericError, InternalError as CodedInternalError};
use atat::error::{CmeError, CmsError, ConnectionError, Error, ErrorKind, InternalError};
use atat::helpers::LossyStr;
use atat::tx_mock::IoError;

#[test]
fn test_error_kind_mapping() {
    assert_eq!(Error::Read.kind(), ErrorKind::Other);
    assert_eq!(Error::Write.kind(), ErrorKind::Other);
    assert_eq!(Error::Timeout.kind(), ErrorKind::TimedOut);
    assert_eq!(Error::InvalidResponse.kind(), ErrorKind::InvalidData);
    assert_eq!(Error::Aborted.kind(), ErrorKind::ConnectionAborted);
    assert_eq!(Error::Parse.kind(), ErrorKind::InvalidData);
    assert_eq!(Error::Error.kind(), ErrorKind::Other);
    assert_eq!(
        Error::ConnectionError(ConnectionError::Unknown).kind(),
        ErrorKind::NotConnected
    );
    assert_eq!(
        Error::ConnectionError(ConnectionError::NoCarrier).kind(),
        ErrorKind::ConnectionReset
    );
    assert_eq!(
        Error::ConnectionError(ConnectionError::NoDialtone).kind(),
        ErrorKind::NotConnected
    );
    assert_eq!(Error::ConnectionError(ConnectionError::Busy).kind(), ErrorKind::Other);
    assert_eq!(
        Error::ConnectionError(ConnectionError::NoAnswer).kind(),
        ErrorKind::TimedOut
    );
    assert_eq!(Error::Custom.kind(), ErrorKind::Other);
}

#[test]
fn internal_errors_reach_the_user() {
    assert_eq!(Error::from(InternalError::Timeout), Error::Timeout);
    assert_eq!(Error::from(InternalError::Overflow), Error::Overflow);
    assert_eq!(Error::from(InternalError::Custom(b"oops")), Error::Custom);
    assert_eq!(
        Error::from(InternalError::CmeError(CmeError::SimPin)),
        Error::CmeError(CmeError::SimPin)
    );
}

#[test]
fn cme_codes_roundtrip() {
    assert_eq!(u16::from(CmeError::PhoneFailure), 0);
    assert_eq!(u16::from(CmeError::SimPin), 11);
    assert_eq!(CmeError::from(10u16), CmeError::SimNotInserted);
    assert_eq!(CmeError::from(10u16).message(), "SIM not inserted");
    for code in 0u16..1000 {
        assert_eq!(u16::from(CmeError::from(code)), code);
    }
    assert_eq!(CmeError::from(300u16), CmeError::ManufacturerSpecific(300));
}

#[test]
fn cms_codes_roundtrip() {
    for code in 0u16..1000 {
        assert_eq!(u16::from(CmsError::from(code)), code);
    }
}

#[test]
fn connection_codes_roundtrip() {
    for e in [
        ConnectionError::Unknown,
        ConnectionError::NoCarrier,
        ConnectionError::NoDialtone,
        ConnectionError::Busy,
        ConnectionError::NoAnswer,
    ] {
        assert_eq!(ConnectionError::from(u8::from(e)), e);
    }
    assert_eq!(ConnectionError::from(200u8), ConnectionError::Unknown);
}

#[test]
fn verbose_messages() {
    assert_eq!(CmeError::from_msg(b"SIM PIN required"), CmeError::SimPin);
    assert_eq!(CmeError::from_msg(b"no such message"), CmeError::Unknown);
    assert_eq!(CmsError::from_msg(b"SIM PIN required"), CmsError::SimPin);
}

#[test]
fn error_descriptions() {
    assert_eq!(CmeError::PhoneFailure.message(), "Phone failure");
    assert_eq!(CmeError::Reserved(7).message(), "Unknown reserved error");
    assert_eq!(
        CmeError::ManufacturerSpecific(300).message(),
        "Manufacturer specific error"
    );
    assert_eq!(CmsError::MeFailure.message(), "ME failure");
    assert_eq!(CmsError::RelayProtocolCause(3).message(), "Relay protocol error");
    assert_eq!(ConnectionError::NoCarrier.message(), "No carrier");
    assert_eq!(ConnectionError::NoAnswer.message(), "No answer");
}

#[test]
fn coded_errors_roundtrip() {
    let errors = [
        CodedInternalError::Read,
        CodedInternalError::Write,
        CodedInternalError::Timeout,
        CodedInternalError::InvalidResponse,
        CodedInternalError::Aborted,
        CodedInternalError::Overflow,
        CodedInternalError::Parse,
        CodedInternalError::Error,
    ];
    for e in errors {
        assert_eq!(CodedInternalError::from_bytes(&[e.as_byte()]), e);
    }
    assert_eq!(
        CodedInternalError::from_bytes(&[0x08, b'h', b'i']),
        CodedInternalError::NamedError(b"", b"hi")
    );
    assert_eq!(CodedInternalError::from_bytes(&[0x42]), CodedInternalError::Parse);
}

#[test]
fn named_errors_need_text() {
    assert_eq!(
        CodedError::from(CodedInternalError::NamedError(b"", b"busy")),
        CodedError::NamedError(GenericError)
    );
    assert_eq!(
        CodedError::<GenericError>::from(CodedInternalError::NamedError(b"", &[0xff, 0xfe])),
        CodedError::Parse
    );
    assert_eq!(
        CodedError::<GenericError>::from(CodedInternalError::Timeout),
        CodedError::Timeout
    );
}

#[test]
fn lossy_str_tells_text() {
    assert!(LossyStr(b"OK").is_text());
    assert!(!LossyStr(&[0xc3, 0x28]).is_text());
}

#[test]
fn io_error_kind() {
    assert_eq!(IoError.kind(), ErrorKind::Other);
}

#[test]
fn error_texts_carry_their_numbers() {
    assert_eq!(CmeError::Reserved(99).to_string(), "Unknown reserved error 99");
    assert_eq!(
        CmeError::ManufacturerSpecific(300).to_string(),
        "Manufacturer specific error 300"
    );
    assert_eq!(
        CmeError::AreaNotAllowed.to_string(),
        "Location/tracking area not allowed"
    );
    assert_eq!(CmeError::Unknown.to_string(), "Unknown error");
    assert_eq!(CmeError::Reserved(0).to_string(), "Unknown reserved error 0");
    assert_eq!(CmsError::RelayProtocolCause(42).to_string(), "Relay protocol error 42");
    assert_eq!(
        CmsError::TransferProtocolFailureCause(65535).to_string(),
        "Transfer protocol error 65535"
    );
    assert_eq!(CmsError::MeFailure.to_string(), "ME failure");
}

#[test]
fn messages_read_back_as_their_errors() {
    let cme = [
        CmeError::PhoneFailure,
        CmeError::NoConnection,
        CmeError::LinkReserved,
        CmeError::NotAllowed,
        CmeError::NotSupported,
        CmeError::SimNotInserted,
        CmeError::SimPin,
        CmeError::SimPuk,
        CmeError::SimFailure,
        CmeError::SimBusy,
        CmeError::SimWrong,
        CmeError::IncorrectPassword,
        CmeError::NotFound,
        CmeError::NoNetwork,
        CmeError::NetworkTimeout,
        CmeError::IncorrectParameters,
        CmeError::Unknown,
    ];
    for e in cme {
        assert_eq!(CmeError::from_msg(e.message().as_bytes()), e);
        assert_eq!(CmeError::from_msg(e.to_string().as_bytes()), e);
    }
    let cms = [
        CmsError::MeFailure,
        CmsError::SmsServiceReserved,
        CmsError::NotAllowed,
        CmsError::NotSupported,
        CmsError::InvalidPduParameter,
        CmsError::InvalidTextParameter,
        CmsError::SimNotInserted,
        CmsError::SimPin,
        CmsError::SimFailure,
        CmsError::SimBusy,
        CmsError::SimWrong,
        CmsError::SimPuk,
        CmsError::MemoryFailure,
        CmsError::InvalidIndex,
        CmsError::MemoryFull,
        CmsError::SmscAddressUnknown,
        CmsError::NoNetwork,
        CmsError::NetworkTimeout,
        CmsError::Unknown,
    ];
    for e in cms {
        assert_eq!(CmsError::from_msg(e.message().as_bytes()), e);
        assert_eq!(CmsError::from_msg(e.to_string().as_bytes()), e);
    }
}
