use atat::error::{CmeError, ConnectionError, InternalError};
use atat::frame::{Frame, Response as FrameResponse};
use atat::reschannel::ResMessage;
use atat::response::Response;
use atat::response_slot::ResponseSlot;

#[test]
fn response_ok_and_default() {
    let r = Response::<8>::ok(b"abc");
    assert_eq!(r.as_result(), Ok(&b"abc"[..]));
    assert_eq!(Response::<8>::default().as_result(), Ok(&b""[..]));
}

#[test]
fn response_prompt_reads_as_empty_success() {
    let r = Response::<8>::Prompt(b'>');
    assert_eq!(r.as_result(), Ok(&b""[..]));
}

#[test]
fn response_errors_roundtrip() {
    let errors = [
        InternalError::Read,
        InternalError::Write,
        InternalError::Timeout,
        InternalError::InvalidResponse,
        InternalError::Aborted,
        InternalError::Overflow,
        InternalError::Parse,
        InternalError::Error,
        InternalError::CmeError(CmeError::SimBusy),
        InternalError::ConnectionError(ConnectionError::Busy),
        InternalError::Custom(b"custom"),
    ];
    for e in errors {
        let stored = Response::<16>::from_error(e.clone());
        assert_eq!(stored.as_result(), Err(e));
    }
    assert_eq!(Response::<16>::from_error(InternalError::CmeError(CmeError::SimBusy)), Response::CmeError(14));
    assert_eq!(Response::<16>::from_result(Ok(b"x")), Response::ok(b"x"));
}

#[test]
fn res_message_reads_back() {
    let m = ResMessage::<16>::response(b"hello");
    assert_eq!(m.as_response(), FrameResponse::Result(Ok(&b"hello"[..])));
    let m = ResMessage::<16>::from_result(Err(InternalError::Timeout));
    assert_eq!(m, ResMessage::TimeoutError);
    assert_eq!(m.as_response(), FrameResponse::Result(Err(InternalError::Timeout)));
    assert_eq!(ResMessage::<16>::Prompt(b'@').as_response(), FrameResponse::Prompt(b'@'));
    assert_eq!(
        ResMessage::<16>::CmeError(10).as_response(),
        FrameResponse::Result(Err(InternalError::CmeError(CmeError::SimNotInserted)))
    );
}

#[test]
fn slot_signals_once() {
    let mut slot = ResponseSlot::<16>::new();
    assert!(slot.try_get().is_none());
    assert!(slot.signal_prompt(b'>').is_ok());
    assert!(slot.signal_response(Ok(b"late")).is_err());
    assert_eq!(slot.try_get(), Some(&Response::Prompt(b'>')));
    slot.reset();
    assert!(slot.try_get().is_none());
    assert!(slot.signal_response(Err(InternalError::Aborted)).is_ok());
    assert_eq!(slot.try_get(), Some(&Response::AbortedError));
}

#[test]
fn frame_sizes() {
    assert_eq!(Frame::Response(b"OK").max_len(), 4);
    assert_eq!(Frame::Response(&[0u8; 300]).max_len(), 304);
    assert_eq!(Frame::Prompt(b'>').max_len(), 2);
    assert_eq!(Frame::CmeError(300).max_len(), 4);
    assert_eq!(Frame::ReadError.max_len(), 1);
}

#[test]
fn frames_roundtrip() {
    let r: Result<&[u8], InternalError> = Err(InternalError::CmeError(CmeError::SimPin));
    let f = Frame::from(r.clone());
    assert_eq!(f, Frame::CmeError(11));
    assert_eq!(FrameResponse::from(f), FrameResponse::Result(r));
    assert_eq!(FrameResponse::from(Frame::Prompt(b'>')), FrameResponse::Prompt(b'>'));
}
