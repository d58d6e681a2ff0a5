use atat::coded_error::Error;
use atat::line_digest::{DefaultDigester, DigestResult, Digester, State};
use atat::urc_matcher::{DefaultUrcMatcher, UrcMatcher, UrcMatcherResult};

#[test]
fn digest_no_response() {
    let mut digester = DefaultDigester::default();
    let mut urc_matcher = DefaultUrcMatcher::default();
    let mut buf: Vec<u8> = Vec::new();

    assert_eq!(digester.state, State::Idle);
    buf.extend_from_slice(b"AT\r\r\n\r\n");
    assert_eq!(digester.digest(&mut buf, &mut urc_matcher), DigestResult::Nothing);

    assert_eq!(digester.state, State::ReceivingResponse);

    buf.extend_from_slice(b"OK\r\n");
    assert_eq!(
        digester.digest(&mut buf, &mut urc_matcher),
        DigestResult::Response(Ok(Vec::new()))
    );
    assert_eq!(digester.state, State::Idle);
}

#[test]
fn digest_response() {
    let mut digester = DefaultDigester::default();
    let mut urc_matcher = DefaultUrcMatcher::default();
    let mut buf: Vec<u8> = Vec::new();

    assert_eq!(digester.state, State::Idle);
    buf.extend_from_slice(b"AT+USORD=3,16\r\n");
    assert_eq!(digester.digest(&mut buf, &mut urc_matcher), DigestResult::Nothing);
    assert_eq!(digester.state, State::ReceivingResponse);

    buf.extend_from_slice(b"+USORD: 3,16,\"16 bytes of data\"\r\n");
    assert_eq!(digester.digest(&mut buf, &mut urc_matcher), DigestResult::Nothing);

    assert_eq!(buf, b"+USORD: 3,16,\"16 bytes of data\"\r\n".to_vec());

    buf.extend_from_slice(b"OK\r\n");
    assert_eq!(buf, b"+USORD: 3,16,\"16 bytes of data\"\r\nOK\r\n".to_vec());
    let result = digester.digest(&mut buf, &mut urc_matcher);
    assert_eq!(buf, Vec::<u8>::new());
    assert_eq!(digester.state, State::Idle);
    assert_eq!(
        result,
        DigestResult::Response(Ok(b"+USORD: 3,16,\"16 bytes of data\"".to_vec()))
    );
}

#[test]
fn digest_multi_line_response() {
    let mut digester = DefaultDigester::default();
    let mut urc_matcher = DefaultUrcMatcher::default();
    let mut buf: Vec<u8> = Vec::new();

    assert_eq!(digester.state, State::Idle);
    buf.extend_from_slice(b"AT+GMR\r\r\n");
    assert_eq!(digester.digest(&mut buf, &mut urc_matcher), DigestResult::Nothing);
    assert_eq!(digester.state, State::ReceivingResponse);

    buf.extend_from_slice(b"AT version:1.1.0.0(May 11 2016 18:09:56)\r\nSDK version:1.5.4(baaeaebb)\r\ncompile time:May 20 2016 15:08:19\r\nOK\r\n");
    let result = digester.digest(&mut buf, &mut urc_matcher);

    assert_eq!(buf, Vec::<u8>::new());
    assert_eq!(digester.state, State::Idle);
    assert_eq!(
        result,
        DigestResult::Response(Ok(b"AT version:1.1.0.0(May 11 2016 18:09:56)\r\nSDK version:1.5.4(baaeaebb)\r\ncompile time:May 20 2016 15:08:19".to_vec()))
    );
}

#[test]
fn digest_urc() {
    let mut digester = DefaultDigester::default();
    let mut urc_matcher = DefaultUrcMatcher::default();
    let mut buf: Vec<u8> = Vec::new();

    assert_eq!(digester.state, State::Idle);

    buf.extend_from_slice(b"+UUSORD: 3,16,\"16 bytes of data\"\r\n");
    let result = digester.digest(&mut buf, &mut urc_matcher);
    assert_eq!(buf, Vec::<u8>::new());
    assert_eq!(digester.state, State::Idle);
    assert_eq!(
        result,
        DigestResult::Urc(b"+UUSORD: 3,16,\"16 bytes of data\"".to_vec())
    );
}

#[test]
fn digest_read_error() {
    let mut digester = DefaultDigester::default();
    let mut urc_matcher = DefaultUrcMatcher::default();
    let mut buf: Vec<u8> = Vec::new();

    assert_eq!(digester.state, State::Idle);
    assert_eq!(buf, Vec::<u8>::new());

    buf.extend_from_slice(b"OK\r\n");
    assert_eq!(digester.digest(&mut buf, &mut urc_matcher), DigestResult::Nothing);

    assert_eq!(digester.state, State::Idle);
}

#[test]
fn digest_error_response() {
    let mut digester = DefaultDigester::default();
    let mut urc_matcher = DefaultUrcMatcher::default();
    let mut buf: Vec<u8> = Vec::new();

    assert_eq!(digester.state, State::Idle);
    buf.extend_from_slice(b"AT+USORD=3,16\r\n");
    assert_eq!(digester.digest(&mut buf, &mut urc_matcher), DigestResult::Nothing);
    assert_eq!(digester.state, State::ReceivingResponse);

    buf.extend_from_slice(b"+USORD: 3,16,\"16 bytes of data\"\r\n");
    assert_eq!(digester.digest(&mut buf, &mut urc_matcher), DigestResult::Nothing);
    assert_eq!(digester.state, State::ReceivingResponse);

    buf.extend_from_slice(b"ERROR\r\n");
    let result = digester.digest(&mut buf, &mut urc_matcher);

    assert_eq!(digester.state, State::Idle);
    assert_eq!(buf, Vec::<u8>::new());
    assert_eq!(result, DigestResult::Response(Err(Error::InvalidResponse)));
}

/// By breaking up non-AT-commands into chunks, it's possible that
/// they're mistaken for AT commands due to buffer clearing.
#[test]
fn chunkwise_digest() {
    let mut digester = DefaultDigester::default();
    let mut urc_matcher = DefaultUrcMatcher::default();
    let mut buf: Vec<u8> = Vec::new();

    assert_eq!(digester.state, State::Idle);

    buf.extend_from_slice(b"THIS FORM");
    assert_eq!(digester.digest(&mut buf, &mut urc_matcher), DigestResult::Nothing);
    assert_eq!(digester.state, State::Idle);
    buf.extend_from_slice(b"AT SUCKS\r\n");
    assert_eq!(digester.digest(&mut buf, &mut urc_matcher), DigestResult::Nothing);
    assert_eq!(digester.state, State::Idle);
}

/// By sending AT-commands byte-by-byte, it's possible that
/// the command is incorrectly ignored due to buffer clearing.
#[test]
fn digest_bytewise_digest() {
    let mut digester = DefaultDigester::default();
    let mut urc_matcher = DefaultUrcMatcher::default();
    let mut buf: Vec<u8> = Vec::new();

    assert_eq!(digester.state, State::Idle);

    for byte in b"AT\r\n" {
        buf.extend_from_slice(&[*byte]);
        assert_eq!(digester.digest(&mut buf, &mut urc_matcher), DigestResult::Nothing);
    }
    assert_eq!(digester.state, State::ReceivingResponse);
}

/// If an invalid response ends with a line terminator, the incomplete flag
/// should be cleared.
#[test]
fn invalid_line_with_termination() {
    let mut digester = DefaultDigester::default();
    let mut urc_matcher = DefaultUrcMatcher::default();
    let mut buf: Vec<u8> = Vec::new();

    assert_eq!(digester.state, State::Idle);

    buf.extend_from_slice(b"some status msg\r\n");
    assert_eq!(digester.digest(&mut buf, &mut urc_matcher), DigestResult::Nothing);
    assert_eq!(digester.state, State::Idle);

    buf.extend_from_slice(b"AT+GMR\r\r\n");
    assert_eq!(digester.digest(&mut buf, &mut urc_matcher), DigestResult::Nothing);
    assert_eq!(digester.state, State::ReceivingResponse);
}

/// If a valid response follows an invalid response, the buffer should not
/// be cleared in between.
#[test]
fn mixed_response() {
    let mut digester = DefaultDigester::default();
    let mut urc_matcher = DefaultUrcMatcher::default();
    let mut buf: Vec<u8> = Vec::new();

    assert_eq!(digester.state, State::Idle);

    buf.extend_from_slice(b"some status msg\r\nAT+GMR\r\r\n");
    assert_eq!(digester.digest(&mut buf, &mut urc_matcher), DigestResult::Nothing);
    assert_eq!(digester.digest(&mut buf, &mut urc_matcher), DigestResult::Nothing);
    assert_eq!(digester.state, State::ReceivingResponse);
}

#[test]
fn clear_buf_complete() {
    let mut digester = DefaultDigester::default();
    let mut urc_matcher = DefaultUrcMatcher::default();
    let mut buf: Vec<u8> = Vec::new();

    buf.extend_from_slice(b"hello\r\ngoodbye\r\n");
    assert_eq!(buf, b"hello\r\ngoodbye\r\n".to_vec());

    assert_eq!(digester.digest(&mut buf, &mut urc_matcher), DigestResult::Nothing);
    assert_eq!(digester.digest(&mut buf, &mut urc_matcher), DigestResult::Nothing);
    assert_eq!(buf, b"".to_vec());
}

struct MyUrcMatcher {}

impl UrcMatcher for MyUrcMatcher {
    fn process(&mut self, buf: &mut Vec<u8>) -> UrcMatcherResult {
        if buf.len() >= 6 && buf.get(0..6) == Some(b"+match") {
            let data = buf.clone();
            buf.truncate(0);
            UrcMatcherResult::Complete(data)
        } else if buf.len() >= 4 && buf.get(0..4) == Some(b"+mat") {
            UrcMatcherResult::Incomplete
        } else {
            UrcMatcherResult::NotHandled
        }
    }
}

#[test]
fn custom_urc_matcher() {
    let mut digester = DefaultDigester::default();
    let mut urc_matcher = MyUrcMatcher {};
    let mut buf: Vec<u8> = Vec::new();

    // Initial state
    assert_eq!(digester.state, State::Idle);

    // Check an URC that is not handled by MyUrcMatcher (fall back to default behavior)
    // Note that this requires the trailing newlines to be present!
    buf.extend_from_slice(b"+default-behavior\r\n");
    let result = digester.digest(&mut buf, &mut urc_matcher);
    assert_eq!(digester.state, State::Idle);
    assert_eq!(result, DigestResult::Urc(b"+default-behavior".to_vec()));

    // Check an URC that is generally handled by MyUrcMatcher but
    // considered incomplete (not enough data). This will not yet result in
    // an URC being dispatched.
    buf.extend_from_slice(b"+mat");
    let result = digester.digest(&mut buf, &mut urc_matcher);
    assert_eq!(digester.state, State::Idle);
    assert_eq!(result, DigestResult::Nothing);

    // Make it complete!
    buf.extend_from_slice(b"ch"); // Still no newlines, but this will still be picked up!
    let result = digester.digest(&mut buf, &mut urc_matcher);
    assert_eq!(digester.state, State::Idle);
    assert_eq!(result, DigestResult::Urc(b"+match".to_vec()));
}

#[test]
fn reset_and_force_receive_state() {
    let mut digester = DefaultDigester::default();
    digester.force_receive_state();
    assert_eq!(digester.state, State::ReceivingResponse);
    digester.reset();
    assert_eq!(digester.state, State::Idle);
    assert!(!digester.buf_incomplete);
}
