use atat::digest::parser::{echo, urc_helper, ParseError};
use atat::digest::{AtDigester, DigestResult, Digester, Parser};
use atat::error::{CmeError, CmsError, ConnectionError, InternalError};

enum UrcTestParser {}

impl Parser for UrcTestParser {
    fn parse<'a>(buf: &'a [u8]) -> Result<(&'a [u8], usize), ParseError> {
        // The first URC helper that does not fail decides.
        match urc_helper(b"+UUSORD", buf) {
            Ok((_, r)) => Ok(r),
            Err(ParseError::Incomplete) => Err(ParseError::Incomplete),
            Err(ParseError::Error) => match urc_helper(b"+CIEV", buf) {
                Ok((_, r)) => Ok(r),
                Err(e) => Err(e),
            },
        }
    }
}

fn consume(buf: &mut Vec<u8>, bytes: usize) {
    buf.drain(..bytes);
}

#[test]
fn mm_echo_removal() {
    let tests: Vec<(&[u8], &[u8])> = vec![
        (b"\r\n", b"\r\n"),
        (b"\r", b"\r"),
        (b"\n", b"\n"),
        (
            b"this is a string that ends just with <CR>\r",
            b"this is a string that ends just with <CR>\r",
        ),
        (
            b"this is a string that ends just with <CR>\n",
            b"this is a string that ends just with <CR>\n",
        ),
        (b"\r\nthis is valid", b"\r\nthis is valid"),
        (b"a\r\nthis is valid", b"\r\nthis is valid"),
        (b"a\r\n", b"\r\n"),
        (b"all this string is to be considered echo\r\n", b"\r\n"),
        (
            b"all this string is to be considered echo\r\nthis is valid",
            b"\r\nthis is valid",
        ),
        (
            b"echo echo\r\nthis is valid\r\nand so is this",
            b"\r\nthis is valid\r\nand so is this",
        ),
        (
            b"\r\nthis is valid\r\nand so is this",
            b"\r\nthis is valid\r\nand so is this",
        ),
        (
            b"\r\nthis is valid\r\nand so is this\r\n",
            b"\r\nthis is valid\r\nand so is this\r\n",
        ),
    ];

    for (response, expected) in tests {
        // An echo is optional: when none is found the input stays as it is.
        match echo(response) {
            Ok((buf, _)) => assert_eq!(buf, expected),
            Err(ParseError::Incomplete) => {}
            Err(ParseError::Error) => assert_eq!(response, expected),
        }
    }
}

#[test]
fn mm_error() {
    let tests: Vec<(&[u8], DigestResult, usize)> = vec![
        (b"\r\nUNKNOWN COMMAND\r\n", DigestResult::Nothing, 0),
        (b"\r\nERROR\r\n", DigestResult::Response(Err(InternalError::Error)), 9),
        (b"\r\nERROR\r\n\r\noooops\r\n", DigestResult::Response(Err(InternalError::Error)), 9),
        (
            b"\r\n+CME ERROR: raspberry\r\n",
            DigestResult::Response(Err(InternalError::CmeError(CmeError::Unknown))),
            25,
        ),
        (
            b"\r\n+CME ERROR: 112\r\n",
            DigestResult::Response(Err(InternalError::CmeError(CmeError::AreaNotAllowed))),
            19,
        ),
        (
            b"\r\n+CME ERROR: \r\n",
            DigestResult::Response(Err(InternalError::CmeError(CmeError::Unknown))),
            16,
        ),
        (b"\r\n+CME ERROR:\r\n", DigestResult::Nothing, 0),
        (
            b"\r\n+CMS ERROR: bananas\r\n",
            DigestResult::Response(Err(InternalError::CmsError(CmsError::Unknown))),
            23,
        ),
        (
            b"\r\n+CMS ERROR: 332\r\n",
            DigestResult::Response(Err(InternalError::CmsError(CmsError::NetworkTimeout))),
            19,
        ),
        (
            b"\r\n+CMS ERROR: \r\n",
            DigestResult::Response(Err(InternalError::CmsError(CmsError::Unknown))),
            16,
        ),
        (b"\r\n+CMS ERROR:\r\n", DigestResult::Nothing, 0),
        (
            b"\r\nMODEM ERROR: 5\r\n",
            DigestResult::Response(Err(InternalError::CmeError(CmeError::Unknown))),
            18,
        ),
        (b"\r\nMODEM ERROR: apple\r\n", DigestResult::Nothing, 0),
        (b"\r\nMODEM ERROR: \r\n", DigestResult::Nothing, 0),
        (b"\r\nMODEM ERROR:\r\n", DigestResult::Nothing, 0),
        (
            b"\r\nCOMMAND NOT SUPPORT\r\n",
            DigestResult::Response(Err(InternalError::Error)),
            23,
        ),
        (
            b"\r\nCOMMAND NOT SUPPORT\r\n\r\nSomething extra\r\n",
            DigestResult::Response(Err(InternalError::Error)),
            23,
        ),
        (
            b"\r\nNO CARRIER\r\n",
            DigestResult::Response(Err(InternalError::ConnectionError(
                ConnectionError::NoCarrier,
            ))),
            14,
        ),
        (
            b"\r\nNO CARRIER\r\n\r\nSomething extra\r\n",
            DigestResult::Response(Err(InternalError::ConnectionError(
                ConnectionError::NoCarrier,
            ))),
            14,
        ),
        (
            b"\r\nBUSY\r\n",
            DigestResult::Response(Err(InternalError::ConnectionError(ConnectionError::Busy))),
            8,
        ),
        (
            b"\r\nBUSY\r\n\r\nSomething extra\r\n",
            DigestResult::Response(Err(InternalError::ConnectionError(ConnectionError::Busy))),
            8,
        ),
        (
            b"\r\nNO ANSWER\r\n",
            DigestResult::Response(Err(InternalError::ConnectionError(
                ConnectionError::NoAnswer,
            ))),
            13,
        ),
        (
            b"\r\nNO ANSWER\r\n\r\nSomething extra\r\n",
            DigestResult::Response(Err(InternalError::ConnectionError(
                ConnectionError::NoAnswer,
            ))),
            13,
        ),
        (
            b"\r\nNO DIALTONE\r\n",
            DigestResult::Response(Err(InternalError::ConnectionError(
                ConnectionError::NoDialtone,
            ))),
            15,
        ),
        (
            b"\r\nNO DIALTONE\r\n\r\nSomething extra\r\n",
            DigestResult::Response(Err(InternalError::ConnectionError(
                ConnectionError::NoDialtone,
            ))),
            15,
        ),
    ];

    let mut digester = AtDigester::<UrcTestParser>::new();
    let mut buf: Vec<u8> = Vec::new();

    for (response, expected_result, swallowed_bytes) in tests {
        buf.clear();
        buf.extend_from_slice(response);
        let (res, bytes) = digester.digest(&buf);
        assert_eq!((res, bytes), (expected_result, swallowed_bytes));
        consume(&mut buf, bytes);
    }
}

#[test]
fn mm_ok() {
    let tests: Vec<(&[u8], DigestResult, usize)> = vec![
        (b"\r\nOK\r\n", DigestResult::Response(Ok(b"")), 6),
        (b"\r\nOK\r\n\r\n+CMTI: \"ME\",1\r\n", DigestResult::Response(Ok(b"")), 6),
        (b"\r\nOK\r\n\r\n+CIEV: 7,1\r\n\r\n+CRING: VOICE\r\n\r\n+CLIP: \"+0123456789\",145,,,,0\r\n", DigestResult::Response(Ok(b"")), 6),
        (b"\r\n+CIEV: 7,1\r\n\r\n+CRING: VOICE\r\n\r\n+CLIP: \"+0123456789\",145,,,,0\r\n", DigestResult::Urc(b"+CIEV: 7,1"), 14),
        (b"\r\nUNKNOWN COMMAND\r\n", DigestResult::Nothing, 0),
    ];

    let mut digester = AtDigester::<UrcTestParser>::new();
    let mut buf: Vec<u8> = Vec::new();

    for (response, expected_result, swallowed_bytes) in tests {
        buf.clear();
        buf.extend_from_slice(response);
        let (res, bytes) = digester.digest(&buf);
        assert_eq!((res, bytes), (expected_result, swallowed_bytes));
        consume(&mut buf, bytes);
    }
}

#[test]
fn echo_test() {
    let (r, e) = echo(b"AT\r\n").unwrap();
    assert_eq!(r, &b"\r\n"[..]);
    assert_eq!(e.len(), 2);

    let (r, e) = echo(b"AT+GMR\r\r\n").unwrap();
    assert_eq!(r, &b"\r\n"[..]);
    assert_eq!(e.len(), 7);

    let (r, e) = echo(b"AT\r\r\n\r\n").unwrap();
    assert_eq!(r, &b"\r\n\r\n"[..]);
    assert_eq!(e.len(), 3);

    let (r, e) = echo(b"AT+USORD=3,16\r\n").unwrap();
    assert_eq!(r, &b"\r\n"[..]);
    assert_eq!(e.len(), 13);

    let (r, e) = echo(b"AT+CMUX=?\r\n").unwrap();
    assert_eq!(r, &b"\r\n"[..]);
    assert_eq!(e.len(), 9);

    let (r, e) = echo(b"AT+CMUX?\r\n").unwrap();
    assert_eq!(r, &b"\r\n"[..]);
    assert_eq!(e.len(), 8);

    let (r, e) = echo(b"AT+CMUX?\r\nAT").unwrap();
    assert_eq!(r, &b"\r\nAT"[..]);
    assert_eq!(e.len(), 8);
}

#[test]
fn nom_digest_response() {
    let mut digester = AtDigester::<UrcTestParser>::new();
    let mut buf: Vec<u8> = Vec::new();

    buf.extend_from_slice(b"AT+USORD=3,16\r\n");
    let (res, bytes) = digester.digest(&buf);
    assert_eq!((res, bytes), (DigestResult::Nothing, 13));
    consume(&mut buf, bytes);

    buf.extend_from_slice(b"+USORD: 3,16,\"16 bytes of data\"\r\n");
    let (res, bytes) = digester.digest(&buf);
    assert_eq!((res, bytes), (DigestResult::Nothing, 0));
    consume(&mut buf, bytes);

    assert_eq!(buf, b"\r\n+USORD: 3,16,\"16 bytes of data\"\r\n");

    buf.extend_from_slice(b"OK\r\n");
    assert_eq!(buf, b"\r\n+USORD: 3,16,\"16 bytes of data\"\r\nOK\r\n");
    let (result, bytes) = digester.digest(&buf);
    assert_eq!(
        result,
        DigestResult::Response(Ok(b"+USORD: 3,16,\"16 bytes of data\""))
    );
    consume(&mut buf, bytes);

    assert!(buf.is_empty());
}

#[test]
fn urc_followed_by_command() {
    let mut digester = AtDigester::<UrcTestParser>::new();
    let mut buf: Vec<u8> = Vec::new();

    buf.extend_from_slice(
        b"\r\n+UUSORD: 0,5\r\nAT+USORD=0,4\r\r\n+USORD: 0,4,\"90030002\"\r\nOK\r\n",
    );
    let (res, bytes) = digester.digest(&buf);

    assert_eq!((res, bytes), (DigestResult::Urc(b"+UUSORD: 0,5"), 16));
    consume(&mut buf, bytes);
    assert_eq!(
        &buf,
        b"AT+USORD=0,4\r\r\n+USORD: 0,4,\"90030002\"\r\nOK\r\n"
    );

    let (res, bytes) = digester.digest(&buf);

    assert_eq!(
        (res, bytes),
        (DigestResult::Response(Ok(b"+USORD: 0,4,\"90030002\"")), 43)
    );
    consume(&mut buf, bytes);
    assert!(buf.is_empty());
}

#[test]
fn response_no_echo() {
    let mut digester = AtDigester::<UrcTestParser>::new();
    let mut buf: Vec<u8> = Vec::new();

    buf.extend_from_slice(b"\r\n+USORD: 3,16,\"16 bytes of data\"\r\n");
    let (res, bytes) = digester.digest(&buf);

    assert_eq!((res, bytes), (DigestResult::Nothing, 0));
    consume(&mut buf, bytes);

    assert_eq!(buf, b"\r\n+USORD: 3,16,\"16 bytes of data\"\r\n");

    buf.extend_from_slice(b"OK\r\n");
    assert_eq!(buf, b"\r\n+USORD: 3,16,\"16 bytes of data\"\r\nOK\r\n");
    let (result, bytes) = digester.digest(&buf);
    assert_eq!(
        result,
        DigestResult::Response(Ok(b"+USORD: 3,16,\"16 bytes of data\""))
    );
    consume(&mut buf, bytes);

    assert!(buf.is_empty());
}

#[test]
fn nom_digest_multi_line_response() {
    let mut digester = AtDigester::<UrcTestParser>::new();
    let mut buf: Vec<u8> = Vec::new();

    buf.extend_from_slice(b"AT+GMR\r\r\n");
    let (res, bytes) = digester.digest(&buf);
    assert_eq!((res, bytes), (DigestResult::Nothing, 7));
    consume(&mut buf, bytes);

    buf.extend_from_slice(b"AT version:1.1.0.0(May 11 2016 18:09:56)\r\nSDK version:1.5.4(baaeaebb)\r\ncompile time:May 20 2016 15:08:19\r\nOK\r\n");
    let (res, bytes) = digester.digest(&buf);

    let expectation = b"AT version:1.1.0.0(May 11 2016 18:09:56)\r\nSDK version:1.5.4(baaeaebb)\r\ncompile time:May 20 2016 15:08:19";
    assert_eq!(res, DigestResult::Response(Ok(expectation)));
    consume(&mut buf, bytes);
    assert!(buf.is_empty());
}

#[test]
fn urc_digest() {
    let mut digester = AtDigester::<UrcTestParser>::new();
    let mut buf: Vec<u8> = Vec::new();

    buf.extend_from_slice(b"\r\n+UUSORD: 3,16,\"16 bytes of data\"\r\n");
    let (res, bytes) = digester.digest(&buf);
    assert_eq!(
        (res, bytes),
        (DigestResult::Urc(b"+UUSORD: 3,16,\"16 bytes of data\""), 36)
    );
    consume(&mut buf, bytes);
    assert!(buf.is_empty());
}

#[test]
fn nom_digest_error_response() {
    let mut digester = AtDigester::<UrcTestParser>::new();
    let mut buf: Vec<u8> = Vec::new();

    buf.extend_from_slice(b"AT+USORD=3,16\r\n");
    let (res, bytes) = digester.digest(&buf);
    assert_eq!((res, bytes), (DigestResult::Nothing, 13));
    consume(&mut buf, bytes);

    buf.extend_from_slice(b"+USORD: 3,16,\"16 bytes of data\"\r\n");
    let (res, bytes) = digester.digest(&buf);
    assert_eq!((res, bytes), (DigestResult::Nothing, 0));
    consume(&mut buf, bytes);

    buf.extend_from_slice(b"ERROR\r\n");
    let (res, bytes) = digester.digest(&buf);
    assert_eq!(
        (res, bytes),
        (DigestResult::Response(Err(InternalError::Error)), 42)
    );
    consume(&mut buf, bytes);

    assert!(buf.is_empty());
}

/// By breaking up non-AT-commands into chunks, it's possible that
/// they're mistaken for AT commands due to buffer clearing.
#[test]
fn garbage_cleanup() {
    let mut digester = AtDigester::<UrcTestParser>::new();
    let mut buf: Vec<u8> = Vec::new();

    buf.extend_from_slice(b"THIS FORM");
    let (res, bytes) = digester.digest(&buf);
    assert_eq!((res, bytes), (DigestResult::Nothing, 0));
    consume(&mut buf, bytes);

    buf.extend_from_slice(b"AT SUCKS\r\n");
    let (res, bytes) = digester.digest(&buf);
    assert_eq!((res, bytes), (DigestResult::Nothing, 17));
    consume(&mut buf, bytes);

    assert!(buf.starts_with(b"\r\n"));

    buf.extend_from_slice(b"@\n@");
    let (res, bytes) = digester.digest(&buf);
    assert_eq!((res, bytes), (DigestResult::Nothing, 0));
    consume(&mut buf, bytes);

    buf.extend_from_slice(b"AT+USORD=3,16\r\n");
    buf.extend_from_slice(b"+USORD: 3,16,\"16 bytes of data\"\r\n");
    buf.extend_from_slice(b"+CME ERROR: 122\r\n");
    let (res, bytes) = digester.digest(&buf);

    assert_eq!(
        res,
        DigestResult::Response(Err(InternalError::CmeError(CmeError::Congestion)))
    );
    consume(&mut buf, bytes);

    assert!(buf.is_empty());

    buf.extend_from_slice(b"\r\n+UUSORD: 0,37\n+UUSORD: 0,371\r\n");

    let (res, bytes) = digester.digest(&buf);

    assert_eq!(res, DigestResult::Urc(b"+UUSORD: 0,37\n+UUSORD: 0,371"));
    consume(&mut buf, bytes);

    assert!(buf.is_empty());
}

/// By sending AT-commands byte-by-byte, it's possible that
/// the command is incorrectly ignored due to buffer clearing.
#[test]
fn nom_digest_bytewise_digest() {
    let mut digester = AtDigester::<UrcTestParser>::new();
    let mut buf: Vec<u8> = Vec::new();

    buf.extend_from_slice(b"A");
    let (res, bytes) = digester.digest(&buf);
    assert_eq!((res, bytes), (DigestResult::Nothing, 0));
    consume(&mut buf, bytes);

    buf.extend_from_slice(b"T");
    let (res, bytes) = digester.digest(&buf);
    assert_eq!((res, bytes), (DigestResult::Nothing, 0));
    consume(&mut buf, bytes);

    buf.extend_from_slice(b"\r");
    let (res, bytes) = digester.digest(&buf);
    assert_eq!((res, bytes), (DigestResult::Nothing, 0));
    consume(&mut buf, bytes);

    buf.extend_from_slice(b"\n");
    let (res, bytes) = digester.digest(&buf);
    assert_eq!((res, bytes), (DigestResult::Nothing, 2));
    consume(&mut buf, bytes);

    assert!(buf.starts_with(b"\r\n"));
}

#[test]
fn numeric_error_response() {
    let mut digester = AtDigester::<UrcTestParser>::new();
    let mut buf: Vec<u8> = Vec::new();

    buf.extend_from_slice(b"AT+USORD=3,16\r\n");
    buf.extend_from_slice(b"+USORD: 3,16,\"16 bytes of data\"\r\n");
    buf.extend_from_slice(b"+CME ERROR: 122\r\n");
    let (res, bytes) = digester.digest(&buf);

    assert_eq!(
        res,
        DigestResult::Response(Err(InternalError::CmeError(CmeError::Congestion)))
    );
    consume(&mut buf, bytes);

    assert!(buf.is_empty());
}

#[test]
fn verbose_error_response() {
    let mut digester = AtDigester::<UrcTestParser>::new();
    let mut buf: Vec<u8> = Vec::new();

    buf.extend_from_slice(b"AT+USORD=3,16\r\n");
    buf.extend_from_slice(b"+USORD: 3,16,\"16 bytes of data\"\r\n");
    buf.extend_from_slice(b"+CME ERROR: Operation not allowed\r\n");
    let (res, bytes) = digester.digest(&buf);

    assert_eq!(
        res,
        DigestResult::Response(Err(InternalError::CmeError(CmeError::NotAllowed)))
    );
    consume(&mut buf, bytes);

    assert!(buf.is_empty());
}

#[test]
fn data_ready_prompt() {
    let mut digester = AtDigester::<UrcTestParser>::new();
    let mut buf: Vec<u8> = Vec::new();

    buf.extend_from_slice(b"AT+USECMNG=0,0,\"Verisign\",1758\r>");
    let (res, bytes) = digester.digest(&buf);
    assert_eq!((res, bytes), (DigestResult::Prompt(b'>'), 32));
    consume(&mut buf, bytes);
}

#[test]
fn ready_for_data_prompt() {
    let mut digester = AtDigester::<UrcTestParser>::new();
    let mut buf: Vec<u8> = Vec::new();

    buf.extend_from_slice(b"AT+USOWR=3,16\r@");
    let (res, bytes) = digester.digest(&buf);
    assert_eq!((res, bytes), (DigestResult::Prompt(b'@'), 15));
    consume(&mut buf, bytes);
}

#[test]
fn without_prefix() {
    let mut digester = AtDigester::<UrcTestParser>::new();
    let mut buf: Vec<u8> = Vec::new();

    // With echo enabled
    buf.extend_from_slice(b"AT+CIMI?\r\n123456789\r\nOK\r\n");
    let (res, bytes) = digester.digest(&buf);
    assert_eq!((res, bytes), (DigestResult::Response(Ok(b"123456789")), 25));
    consume(&mut buf, bytes);
    assert!(buf.is_empty());

    // Without echo enabled
    buf.extend_from_slice(b"\r\n123456789\r\nOK\r\n");
    let (res, bytes) = digester.digest(&buf);
    assert_eq!((res, bytes), (DigestResult::Response(Ok(b"123456789")), 17));
    consume(&mut buf, bytes);
    assert!(buf.is_empty());
}

#[test]
fn cpin_parsing() {
    let mut digester = AtDigester::<UrcTestParser>::new();
    let mut buf: Vec<u8> = Vec::new();

    buf.extend_from_slice(b"AT+CPIN?\r\r\n+CPIN: READY\r\n\r\nOK\r\n");

    let (res, bytes) = digester.digest(&buf);
    assert_eq!(
        (res, bytes),
        (DigestResult::Response(Ok(b"+CPIN: READY")), 31)
    );
    consume(&mut buf, bytes);
    assert!(buf.is_empty());
}

#[test]
fn cpin_error() {
    let mut digester = AtDigester::<UrcTestParser>::new();
    let mut buf: Vec<u8> = Vec::new();

    buf.extend_from_slice(b"AT+CPIN?\r\r\n+CME ERROR: 10\r\n");

    let (res, bytes) = digester.digest(&buf);

    assert_eq!(
        res,
        DigestResult::Response(Err(InternalError::CmeError(CmeError::SimNotInserted)))
    );
    consume(&mut buf, bytes);

    assert!(buf.is_empty());
}

const URDBLOCK_DATA: &[u8] = b"URDBLOCK: \"response.txt\",512,\"HTTP/1.1 200 OK\r\nContent-Type: application/json\r\nContent-Length: 2553\r\nConnection: close\r\nVary: Accept-Encoding\r\nDate: Mon, 19 Jul 2021 07:47:39 GMT\r\nx-amzn-RequestId: 436ba5b8-2aad-4089-a4fd-1b1c38773c87\r\nx-amz-apigw-id: CtQkMFE_DoEFUzg=\r\nX-Amzn-Trace-Id: Root=1-60f52e1a-0a05343260f3ba3331eea9d6;Sampled=1\r\nVia: 1.1 f99b5b46e77cfe9c3413f99dc8a4088c.cloudfront.net (CloudFront), 1.1 2f194b62c8c43859cbf5af8e53a8d2a7.cloudfront.net (CloudFront)\r\nX-Amz-Cf-Pop: FRA2-C2\r\nX-Cache: Miss from cloudfront\r\nX-Amz-Cf-Pop\"\r\nOK\r\n";

const URDBLOCK_EXPECTATION: &[u8] = b"+URDBLOCK: \"response.txt\",512,\"HTTP/1.1 200 OK\r\nContent-Type: application/json\r\nContent-Length: 2553\r\nConnection: close\r\nVary: Accept-Encoding\r\nDate: Mon, 19 Jul 2021 07:47:39 GMT\r\nx-amzn-RequestId: 436ba5b8-2aad-4089-a4fd-1b1c38773c87\r\nx-amz-apigw-id: CtQkMFE_DoEFUzg=\r\nX-Amzn-Trace-Id: Root=1-60f52e1a-0a05343260f3ba3331eea9d6;Sampled=1\r\nVia: 1.1 f99b5b46e77cfe9c3413f99dc8a4088c.cloudfront.net (CloudFront), 1.1 2f194b62c8c43859cbf5af8e53a8d2a7.cloudfront.net (CloudFront)\r\nX-Amz-Cf-Pop: FRA2-C2\r\nX-Cache: Miss from cloudfront\r\nX-Amz-Cf-Pop\"";

#[test]
fn multi_line_response_with_ok() {
    let mut digester = AtDigester::<UrcTestParser>::new();
    let mut buf: Vec<u8> = Vec::with_capacity(1024);

    buf.extend_from_slice(b"AT+URDBLOCK=\"response.txt\",0,512\r\r\n+");
    let (res, bytes) = digester.digest(&buf);
    assert_eq!((res, bytes), (DigestResult::Nothing, 33));
    consume(&mut buf, bytes);

    buf.extend_from_slice(URDBLOCK_DATA);
    let (res, bytes) = digester.digest(&buf);
    assert_eq!(
        (res, bytes),
        (DigestResult::Response(Ok(URDBLOCK_EXPECTATION)), 552)
    );
    consume(&mut buf, bytes);

    assert!(buf.is_empty());
}

#[test]
fn multi_cmd_multi_line_response_with_ok() {
    let mut digester = AtDigester::<UrcTestParser>::new();
    let mut buf: Vec<u8> = Vec::with_capacity(2048);

    buf.extend_from_slice(b"AT+CPIN?\r\r\n+CPIN: READY\r\n\r\nOK\r\n");
    buf.extend_from_slice(b"AT+URDBLOCK=\"response.txt\",0,512\r\r\n+");

    let (res, bytes) = digester.digest(&buf);
    assert_eq!(
        (res, bytes),
        (DigestResult::Response(Ok(b"+CPIN: READY")), 31)
    );
    consume(&mut buf, bytes);

    assert_eq!(buf, b"AT+URDBLOCK=\"response.txt\",0,512\r\r\n+");

    let (res, bytes) = digester.digest(&buf);
    assert_eq!((res, bytes), (DigestResult::Nothing, 33));
    consume(&mut buf, bytes);
    assert_eq!(buf, b"\r\n+");

    buf.extend_from_slice(URDBLOCK_DATA);

    let (res, bytes) = digester.digest(&buf);
    assert_eq!(
        (res, bytes),
        (DigestResult::Response(Ok(URDBLOCK_EXPECTATION)), 552)
    );
    consume(&mut buf, bytes);

    assert!(buf.is_empty());
}
