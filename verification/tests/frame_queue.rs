use atat::asynch::ingress::{enqueue, FrameWriter, Ingress};
use atat::digest::parser::{urc_helper, ParseError};
use atat::digest::{AtDigester, Parser};
use atat::frame::Frame;
use bbqueue::BBBuffer;

enum Urcs {}

impl Parser for Urcs {
    fn parse<'a>(buf: &'a [u8]) -> Result<(&'a [u8], usize), ParseError> {
        match urc_helper(b"+UUSORD", buf) {
            Ok((_, r)) => Ok(r),
            Err(e) => Err(e),
        }
    }
}

#[test]
fn frames_are_encoded() {
    let bb: BBBuffer<64> = BBBuffer::new();
    let (p, mut c) = bb.try_split_framed().unwrap();
    let mut w = FrameWriter::new(p);
    let cases: Vec<(Frame, Vec<u8>)> = vec![
        (Frame::Response(b"OK"), vec![0, 2, b'O', b'K']),
        (Frame::Prompt(b'>'), vec![1, b'>']),
        (Frame::TimeoutError, vec![4]),
        (Frame::CmeError(300), vec![10, 251, 44, 1]),
        (Frame::CmsError(5), vec![11, 5]),
        (Frame::CustomError(b"x"), vec![13, 1, b'x']),
        (Frame::OverflowError, vec![7]),
        (Frame::CmsError(512), vec![11, 251, 0, 2]),
    ];
    for (frame, bytes) in cases {
        assert!(enqueue(&mut w, frame));
        let grant = c.read().unwrap();
        assert_eq!(&grant[..], &bytes[..]);
        grant.release();
    }
}

#[test]
fn frame_ingress_digests_into_queues() {
    let res: BBBuffer<64> = BBBuffer::new();
    let urc: BBBuffer<64> = BBBuffer::new();
    let (res_p, mut res_c) = res.try_split_framed().unwrap();
    let (urc_p, mut urc_c) = urc.try_split_framed().unwrap();
    let mut ingress: Ingress<AtDigester<Urcs>, 64, 64, 64> =
        Ingress::new(AtDigester::new(), res_p, urc_p);

    ingress.write(b"\r\n+UUSORD: 3,16\r\n");
    let grant = urc_c.read().unwrap();
    assert_eq!(&grant[..], b"+UUSORD: 3,16");
    grant.release();

    ingress.write(b"AT+CGMI\r\r\nu-blox\r\nOK\r\n");
    let grant = res_c.read().unwrap();
    assert_eq!(&grant[..], &[0, 6, b'u', b'-', b'b', b'l', b'o', b'x'][..]);
    grant.release();
    assert!(res_c.read().is_none());
}

#[test]
fn frame_ingress_overflow() {
    let res: BBBuffer<64> = BBBuffer::new();
    let urc: BBBuffer<64> = BBBuffer::new();
    let (res_p, mut res_c) = res.try_split_framed().unwrap();
    let (urc_p, _urc_c) = urc.try_split_framed().unwrap();
    let mut ingress: Ingress<AtDigester<Urcs>, 8, 64, 64> =
        Ingress::new(AtDigester::new(), res_p, urc_p);

    ingress.write(b"0123456789");
    let grant = res_c.read().unwrap();
    assert_eq!(&grant[..], &[7][..]);
    grant.release();
}

#[test]
fn frame_ingress_waits_for_room() {
    let res: BBBuffer<8> = BBBuffer::new();
    let urc: BBBuffer<64> = BBBuffer::new();
    let (res_p, mut res_c) = res.try_split_framed().unwrap();
    let (urc_p, _urc_c) = urc.try_split_framed().unwrap();
    let mut ingress: Ingress<AtDigester<Urcs>, 64, 8, 64> =
        Ingress::new(AtDigester::new(), res_p, urc_p);

    // The first response takes the queue; the second waits in the buffer.
    ingress.write(b"AT\r\r\nABCD\r\nOK\r\nAT\r\r\nOK\r\n");
    let grant = res_c.read().unwrap();
    assert_eq!(&grant[..], &[0, 4, b'A', b'B', b'C', b'D'][..]);
    grant.release();
    assert!(res_c.read().is_none());
    ingress.process();
    let grant = res_c.read().unwrap();
    assert_eq!(&grant[..], &[0, 0][..]);
    grant.release();
}

#[test]
fn enqueue_without_room_commits_nothing() {
    let bb: BBBuffer<4> = BBBuffer::new();
    let (p, mut c) = bb.try_split_framed().unwrap();
    let mut w = FrameWriter::new(p);
    assert!(!enqueue(&mut w, Frame::Response(b"ABCDEFGH")));
    assert!(c.read().is_none());
    assert!(enqueue(&mut w, Frame::ReadError));
    let grant = c.read().unwrap();
    assert_eq!(&grant[..], &[2][..]);
    grant.release();
}

#[test]
fn frame_ingress_with_a_large_buffer() {
    let res: BBBuffer<64> = BBBuffer::new();
    let urc: BBBuffer<64> = BBBuffer::new();
    let (res_p, mut res_c) = res.try_split_framed().unwrap();
    let (urc_p, _urc_c) = urc.try_split_framed().unwrap();
    let mut ingress: Ingress<AtDigester<Urcs>, 70000, 64, 64> =
        Ingress::new(AtDigester::new(), res_p, urc_p);

    ingress.write(b"AT\r\r\nOK\r\n");
    let grant = res_c.read().unwrap();
    assert_eq!(&grant[..], &[0, 0][..]);
    grant.release();
}
