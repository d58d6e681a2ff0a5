use atat::digest::parser::{urc_helper, ParseError};
use atat::digest::{AtDigester, Parser};
use atat::ingress::{Error, Ingress};
use atat::response::Response;
use atat::response_slot::ResponseSlot;
use atat::traits::AtatUrc;
use atat::urc_channel::UrcChannel;

#[derive(Clone, PartialEq, Debug)]
enum Urc {
    ConnectOk,
    ConnectFail,
}

impl AtatUrc for Urc {
    type Response = Urc;

    fn parse(resp: &[u8]) -> Option<Urc> {
        if resp.starts_with(b"CONNECT OK") {
            Some(Urc::ConnectOk)
        } else if resp.starts_with(b"CONNECT FAIL") {
            Some(Urc::ConnectFail)
        } else {
            None
        }
    }
}

impl Parser for Urc {
    fn parse<'a>(buf: &'a [u8]) -> Result<(&'a [u8], usize), ParseError> {
        match urc_helper(b"CONNECT OK", buf) {
            Ok((_, r)) => Ok(r),
            Err(ParseError::Incomplete) => Err(ParseError::Incomplete),
            Err(ParseError::Error) => match urc_helper(b"CONNECT FAIL", buf) {
                Ok((_, r)) => Ok(r),
                Err(e) => Err(e),
            },
        }
    }
}

type TestIngress<const CAP: usize> = Ingress<AtDigester<Urc>, Urc, 100, CAP, 1>;

fn ingress<const CAP: usize>() -> TestIngress<CAP> {
    Ingress::new(
        AtDigester::<Urc>::new(),
        ResponseSlot::<100>::new(),
        UrcChannel::<Urc, CAP, 1>::new(),
    )
}

#[test]
fn advance_can_processes_multiple_digest_results() {
    let mut ingress: TestIngress<10> = ingress();
    let sub = ingress.urc_channel.subscribe().unwrap();

    let data = b"\r\nCONNECT OK\r\n\r\nCONNECT FAIL\r\n\r\nOK\r\n";
    ingress.try_advance(data).unwrap();

    assert_eq!(Urc::ConnectOk, ingress.urc_channel.try_next_message_pure(sub).unwrap());
    assert_eq!(Urc::ConnectFail, ingress.urc_channel.try_next_message_pure(sub).unwrap());

    let response = ingress.res_slot.try_get().unwrap();
    assert_eq!(&Response::default(), response);
}

#[test]
fn ingress_full_urc_channel_is_an_error() {
    let mut ingress: TestIngress<1> = ingress();
    let sub = ingress.urc_channel.subscribe().unwrap();

    let data = b"\r\nCONNECT OK\r\n\r\nCONNECT FAIL\r\n";
    assert_eq!(ingress.try_advance(data), Err(Error::UrcChannelFull));
    assert_eq!(ingress.urc_channel.free_capacity(), 0);
    assert_eq!(Urc::ConnectOk, ingress.urc_channel.try_next_message_pure(sub).unwrap());
    assert_eq!(ingress.urc_channel.try_next_message_pure(sub), None);
    // The URC that did not fit stays in the buffer and goes out once there is room.
    assert_eq!(ingress.try_advance(b""), Ok(()));
    assert_eq!(Urc::ConnectFail, ingress.urc_channel.try_next_message_pure(sub).unwrap());
}

#[test]
fn ingress_urcs_without_subscribers_are_dropped() {
    let mut ingress: TestIngress<1> = ingress();
    assert_eq!(ingress.try_advance(b"\r\nCONNECT OK\r\n\r\nCONNECT FAIL\r\n"), Ok(()));
    assert_eq!(ingress.urc_channel.free_capacity(), 1);
}

#[test]
fn ingress_keeps_first_response_until_taken() {
    let mut ingress: TestIngress<10> = ingress();
    ingress.try_advance(b"AT+CGMI\r\r\nu-blox\r\nOK\r\n").unwrap();
    assert_eq!(ingress.res_slot.try_get(), Some(&Response::ok(b"u-blox")));
    ingress.try_advance(b"AT\r\r\nERROR\r\n").unwrap();
    assert_eq!(ingress.res_slot.try_get(), Some(&Response::ok(b"u-blox")));
    ingress.res_slot.reset();
    assert_eq!(ingress.res_slot.try_get(), None);
    ingress.try_advance(b"AT\r\r\nERROR\r\n").unwrap();
    assert_eq!(ingress.res_slot.try_get(), Some(&Response::OtherError));
}

#[test]
fn ingress_prompt() {
    let mut ingress: TestIngress<10> = ingress();
    ingress.try_advance(b"AT+USOST=0,\"1.2.3.4\",5,3\r\r\n@").unwrap();
    assert_eq!(ingress.res_slot.try_get(), Some(&Response::Prompt(b'@')));
}

#[test]
fn ingress_partial_input_waits() {
    let mut ingress: TestIngress<10> = ingress();
    ingress.try_advance(b"AT+CGMI\r\r\nu-bl").unwrap();
    assert_eq!(ingress.res_slot.try_get(), None);
    ingress.try_advance(b"ox\r\nOK\r\n").unwrap();
    assert_eq!(ingress.res_slot.try_get(), Some(&Response::ok(b"u-blox")));
}

#[test]
fn ingress_try_write_fills_and_digests() {
    let mut ingress: TestIngress<10> = ingress();
    let sub = ingress.urc_channel.subscribe().unwrap();
    let mut data = Vec::new();
    for _ in 0..10 {
        data.extend_from_slice(b"\r\nCONNECT OK\r\n");
    }
    // 140 bytes go through a buffer of 100.
    assert_eq!(ingress.try_write(&data), Ok(140));
    for _ in 0..10 {
        assert_eq!(ingress.urc_channel.try_next_message_pure(sub), Some(Urc::ConnectOk));
    }
    assert_eq!(ingress.urc_channel.try_next_message_pure(sub), None);
}

#[test]
fn ingress_try_write_stops_on_full_buffer() {
    let mut ingress: TestIngress<10> = ingress();
    // No line ending: nothing can be digested, so the buffer fills up.
    let data = [b'x'; 150];
    assert_eq!(ingress.try_write(&data), Ok(100));
    assert_eq!(ingress.free(), 0);
    ingress.clear();
    assert_eq!(ingress.free(), 100);
}

#[test]
fn ingress_advance_hands_back_urc_when_full() {
    let mut ingress: TestIngress<1> = ingress();
    let sub = ingress.urc_channel.subscribe().unwrap();
    let data = b"\r\nCONNECT OK\r\n\r\nCONNECT FAIL\r\n\r\nOK\r\n";
    // The second URC does not fit: it is handed back, its bytes consumed.
    assert_eq!(ingress.advance(data), Some(Urc::ConnectFail));
    assert_eq!(ingress.urc_channel.try_next_message_pure(sub), Some(Urc::ConnectOk));
    assert_eq!(ingress.urc_channel.try_publish(Urc::ConnectFail), Ok(()));
    assert_eq!(ingress.advance(&[]), None);
    assert_eq!(ingress.urc_channel.try_next_message_pure(sub), Some(Urc::ConnectFail));
    assert_eq!(ingress.res_slot.try_get(), Some(&Response::default()));
}

#[test]
fn urc_channel_subscribers() {
    let mut channel = UrcChannel::<Urc, 2, 2>::new();
    assert_eq!(channel.try_publish(Urc::ConnectOk), Ok(()));
    let a = channel.subscribe().unwrap();
    let b = channel.subscribe().unwrap();
    assert_eq!(
        channel.subscribe(),
        Err(atat::urc_channel::Error::MaximumSubscribersReached)
    );
    assert_eq!(channel.try_publish(Urc::ConnectOk), Ok(()));
    assert_eq!(channel.try_publish(Urc::ConnectFail), Ok(()));
    assert_eq!(channel.try_publish(Urc::ConnectFail), Err(Urc::ConnectFail));
    assert_eq!(channel.free_capacity(), 0);
    assert_eq!(channel.try_next_message_pure(a), Some(Urc::ConnectOk));
    // Still held for the other subscriber.
    assert_eq!(channel.free_capacity(), 0);
    assert_eq!(channel.try_next_message_pure(b), Some(Urc::ConnectOk));
    assert_eq!(channel.free_capacity(), 1);
    assert_eq!(channel.try_next_message_pure(a), Some(Urc::ConnectFail));
    assert_eq!(channel.try_next_message_pure(a), None);
}
