use atat::blocking::simple_client::SimpleClient;
use atat::client::{
    after_attempt, extend_deadline, send_retry, Client, ClientState, Command, Config, Mode, NbResult,
    Retry,
};
use atat::error::Error as UserError;
use atat::coded_error::Error;
use atat::digest::parser::ParseError;
use atat::digest::{AtDigester, Parser};
use atat::error::InternalError;
use atat::response::Response;

enum NoUrcs {}

impl Parser for NoUrcs {
    fn parse<'a>(_buf: &'a [u8]) -> Result<(&'a [u8], usize), ParseError> {
        Err(ParseError::Error)
    }
}

#[test]
fn config_defaults() {
    let c = Config::default();
    assert_eq!(c.mode, Mode::Blocking);
    assert_eq!(c.cmd_cooldown, 20);
    let c = Config::new(Mode::Timeout).cmd_cooldown(50);
    assert_eq!(c, Config { mode: Mode::Timeout, cmd_cooldown: 50 });
    assert_ne!(Command::Reset, Command::ForceReceiveState);
}

#[test]
fn client_writes_once_per_command() {
    let mut client = Client::new(Config::new(Mode::NonBlocking));
    assert_eq!(client.get_mode(), Mode::NonBlocking);
    assert!(client.begin_send());
    assert_eq!(client.state, ClientState::AwaitingResponse);
    assert!(!client.begin_send());
}

#[test]
fn client_response_ends_the_wait() {
    let mut client = Client::new(Config::new(Mode::NonBlocking));
    client.begin_send();
    let (r, cooldown) = client.check_response::<u8, ()>(None, true);
    assert_eq!(r, NbResult::WouldBlock);
    assert!(!cooldown);
    let (r, cooldown) = client.check_response::<u8, ()>(Some(Ok(7)), false);
    assert_eq!(r, NbResult::Done(Ok(7)));
    assert!(cooldown);
    assert_eq!(client.state, ClientState::Idle);
}

#[test]
fn client_times_out_in_timeout_mode() {
    let mut client = Client::new(Config::new(Mode::Timeout));
    client.begin_send();
    let (r, _) = client.check_response::<u8, ()>(None, false);
    assert_eq!(r, NbResult::WouldBlock);
    let (r, cooldown) = client.check_response::<u8, ()>(None, true);
    assert_eq!(r, NbResult::Done(Err(Error::Timeout)));
    assert!(!cooldown);
    assert_eq!(client.state, ClientState::Idle);
}

#[test]
fn client_error_response() {
    let mut client = Client::new(Config::default());
    client.begin_send();
    let (r, cooldown) = client.check_response::<u8, ()>(Some(Err(Error::InvalidResponse)), false);
    assert_eq!(r, NbResult::Done(Err(Error::InvalidResponse)));
    assert!(cooldown);
    let r = client.no_response_expected::<u8, ()>(Ok(1));
    assert_eq!(r, NbResult::Done(Ok(1)));
}

#[test]
fn simple_client_finds_response() {
    let mut client: SimpleClient<(), AtDigester<NoUrcs>, 64> =
        SimpleClient::new((), AtDigester::new());
    client.received(b"AT+CGMI\r\r\n");
    assert_eq!(client.poll_response(), None);
    client.received(b"u-blox\r\nOK\r\n");
    assert_eq!(client.poll_response(), Some(Response::ok(b"u-blox")));
    assert_eq!(client.free(), 64 - 14);
}

#[test]
fn simple_client_error_and_prompt() {
    let mut client: SimpleClient<(), AtDigester<NoUrcs>, 64> =
        SimpleClient::new((), AtDigester::new());
    client.received(b"AT+CPIN?\r\r\n+CME ERROR: 10\r\n");
    assert_eq!(client.poll_response(), Some(Response::CmeError(10)));
    let (r, n) = client.digest();
    assert_eq!(r, Some(Err(InternalError::CmeError(atat::error::CmeError::SimNotInserted))));
    client.consume(n);
    client.received(b"AT+USOWR=0,2\r\r\n@");
    assert_eq!(client.poll_response(), Some(Response::ok(b"")));
}

#[test]
fn retry_decisions() {
    assert_eq!(after_attempt::<u8>(1, 3, false, Err(UserError::Timeout)), Retry::Again);
    assert_eq!(
        after_attempt::<u8>(3, 3, false, Err(UserError::Timeout)),
        Retry::Done(Err(UserError::Timeout))
    );
    assert_eq!(after_attempt::<u8>(1, 3, true, Ok(5)), Retry::Done(Ok(5)));
    assert_eq!(
        after_attempt::<u8>(1, 3, false, Err(UserError::Parse)),
        Retry::Done(Err(UserError::Parse))
    );
    assert_eq!(after_attempt::<u8>(1, 3, true, Err(UserError::Parse)), Retry::Again);
    assert_eq!(
        after_attempt::<u8>(3, 3, true, Err(UserError::Parse)),
        Retry::Done(Err(UserError::Timeout))
    );
}

#[test]
fn deadline_extension() {
    assert_eq!(extend_deadline(100, 150), Some(150));
    assert_eq!(extend_deadline(100, 100), None);
    assert_eq!(extend_deadline(100, 50), None);
}

#[test]
fn simple_client_take_response_keeps_prompt() {
    let mut client: SimpleClient<(), AtDigester<NoUrcs>, 64> =
        SimpleClient::new((), AtDigester::new());
    client.received(b"AT+USOWR=0,2\r\r\n@");
    assert_eq!(client.take_response(), Some(Response::Prompt(b'@')));
    client.received(b"AT\r\r\nOK\r\n");
    assert_eq!(client.take_response(), Some(Response::ok(b"")));
    assert_eq!(client.take_response(), None);
}

#[test]
fn client_wait_plans() {
    use_plan(Mode::Blocking, atat::client::Wait::Block);
    use_plan(Mode::NonBlocking, atat::client::Wait::Once);
    use_plan(Mode::Timeout, atat::client::Wait::BlockWithTimer);
}

fn use_plan(mode: Mode, expected: atat::client::Wait) {
    assert_eq!(Client::new(Config::new(mode)).wait_plan(), expected);
}

#[derive(Debug, PartialEq)]
struct NoResponse;

#[test]
fn non_blocking() {
    let mut client = Client::new(Config::new(Mode::NonBlocking));

    // `send` writes the command, then checks once for a response.
    assert_eq!(client.state, ClientState::Idle);
    assert!(client.begin_send());
    let (r, _) = client.check_response::<NoResponse, ()>(None, false);
    assert_eq!(r, NbResult::WouldBlock);
    assert_eq!(client.state, ClientState::AwaitingResponse);

    let (r, _) = client.check_response::<NoResponse, ()>(None, false);
    assert_eq!(r, NbResult::WouldBlock);

    // The response arrives.
    assert_eq!(client.state, ClientState::AwaitingResponse);
    let (r, _) = client.check_response::<NoResponse, ()>(Some(Ok(NoResponse)), false);
    assert_eq!(r, NbResult::Done(Ok(NoResponse)));
    assert_eq!(client.state, ClientState::Idle);
}

#[test]
fn client_blocking() {
    let mut client = Client::new(Config::new(Mode::Blocking));
    let mut tx = atat::tx_mock::TxMock::new();

    assert_eq!(client.state, ClientState::Idle);
    assert!(client.begin_send());
    assert_eq!(tx.write(b"AT+CFUN=4,0\r\n").unwrap(), 13);
    let (r, _) = client.check_response::<NoResponse, ()>(Some(Ok(NoResponse)), false);
    assert_eq!(r, NbResult::Done(Ok(NoResponse)));
    assert_eq!(client.state, ClientState::Idle);
    assert_eq!(tx.flush(), b"AT+CFUN=4,0\r\n".to_vec());
}

#[test]
fn send_retry_stops_at_the_first_final_result() {
    let results = [Err(UserError::Timeout), Err(UserError::Timeout), Ok(5u8), Ok(6u8)];
    let mut calls = 0;
    let r = send_retry(3, false, || {
        calls += 1;
        results[calls - 1].clone()
    });
    assert_eq!(r, Ok(5));
    assert_eq!(calls, 3);

    let mut calls = 0;
    let r = send_retry::<u8, _>(3, false, || {
        calls += 1;
        Err(UserError::Parse)
    });
    assert_eq!(r, Err(UserError::Parse));
    assert_eq!(calls, 1);

    let mut calls = 0;
    let r = send_retry::<u8, _>(3, true, || {
        calls += 1;
        Err(UserError::Parse)
    });
    assert_eq!(r, Err(UserError::Timeout));
    assert_eq!(calls, 3);

    let mut calls = 0;
    let r = send_retry::<u8, _>(0, true, || {
        calls += 1;
        Ok(1)
    });
    assert_eq!(r, Err(UserError::Timeout));
    assert_eq!(calls, 0);
}
