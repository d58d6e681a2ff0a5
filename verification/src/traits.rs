//! The traits through which the library reaches the user's command and URC types.
use crate::error::{Error, InternalError};
use vstd::prelude::*;

verus! {

/// A response to a command.
pub trait AtatResp {}

/// An unsolicited result code (URC) type: it tells which lines it stands for.
/// An implementation states in `parse_spec` what `parse` gives for each line;
/// one that does not override it claims to parse nothing.
pub trait AtatUrc {
    /// The type of the URC.
    type Response: Clone;

    /// The URC that the line `resp` stands for, if any.
    open spec fn parse_spec(resp: Seq<u8>) -> Option<Self::Response> {
        None
    }

    /// Parse the response into a `Self::Response` instance.
    fn parse(resp: &[u8]) -> (r: Option<Self::Response>)
        ensures
            r == Self::parse_spec(resp@),
    ;
}

/// A command: how it is written to the modem and how its response is read.
pub trait AtatCmd<const LEN: usize> {
    /// The type of the response.
    type Response: AtatResp;

    /// Whether or not this command can be aborted.
    const CAN_ABORT: bool = false;

    /// The max timeout in milliseconds.
    const MAX_TIMEOUT_MS: u32 = 1000;

    /// The max number of times to attempt a command with automatic retries if
    /// using `send_retry`.
    const ATTEMPTS: u8 = 1;

    /// Whether or not to reattempt a command on a parse error
    /// using `send_retry`.
    const REATTEMPT_ON_PARSE_ERR: bool = true;

    /// Force client to look for a response.
    /// Empty slice is then passed to parse by client.
    const EXPECTS_RESPONSE_CODE: bool = true;

    /// The command as bytes, at most `LEN` of them.
    fn as_bytes(&self) -> Vec<u8>;

    /// Parse the response into a `Self::Response` or `Error` instance.
    fn parse(&self, resp: Result<&[u8], InternalError>) -> Result<Self::Response, Error>;
}

} // verus!
