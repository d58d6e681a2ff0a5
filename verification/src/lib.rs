//! Parsing of AT command traffic (Hayes command set): digesting the byte
//! stream of a serial modem into responses, prompts, result codes and
//! unsolicited result codes (URCs), and handing them to the client.
//!
//! - `digest`: the digester that tells echoes, responses, prompts, error
//!   codes and URCs apart; `line_digest` and `urc_matcher`: the line-based
//!   digester and its URC matchers.
//! - `ingress`, `response_slot`, `urc_channel`: the ingress that digests what
//!   the modem sends, and where it puts responses and URCs; `asynch`: the
//!   ingress that hands them on through framed byte queues.
//! - `blocking`, `client`: the decisions of the clients.
//! - `error`, `coded_error`, `frame`, `response`, `reschannel`: the errors and
//!   the forms in which results travel.
//! - `attributes`: the field order and length bounds that `#[at_arg(..)]`
//!   attributes decide.
//! - `bytes`, `helpers`: byte-slice search and trimming.
pub mod bytes;
pub mod helpers;
pub mod error;
pub mod coded_error;
pub mod digest;
pub mod urc_matcher;
pub mod line_digest;
pub mod frame;
pub mod response;
pub mod reschannel;
pub mod traits;
pub mod response_slot;
pub mod urc_channel;
pub mod ingress;
pub mod asynch;
pub mod blocking;
pub mod client;
pub mod attributes;
pub mod tx_mock;
