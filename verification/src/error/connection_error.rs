use vstd::prelude::*;

verus! {

/// Errors reported when a data or voice connection cannot be set up.
#[derive(Debug, Clone, Copy, PartialEq, Eq, Structural)]
pub enum ConnectionError {
    Unknown,
    NoCarrier,
    NoDialtone,
    Busy,
    NoAnswer,
}

/// The numeric code of each connection error.
pub open spec fn connection_error_code(e: ConnectionError) -> u8 {
    match e {
        ConnectionError::Unknown => 0,
        ConnectionError::NoCarrier => 1,
        ConnectionError::NoDialtone => 2,
        ConnectionError::Busy => 3,
        ConnectionError::NoAnswer => 4,
    }
}

/// The connection error that a numeric code stands for; unassigned codes are `Unknown`.
pub open spec fn connection_error_from_code(v: u8) -> ConnectionError {
    if v == 1 {
        ConnectionError::NoCarrier
    } else if v == 2 {
        ConnectionError::NoDialtone
    } else if v == 3 {
        ConnectionError::Busy
    } else if v == 4 {
        ConnectionError::NoAnswer
    } else {
        ConnectionError::Unknown
    }
}

impl From<u8> for ConnectionError {
    fn from(v: u8) -> (r: Self)
        ensures
            r == connection_error_from_code(v),
    {
        match v {
            1 => Self::NoCarrier,
            2 => Self::NoDialtone,
            3 => Self::Busy,
            4 => Self::NoAnswer,
            _ => Self::Unknown,
        }
    }
}

impl vstd::std_specs::convert::FromSpecImpl<u8> for ConnectionError {
    open spec fn obeys_from_spec() -> bool {
        true
    }

    open spec fn from_spec(v: u8) -> Self {
        connection_error_from_code(v)
    }
}

impl From<ConnectionError> for u8 {
    fn from(e: ConnectionError) -> (r: Self)
        ensures
            r == connection_error_code(e),
    {
        match e {
            ConnectionError::Unknown => 0,
            ConnectionError::NoCarrier => 1,
            ConnectionError::NoDialtone => 2,
            ConnectionError::Busy => 3,
            ConnectionError::NoAnswer => 4,
        }
    }
}

impl vstd::std_specs::convert::FromSpecImpl<ConnectionError> for u8 {
    open spec fn obeys_from_spec() -> bool {
        true
    }

    open spec fn from_spec(e: ConnectionError) -> Self {
        connection_error_code(e)
    }
}

/// Decoding the code of a connection error gives the error back.
pub proof fn lemma_connection_error_code_roundtrip(e: ConnectionError)
    ensures
        connection_error_from_code(connection_error_code(e)) == e,
{
}

/// Every code decodes to an error whose code is itself, except the unassigned
/// codes, which decode to `Unknown`.
pub proof fn lemma_connection_error_from_code(v: u8)
    ensures
        v <= 4 ==> connection_error_code(connection_error_from_code(v)) == v,
        v > 4 ==> connection_error_from_code(v) == ConnectionError::Unknown,
{
}

/// The text that describes each error; an error that carries a number is
/// described by this text followed by the number.
pub open spec fn connection_error_message(e: ConnectionError) -> Seq<char> {
    match e {
        ConnectionError::Unknown => "Unknown"@,
        ConnectionError::NoCarrier => "No carrier"@,
        ConnectionError::NoDialtone => "No dialtone"@,
        ConnectionError::Busy => "Busy"@,
        ConnectionError::NoAnswer => "No answer"@,
    }
}

impl ConnectionError {
    /// The text that describes this error; an error that carries a number is
    /// described by this text followed by the number.
    pub fn message(&self) -> (m: &'static str)
        ensures
            m@ == connection_error_message(*self),
    {
        match self {
            ConnectionError::Unknown => "Unknown",
            ConnectionError::NoCarrier => "No carrier",
            ConnectionError::NoDialtone => "No dialtone",
            ConnectionError::Busy => "Busy",
            ConnectionError::NoAnswer => "No answer",
        }
    }
}

} // verus!
