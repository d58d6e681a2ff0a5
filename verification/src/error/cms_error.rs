use crate::bytes::eq_at;
use super::{numbered_string, numbered_text};
use super::cme_error::{ascii_bytes, lemma_encode_ascii};
use vstd::utf8::encode_utf8;
use vstd::prelude::*;

verus! {

/// Enumeration of message errors, as defined in 3GPP TS 27.005 version 10
/// section 3.2.5.
#[derive(Debug, Clone, Copy, PartialEq, Eq, Structural)]
pub enum CmsError {
    /// 3GPP TS 24.011 [6] clause E.2
    RelayProtocolCause(u16),
    /// 3GPP TS 23.040 [3] clause 9.2.3.22
    TransferProtocolFailureCause(u16),
    /// nick=MeFailure
    MeFailure,
    /// nick=SmsServiceReserved
    SmsServiceReserved,
    /// nick=NotAllowed
    NotAllowed,
    /// nick=NotSupported
    NotSupported,
    /// nick=InvalidPduParameter
    InvalidPduParameter,
    /// nick=InvalidTextParameter
    InvalidTextParameter,
    /// nick=SimNotInserted
    SimNotInserted,
    /// nick=SimPin
    SimPin,
    /// nick=PhSimPin
    PhSimPin,
    /// nick=SimFailure
    SimFailure,
    /// nick=SimBusy
    SimBusy,
    /// nick=SimWrong
    SimWrong,
    /// nick=SimPuk
    SimPuk,
    /// nick=SimPin2
    SimPin2,
    /// nick=SimPuk2
    SimPuk2,
    /// nick=MemoryFailure
    MemoryFailure,
    /// nick=InvalidIndex
    InvalidIndex,
    /// nick=MemoryFull
    MemoryFull,
    /// nick=SmscAddressUnknown
    SmscAddressUnknown,
    /// nick=NoNetwork
    NoNetwork,
    /// nick=NetworkTimeout
    NetworkTimeout,
    /// nick=NoCnmaAckExpected
    NoCnmaAckExpected,
    /// nick=Unknown
    Unknown,
    /// Other values in range `256..=511` are reserved.
    Reserved(u16),
    /// All values in range `512..` are manufacturer specific.
    ManufacturerSpecific(u16),
}

/// The numeric code of each error.
pub open spec fn cms_error_code(e: CmsError) -> u16 {
    match e {
        CmsError::MeFailure => 300,
        CmsError::SmsServiceReserved => 301,
        CmsError::NotAllowed => 302,
        CmsError::NotSupported => 303,
        CmsError::InvalidPduParameter => 304,
        CmsError::InvalidTextParameter => 305,
        CmsError::SimNotInserted => 310,
        CmsError::SimPin => 311,
        CmsError::PhSimPin => 312,
        CmsError::SimFailure => 313,
        CmsError::SimBusy => 314,
        CmsError::SimWrong => 315,
        CmsError::SimPuk => 316,
        CmsError::SimPin2 => 317,
        CmsError::SimPuk2 => 318,
        CmsError::MemoryFailure => 320,
        CmsError::InvalidIndex => 321,
        CmsError::MemoryFull => 322,
        CmsError::SmscAddressUnknown => 330,
        CmsError::NoNetwork => 331,
        CmsError::NetworkTimeout => 332,
        CmsError::NoCnmaAckExpected => 340,
        CmsError::Unknown => 500,
        CmsError::RelayProtocolCause(error)
        | CmsError::TransferProtocolFailureCause(error)
        | CmsError::Reserved(error)
        | CmsError::ManufacturerSpecific(error) => error,
    }
}

/// The error that a numeric code stands for.
pub open spec fn cms_error_from_code(v: u16) -> CmsError {
    match v {
        300 => CmsError::MeFailure,
        301 => CmsError::SmsServiceReserved,
        302 => CmsError::NotAllowed,
        303 => CmsError::NotSupported,
        304 => CmsError::InvalidPduParameter,
        305 => CmsError::InvalidTextParameter,
        310 => CmsError::SimNotInserted,
        311 => CmsError::SimPin,
        312 => CmsError::PhSimPin,
        313 => CmsError::SimFailure,
        314 => CmsError::SimBusy,
        315 => CmsError::SimWrong,
        316 => CmsError::SimPuk,
        317 => CmsError::SimPin2,
        318 => CmsError::SimPuk2,
        320 => CmsError::MemoryFailure,
        321 => CmsError::InvalidIndex,
        322 => CmsError::MemoryFull,
        330 => CmsError::SmscAddressUnknown,
        331 => CmsError::NoNetwork,
        332 => CmsError::NetworkTimeout,
        340 => CmsError::NoCnmaAckExpected,
        500 => CmsError::Unknown,
        _ => if v <= 127 {
            CmsError::RelayProtocolCause(v)
        } else if v <= 255 {
            CmsError::TransferProtocolFailureCause(v)
        } else if v <= 511 {
            CmsError::Reserved(v)
        } else {
            CmsError::ManufacturerSpecific(v)
        },
    }
}

/// The error that a verbose error message stands for.
pub open spec fn cms_error_from_msg(s: Seq<u8>) -> CmsError {
    if s == seq![77u8, 69u8, 32u8, 102u8, 97u8, 105u8, 108u8, 117u8, 114u8, 101u8] {
        // "ME failure"
        CmsError::MeFailure
    } else if s == seq![83u8, 77u8, 83u8, 32u8, 115u8, 101u8, 114u8, 118u8, 105u8, 99u8, 101u8, 32u8, 114u8, 101u8, 115u8, 101u8, 114u8, 118u8, 101u8, 100u8] {
        // "SMS service reserved"
        CmsError::SmsServiceReserved
    } else if s == seq![79u8, 112u8, 101u8, 114u8, 97u8, 116u8, 105u8, 111u8, 110u8, 32u8, 110u8, 111u8, 116u8, 32u8, 97u8, 108u8, 108u8, 111u8, 119u8, 101u8, 100u8] {
        // "Operation not allowed"
        CmsError::NotAllowed
    } else if s == seq![79u8, 112u8, 101u8, 114u8, 97u8, 116u8, 105u8, 111u8, 110u8, 32u8, 110u8, 111u8, 116u8, 32u8, 115u8, 117u8, 112u8, 112u8, 111u8, 114u8, 116u8, 101u8, 100u8] {
        // "Operation not supported"
        CmsError::NotSupported
    } else if s == seq![73u8, 110u8, 118u8, 97u8, 108u8, 105u8, 100u8, 32u8, 80u8, 68u8, 85u8, 32u8, 109u8, 111u8, 100u8, 101u8, 32u8, 112u8, 97u8, 114u8, 97u8, 109u8, 101u8, 116u8, 101u8, 114u8] {
        // "Invalid PDU mode parameter"
        CmsError::InvalidPduParameter
    } else if s == seq![73u8, 110u8, 118u8, 97u8, 108u8, 105u8, 100u8, 32u8, 116u8, 101u8, 120u8, 116u8, 32u8, 109u8, 111u8, 100u8, 101u8, 32u8, 112u8, 97u8, 114u8, 97u8, 109u8, 101u8, 116u8, 101u8, 114u8] {
        // "Invalid text mode parameter"
        CmsError::InvalidTextParameter
    } else if s == seq![83u8, 73u8, 77u8, 32u8, 110u8, 111u8, 116u8, 32u8, 105u8, 110u8, 115u8, 101u8, 114u8, 116u8, 101u8, 100u8] {
        // "SIM not inserted"
        CmsError::SimNotInserted
    } else if s == seq![83u8, 73u8, 77u8, 32u8, 80u8, 73u8, 78u8, 32u8, 114u8, 101u8, 113u8, 117u8, 105u8, 114u8, 101u8, 100u8] {
        // "SIM PIN required"
        CmsError::SimPin
    } else if s == seq![83u8, 73u8, 77u8, 32u8, 102u8, 97u8, 105u8, 108u8, 117u8, 114u8, 101u8] {
        // "SIM failure"
        CmsError::SimFailure
    } else if s == seq![83u8, 73u8, 77u8, 32u8, 98u8, 117u8, 115u8, 121u8] {
        // "SIM busy"
        CmsError::SimBusy
    } else if s == seq![83u8, 73u8, 77u8, 32u8, 119u8, 114u8, 111u8, 110u8, 103u8] {
        // "SIM wrong"
        CmsError::SimWrong
    } else if s == seq![83u8, 73u8, 77u8, 32u8, 80u8, 85u8, 75u8, 32u8, 114u8, 101u8, 113u8, 117u8, 105u8, 114u8, 101u8, 100u8] {
        // "SIM PUK required"
        CmsError::SimPuk
    } else if s == seq![77u8, 101u8, 109u8, 111u8, 114u8, 121u8, 32u8, 102u8, 97u8, 105u8, 108u8, 117u8, 114u8, 101u8] {
        // "Memory failure"
        CmsError::MemoryFailure
    } else if s == seq![73u8, 110u8, 118u8, 97u8, 108u8, 105u8, 100u8, 32u8, 105u8, 110u8, 100u8, 101u8, 120u8] {
        // "Invalid index"
        CmsError::InvalidIndex
    } else if s == seq![77u8, 101u8, 109u8, 111u8, 114u8, 121u8, 32u8, 102u8, 117u8, 108u8, 108u8] {
        // "Memory full"
        CmsError::MemoryFull
    } else if s == seq![83u8, 77u8, 83u8, 67u8, 32u8, 97u8, 100u8, 100u8, 114u8, 101u8, 115u8, 115u8, 32u8, 117u8, 110u8, 107u8, 110u8, 111u8, 119u8, 110u8] {
        // "SMSC address unknown"
        CmsError::SmscAddressUnknown
    } else if s == seq![78u8, 111u8, 32u8, 110u8, 101u8, 116u8, 119u8, 111u8, 114u8, 107u8] {
        // "No network"
        CmsError::NoNetwork
    } else if s == seq![78u8, 101u8, 116u8, 119u8, 111u8, 114u8, 107u8, 32u8, 116u8, 105u8, 109u8, 101u8, 111u8, 117u8, 116u8] {
        // "Network timeout"
        CmsError::NetworkTimeout
    } else {
        CmsError::Unknown
    }
}

impl From<u16> for CmsError {
    fn from(v: u16) -> (r: Self)
        ensures
            r == cms_error_from_code(v),
    {
        match v {
            300 => Self::MeFailure,
            301 => Self::SmsServiceReserved,
            302 => Self::NotAllowed,
            303 => Self::NotSupported,
            304 => Self::InvalidPduParameter,
            305 => Self::InvalidTextParameter,
            310 => Self::SimNotInserted,
            311 => Self::SimPin,
            312 => Self::PhSimPin,
            313 => Self::SimFailure,
            314 => Self::SimBusy,
            315 => Self::SimWrong,
            316 => Self::SimPuk,
            317 => Self::SimPin2,
            318 => Self::SimPuk2,
            320 => Self::MemoryFailure,
            321 => Self::InvalidIndex,
            322 => Self::MemoryFull,
            330 => Self::SmscAddressUnknown,
            331 => Self::NoNetwork,
            332 => Self::NetworkTimeout,
            340 => Self::NoCnmaAckExpected,
            500 => Self::Unknown,
            _ => if v <= 127 {
                Self::RelayProtocolCause(v)
            } else if v <= 255 {
                Self::TransferProtocolFailureCause(v)
            } else if v <= 511 {
                Self::Reserved(v)
            } else {
                Self::ManufacturerSpecific(v)
            },
        }
    }
}

impl vstd::std_specs::convert::FromSpecImpl<u16> for CmsError {
    open spec fn obeys_from_spec() -> bool {
        true
    }

    open spec fn from_spec(v: u16) -> Self {
        cms_error_from_code(v)
    }
}

impl From<CmsError> for u16 {
    fn from(error: CmsError) -> (r: Self)
        ensures
            r == cms_error_code(error),
    {
        match error {
            CmsError::MeFailure => 300,
            CmsError::SmsServiceReserved => 301,
            CmsError::NotAllowed => 302,
            CmsError::NotSupported => 303,
            CmsError::InvalidPduParameter => 304,
            CmsError::InvalidTextParameter => 305,
            CmsError::SimNotInserted => 310,
            CmsError::SimPin => 311,
            CmsError::PhSimPin => 312,
            CmsError::SimFailure => 313,
            CmsError::SimBusy => 314,
            CmsError::SimWrong => 315,
            CmsError::SimPuk => 316,
            CmsError::SimPin2 => 317,
            CmsError::SimPuk2 => 318,
            CmsError::MemoryFailure => 320,
            CmsError::InvalidIndex => 321,
            CmsError::MemoryFull => 322,
            CmsError::SmscAddressUnknown => 330,
            CmsError::NoNetwork => 331,
            CmsError::NetworkTimeout => 332,
            CmsError::NoCnmaAckExpected => 340,
            CmsError::Unknown => 500,
            CmsError::RelayProtocolCause(error)
            | CmsError::TransferProtocolFailureCause(error)
            | CmsError::Reserved(error)
            | CmsError::ManufacturerSpecific(error) => error,
        }
    }
}

impl vstd::std_specs::convert::FromSpecImpl<CmsError> for u16 {
    open spec fn obeys_from_spec() -> bool {
        true
    }

    open spec fn from_spec(e: CmsError) -> Self {
        cms_error_code(e)
    }
}

impl CmsError {
    /// Interprets the verbose text of an error result code.
    pub fn from_msg(s: &[u8]) -> (r: Self)
        ensures
            r == cms_error_from_msg(s@),
    {
        let m0 = [77u8, 69u8, 32u8, 102u8, 97u8, 105u8, 108u8, 117u8, 114u8, 101u8];
        if same_bytes(s, &m0) {
            assert(m0@ =~= seq![77u8, 69u8, 32u8, 102u8, 97u8, 105u8, 108u8, 117u8, 114u8, 101u8]);
            return Self::MeFailure;
        }
        assert(m0@ =~= seq![77u8, 69u8, 32u8, 102u8, 97u8, 105u8, 108u8, 117u8, 114u8, 101u8]);
        let m1 = [83u8, 77u8, 83u8, 32u8, 115u8, 101u8, 114u8, 118u8, 105u8, 99u8, 101u8, 32u8, 114u8, 101u8, 115u8, 101u8, 114u8, 118u8, 101u8, 100u8];
        if same_bytes(s, &m1) {
            assert(m1@ =~= seq![83u8, 77u8, 83u8, 32u8, 115u8, 101u8, 114u8, 118u8, 105u8, 99u8, 101u8, 32u8, 114u8, 101u8, 115u8, 101u8, 114u8, 118u8, 101u8, 100u8]);
            return Self::SmsServiceReserved;
        }
        assert(m1@ =~= seq![83u8, 77u8, 83u8, 32u8, 115u8, 101u8, 114u8, 118u8, 105u8, 99u8, 101u8, 32u8, 114u8, 101u8, 115u8, 101u8, 114u8, 118u8, 101u8, 100u8]);
        let m2 = [79u8, 112u8, 101u8, 114u8, 97u8, 116u8, 105u8, 111u8, 110u8, 32u8, 110u8, 111u8, 116u8, 32u8, 97u8, 108u8, 108u8, 111u8, 119u8, 101u8, 100u8];
        if same_bytes(s, &m2) {
            assert(m2@ =~= seq![79u8, 112u8, 101u8, 114u8, 97u8, 116u8, 105u8, 111u8, 110u8, 32u8, 110u8, 111u8, 116u8, 32u8, 97u8, 108u8, 108u8, 111u8, 119u8, 101u8, 100u8]);
            return Self::NotAllowed;
        }
        assert(m2@ =~= seq![79u8, 112u8, 101u8, 114u8, 97u8, 116u8, 105u8, 111u8, 110u8, 32u8, 110u8, 111u8, 116u8, 32u8, 97u8, 108u8, 108u8, 111u8, 119u8, 101u8, 100u8]);
        let m3 = [79u8, 112u8, 101u8, 114u8, 97u8, 116u8, 105u8, 111u8, 110u8, 32u8, 110u8, 111u8, 116u8, 32u8, 115u8, 117u8, 112u8, 112u8, 111u8, 114u8, 116u8, 101u8, 100u8];
        if same_bytes(s, &m3) {
            assert(m3@ =~= seq![79u8, 112u8, 101u8, 114u8, 97u8, 116u8, 105u8, 111u8, 110u8, 32u8, 110u8, 111u8, 116u8, 32u8, 115u8, 117u8, 112u8, 112u8, 111u8, 114u8, 116u8, 101u8, 100u8]);
            return Self::NotSupported;
        }
        assert(m3@ =~= seq![79u8, 112u8, 101u8, 114u8, 97u8, 116u8, 105u8, 111u8, 110u8, 32u8, 110u8, 111u8, 116u8, 32u8, 115u8, 117u8, 112u8, 112u8, 111u8, 114u8, 116u8, 101u8, 100u8]);
        let m4 = [73u8, 110u8, 118u8, 97u8, 108u8, 105u8, 100u8, 32u8, 80u8, 68u8, 85u8, 32u8, 109u8, 111u8, 100u8, 101u8, 32u8, 112u8, 97u8, 114u8, 97u8, 109u8, 101u8, 116u8, 101u8, 114u8];
        if same_bytes(s, &m4) {
            assert(m4@ =~= seq![73u8, 110u8, 118u8, 97u8, 108u8, 105u8, 100u8, 32u8, 80u8, 68u8, 85u8, 32u8, 109u8, 111u8, 100u8, 101u8, 32u8, 112u8, 97u8, 114u8, 97u8, 109u8, 101u8, 116u8, 101u8, 114u8]);
            return Self::InvalidPduParameter;
        }
        assert(m4@ =~= seq![73u8, 110u8, 118u8, 97u8, 108u8, 105u8, 100u8, 32u8, 80u8, 68u8, 85u8, 32u8, 109u8, 111u8, 100u8, 101u8, 32u8, 112u8, 97u8, 114u8, 97u8, 109u8, 101u8, 116u8, 101u8, 114u8]);
        let m5 = [73u8, 110u8, 118u8, 97u8, 108u8, 105u8, 100u8, 32u8, 116u8, 101u8, 120u8, 116u8, 32u8, 109u8, 111u8, 100u8, 101u8, 32u8, 112u8, 97u8, 114u8, 97u8, 109u8, 101u8, 116u8, 101u8, 114u8];
        if same_bytes(s, &m5) {
            assert(m5@ =~= seq![73u8, 110u8, 118u8, 97u8, 108u8, 105u8, 100u8, 32u8, 116u8, 101u8, 120u8, 116u8, 32u8, 109u8, 111u8, 100u8, 101u8, 32u8, 112u8, 97u8, 114u8, 97u8, 109u8, 101u8, 116u8, 101u8, 114u8]);
            return Self::InvalidTextParameter;
        }
        assert(m5@ =~= seq![73u8, 110u8, 118u8, 97u8, 108u8, 105u8, 100u8, 32u8, 116u8, 101u8, 120u8, 116u8, 32u8, 109u8, 111u8, 100u8, 101u8, 32u8, 112u8, 97u8, 114u8, 97u8, 109u8, 101u8, 116u8, 101u8, 114u8]);
        let m6 = [83u8, 73u8, 77u8, 32u8, 110u8, 111u8, 116u8, 32u8, 105u8, 110u8, 115u8, 101u8, 114u8, 116u8, 101u8, 100u8];
        if same_bytes(s, &m6) {
            assert(m6@ =~= seq![83u8, 73u8, 77u8, 32u8, 110u8, 111u8, 116u8, 32u8, 105u8, 110u8, 115u8, 101u8, 114u8, 116u8, 101u8, 100u8]);
            return Self::SimNotInserted;
        }
        assert(m6@ =~= seq![83u8, 73u8, 77u8, 32u8, 110u8, 111u8, 116u8, 32u8, 105u8, 110u8, 115u8, 101u8, 114u8, 116u8, 101u8, 100u8]);
        let m7 = [83u8, 73u8, 77u8, 32u8, 80u8, 73u8, 78u8, 32u8, 114u8, 101u8, 113u8, 117u8, 105u8, 114u8, 101u8, 100u8];
        if same_bytes(s, &m7) {
            assert(m7@ =~= seq![83u8, 73u8, 77u8, 32u8, 80u8, 73u8, 78u8, 32u8, 114u8, 101u8, 113u8, 117u8, 105u8, 114u8, 101u8, 100u8]);
            return Self::SimPin;
        }
        assert(m7@ =~= seq![83u8, 73u8, 77u8, 32u8, 80u8, 73u8, 78u8, 32u8, 114u8, 101u8, 113u8, 117u8, 105u8, 114u8, 101u8, 100u8]);
        let m8 = [83u8, 73u8, 77u8, 32u8, 102u8, 97u8, 105u8, 108u8, 117u8, 114u8, 101u8];
        if same_bytes(s, &m8) {
            assert(m8@ =~= seq![83u8, 73u8, 77u8, 32u8, 102u8, 97u8, 105u8, 108u8, 117u8, 114u8, 101u8]);
            return Self::SimFailure;
        }
        assert(m8@ =~= seq![83u8, 73u8, 77u8, 32u8, 102u8, 97u8, 105u8, 108u8, 117u8, 114u8, 101u8]);
        let m9 = [83u8, 73u8, 77u8, 32u8, 98u8, 117u8, 115u8, 121u8];
        if same_bytes(s, &m9) {
            assert(m9@ =~= seq![83u8, 73u8, 77u8, 32u8, 98u8, 117u8, 115u8, 121u8]);
            return Self::SimBusy;
        }
        assert(m9@ =~= seq![83u8, 73u8, 77u8, 32u8, 98u8, 117u8, 115u8, 121u8]);
        let m10 = [83u8, 73u8, 77u8, 32u8, 119u8, 114u8, 111u8, 110u8, 103u8];
        if same_bytes(s, &m10) {
            assert(m10@ =~= seq![83u8, 73u8, 77u8, 32u8, 119u8, 114u8, 111u8, 110u8, 103u8]);
            return Self::SimWrong;
        }
        assert(m10@ =~= seq![83u8, 73u8, 77u8, 32u8, 119u8, 114u8, 111u8, 110u8, 103u8]);
        let m11 = [83u8, 73u8, 77u8, 32u8, 80u8, 85u8, 75u8, 32u8, 114u8, 101u8, 113u8, 117u8, 105u8, 114u8, 101u8, 100u8];
        if same_bytes(s, &m11) {
            assert(m11@ =~= seq![83u8, 73u8, 77u8, 32u8, 80u8, 85u8, 75u8, 32u8, 114u8, 101u8, 113u8, 117u8, 105u8, 114u8, 101u8, 100u8]);
            return Self::SimPuk;
        }
        assert(m11@ =~= seq![83u8, 73u8, 77u8, 32u8, 80u8, 85u8, 75u8, 32u8, 114u8, 101u8, 113u8, 117u8, 105u8, 114u8, 101u8, 100u8]);
        let m12 = [77u8, 101u8, 109u8, 111u8, 114u8, 121u8, 32u8, 102u8, 97u8, 105u8, 108u8, 117u8, 114u8, 101u8];
        if same_bytes(s, &m12) {
            assert(m12@ =~= seq![77u8, 101u8, 109u8, 111u8, 114u8, 121u8, 32u8, 102u8, 97u8, 105u8, 108u8, 117u8, 114u8, 101u8]);
            return Self::MemoryFailure;
        }
        assert(m12@ =~= seq![77u8, 101u8, 109u8, 111u8, 114u8, 121u8, 32u8, 102u8, 97u8, 105u8, 108u8, 117u8, 114u8, 101u8]);
        let m13 = [73u8, 110u8, 118u8, 97u8, 108u8, 105u8, 100u8, 32u8, 105u8, 110u8, 100u8, 101u8, 120u8];
        if same_bytes(s, &m13) {
            assert(m13@ =~= seq![73u8, 110u8, 118u8, 97u8, 108u8, 105u8, 100u8, 32u8, 105u8, 110u8, 100u8, 101u8, 120u8]);
            return Self::InvalidIndex;
        }
        assert(m13@ =~= seq![73u8, 110u8, 118u8, 97u8, 108u8, 105u8, 100u8, 32u8, 105u8, 110u8, 100u8, 101u8, 120u8]);
        let m14 = [77u8, 101u8, 109u8, 111u8, 114u8, 121u8, 32u8, 102u8, 117u8, 108u8, 108u8];
        if same_bytes(s, &m14) {
            assert(m14@ =~= seq![77u8, 101u8, 109u8, 111u8, 114u8, 121u8, 32u8, 102u8, 117u8, 108u8, 108u8]);
            return Self::MemoryFull;
        }
        assert(m14@ =~= seq![77u8, 101u8, 109u8, 111u8, 114u8, 121u8, 32u8, 102u8, 117u8, 108u8, 108u8]);
        let m15 = [83u8, 77u8, 83u8, 67u8, 32u8, 97u8, 100u8, 100u8, 114u8, 101u8, 115u8, 115u8, 32u8, 117u8, 110u8, 107u8, 110u8, 111u8, 119u8, 110u8];
        if same_bytes(s, &m15) {
            assert(m15@ =~= seq![83u8, 77u8, 83u8, 67u8, 32u8, 97u8, 100u8, 100u8, 114u8, 101u8, 115u8, 115u8, 32u8, 117u8, 110u8, 107u8, 110u8, 111u8, 119u8, 110u8]);
            return Self::SmscAddressUnknown;
        }
        assert(m15@ =~= seq![83u8, 77u8, 83u8, 67u8, 32u8, 97u8, 100u8, 100u8, 114u8, 101u8, 115u8, 115u8, 32u8, 117u8, 110u8, 107u8, 110u8, 111u8, 119u8, 110u8]);
        let m16 = [78u8, 111u8, 32u8, 110u8, 101u8, 116u8, 119u8, 111u8, 114u8, 107u8];
        if same_bytes(s, &m16) {
            assert(m16@ =~= seq![78u8, 111u8, 32u8, 110u8, 101u8, 116u8, 119u8, 111u8, 114u8, 107u8]);
            return Self::NoNetwork;
        }
        assert(m16@ =~= seq![78u8, 111u8, 32u8, 110u8, 101u8, 116u8, 119u8, 111u8, 114u8, 107u8]);
        let m17 = [78u8, 101u8, 116u8, 119u8, 111u8, 114u8, 107u8, 32u8, 116u8, 105u8, 109u8, 101u8, 111u8, 117u8, 116u8];
        if same_bytes(s, &m17) {
            assert(m17@ =~= seq![78u8, 101u8, 116u8, 119u8, 111u8, 114u8, 107u8, 32u8, 116u8, 105u8, 109u8, 101u8, 111u8, 117u8, 116u8]);
            return Self::NetworkTimeout;
        }
        assert(m17@ =~= seq![78u8, 101u8, 116u8, 119u8, 111u8, 114u8, 107u8, 32u8, 116u8, 105u8, 109u8, 101u8, 111u8, 117u8, 116u8]);
        Self::Unknown
    }
}

/// `a` and `b` hold the same bytes.
fn same_bytes(a: &[u8], b: &[u8]) -> (r: bool)
    ensures
        r == (a@ == b@),
{
    if a.len() != b.len() {
        return false;
    }
    let r = eq_at(a, 0, b);
    assert(a@.subrange(0, b@.len() as int) =~= a@);
    r
}

/// An error that is the decoding of its own code: every named error, and a
/// data-carrying error whose code lies in its range (for `Reserved`, one that
/// names no error).
pub open spec fn cms_error_canonical(e: CmsError) -> bool {
    match e {
        CmsError::RelayProtocolCause(x) => x <= 127,
        CmsError::TransferProtocolFailureCause(x) => 128 <= x <= 255,
        CmsError::Reserved(x) => cms_error_from_code(x) == CmsError::Reserved(x),
        CmsError::ManufacturerSpecific(x) => x >= 512,
        _ => true,
    }
}

/// Encoding a canonical error and decoding the code gives the error back.
pub proof fn lemma_cms_error_canonical_roundtrip(e: CmsError)
    requires
        cms_error_canonical(e),
    ensures
        cms_error_from_code(cms_error_code(e)) == e,
{
    if !(e is RelayProtocolCause) && !(e is TransferProtocolFailureCause) && !(e is Reserved)
        && !(e is ManufacturerSpecific) {
        lemma_cms_error_decode_named(e);
    }
}

/// Decoding any code and encoding the result gives the code back.
pub proof fn lemma_cms_error_code_of_decoded(v: u16)
    ensures
        cms_error_code(cms_error_from_code(v)) == v,
{
}

/// Every named error is what its own code decodes to.
pub proof fn lemma_cms_error_decode_named(e: CmsError)
    requires
        !(e is RelayProtocolCause) && !(e is TransferProtocolFailureCause) && !(e is Reserved) && !(e is ManufacturerSpecific),
    ensures
        cms_error_from_code(cms_error_code(e)) == e,
{
}

/// The data-carrying errors survive encoding and decoding when their code
/// lies in the range that the decoder assigns to them.
pub proof fn lemma_cms_error_range_roundtrip(x: u16)
    ensures
        x <= 127 ==> cms_error_from_code(cms_error_code(CmsError::RelayProtocolCause(x)))
            == CmsError::RelayProtocolCause(x),
        128 <= x <= 255 ==> cms_error_from_code(
            cms_error_code(CmsError::TransferProtocolFailureCause(x)),
        ) == CmsError::TransferProtocolFailureCause(x),
        x >= 512 ==> cms_error_from_code(cms_error_code(CmsError::ManufacturerSpecific(x)))
            == CmsError::ManufacturerSpecific(x),
{
}

/// The text that describes each error; an error that carries a number is
/// described by this text followed by the number.
pub open spec fn cms_error_message(e: CmsError) -> Seq<char> {
    match e {
        CmsError::RelayProtocolCause(_) => "Relay protocol error"@,
        CmsError::TransferProtocolFailureCause(_) => "Transfer protocol error"@,
        CmsError::MeFailure => "ME failure"@,
        CmsError::SmsServiceReserved => "SMS service reserved"@,
        CmsError::NotAllowed => "Operation not allowed"@,
        CmsError::NotSupported => "Operation not supported"@,
        CmsError::InvalidPduParameter => "Invalid PDU mode parameter"@,
        CmsError::InvalidTextParameter => "Invalid text mode parameter"@,
        CmsError::SimNotInserted => "SIM not inserted"@,
        CmsError::SimPin => "SIM PIN required"@,
        CmsError::PhSimPin => "PH-SIM PIN required"@,
        CmsError::SimFailure => "SIM failure"@,
        CmsError::SimBusy => "SIM busy"@,
        CmsError::SimWrong => "SIM wrong"@,
        CmsError::SimPuk => "SIM PUK required"@,
        CmsError::SimPin2 => "SIM PIN2 required"@,
        CmsError::SimPuk2 => "SIM PUK2 required"@,
        CmsError::MemoryFailure => "Memory failure"@,
        CmsError::InvalidIndex => "Invalid index"@,
        CmsError::MemoryFull => "Memory full"@,
        CmsError::SmscAddressUnknown => "SMSC address unknown"@,
        CmsError::NoNetwork => "No network"@,
        CmsError::NetworkTimeout => "Network timeout"@,
        CmsError::NoCnmaAckExpected => "No CNMA acknowledgement expected"@,
        CmsError::Unknown => "Unknown"@,
        CmsError::Reserved(_) => "Unknown reserved error"@,
        CmsError::ManufacturerSpecific(_) => "Manufacturer specific error"@,
    }
}

impl CmsError {
    /// The text that describes this error; an error that carries a number is
    /// described by this text followed by the number.
    pub fn message(&self) -> (m: &'static str)
        ensures
            m@ == cms_error_message(*self),
    {
        match self {
            CmsError::RelayProtocolCause(_) => "Relay protocol error",
            CmsError::TransferProtocolFailureCause(_) => "Transfer protocol error",
            CmsError::MeFailure => "ME failure",
            CmsError::SmsServiceReserved => "SMS service reserved",
            CmsError::NotAllowed => "Operation not allowed",
            CmsError::NotSupported => "Operation not supported",
            CmsError::InvalidPduParameter => "Invalid PDU mode parameter",
            CmsError::InvalidTextParameter => "Invalid text mode parameter",
            CmsError::SimNotInserted => "SIM not inserted",
            CmsError::SimPin => "SIM PIN required",
            CmsError::PhSimPin => "PH-SIM PIN required",
            CmsError::SimFailure => "SIM failure",
            CmsError::SimBusy => "SIM busy",
            CmsError::SimWrong => "SIM wrong",
            CmsError::SimPuk => "SIM PUK required",
            CmsError::SimPin2 => "SIM PIN2 required",
            CmsError::SimPuk2 => "SIM PUK2 required",
            CmsError::MemoryFailure => "Memory failure",
            CmsError::InvalidIndex => "Invalid index",
            CmsError::MemoryFull => "Memory full",
            CmsError::SmscAddressUnknown => "SMSC address unknown",
            CmsError::NoNetwork => "No network",
            CmsError::NetworkTimeout => "Network timeout",
            CmsError::NoCnmaAckExpected => "No CNMA acknowledgement expected",
            CmsError::Unknown => "Unknown",
            CmsError::Reserved(_) => "Unknown reserved error",
            CmsError::ManufacturerSpecific(_) => "Manufacturer specific error",
        }
    }
}

/// The text of an error as it is shown: its message, followed by a space and
/// the number for an error that carries one.
pub open spec fn cms_error_text(e: CmsError) -> Seq<char> {
    match e {
        CmsError::RelayProtocolCause(n) => numbered_text(cms_error_message(e), n as nat),
        CmsError::TransferProtocolFailureCause(n) => numbered_text(cms_error_message(e), n as nat),
        CmsError::Reserved(n) => numbered_text(cms_error_message(e), n as nat),
        CmsError::ManufacturerSpecific(n) => numbered_text(cms_error_message(e), n as nat),
        _ => cms_error_message(e),
    }
}

impl CmsError {
    /// The error as text, such as "Relay protocol error 42".
    pub fn to_string(&self) -> (s: String)
        ensures
            s@ == cms_error_text(*self),
    {
        match self {
            CmsError::RelayProtocolCause(n)
            | CmsError::TransferProtocolFailureCause(n)
            | CmsError::Reserved(n)
            | CmsError::ManufacturerSpecific(n) => numbered_string(self.message(), *n),
            _ => String::from_str(self.message()),
        }
    }
}

/// The errors that a verbose error message names: those `from_msg` knows,
/// and `Unknown`.
pub open spec fn cms_error_named_by_message(e: CmsError) -> bool {
        ||| e is MeFailure
        ||| e is SmsServiceReserved
        ||| e is NotAllowed
        ||| e is NotSupported
        ||| e is InvalidPduParameter
        ||| e is InvalidTextParameter
        ||| e is SimNotInserted
        ||| e is SimPin
        ||| e is SimFailure
        ||| e is SimBusy
        ||| e is SimWrong
        ||| e is SimPuk
        ||| e is MemoryFailure
        ||| e is InvalidIndex
        ||| e is MemoryFull
        ||| e is SmscAddressUnknown
        ||| e is NoNetwork
        ||| e is NetworkTimeout
        ||| e is Unknown
}

/// Reading back the text of an error that a verbose message names, as its
/// UTF-8 bytes, gives that error again.
pub proof fn lemma_cms_error_from_own_message(e: CmsError)
    requires
        cms_error_named_by_message(e),
    ensures
        cms_error_from_msg(encode_utf8(cms_error_text(e))) == e,
{
    match e {
        CmsError::MeFailure => {
            reveal_strlit("ME failure");
            assert(forall|i: int| 0 <= i < cms_error_message(e).len() ==> (cms_error_message(e)[i] as u32) < 128);
            lemma_encode_ascii(cms_error_message(e));
            assert(ascii_bytes(cms_error_message(e)) =~= seq![77u8, 69u8, 32u8, 102u8, 97u8, 105u8, 108u8, 117u8, 114u8, 101u8]);
        },
        CmsError::SmsServiceReserved => {
            reveal_strlit("SMS service reserved");
            assert(forall|i: int| 0 <= i < cms_error_message(e).len() ==> (cms_error_message(e)[i] as u32) < 128);
            lemma_encode_ascii(cms_error_message(e));
            assert(ascii_bytes(cms_error_message(e)) =~= seq![83u8, 77u8, 83u8, 32u8, 115u8, 101u8, 114u8, 118u8, 105u8, 99u8, 101u8, 32u8, 114u8, 101u8, 115u8, 101u8, 114u8, 118u8, 101u8, 100u8]);
        },
        CmsError::NotAllowed => {
            reveal_strlit("Operation not allowed");
            assert(forall|i: int| 0 <= i < cms_error_message(e).len() ==> (cms_error_message(e)[i] as u32) < 128);
            lemma_encode_ascii(cms_error_message(e));
            assert(ascii_bytes(cms_error_message(e)) =~= seq![79u8, 112u8, 101u8, 114u8, 97u8, 116u8, 105u8, 111u8, 110u8, 32u8, 110u8, 111u8, 116u8, 32u8, 97u8, 108u8, 108u8, 111u8, 119u8, 101u8, 100u8]);
        },
        CmsError::NotSupported => {
            reveal_strlit("Operation not supported");
            assert(forall|i: int| 0 <= i < cms_error_message(e).len() ==> (cms_error_message(e)[i] as u32) < 128);
            lemma_encode_ascii(cms_error_message(e));
            assert(ascii_bytes(cms_error_message(e)) =~= seq![79u8, 112u8, 101u8, 114u8, 97u8, 116u8, 105u8, 111u8, 110u8, 32u8, 110u8, 111u8, 116u8, 32u8, 115u8, 117u8, 112u8, 112u8, 111u8, 114u8, 116u8, 101u8, 100u8]);
        },
        CmsError::InvalidPduParameter => {
            reveal_strlit("Invalid PDU mode parameter");
            assert(forall|i: int| 0 <= i < cms_error_message(e).len() ==> (cms_error_message(e)[i] as u32) < 128);
            lemma_encode_ascii(cms_error_message(e));
            assert(ascii_bytes(cms_error_message(e)) =~= seq![73u8, 110u8, 118u8, 97u8, 108u8, 105u8, 100u8, 32u8, 80u8, 68u8, 85u8, 32u8, 109u8, 111u8, 100u8, 101u8, 32u8, 112u8, 97u8, 114u8, 97u8, 109u8, 101u8, 116u8, 101u8, 114u8]);
        },
        CmsError::InvalidTextParameter => {
            reveal_strlit("Invalid text mode parameter");
            assert(forall|i: int| 0 <= i < cms_error_message(e).len() ==> (cms_error_message(e)[i] as u32) < 128);
            lemma_encode_ascii(cms_error_message(e));
            assert(ascii_bytes(cms_error_message(e)) =~= seq![73u8, 110u8, 118u8, 97u8, 108u8, 105u8, 100u8, 32u8, 116u8, 101u8, 120u8, 116u8, 32u8, 109u8, 111u8, 100u8, 101u8, 32u8, 112u8, 97u8, 114u8, 97u8, 109u8, 101u8, 116u8, 101u8, 114u8]);
        },
        CmsError::SimNotInserted => {
            reveal_strlit("SIM not inserted");
            assert(forall|i: int| 0 <= i < cms_error_message(e).len() ==> (cms_error_message(e)[i] as u32) < 128);
            lemma_encode_ascii(cms_error_message(e));
            assert(ascii_bytes(cms_error_message(e)) =~= seq![83u8, 73u8, 77u8, 32u8, 110u8, 111u8, 116u8, 32u8, 105u8, 110u8, 115u8, 101u8, 114u8, 116u8, 101u8, 100u8]);
        },
        CmsError::SimPin => {
            reveal_strlit("SIM PIN required");
            assert(forall|i: int| 0 <= i < cms_error_message(e).len() ==> (cms_error_message(e)[i] as u32) < 128);
            lemma_encode_ascii(cms_error_message(e));
            assert(ascii_bytes(cms_error_message(e)) =~= seq![83u8, 73u8, 77u8, 32u8, 80u8, 73u8, 78u8, 32u8, 114u8, 101u8, 113u8, 117u8, 105u8, 114u8, 101u8, 100u8]);
        },
        CmsError::SimFailure => {
            reveal_strlit("SIM failure");
            assert(forall|i: int| 0 <= i < cms_error_message(e).len() ==> (cms_error_message(e)[i] as u32) < 128);
            lemma_encode_ascii(cms_error_message(e));
            assert(ascii_bytes(cms_error_message(e)) =~= seq![83u8, 73u8, 77u8, 32u8, 102u8, 97u8, 105u8, 108u8, 117u8, 114u8, 101u8]);
        },
        CmsError::SimBusy => {
            reveal_strlit("SIM busy");
            assert(forall|i: int| 0 <= i < cms_error_message(e).len() ==> (cms_error_message(e)[i] as u32) < 128);
            lemma_encode_ascii(cms_error_message(e));
            assert(ascii_bytes(cms_error_message(e)) =~= seq![83u8, 73u8, 77u8, 32u8, 98u8, 117u8, 115u8, 121u8]);
        },
        CmsError::SimWrong => {
            reveal_strlit("SIM wrong");
            assert(forall|i: int| 0 <= i < cms_error_message(e).len() ==> (cms_error_message(e)[i] as u32) < 128);
            lemma_encode_ascii(cms_error_message(e));
            assert(ascii_bytes(cms_error_message(e)) =~= seq![83u8, 73u8, 77u8, 32u8, 119u8, 114u8, 111u8, 110u8, 103u8]);
        },
        CmsError::SimPuk => {
            reveal_strlit("SIM PUK required");
            assert(forall|i: int| 0 <= i < cms_error_message(e).len() ==> (cms_error_message(e)[i] as u32) < 128);
            lemma_encode_ascii(cms_error_message(e));
            assert(ascii_bytes(cms_error_message(e)) =~= seq![83u8, 73u8, 77u8, 32u8, 80u8, 85u8, 75u8, 32u8, 114u8, 101u8, 113u8, 117u8, 105u8, 114u8, 101u8, 100u8]);
        },
        CmsError::MemoryFailure => {
            reveal_strlit("Memory failure");
            assert(forall|i: int| 0 <= i < cms_error_message(e).len() ==> (cms_error_message(e)[i] as u32) < 128);
            lemma_encode_ascii(cms_error_message(e));
            assert(ascii_bytes(cms_error_message(e)) =~= seq![77u8, 101u8, 109u8, 111u8, 114u8, 121u8, 32u8, 102u8, 97u8, 105u8, 108u8, 117u8, 114u8, 101u8]);
        },
        CmsError::InvalidIndex => {
            reveal_strlit("Invalid index");
            assert(forall|i: int| 0 <= i < cms_error_message(e).len() ==> (cms_error_message(e)[i] as u32) < 128);
            lemma_encode_ascii(cms_error_message(e));
            assert(ascii_bytes(cms_error_message(e)) =~= seq![73u8, 110u8, 118u8, 97u8, 108u8, 105u8, 100u8, 32u8, 105u8, 110u8, 100u8, 101u8, 120u8]);
        },
        CmsError::MemoryFull => {
            reveal_strlit("Memory full");
            assert(forall|i: int| 0 <= i < cms_error_message(e).len() ==> (cms_error_message(e)[i] as u32) < 128);
            lemma_encode_ascii(cms_error_message(e));
            assert(ascii_bytes(cms_error_message(e)) =~= seq![77u8, 101u8, 109u8, 111u8, 114u8, 121u8, 32u8, 102u8, 117u8, 108u8, 108u8]);
        },
        CmsError::SmscAddressUnknown => {
            reveal_strlit("SMSC address unknown");
            assert(forall|i: int| 0 <= i < cms_error_message(e).len() ==> (cms_error_message(e)[i] as u32) < 128);
            lemma_encode_ascii(cms_error_message(e));
            assert(ascii_bytes(cms_error_message(e)) =~= seq![83u8, 77u8, 83u8, 67u8, 32u8, 97u8, 100u8, 100u8, 114u8, 101u8, 115u8, 115u8, 32u8, 117u8, 110u8, 107u8, 110u8, 111u8, 119u8, 110u8]);
        },
        CmsError::NoNetwork => {
            reveal_strlit("No network");
            assert(forall|i: int| 0 <= i < cms_error_message(e).len() ==> (cms_error_message(e)[i] as u32) < 128);
            lemma_encode_ascii(cms_error_message(e));
            assert(ascii_bytes(cms_error_message(e)) =~= seq![78u8, 111u8, 32u8, 110u8, 101u8, 116u8, 119u8, 111u8, 114u8, 107u8]);
        },
        CmsError::NetworkTimeout => {
            reveal_strlit("Network timeout");
            assert(forall|i: int| 0 <= i < cms_error_message(e).len() ==> (cms_error_message(e)[i] as u32) < 128);
            lemma_encode_ascii(cms_error_message(e));
            assert(ascii_bytes(cms_error_message(e)) =~= seq![78u8, 101u8, 116u8, 119u8, 111u8, 114u8, 107u8, 32u8, 116u8, 105u8, 109u8, 101u8, 111u8, 117u8, 116u8]);
        },
        CmsError::Unknown => {
            reveal_strlit("Unknown");
            assert(forall|i: int| 0 <= i < cms_error_message(e).len() ==> (cms_error_message(e)[i] as u32) < 128);
            lemma_encode_ascii(cms_error_message(e));
            assert(ascii_bytes(cms_error_message(e)) =~= seq![85u8, 110u8, 107u8, 110u8, 111u8, 119u8, 110u8]);
        },
        _ => {},
    }
}

/// The numbering of the named errors with codes 300 to 500, as the
/// standard assigns them: each code decodes to its error, and each error
/// encodes as its code.
pub proof fn lemma_cms_error_numbering_1()
    ensures
        cms_error_from_code(300) == CmsError::MeFailure,
        cms_error_code(CmsError::MeFailure) == 300u16,
        cms_error_from_code(301) == CmsError::SmsServiceReserved,
        cms_error_code(CmsError::SmsServiceReserved) == 301u16,
        cms_error_from_code(302) == CmsError::NotAllowed,
        cms_error_code(CmsError::NotAllowed) == 302u16,
        cms_error_from_code(303) == CmsError::NotSupported,
        cms_error_code(CmsError::NotSupported) == 303u16,
        cms_error_from_code(304) == CmsError::InvalidPduParameter,
        cms_error_code(CmsError::InvalidPduParameter) == 304u16,
        cms_error_from_code(305) == CmsError::InvalidTextParameter,
        cms_error_code(CmsError::InvalidTextParameter) == 305u16,
        cms_error_from_code(310) == CmsError::SimNotInserted,
        cms_error_code(CmsError::SimNotInserted) == 310u16,
        cms_error_from_code(311) == CmsError::SimPin,
        cms_error_code(CmsError::SimPin) == 311u16,
        cms_error_from_code(312) == CmsError::PhSimPin,
        cms_error_code(CmsError::PhSimPin) == 312u16,
        cms_error_from_code(313) == CmsError::SimFailure,
        cms_error_code(CmsError::SimFailure) == 313u16,
        cms_error_from_code(314) == CmsError::SimBusy,
        cms_error_code(CmsError::SimBusy) == 314u16,
        cms_error_from_code(315) == CmsError::SimWrong,
        cms_error_code(CmsError::SimWrong) == 315u16,
        cms_error_from_code(316) == CmsError::SimPuk,
        cms_error_code(CmsError::SimPuk) == 316u16,
        cms_error_from_code(317) == CmsError::SimPin2,
        cms_error_code(CmsError::SimPin2) == 317u16,
        cms_error_from_code(318) == CmsError::SimPuk2,
        cms_error_code(CmsError::SimPuk2) == 318u16,
        cms_error_from_code(320) == CmsError::MemoryFailure,
        cms_error_code(CmsError::MemoryFailure) == 320u16,
        cms_error_from_code(321) == CmsError::InvalidIndex,
        cms_error_code(CmsError::InvalidIndex) == 321u16,
        cms_error_from_code(322) == CmsError::MemoryFull,
        cms_error_code(CmsError::MemoryFull) == 322u16,
        cms_error_from_code(330) == CmsError::SmscAddressUnknown,
        cms_error_code(CmsError::SmscAddressUnknown) == 330u16,
        cms_error_from_code(331) == CmsError::NoNetwork,
        cms_error_code(CmsError::NoNetwork) == 331u16,
        cms_error_from_code(332) == CmsError::NetworkTimeout,
        cms_error_code(CmsError::NetworkTimeout) == 332u16,
        cms_error_from_code(340) == CmsError::NoCnmaAckExpected,
        cms_error_code(CmsError::NoCnmaAckExpected) == 340u16,
        cms_error_from_code(500) == CmsError::Unknown,
        cms_error_code(CmsError::Unknown) == 500u16,
{
}

/// Codes up to 127 are relay protocol causes and codes 128 to 255 transfer
/// protocol failure causes, each keeping its number; codes from 512 on are
/// manufacturer specific; a code from 256 to 511 that the standard does not
/// name is reserved, and keeps its number.
pub proof fn lemma_cms_error_numbering_ranges(v: u16)
    ensures
        v <= 127 ==> cms_error_from_code(v) == CmsError::RelayProtocolCause(v),
        128 <= v <= 255 ==> cms_error_from_code(v) == CmsError::TransferProtocolFailureCause(v),
        v >= 512 ==> cms_error_from_code(v) == CmsError::ManufacturerSpecific(v),
        cms_error_from_code(v) matches CmsError::Reserved(x) ==> x == v && 256 <= v <= 511,
{
}

} // verus!
