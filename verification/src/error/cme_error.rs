use crate::bytes::eq_at;
use vstd::utf8::encode_utf8;
use super::{numbered_string, numbered_text};
use vstd::prelude::*;

verus! {

/// Enumeration of Mobile Equipment errors, as defined in 3GPP TS 27.007
/// v17.1.0, section 9.2 (Mobile termination error result code +CME ERROR).
#[derive(Debug, Clone, Copy, PartialEq, Eq, Structural)]
pub enum CmeError {
    /// nick=PhoneFailure
    PhoneFailure,
    /// nick=NoConnection
    NoConnection,
    /// nick=LinkReserved
    LinkReserved,
    /// nick=NotAllowed
    NotAllowed,
    /// nick=NotSupported
    NotSupported,
    /// nick=PhSimPin
    PhSimPin,
    /// nick=PhFsimPin
    PhFsimPin,
    /// nick=PhFsimPuk
    PhFsimPuk,
    /// nick=SimNotInserted
    SimNotInserted,
    /// nick=SimPin
    SimPin,
    /// nick=SimPuk
    SimPuk,
    /// nick=SimFailure
    SimFailure,
    /// nick=SimBusy
    SimBusy,
    /// nick=SimWrong
    SimWrong,
    /// nick=IncorrectPassword
    IncorrectPassword,
    /// nick=SimPin2
    SimPin2,
    /// nick=SimPuk2
    SimPuk2,
    /// nick=MemoryFull
    MemoryFull,
    /// nick=InvalidIndex
    InvalidIndex,
    /// nick=NotFound
    NotFound,
    /// nick=MemoryFailure
    MemoryFailure,
    /// nick=TextTooLong
    TextTooLong,
    /// nick=InvalidChars
    InvalidChars,
    /// nick=DialStringTooLong
    DialStringTooLong,
    /// nick=DialStringInvalid
    DialStringInvalid,
    /// nick=NoNetwork
    NoNetwork,
    /// nick=NetworkTimeout
    NetworkTimeout,
    /// nick=NetworkNotAllowed
    NetworkNotAllowed,
    /// nick=NetworkPin
    NetworkPin,
    /// nick=NetworkPuk
    NetworkPuk,
    /// nick=NetworkSubsetPin
    NetworkSubsetPin,
    /// nick=NetworkSubsetPuk
    NetworkSubsetPuk,
    /// nick=ServicePin
    ServicePin,
    /// nick=ServicePuk
    ServicePuk,
    /// nick=CorpPin
    CorpPin,
    /// nick=CorpPuk
    CorpPuk,
    /// nick=HiddenKeyRequired
    HiddenKeyRequired,
    /// nick=EapMethodNotSupported
    EapMethodNotSupported,
    /// nick=IncorrectParameters
    IncorrectParameters,
    /// nick=CommandDisabled
    CommandDisabled,
    /// nick=CommandAborted
    CommandAborted,
    /// nick=NotAttachedRestricted
    NotAttachedRestricted,
    /// nick=NotAllowedEmergencyOnly
    NotAllowedEmergencyOnly,
    /// nick=NotAllowedRestricted
    NotAllowedRestricted,
    /// nick=FixedDialNumberOnly
    FixedDialNumberOnly,
    /// nick=TemporarilyOutOfService
    TemporarilyOutOfService,
    /// nick=LanguageOrAlphabetNotSupported
    LanguageOrAlphabetNotSupported,
    /// nick=UnexpectedDataValue
    UnexpectedDataValue,
    /// nick=SystemFailure
    SystemFailure,
    /// nick=DataMissing
    DataMissing,
    /// nick=CallBarred
    CallBarred,
    /// nick=MessageWaitingIndicationSubscriptionFailure
    MessageWaitingIndicationSubscriptionFailure,
    /// nick=Unknown
    Unknown,
    /// nick=ImsiUnknownInHss
    ImsiUnknownInHss,
    /// nick=IllegalUe
    IllegalUe,
    /// nick=ImsiUnknownInVlr
    ImsiUnknownInVlr,
    /// nick=ImeiNotAccepted
    ImeiNotAccepted,
    /// nick=IllegalMe
    IllegalMe,
    /// nick=PsServicesNotAllowed
    PsServicesNotAllowed,
    /// nick=PsAndNonPsServicesNotAllowed
    PsAndNonPsServicesNotAllowed,
    /// nick=UeIdentityNotDerivedFromNetwork
    UeIdentityNotDerivedFromNetwork,
    /// nick=ImplicitlyDetached
    ImplicitlyDetached,
    /// nick=PlmnNotAllowed
    PlmnNotAllowed,
    /// nick=AreaNotAllowed
    AreaNotAllowed,
    /// nick=RoamingNotAllowedInArea
    RoamingNotAllowedInArea,
    /// nick=PsServicesNotAllowedInPlmn
    PsServicesNotAllowedInPlmn,
    /// nick=NoCellsInArea
    NoCellsInArea,
    /// nick=MscTemporarilyNotReachable
    MscTemporarilyNotReachable,
    /// nick=NetworkFailureAttach
    NetworkFailureAttach,
    /// nick=CsDomainUnavailable
    CsDomainUnavailable,
    /// nick=EsmFailure
    EsmFailure,
    /// nick=Congestion
    Congestion,
    /// nick=MbmsBearerCapabilitiesInsufficientForService
    MbmsBearerCapabilitiesInsufficientForService,
    /// nick=NotAuthorizedForCsg
    NotAuthorizedForCsg,
    /// nick=InsufficientResources
    InsufficientResources,
    /// nick=MissingOrUnknownApn
    MissingOrUnknownApn,
    /// nick=UnknownPdpAddressOrType
    UnknownPdpAddressOrType,
    /// nick=UserAuthenticationFailed
    UserAuthenticationFailed,
    /// nick=ActivationRejectedByGgsnOrGw
    ActivationRejectedByGgsnOrGw,
    /// nick=ActivationRejectedUnspecified
    ActivationRejectedUnspecified,
    /// nick=ServiceOptionNotSupported
    ServiceOptionNotSupported,
    /// nick=ServiceOptionNotSubscribed
    ServiceOptionNotSubscribed,
    /// nick=ServiceOptionOutOfOrder
    ServiceOptionOutOfOrder,
    /// nick=NsapiOrPtiAlreadyInUse
    NsapiOrPtiAlreadyInUse,
    /// nick=RegularDeactivation
    RegularDeactivation,
    /// nick=QosNotAccepted
    QosNotAccepted,
    /// nick=CallCannotBeIdentified
    CallCannotBeIdentified,
    /// nick=CsServiceTemporarilyUnavailable
    CsServiceTemporarilyUnavailable,
    /// nick=FeatureNotSupported
    FeatureNotSupported,
    /// nick=SemanticErrorInTftOperation
    SemanticErrorInTftOperation,
    /// nick=SyntacticalErrorInTftOperation
    SyntacticalErrorInTftOperation,
    /// nick=UnknownPdpContext
    UnknownPdpContext,
    /// nick=SemanticErrorsInPacketFilter
    SemanticErrorsInPacketFilter,
    /// nick=SyntacticalErrorsInPacketFilter
    SyntacticalErrorInPacketFilter,
    /// nick=PdpContextWithoutTftAlreadyActivated
    PdpContextWithoutTftAlreadyActivated,
    /// nick=MulticastGroupMembershipTimeout
    MulticastGroupMembershipTimeout,
    /// nick=GprsUnknown
    GprsUnknown,
    /// nick=PdpAuthFailure
    PdpAuthFailure,
    /// nick=InvalidMobileClass
    InvalidMobileClass,
    /// nick=LastPdnDisconnectionNotAllowedLegacy
    LastPdnDisconnectionNotAllowedLegacy,
    /// nick=LastPdnDisconnectionNotAllowed
    LastPdnDisconnectionNotAllowed,
    /// nick=SemanticallyIncorrectMessage
    SemanticallyIncorrectMessage,
    /// nick=InvalidMandatoryInformation
    InvalidMandatoryInformation,
    /// nick=MessageTypeNotImplemented
    MessageTypeNotImplemented,
    /// nick=ConditionalIeError
    ConditionalIeError,
    /// nick=UnspecifiedProtocolError
    UnspecifiedProtocolError,
    /// nick=OperatorDeterminedBarring
    OperatorDeterminedBarring,
    /// nick=MaximumNumberOfBearersReached
    MaximumNumberOfBearersReached,
    /// nick=RequestedApnNotSupported
    RequestedApnNotSupported,
    /// nick=RequestRejectedBcmViolation
    RequestRejectedBcmViolation,
    /// nick=UnsupportedQciOr5qiValue
    UnsupportedQciOr5QiValue,
    /// nick=UserDataViaControlPlaneCongested
    UserDataViaControlPlaneCongested,
    /// nick=SmsProvidedViaGprsInRoutingArea
    SmsProvidedViaGprsInRoutingArea,
    /// nick=InvalidPtiValue
    InvalidPtiValue,
    /// nick=NoBearerActivated
    NoBearerActivated,
    /// nick=MessageNotCompatibleWithProtocolState
    MessageNotCompatibleWithProtocolState,
    /// nick=RecoveryOnTimerExpiry
    RecoveryOnTimerExpiry,
    /// nick=InvalidTransactionIdValue
    InvalidTransactionIdValue,
    /// nick=ServiceOptionNotAuthorizedInPlmn
    ServiceOptionNotAuthorizedInPlmn,
    /// nick=NetworkFailureActivation
    NetworkFailureActivation,
    /// nick=ReactivationRequested
    ReactivationRequested,
    /// nick=Ipv4OnlyAllowed
    Ipv4OnlyAllowed,
    /// nick=Ipv6OnlyAllowed
    Ipv6OnlyAllowed,
    /// nick=SingleAddressBearersOnlyAllowed
    SingleAddressBearersOnlyAllowed,
    /// nick=CollisionWithNetworkInitiatedRequest
    CollisionWithNetworkInitiatedRequest,
    /// nick=Ipv4v6OnlyAllowed
    Ipv4V6OnlyAllowed,
    /// nick=NonIpOnlyAllowed
    NonIpOnlyAllowed,
    /// nick=BearerHandlingUnsupported
    BearerHandlingUnsupported,
    /// nick=ApnRestrictionIncompatible
    ApnRestrictionIncompatible,
    /// nick=MultipleAccessToPdnConnectionNotAllowed
    MultipleAccessToPdnConnectionNotAllowed,
    /// nick=EsmInformationNotReceived
    EsmInformationNotReceived,
    /// nick=PdnConnectionNonexistent
    PdnConnectionNonexistent,
    /// nick=MultiplePdnConnectionSameApnNotAllowed
    MultiplePdnConnectionSameApnNotAllowed,
    /// nick=SevereNetworkFailure
    SevereNetworkFailure,
    /// nick=InsufficientResourcesForSliceAndDnn
    InsufficientResourcesForSliceAndDnn,
    /// nick=UnsupportedSscMode
    UnsupportedSscMode,
    /// nick=InsufficientResourcesForSlice
    InsufficientResourcesForSlice,
    /// nick=MessageTypeNotCompatibleWithProtocolState
    MessageTypeNotCompatibleWithProtocolState,
    /// nick=IeNotImplemented
    IeNotImplemented,
    /// nick=N1ModeNotAllowed
    N1ModeNotAllowed,
    /// nick=RestrictedServiceArea
    RestrictedServiceArea,
    /// nick=LadnUnavailable
    LadnUnavailable,
    /// nick=MissingOrUnknownDnnInSlice
    MissingOrUnknownDnnInSlice,
    /// nick=NkgsiAlreadyInUse
    NgksiAlreadyInUse,
    /// nick=PayloadNotForwarded
    PayloadNotForwarded,
    /// nick=Non3gppAccessTo5gcnNotAllowed
    Non3GppAccessTo5GcnNotAllowed,
    /// nick=ServingNetworkNotAuthorized
    ServingNetworkNotAuthorized,
    /// nick=DnnNotSupportedInSlice
    DnnNotSupportedInSlice,
    /// nick=InsufficientUserPlaneResourcesForPduSession
    InsufficientUserPlaneResourcesForPduSessio,
    /// nick=OutOfLadnServiceArea
    OutOfLadnServiceArea,
    /// nick=PtiMismatch
    PtiMismatch,
    /// nick=MaxDataRateForUserPlaneIntegrityTooLow
    MaxDataRateForUserPlaneIntegrityTooLow,
    /// nick=SemanticErrorInQosOperation
    SemanticErrorInQosOperation,
    /// nick=SyntacticalErrorInQosOperation
    SyntacticalErrorInQosOperation,
    /// nick=InvalidMappedEpsBearerIdentity
    InvalidMappedEpsBearerIdentity,
    /// nick=RedirectionTo5gcnRequired
    RedirectionTo5GcnRequired,
    /// nick=RedirectionToEpcRequired
    RedirectionToEpcRequired,
    /// nick=TemporarilyUnauthorizedForSnpn
    TemporarilyUnauthorizedForSnpn,
    /// nick=PermanentlyUnauthorizedForSnpn
    PermanentlyUnauthorizedForSnpn,
    /// nick=EthernetOnlyAllowed
    EthernetOnlyAllowed,
    /// nick=UnauthorizedForCag
    UnauthorizedForCag,
    /// nick=NoNetworkSlicesAvailable
    NoNetworkSlicesAvailable,
    /// nick=WirelineAccessAreaNotAllowed
    WirelineAccessAreaNotAllowed,
    /// All values below 256 are reserved.
    Reserved(u16),
    /// All values above and including 256 are manufactuer specific.
    ManufacturerSpecific(u16),
}

/// The numeric code of each error.
pub open spec fn cme_error_code(e: CmeError) -> u16 {
    match e {
        CmeError::PhoneFailure => 0,
        CmeError::NoConnection => 1,
        CmeError::LinkReserved => 2,
        CmeError::NotAllowed => 3,
        CmeError::NotSupported => 4,
        CmeError::PhSimPin => 5,
        CmeError::PhFsimPin => 6,
        CmeError::PhFsimPuk => 7,
        CmeError::SimNotInserted => 10,
        CmeError::SimPin => 11,
        CmeError::SimPuk => 12,
        CmeError::SimFailure => 13,
        CmeError::SimBusy => 14,
        CmeError::SimWrong => 15,
        CmeError::IncorrectPassword => 16,
        CmeError::SimPin2 => 17,
        CmeError::SimPuk2 => 18,
        CmeError::MemoryFull => 20,
        CmeError::InvalidIndex => 21,
        CmeError::NotFound => 22,
        CmeError::MemoryFailure => 23,
        CmeError::TextTooLong => 24,
        CmeError::InvalidChars => 25,
        CmeError::DialStringTooLong => 26,
        CmeError::DialStringInvalid => 27,
        CmeError::NoNetwork => 30,
        CmeError::NetworkTimeout => 31,
        CmeError::NetworkNotAllowed => 32,
        CmeError::NetworkPin => 40,
        CmeError::NetworkPuk => 41,
        CmeError::NetworkSubsetPin => 42,
        CmeError::NetworkSubsetPuk => 43,
        CmeError::ServicePin => 44,
        CmeError::ServicePuk => 45,
        CmeError::CorpPin => 46,
        CmeError::CorpPuk => 47,
        CmeError::HiddenKeyRequired => 48,
        CmeError::EapMethodNotSupported => 49,
        CmeError::IncorrectParameters => 50,
        CmeError::CommandDisabled => 51,
        CmeError::CommandAborted => 52,
        CmeError::NotAttachedRestricted => 53,
        CmeError::NotAllowedEmergencyOnly => 54,
        CmeError::NotAllowedRestricted => 55,
        CmeError::FixedDialNumberOnly => 56,
        CmeError::TemporarilyOutOfService => 57,
        CmeError::LanguageOrAlphabetNotSupported => 58,
        CmeError::UnexpectedDataValue => 59,
        CmeError::SystemFailure => 60,
        CmeError::DataMissing => 61,
        CmeError::CallBarred => 62,
        CmeError::MessageWaitingIndicationSubscriptionFailure => 63,
        CmeError::Unknown => 100,
        CmeError::ImsiUnknownInHss => 102,
        CmeError::IllegalUe => 103,
        CmeError::ImsiUnknownInVlr => 104,
        CmeError::ImeiNotAccepted => 105,
        CmeError::IllegalMe => 106,
        CmeError::PsServicesNotAllowed => 107,
        CmeError::PsAndNonPsServicesNotAllowed => 108,
        CmeError::UeIdentityNotDerivedFromNetwork => 109,
        CmeError::ImplicitlyDetached => 110,
        CmeError::PlmnNotAllowed => 111,
        CmeError::AreaNotAllowed => 112,
        CmeError::RoamingNotAllowedInArea => 113,
        CmeError::PsServicesNotAllowedInPlmn => 114,
        CmeError::NoCellsInArea => 115,
        CmeError::MscTemporarilyNotReachable => 116,
        CmeError::NetworkFailureAttach => 117,
        CmeError::CsDomainUnavailable => 118,
        CmeError::EsmFailure => 119,
        CmeError::Congestion => 122,
        CmeError::MbmsBearerCapabilitiesInsufficientForService => 124,
        CmeError::NotAuthorizedForCsg => 125,
        CmeError::InsufficientResources => 126,
        CmeError::MissingOrUnknownApn => 127,
        CmeError::UnknownPdpAddressOrType => 128,
        CmeError::UserAuthenticationFailed => 129,
        CmeError::ActivationRejectedByGgsnOrGw => 130,
        CmeError::ActivationRejectedUnspecified => 131,
        CmeError::ServiceOptionNotSupported => 132,
        CmeError::ServiceOptionNotSubscribed => 133,
        CmeError::ServiceOptionOutOfOrder => 134,
        CmeError::NsapiOrPtiAlreadyInUse => 135,
        CmeError::RegularDeactivation => 136,
        CmeError::QosNotAccepted => 137,
        CmeError::CallCannotBeIdentified => 138,
        CmeError::CsServiceTemporarilyUnavailable => 139,
        CmeError::FeatureNotSupported => 140,
        CmeError::SemanticErrorInTftOperation => 141,
        CmeError::SyntacticalErrorInTftOperation => 142,
        CmeError::UnknownPdpContext => 143,
        CmeError::SemanticErrorsInPacketFilter => 144,
        CmeError::SyntacticalErrorInPacketFilter => 145,
        CmeError::PdpContextWithoutTftAlreadyActivated => 146,
        CmeError::MulticastGroupMembershipTimeout => 147,
        CmeError::GprsUnknown => 148,
        CmeError::PdpAuthFailure => 149,
        CmeError::InvalidMobileClass => 150,
        CmeError::LastPdnDisconnectionNotAllowedLegacy => 151,
        CmeError::LastPdnDisconnectionNotAllowed => 171,
        CmeError::SemanticallyIncorrectMessage => 172,
        CmeError::InvalidMandatoryInformation => 173,
        CmeError::MessageTypeNotImplemented => 174,
        CmeError::ConditionalIeError => 175,
        CmeError::UnspecifiedProtocolError => 176,
        CmeError::OperatorDeterminedBarring => 177,
        CmeError::MaximumNumberOfBearersReached => 178,
        CmeError::RequestedApnNotSupported => 179,
        CmeError::RequestRejectedBcmViolation => 180,
        CmeError::UnsupportedQciOr5QiValue => 181,
        CmeError::UserDataViaControlPlaneCongested => 182,
        CmeError::SmsProvidedViaGprsInRoutingArea => 183,
        CmeError::InvalidPtiValue => 184,
        CmeError::NoBearerActivated => 185,
        CmeError::MessageNotCompatibleWithProtocolState => 186,
        CmeError::RecoveryOnTimerExpiry => 187,
        CmeError::InvalidTransactionIdValue => 188,
        CmeError::ServiceOptionNotAuthorizedInPlmn => 189,
        CmeError::NetworkFailureActivation => 190,
        CmeError::ReactivationRequested => 191,
        CmeError::Ipv4OnlyAllowed => 192,
        CmeError::Ipv6OnlyAllowed => 193,
        CmeError::SingleAddressBearersOnlyAllowed => 194,
        CmeError::CollisionWithNetworkInitiatedRequest => 195,
        CmeError::Ipv4V6OnlyAllowed => 196,
        CmeError::NonIpOnlyAllowed => 197,
        CmeError::BearerHandlingUnsupported => 198,
        CmeError::ApnRestrictionIncompatible => 199,
        CmeError::MultipleAccessToPdnConnectionNotAllowed => 200,
        CmeError::EsmInformationNotReceived => 201,
        CmeError::PdnConnectionNonexistent => 202,
        CmeError::MultiplePdnConnectionSameApnNotAllowed => 203,
        CmeError::SevereNetworkFailure => 204,
        CmeError::InsufficientResourcesForSliceAndDnn => 205,
        CmeError::UnsupportedSscMode => 206,
        CmeError::InsufficientResourcesForSlice => 207,
        CmeError::MessageTypeNotCompatibleWithProtocolState => 208,
        CmeError::IeNotImplemented => 209,
        CmeError::N1ModeNotAllowed => 210,
        CmeError::RestrictedServiceArea => 211,
        CmeError::LadnUnavailable => 212,
        CmeError::MissingOrUnknownDnnInSlice => 213,
        CmeError::NgksiAlreadyInUse => 214,
        CmeError::PayloadNotForwarded => 215,
        CmeError::Non3GppAccessTo5GcnNotAllowed => 216,
        CmeError::ServingNetworkNotAuthorized => 217,
        CmeError::DnnNotSupportedInSlice => 218,
        CmeError::InsufficientUserPlaneResourcesForPduSessio => 219,
        CmeError::OutOfLadnServiceArea => 220,
        CmeError::PtiMismatch => 221,
        CmeError::MaxDataRateForUserPlaneIntegrityTooLow => 222,
        CmeError::SemanticErrorInQosOperation => 223,
        CmeError::SyntacticalErrorInQosOperation => 224,
        CmeError::InvalidMappedEpsBearerIdentity => 225,
        CmeError::RedirectionTo5GcnRequired => 226,
        CmeError::RedirectionToEpcRequired => 227,
        CmeError::TemporarilyUnauthorizedForSnpn => 228,
        CmeError::PermanentlyUnauthorizedForSnpn => 229,
        CmeError::EthernetOnlyAllowed => 230,
        CmeError::UnauthorizedForCag => 231,
        CmeError::NoNetworkSlicesAvailable => 232,
        CmeError::WirelineAccessAreaNotAllowed => 233,
        CmeError::Reserved(error) | CmeError::ManufacturerSpecific(error) => error,
    }
}

/// The error that a numeric code stands for.
pub open spec fn cme_error_from_code(v: u16) -> CmeError {
    match v {
        0 => CmeError::PhoneFailure,
        1 => CmeError::NoConnection,
        2 => CmeError::LinkReserved,
        3 => CmeError::NotAllowed,
        4 => CmeError::NotSupported,
        5 => CmeError::PhSimPin,
        6 => CmeError::PhFsimPin,
        7 => CmeError::PhFsimPuk,
        10 => CmeError::SimNotInserted,
        11 => CmeError::SimPin,
        12 => CmeError::SimPuk,
        13 => CmeError::SimFailure,
        14 => CmeError::SimBusy,
        15 => CmeError::SimWrong,
        16 => CmeError::IncorrectPassword,
        17 => CmeError::SimPin2,
        18 => CmeError::SimPuk2,
        20 => CmeError::MemoryFull,
        21 => CmeError::InvalidIndex,
        22 => CmeError::NotFound,
        23 => CmeError::MemoryFailure,
        24 => CmeError::TextTooLong,
        25 => CmeError::InvalidChars,
        26 => CmeError::DialStringTooLong,
        27 => CmeError::DialStringInvalid,
        30 => CmeError::NoNetwork,
        31 => CmeError::NetworkTimeout,
        32 => CmeError::NetworkNotAllowed,
        40 => CmeError::NetworkPin,
        41 => CmeError::NetworkPuk,
        42 => CmeError::NetworkSubsetPin,
        43 => CmeError::NetworkSubsetPuk,
        44 => CmeError::ServicePin,
        45 => CmeError::ServicePuk,
        46 => CmeError::CorpPin,
        47 => CmeError::CorpPuk,
        48 => CmeError::HiddenKeyRequired,
        49 => CmeError::EapMethodNotSupported,
        50 => CmeError::IncorrectParameters,
        51 => CmeError::CommandDisabled,
        52 => CmeError::CommandAborted,
        53 => CmeError::NotAttachedRestricted,
        54 => CmeError::NotAllowedEmergencyOnly,
        55 => CmeError::NotAllowedRestricted,
        56 => CmeError::FixedDialNumberOnly,
        57 => CmeError::TemporarilyOutOfService,
        58 => CmeError::LanguageOrAlphabetNotSupported,
        59 => CmeError::UnexpectedDataValue,
        60 => CmeError::SystemFailure,
        61 => CmeError::DataMissing,
        62 => CmeError::CallBarred,
        63 => CmeError::MessageWaitingIndicationSubscriptionFailure,
        100 => CmeError::Unknown,
        102 => CmeError::ImsiUnknownInHss,
        103 => CmeError::IllegalUe,
        104 => CmeError::ImsiUnknownInVlr,
        105 => CmeError::ImeiNotAccepted,
        106 => CmeError::IllegalMe,
        107 => CmeError::PsServicesNotAllowed,
        108 => CmeError::PsAndNonPsServicesNotAllowed,
        109 => CmeError::UeIdentityNotDerivedFromNetwork,
        110 => CmeError::ImplicitlyDetached,
        111 => CmeError::PlmnNotAllowed,
        112 => CmeError::AreaNotAllowed,
        113 => CmeError::RoamingNotAllowedInArea,
        114 => CmeError::PsServicesNotAllowedInPlmn,
        115 => CmeError::NoCellsInArea,
        116 => CmeError::MscTemporarilyNotReachable,
        117 => CmeError::NetworkFailureAttach,
        118 => CmeError::CsDomainUnavailable,
        119 => CmeError::EsmFailure,
        122 => CmeError::Congestion,
        124 => CmeError::MbmsBearerCapabilitiesInsufficientForService,
        125 => CmeError::NotAuthorizedForCsg,
        126 => CmeError::InsufficientResources,
        127 => CmeError::MissingOrUnknownApn,
        128 => CmeError::UnknownPdpAddressOrType,
        129 => CmeError::UserAuthenticationFailed,
        130 => CmeError::ActivationRejectedByGgsnOrGw,
        131 => CmeError::ActivationRejectedUnspecified,
        132 => CmeError::ServiceOptionNotSupported,
        133 => CmeError::ServiceOptionNotSubscribed,
        134 => CmeError::ServiceOptionOutOfOrder,
        135 => CmeError::NsapiOrPtiAlreadyInUse,
        136 => CmeError::RegularDeactivation,
        137 => CmeError::QosNotAccepted,
        138 => CmeError::CallCannotBeIdentified,
        139 => CmeError::CsServiceTemporarilyUnavailable,
        140 => CmeError::FeatureNotSupported,
        141 => CmeError::SemanticErrorInTftOperation,
        142 => CmeError::SyntacticalErrorInTftOperation,
        143 => CmeError::UnknownPdpContext,
        144 => CmeError::SemanticErrorsInPacketFilter,
        145 => CmeError::SyntacticalErrorInPacketFilter,
        146 => CmeError::PdpContextWithoutTftAlreadyActivated,
        147 => CmeError::MulticastGroupMembershipTimeout,
        148 => CmeError::GprsUnknown,
        149 => CmeError::PdpAuthFailure,
        150 => CmeError::InvalidMobileClass,
        151 => CmeError::LastPdnDisconnectionNotAllowedLegacy,
        171 => CmeError::LastPdnDisconnectionNotAllowed,
        172 => CmeError::SemanticallyIncorrectMessage,
        173 => CmeError::InvalidMandatoryInformation,
        174 => CmeError::MessageTypeNotImplemented,
        175 => CmeError::ConditionalIeError,
        176 => CmeError::UnspecifiedProtocolError,
        177 => CmeError::OperatorDeterminedBarring,
        178 => CmeError::MaximumNumberOfBearersReached,
        179 => CmeError::RequestedApnNotSupported,
        180 => CmeError::RequestRejectedBcmViolation,
        181 => CmeError::UnsupportedQciOr5QiValue,
        182 => CmeError::UserDataViaControlPlaneCongested,
        183 => CmeError::SmsProvidedViaGprsInRoutingArea,
        184 => CmeError::InvalidPtiValue,
        185 => CmeError::NoBearerActivated,
        186 => CmeError::MessageNotCompatibleWithProtocolState,
        187 => CmeError::RecoveryOnTimerExpiry,
        188 => CmeError::InvalidTransactionIdValue,
        189 => CmeError::ServiceOptionNotAuthorizedInPlmn,
        190 => CmeError::NetworkFailureActivation,
        191 => CmeError::ReactivationRequested,
        192 => CmeError::Ipv4OnlyAllowed,
        193 => CmeError::Ipv6OnlyAllowed,
        194 => CmeError::SingleAddressBearersOnlyAllowed,
        195 => CmeError::CollisionWithNetworkInitiatedRequest,
        196 => CmeError::Ipv4V6OnlyAllowed,
        197 => CmeError::NonIpOnlyAllowed,
        198 => CmeError::BearerHandlingUnsupported,
        199 => CmeError::ApnRestrictionIncompatible,
        200 => CmeError::MultipleAccessToPdnConnectionNotAllowed,
        201 => CmeError::EsmInformationNotReceived,
        202 => CmeError::PdnConnectionNonexistent,
        203 => CmeError::MultiplePdnConnectionSameApnNotAllowed,
        204 => CmeError::SevereNetworkFailure,
        205 => CmeError::InsufficientResourcesForSliceAndDnn,
        206 => CmeError::UnsupportedSscMode,
        207 => CmeError::InsufficientResourcesForSlice,
        208 => CmeError::MessageTypeNotCompatibleWithProtocolState,
        209 => CmeError::IeNotImplemented,
        210 => CmeError::N1ModeNotAllowed,
        211 => CmeError::RestrictedServiceArea,
        212 => CmeError::LadnUnavailable,
        213 => CmeError::MissingOrUnknownDnnInSlice,
        214 => CmeError::NgksiAlreadyInUse,
        215 => CmeError::PayloadNotForwarded,
        216 => CmeError::Non3GppAccessTo5GcnNotAllowed,
        217 => CmeError::ServingNetworkNotAuthorized,
        218 => CmeError::DnnNotSupportedInSlice,
        219 => CmeError::InsufficientUserPlaneResourcesForPduSessio,
        220 => CmeError::OutOfLadnServiceArea,
        221 => CmeError::PtiMismatch,
        222 => CmeError::MaxDataRateForUserPlaneIntegrityTooLow,
        223 => CmeError::SemanticErrorInQosOperation,
        224 => CmeError::SyntacticalErrorInQosOperation,
        225 => CmeError::InvalidMappedEpsBearerIdentity,
        226 => CmeError::RedirectionTo5GcnRequired,
        227 => CmeError::RedirectionToEpcRequired,
        228 => CmeError::TemporarilyUnauthorizedForSnpn,
        229 => CmeError::PermanentlyUnauthorizedForSnpn,
        230 => CmeError::EthernetOnlyAllowed,
        231 => CmeError::UnauthorizedForCag,
        232 => CmeError::NoNetworkSlicesAvailable,
        233 => CmeError::WirelineAccessAreaNotAllowed,
        _ => if v < 256 {
            CmeError::Reserved(v)
        } else {
            CmeError::ManufacturerSpecific(v)
        },
    }
}

/// The error that a verbose error message stands for.
pub open spec fn cme_error_from_msg(s: Seq<u8>) -> CmeError {
    if s == seq![80u8, 104u8, 111u8, 110u8, 101u8, 32u8, 102u8, 97u8, 105u8, 108u8, 117u8, 114u8, 101u8] {
        // "Phone failure"
        CmeError::PhoneFailure
    } else if s == seq![78u8, 111u8, 32u8, 99u8, 111u8, 110u8, 110u8, 101u8, 99u8, 116u8, 105u8, 111u8, 110u8, 32u8, 116u8, 111u8, 32u8, 112u8, 104u8, 111u8, 110u8, 101u8] {
        // "No connection to phone"
        CmeError::NoConnection
    } else if s == seq![80u8, 104u8, 111u8, 110u8, 101u8, 45u8, 97u8, 100u8, 97u8, 112u8, 116u8, 111u8, 114u8, 32u8, 108u8, 105u8, 110u8, 107u8, 32u8, 114u8, 101u8, 115u8, 101u8, 114u8, 118u8, 101u8, 100u8] {
        // "Phone-adaptor link reserved"
        CmeError::LinkReserved
    } else if s == seq![79u8, 112u8, 101u8, 114u8, 97u8, 116u8, 105u8, 111u8, 110u8, 32u8, 110u8, 111u8, 116u8, 32u8, 97u8, 108u8, 108u8, 111u8, 119u8, 101u8, 100u8] {
        // "Operation not allowed"
        CmeError::NotAllowed
    } else if s == seq![79u8, 112u8, 101u8, 114u8, 97u8, 116u8, 105u8, 111u8, 110u8, 32u8, 110u8, 111u8, 116u8, 32u8, 115u8, 117u8, 112u8, 112u8, 111u8, 114u8, 116u8, 101u8, 100u8] {
        // "Operation not supported"
        CmeError::NotSupported
    } else if s == seq![83u8, 73u8, 77u8, 32u8, 110u8, 111u8, 116u8, 32u8, 105u8, 110u8, 115u8, 101u8, 114u8, 116u8, 101u8, 100u8] {
        // "SIM not inserted"
        CmeError::SimNotInserted
    } else if s == seq![83u8, 73u8, 77u8, 32u8, 80u8, 73u8, 78u8, 32u8, 114u8, 101u8, 113u8, 117u8, 105u8, 114u8, 101u8, 100u8] {
        // "SIM PIN required"
        CmeError::SimPin
    } else if s == seq![83u8, 73u8, 77u8, 32u8, 80u8, 85u8, 75u8, 32u8, 114u8, 101u8, 113u8, 117u8, 105u8, 114u8, 101u8, 100u8] {
        // "SIM PUK required"
        CmeError::SimPuk
    } else if s == seq![83u8, 73u8, 77u8, 32u8, 102u8, 97u8, 105u8, 108u8, 117u8, 114u8, 101u8] {
        // "SIM failure"
        CmeError::SimFailure
    } else if s == seq![83u8, 73u8, 77u8, 32u8, 98u8, 117u8, 115u8, 121u8] {
        // "SIM busy"
        CmeError::SimBusy
    } else if s == seq![83u8, 73u8, 77u8, 32u8, 119u8, 114u8, 111u8, 110u8, 103u8] {
        // "SIM wrong"
        CmeError::SimWrong
    } else if s == seq![73u8, 110u8, 99u8, 111u8, 114u8, 114u8, 101u8, 99u8, 116u8, 32u8, 112u8, 97u8, 115u8, 115u8, 119u8, 111u8, 114u8, 100u8] {
        // "Incorrect password"
        CmeError::IncorrectPassword
    } else if s == seq![78u8, 111u8, 116u8, 32u8, 102u8, 111u8, 117u8, 110u8, 100u8] {
        // "Not found"
        CmeError::NotFound
    } else if s == seq![78u8, 111u8, 32u8, 110u8, 101u8, 116u8, 119u8, 111u8, 114u8, 107u8, 32u8, 115u8, 101u8, 114u8, 118u8, 105u8, 99u8, 101u8] {
        // "No network service"
        CmeError::NoNetwork
    } else if s == seq![78u8, 101u8, 116u8, 119u8, 111u8, 114u8, 107u8, 32u8, 116u8, 105u8, 109u8, 101u8, 111u8, 117u8, 116u8] {
        // "Network timeout"
        CmeError::NetworkTimeout
    } else if s == seq![73u8, 110u8, 99u8, 111u8, 114u8, 114u8, 101u8, 99u8, 116u8, 32u8, 112u8, 97u8, 114u8, 97u8, 109u8, 101u8, 116u8, 101u8, 114u8, 115u8] {
        // "Incorrect parameters"
        CmeError::IncorrectParameters
    } else {
        CmeError::Unknown
    }
}

impl From<u16> for CmeError {
    fn from(v: u16) -> (r: Self)
        ensures
            r == cme_error_from_code(v),
    {
        match v {
            0 => Self::PhoneFailure,
            1 => Self::NoConnection,
            2 => Self::LinkReserved,
            3 => Self::NotAllowed,
            4 => Self::NotSupported,
            5 => Self::PhSimPin,
            6 => Self::PhFsimPin,
            7 => Self::PhFsimPuk,
            10 => Self::SimNotInserted,
            11 => Self::SimPin,
            12 => Self::SimPuk,
            13 => Self::SimFailure,
            14 => Self::SimBusy,
            15 => Self::SimWrong,
            16 => Self::IncorrectPassword,
            17 => Self::SimPin2,
            18 => Self::SimPuk2,
            20 => Self::MemoryFull,
            21 => Self::InvalidIndex,
            22 => Self::NotFound,
            23 => Self::MemoryFailure,
            24 => Self::TextTooLong,
            25 => Self::InvalidChars,
            26 => Self::DialStringTooLong,
            27 => Self::DialStringInvalid,
            30 => Self::NoNetwork,
            31 => Self::NetworkTimeout,
            32 => Self::NetworkNotAllowed,
            40 => Self::NetworkPin,
            41 => Self::NetworkPuk,
            42 => Self::NetworkSubsetPin,
            43 => Self::NetworkSubsetPuk,
            44 => Self::ServicePin,
            45 => Self::ServicePuk,
            46 => Self::CorpPin,
            47 => Self::CorpPuk,
            48 => Self::HiddenKeyRequired,
            49 => Self::EapMethodNotSupported,
            50 => Self::IncorrectParameters,
            51 => Self::CommandDisabled,
            52 => Self::CommandAborted,
            53 => Self::NotAttachedRestricted,
            54 => Self::NotAllowedEmergencyOnly,
            55 => Self::NotAllowedRestricted,
            56 => Self::FixedDialNumberOnly,
            57 => Self::TemporarilyOutOfService,
            58 => Self::LanguageOrAlphabetNotSupported,
            59 => Self::UnexpectedDataValue,
            60 => Self::SystemFailure,
            61 => Self::DataMissing,
            62 => Self::CallBarred,
            63 => Self::MessageWaitingIndicationSubscriptionFailure,
            100 => Self::Unknown,
            102 => Self::ImsiUnknownInHss,
            103 => Self::IllegalUe,
            104 => Self::ImsiUnknownInVlr,
            105 => Self::ImeiNotAccepted,
            106 => Self::IllegalMe,
            107 => Self::PsServicesNotAllowed,
            108 => Self::PsAndNonPsServicesNotAllowed,
            109 => Self::UeIdentityNotDerivedFromNetwork,
            110 => Self::ImplicitlyDetached,
            111 => Self::PlmnNotAllowed,
            112 => Self::AreaNotAllowed,
            113 => Self::RoamingNotAllowedInArea,
            114 => Self::PsServicesNotAllowedInPlmn,
            115 => Self::NoCellsInArea,
            116 => Self::MscTemporarilyNotReachable,
            117 => Self::NetworkFailureAttach,
            118 => Self::CsDomainUnavailable,
            119 => Self::EsmFailure,
            122 => Self::Congestion,
            124 => Self::MbmsBearerCapabilitiesInsufficientForService,
            125 => Self::NotAuthorizedForCsg,
            126 => Self::InsufficientResources,
            127 => Self::MissingOrUnknownApn,
            128 => Self::UnknownPdpAddressOrType,
            129 => Self::UserAuthenticationFailed,
            130 => Self::ActivationRejectedByGgsnOrGw,
            131 => Self::ActivationRejectedUnspecified,
            132 => Self::ServiceOptionNotSupported,
            133 => Self::ServiceOptionNotSubscribed,
            134 => Self::ServiceOptionOutOfOrder,
            135 => Self::NsapiOrPtiAlreadyInUse,
            136 => Self::RegularDeactivation,
            137 => Self::QosNotAccepted,
            138 => Self::CallCannotBeIdentified,
            139 => Self::CsServiceTemporarilyUnavailable,
            140 => Self::FeatureNotSupported,
            141 => Self::SemanticErrorInTftOperation,
            142 => Self::SyntacticalErrorInTftOperation,
            143 => Self::UnknownPdpContext,
            144 => Self::SemanticErrorsInPacketFilter,
            145 => Self::SyntacticalErrorInPacketFilter,
            146 => Self::PdpContextWithoutTftAlreadyActivated,
            147 => Self::MulticastGroupMembershipTimeout,
            148 => Self::GprsUnknown,
            149 => Self::PdpAuthFailure,
            150 => Self::InvalidMobileClass,
            151 => Self::LastPdnDisconnectionNotAllowedLegacy,
            171 => Self::LastPdnDisconnectionNotAllowed,
            172 => Self::SemanticallyIncorrectMessage,
            173 => Self::InvalidMandatoryInformation,
            174 => Self::MessageTypeNotImplemented,
            175 => Self::ConditionalIeError,
            176 => Self::UnspecifiedProtocolError,
            177 => Self::OperatorDeterminedBarring,
            178 => Self::MaximumNumberOfBearersReached,
            179 => Self::RequestedApnNotSupported,
            180 => Self::RequestRejectedBcmViolation,
            181 => Self::UnsupportedQciOr5QiValue,
            182 => Self::UserDataViaControlPlaneCongested,
            183 => Self::SmsProvidedViaGprsInRoutingArea,
            184 => Self::InvalidPtiValue,
            185 => Self::NoBearerActivated,
            186 => Self::MessageNotCompatibleWithProtocolState,
            187 => Self::RecoveryOnTimerExpiry,
            188 => Self::InvalidTransactionIdValue,
            189 => Self::ServiceOptionNotAuthorizedInPlmn,
            190 => Self::NetworkFailureActivation,
            191 => Self::ReactivationRequested,
            192 => Self::Ipv4OnlyAllowed,
            193 => Self::Ipv6OnlyAllowed,
            194 => Self::SingleAddressBearersOnlyAllowed,
            195 => Self::CollisionWithNetworkInitiatedRequest,
            196 => Self::Ipv4V6OnlyAllowed,
            197 => Self::NonIpOnlyAllowed,
            198 => Self::BearerHandlingUnsupported,
            199 => Self::ApnRestrictionIncompatible,
            200 => Self::MultipleAccessToPdnConnectionNotAllowed,
            201 => Self::EsmInformationNotReceived,
            202 => Self::PdnConnectionNonexistent,
            203 => Self::MultiplePdnConnectionSameApnNotAllowed,
            204 => Self::SevereNetworkFailure,
            205 => Self::InsufficientResourcesForSliceAndDnn,
            206 => Self::UnsupportedSscMode,
            207 => Self::InsufficientResourcesForSlice,
            208 => Self::MessageTypeNotCompatibleWithProtocolState,
            209 => Self::IeNotImplemented,
            210 => Self::N1ModeNotAllowed,
            211 => Self::RestrictedServiceArea,
            212 => Self::LadnUnavailable,
            213 => Self::MissingOrUnknownDnnInSlice,
            214 => Self::NgksiAlreadyInUse,
            215 => Self::PayloadNotForwarded,
            216 => Self::Non3GppAccessTo5GcnNotAllowed,
            217 => Self::ServingNetworkNotAuthorized,
            218 => Self::DnnNotSupportedInSlice,
            219 => Self::InsufficientUserPlaneResourcesForPduSessio,
            220 => Self::OutOfLadnServiceArea,
            221 => Self::PtiMismatch,
            222 => Self::MaxDataRateForUserPlaneIntegrityTooLow,
            223 => Self::SemanticErrorInQosOperation,
            224 => Self::SyntacticalErrorInQosOperation,
            225 => Self::InvalidMappedEpsBearerIdentity,
            226 => Self::RedirectionTo5GcnRequired,
            227 => Self::RedirectionToEpcRequired,
            228 => Self::TemporarilyUnauthorizedForSnpn,
            229 => Self::PermanentlyUnauthorizedForSnpn,
            230 => Self::EthernetOnlyAllowed,
            231 => Self::UnauthorizedForCag,
            232 => Self::NoNetworkSlicesAvailable,
            233 => Self::WirelineAccessAreaNotAllowed,
            _ => if v < 256 {
                Self::Reserved(v)
            } else {
                Self::ManufacturerSpecific(v)
            },
        }
    }
}

impl vstd::std_specs::convert::FromSpecImpl<u16> for CmeError {
    open spec fn obeys_from_spec() -> bool {
        true
    }

    open spec fn from_spec(v: u16) -> Self {
        cme_error_from_code(v)
    }
}

impl From<CmeError> for u16 {
    fn from(error: CmeError) -> (r: Self)
        ensures
            r == cme_error_code(error),
    {
        match error {
            CmeError::PhoneFailure => 0,
            CmeError::NoConnection => 1,
            CmeError::LinkReserved => 2,
            CmeError::NotAllowed => 3,
            CmeError::NotSupported => 4,
            CmeError::PhSimPin => 5,
            CmeError::PhFsimPin => 6,
            CmeError::PhFsimPuk => 7,
            CmeError::SimNotInserted => 10,
            CmeError::SimPin => 11,
            CmeError::SimPuk => 12,
            CmeError::SimFailure => 13,
            CmeError::SimBusy => 14,
            CmeError::SimWrong => 15,
            CmeError::IncorrectPassword => 16,
            CmeError::SimPin2 => 17,
            CmeError::SimPuk2 => 18,
            CmeError::MemoryFull => 20,
            CmeError::InvalidIndex => 21,
            CmeError::NotFound => 22,
            CmeError::MemoryFailure => 23,
            CmeError::TextTooLong => 24,
            CmeError::InvalidChars => 25,
            CmeError::DialStringTooLong => 26,
            CmeError::DialStringInvalid => 27,
            CmeError::NoNetwork => 30,
            CmeError::NetworkTimeout => 31,
            CmeError::NetworkNotAllowed => 32,
            CmeError::NetworkPin => 40,
            CmeError::NetworkPuk => 41,
            CmeError::NetworkSubsetPin => 42,
            CmeError::NetworkSubsetPuk => 43,
            CmeError::ServicePin => 44,
            CmeError::ServicePuk => 45,
            CmeError::CorpPin => 46,
            CmeError::CorpPuk => 47,
            CmeError::HiddenKeyRequired => 48,
            CmeError::EapMethodNotSupported => 49,
            CmeError::IncorrectParameters => 50,
            CmeError::CommandDisabled => 51,
            CmeError::CommandAborted => 52,
            CmeError::NotAttachedRestricted => 53,
            CmeError::NotAllowedEmergencyOnly => 54,
            CmeError::NotAllowedRestricted => 55,
            CmeError::FixedDialNumberOnly => 56,
            CmeError::TemporarilyOutOfService => 57,
            CmeError::LanguageOrAlphabetNotSupported => 58,
            CmeError::UnexpectedDataValue => 59,
            CmeError::SystemFailure => 60,
            CmeError::DataMissing => 61,
            CmeError::CallBarred => 62,
            CmeError::MessageWaitingIndicationSubscriptionFailure => 63,
            CmeError::Unknown => 100,
            CmeError::ImsiUnknownInHss => 102,
            CmeError::IllegalUe => 103,
            CmeError::ImsiUnknownInVlr => 104,
            CmeError::ImeiNotAccepted => 105,
            CmeError::IllegalMe => 106,
            CmeError::PsServicesNotAllowed => 107,
            CmeError::PsAndNonPsServicesNotAllowed => 108,
            CmeError::UeIdentityNotDerivedFromNetwork => 109,
            CmeError::ImplicitlyDetached => 110,
            CmeError::PlmnNotAllowed => 111,
            CmeError::AreaNotAllowed => 112,
            CmeError::RoamingNotAllowedInArea => 113,
            CmeError::PsServicesNotAllowedInPlmn => 114,
            CmeError::NoCellsInArea => 115,
            CmeError::MscTemporarilyNotReachable => 116,
            CmeError::NetworkFailureAttach => 117,
            CmeError::CsDomainUnavailable => 118,
            CmeError::EsmFailure => 119,
            CmeError::Congestion => 122,
            CmeError::MbmsBearerCapabilitiesInsufficientForService => 124,
            CmeError::NotAuthorizedForCsg => 125,
            CmeError::InsufficientResources => 126,
            CmeError::MissingOrUnknownApn => 127,
            CmeError::UnknownPdpAddressOrType => 128,
            CmeError::UserAuthenticationFailed => 129,
            CmeError::ActivationRejectedByGgsnOrGw => 130,
            CmeError::ActivationRejectedUnspecified => 131,
            CmeError::ServiceOptionNotSupported => 132,
            CmeError::ServiceOptionNotSubscribed => 133,
            CmeError::ServiceOptionOutOfOrder => 134,
            CmeError::NsapiOrPtiAlreadyInUse => 135,
            CmeError::RegularDeactivation => 136,
            CmeError::QosNotAccepted => 137,
            CmeError::CallCannotBeIdentified => 138,
            CmeError::CsServiceTemporarilyUnavailable => 139,
            CmeError::FeatureNotSupported => 140,
            CmeError::SemanticErrorInTftOperation => 141,
            CmeError::SyntacticalErrorInTftOperation => 142,
            CmeError::UnknownPdpContext => 143,
            CmeError::SemanticErrorsInPacketFilter => 144,
            CmeError::SyntacticalErrorInPacketFilter => 145,
            CmeError::PdpContextWithoutTftAlreadyActivated => 146,
            CmeError::MulticastGroupMembershipTimeout => 147,
            CmeError::GprsUnknown => 148,
            CmeError::PdpAuthFailure => 149,
            CmeError::InvalidMobileClass => 150,
            CmeError::LastPdnDisconnectionNotAllowedLegacy => 151,
            CmeError::LastPdnDisconnectionNotAllowed => 171,
            CmeError::SemanticallyIncorrectMessage => 172,
            CmeError::InvalidMandatoryInformation => 173,
            CmeError::MessageTypeNotImplemented => 174,
            CmeError::ConditionalIeError => 175,
            CmeError::UnspecifiedProtocolError => 176,
            CmeError::OperatorDeterminedBarring => 177,
            CmeError::MaximumNumberOfBearersReached => 178,
            CmeError::RequestedApnNotSupported => 179,
            CmeError::RequestRejectedBcmViolation => 180,
            CmeError::UnsupportedQciOr5QiValue => 181,
            CmeError::UserDataViaControlPlaneCongested => 182,
            CmeError::SmsProvidedViaGprsInRoutingArea => 183,
            CmeError::InvalidPtiValue => 184,
            CmeError::NoBearerActivated => 185,
            CmeError::MessageNotCompatibleWithProtocolState => 186,
            CmeError::RecoveryOnTimerExpiry => 187,
            CmeError::InvalidTransactionIdValue => 188,
            CmeError::ServiceOptionNotAuthorizedInPlmn => 189,
            CmeError::NetworkFailureActivation => 190,
            CmeError::ReactivationRequested => 191,
            CmeError::Ipv4OnlyAllowed => 192,
            CmeError::Ipv6OnlyAllowed => 193,
            CmeError::SingleAddressBearersOnlyAllowed => 194,
            CmeError::CollisionWithNetworkInitiatedRequest => 195,
            CmeError::Ipv4V6OnlyAllowed => 196,
            CmeError::NonIpOnlyAllowed => 197,
            CmeError::BearerHandlingUnsupported => 198,
            CmeError::ApnRestrictionIncompatible => 199,
            CmeError::MultipleAccessToPdnConnectionNotAllowed => 200,
            CmeError::EsmInformationNotReceived => 201,
            CmeError::PdnConnectionNonexistent => 202,
            CmeError::MultiplePdnConnectionSameApnNotAllowed => 203,
            CmeError::SevereNetworkFailure => 204,
            CmeError::InsufficientResourcesForSliceAndDnn => 205,
            CmeError::UnsupportedSscMode => 206,
            CmeError::InsufficientResourcesForSlice => 207,
            CmeError::MessageTypeNotCompatibleWithProtocolState => 208,
            CmeError::IeNotImplemented => 209,
            CmeError::N1ModeNotAllowed => 210,
            CmeError::RestrictedServiceArea => 211,
            CmeError::LadnUnavailable => 212,
            CmeError::MissingOrUnknownDnnInSlice => 213,
            CmeError::NgksiAlreadyInUse => 214,
            CmeError::PayloadNotForwarded => 215,
            CmeError::Non3GppAccessTo5GcnNotAllowed => 216,
            CmeError::ServingNetworkNotAuthorized => 217,
            CmeError::DnnNotSupportedInSlice => 218,
            CmeError::InsufficientUserPlaneResourcesForPduSessio => 219,
            CmeError::OutOfLadnServiceArea => 220,
            CmeError::PtiMismatch => 221,
            CmeError::MaxDataRateForUserPlaneIntegrityTooLow => 222,
            CmeError::SemanticErrorInQosOperation => 223,
            CmeError::SyntacticalErrorInQosOperation => 224,
            CmeError::InvalidMappedEpsBearerIdentity => 225,
            CmeError::RedirectionTo5GcnRequired => 226,
            CmeError::RedirectionToEpcRequired => 227,
            CmeError::TemporarilyUnauthorizedForSnpn => 228,
            CmeError::PermanentlyUnauthorizedForSnpn => 229,
            CmeError::EthernetOnlyAllowed => 230,
            CmeError::UnauthorizedForCag => 231,
            CmeError::NoNetworkSlicesAvailable => 232,
            CmeError::WirelineAccessAreaNotAllowed => 233,
            CmeError::Reserved(error) | CmeError::ManufacturerSpecific(error) => error,
        }
    }
}

impl vstd::std_specs::convert::FromSpecImpl<CmeError> for u16 {
    open spec fn obeys_from_spec() -> bool {
        true
    }

    open spec fn from_spec(e: CmeError) -> Self {
        cme_error_code(e)
    }
}

impl CmeError {
    /// Interprets the verbose text of an error result code.
    pub fn from_msg(s: &[u8]) -> (r: Self)
        ensures
            r == cme_error_from_msg(s@),
    {
        let m0 = [80u8, 104u8, 111u8, 110u8, 101u8, 32u8, 102u8, 97u8, 105u8, 108u8, 117u8, 114u8, 101u8];
        if same_bytes(s, &m0) {
            assert(m0@ =~= seq![80u8, 104u8, 111u8, 110u8, 101u8, 32u8, 102u8, 97u8, 105u8, 108u8, 117u8, 114u8, 101u8]);
            return Self::PhoneFailure;
        }
        assert(m0@ =~= seq![80u8, 104u8, 111u8, 110u8, 101u8, 32u8, 102u8, 97u8, 105u8, 108u8, 117u8, 114u8, 101u8]);
        let m1 = [78u8, 111u8, 32u8, 99u8, 111u8, 110u8, 110u8, 101u8, 99u8, 116u8, 105u8, 111u8, 110u8, 32u8, 116u8, 111u8, 32u8, 112u8, 104u8, 111u8, 110u8, 101u8];
        if same_bytes(s, &m1) {
            assert(m1@ =~= seq![78u8, 111u8, 32u8, 99u8, 111u8, 110u8, 110u8, 101u8, 99u8, 116u8, 105u8, 111u8, 110u8, 32u8, 116u8, 111u8, 32u8, 112u8, 104u8, 111u8, 110u8, 101u8]);
            return Self::NoConnection;
        }
        assert(m1@ =~= seq![78u8, 111u8, 32u8, 99u8, 111u8, 110u8, 110u8, 101u8, 99u8, 116u8, 105u8, 111u8, 110u8, 32u8, 116u8, 111u8, 32u8, 112u8, 104u8, 111u8, 110u8, 101u8]);
        let m2 = [80u8, 104u8, 111u8, 110u8, 101u8, 45u8, 97u8, 100u8, 97u8, 112u8, 116u8, 111u8, 114u8, 32u8, 108u8, 105u8, 110u8, 107u8, 32u8, 114u8, 101u8, 115u8, 101u8, 114u8, 118u8, 101u8, 100u8];
        if same_bytes(s, &m2) {
            assert(m2@ =~= seq![80u8, 104u8, 111u8, 110u8, 101u8, 45u8, 97u8, 100u8, 97u8, 112u8, 116u8, 111u8, 114u8, 32u8, 108u8, 105u8, 110u8, 107u8, 32u8, 114u8, 101u8, 115u8, 101u8, 114u8, 118u8, 101u8, 100u8]);
            return Self::LinkReserved;
        }
        assert(m2@ =~= seq![80u8, 104u8, 111u8, 110u8, 101u8, 45u8, 97u8, 100u8, 97u8, 112u8, 116u8, 111u8, 114u8, 32u8, 108u8, 105u8, 110u8, 107u8, 32u8, 114u8, 101u8, 115u8, 101u8, 114u8, 118u8, 101u8, 100u8]);
        let m3 = [79u8, 112u8, 101u8, 114u8, 97u8, 116u8, 105u8, 111u8, 110u8, 32u8, 110u8, 111u8, 116u8, 32u8, 97u8, 108u8, 108u8, 111u8, 119u8, 101u8, 100u8];
        if same_bytes(s, &m3) {
            assert(m3@ =~= seq![79u8, 112u8, 101u8, 114u8, 97u8, 116u8, 105u8, 111u8, 110u8, 32u8, 110u8, 111u8, 116u8, 32u8, 97u8, 108u8, 108u8, 111u8, 119u8, 101u8, 100u8]);
            return Self::NotAllowed;
        }
        assert(m3@ =~= seq![79u8, 112u8, 101u8, 114u8, 97u8, 116u8, 105u8, 111u8, 110u8, 32u8, 110u8, 111u8, 116u8, 32u8, 97u8, 108u8, 108u8, 111u8, 119u8, 101u8, 100u8]);
        let m4 = [79u8, 112u8, 101u8, 114u8, 97u8, 116u8, 105u8, 111u8, 110u8, 32u8, 110u8, 111u8, 116u8, 32u8, 115u8, 117u8, 112u8, 112u8, 111u8, 114u8, 116u8, 101u8, 100u8];
        if same_bytes(s, &m4) {
            assert(m4@ =~= seq![79u8, 112u8, 101u8, 114u8, 97u8, 116u8, 105u8, 111u8, 110u8, 32u8, 110u8, 111u8, 116u8, 32u8, 115u8, 117u8, 112u8, 112u8, 111u8, 114u8, 116u8, 101u8, 100u8]);
            return Self::NotSupported;
        }
        assert(m4@ =~= seq![79u8, 112u8, 101u8, 114u8, 97u8, 116u8, 105u8, 111u8, 110u8, 32u8, 110u8, 111u8, 116u8, 32u8, 115u8, 117u8, 112u8, 112u8, 111u8, 114u8, 116u8, 101u8, 100u8]);
        let m5 = [83u8, 73u8, 77u8, 32u8, 110u8, 111u8, 116u8, 32u8, 105u8, 110u8, 115u8, 101u8, 114u8, 116u8, 101u8, 100u8];
        if same_bytes(s, &m5) {
            assert(m5@ =~= seq![83u8, 73u8, 77u8, 32u8, 110u8, 111u8, 116u8, 32u8, 105u8, 110u8, 115u8, 101u8, 114u8, 116u8, 101u8, 100u8]);
            return Self::SimNotInserted;
        }
        assert(m5@ =~= seq![83u8, 73u8, 77u8, 32u8, 110u8, 111u8, 116u8, 32u8, 105u8, 110u8, 115u8, 101u8, 114u8, 116u8, 101u8, 100u8]);
        let m6 = [83u8, 73u8, 77u8, 32u8, 80u8, 73u8, 78u8, 32u8, 114u8, 101u8, 113u8, 117u8, 105u8, 114u8, 101u8, 100u8];
        if same_bytes(s, &m6) {
            assert(m6@ =~= seq![83u8, 73u8, 77u8, 32u8, 80u8, 73u8, 78u8, 32u8, 114u8, 101u8, 113u8, 117u8, 105u8, 114u8, 101u8, 100u8]);
            return Self::SimPin;
        }
        assert(m6@ =~= seq![83u8, 73u8, 77u8, 32u8, 80u8, 73u8, 78u8, 32u8, 114u8, 101u8, 113u8, 117u8, 105u8, 114u8, 101u8, 100u8]);
        let m7 = [83u8, 73u8, 77u8, 32u8, 80u8, 85u8, 75u8, 32u8, 114u8, 101u8, 113u8, 117u8, 105u8, 114u8, 101u8, 100u8];
        if same_bytes(s, &m7) {
            assert(m7@ =~= seq![83u8, 73u8, 77u8, 32u8, 80u8, 85u8, 75u8, 32u8, 114u8, 101u8, 113u8, 117u8, 105u8, 114u8, 101u8, 100u8]);
            return Self::SimPuk;
        }
        assert(m7@ =~= seq![83u8, 73u8, 77u8, 32u8, 80u8, 85u8, 75u8, 32u8, 114u8, 101u8, 113u8, 117u8, 105u8, 114u8, 101u8, 100u8]);
        let m8 = [83u8, 73u8, 77u8, 32u8, 102u8, 97u8, 105u8, 108u8, 117u8, 114u8, 101u8];
        if same_bytes(s, &m8) {
            assert(m8@ =~= seq![83u8, 73u8, 77u8, 32u8, 102u8, 97u8, 105u8, 108u8, 117u8, 114u8, 101u8]);
            return Self::SimFailure;
        }
        assert(m8@ =~= seq![83u8, 73u8, 77u8, 32u8, 102u8, 97u8, 105u8, 108u8, 117u8, 114u8, 101u8]);
        let m9 = [83u8, 73u8, 77u8, 32u8, 98u8, 117u8, 115u8, 121u8];
        if same_bytes(s, &m9) {
            assert(m9@ =~= seq![83u8, 73u8, 77u8, 32u8, 98u8, 117u8, 115u8, 121u8]);
            return Self::SimBusy;
        }
        assert(m9@ =~= seq![83u8, 73u8, 77u8, 32u8, 98u8, 117u8, 115u8, 121u8]);
        let m10 = [83u8, 73u8, 77u8, 32u8, 119u8, 114u8, 111u8, 110u8, 103u8];
        if same_bytes(s, &m10) {
            assert(m10@ =~= seq![83u8, 73u8, 77u8, 32u8, 119u8, 114u8, 111u8, 110u8, 103u8]);
            return Self::SimWrong;
        }
        assert(m10@ =~= seq![83u8, 73u8, 77u8, 32u8, 119u8, 114u8, 111u8, 110u8, 103u8]);
        let m11 = [73u8, 110u8, 99u8, 111u8, 114u8, 114u8, 101u8, 99u8, 116u8, 32u8, 112u8, 97u8, 115u8, 115u8, 119u8, 111u8, 114u8, 100u8];
        if same_bytes(s, &m11) {
            assert(m11@ =~= seq![73u8, 110u8, 99u8, 111u8, 114u8, 114u8, 101u8, 99u8, 116u8, 32u8, 112u8, 97u8, 115u8, 115u8, 119u8, 111u8, 114u8, 100u8]);
            return Self::IncorrectPassword;
        }
        assert(m11@ =~= seq![73u8, 110u8, 99u8, 111u8, 114u8, 114u8, 101u8, 99u8, 116u8, 32u8, 112u8, 97u8, 115u8, 115u8, 119u8, 111u8, 114u8, 100u8]);
        let m12 = [78u8, 111u8, 116u8, 32u8, 102u8, 111u8, 117u8, 110u8, 100u8];
        if same_bytes(s, &m12) {
            assert(m12@ =~= seq![78u8, 111u8, 116u8, 32u8, 102u8, 111u8, 117u8, 110u8, 100u8]);
            return Self::NotFound;
        }
        assert(m12@ =~= seq![78u8, 111u8, 116u8, 32u8, 102u8, 111u8, 117u8, 110u8, 100u8]);
        let m13 = [78u8, 111u8, 32u8, 110u8, 101u8, 116u8, 119u8, 111u8, 114u8, 107u8, 32u8, 115u8, 101u8, 114u8, 118u8, 105u8, 99u8, 101u8];
        if same_bytes(s, &m13) {
            assert(m13@ =~= seq![78u8, 111u8, 32u8, 110u8, 101u8, 116u8, 119u8, 111u8, 114u8, 107u8, 32u8, 115u8, 101u8, 114u8, 118u8, 105u8, 99u8, 101u8]);
            return Self::NoNetwork;
        }
        assert(m13@ =~= seq![78u8, 111u8, 32u8, 110u8, 101u8, 116u8, 119u8, 111u8, 114u8, 107u8, 32u8, 115u8, 101u8, 114u8, 118u8, 105u8, 99u8, 101u8]);
        let m14 = [78u8, 101u8, 116u8, 119u8, 111u8, 114u8, 107u8, 32u8, 116u8, 105u8, 109u8, 101u8, 111u8, 117u8, 116u8];
        if same_bytes(s, &m14) {
            assert(m14@ =~= seq![78u8, 101u8, 116u8, 119u8, 111u8, 114u8, 107u8, 32u8, 116u8, 105u8, 109u8, 101u8, 111u8, 117u8, 116u8]);
            return Self::NetworkTimeout;
        }
        assert(m14@ =~= seq![78u8, 101u8, 116u8, 119u8, 111u8, 114u8, 107u8, 32u8, 116u8, 105u8, 109u8, 101u8, 111u8, 117u8, 116u8]);
        let m15 = [73u8, 110u8, 99u8, 111u8, 114u8, 114u8, 101u8, 99u8, 116u8, 32u8, 112u8, 97u8, 114u8, 97u8, 109u8, 101u8, 116u8, 101u8, 114u8, 115u8];
        if same_bytes(s, &m15) {
            assert(m15@ =~= seq![73u8, 110u8, 99u8, 111u8, 114u8, 114u8, 101u8, 99u8, 116u8, 32u8, 112u8, 97u8, 114u8, 97u8, 109u8, 101u8, 116u8, 101u8, 114u8, 115u8]);
            return Self::IncorrectParameters;
        }
        assert(m15@ =~= seq![73u8, 110u8, 99u8, 111u8, 114u8, 114u8, 101u8, 99u8, 116u8, 32u8, 112u8, 97u8, 114u8, 97u8, 109u8, 101u8, 116u8, 101u8, 114u8, 115u8]);
        Self::Unknown
    }
}

/// `a` and `b` hold the same bytes.
fn same_bytes(a: &[u8], b: &[u8]) -> (r: bool)
    ensures
        r == (a@ == b@),
{
    if a.len() != b.len() {
        return false;
    }
    let r = eq_at(a, 0, b);
    assert(a@.subrange(0, b@.len() as int) =~= a@);
    r
}

/// An error that is the decoding of its own code: every named error, a
/// reserved code that names no error, and a manufacturer specific code from 256
/// on.
pub open spec fn cme_error_canonical(e: CmeError) -> bool {
    match e {
        CmeError::Reserved(x) => cme_error_from_code(x) == CmeError::Reserved(x),
        CmeError::ManufacturerSpecific(x) => x >= 256,
        _ => true,
    }
}

/// Encoding a canonical error and decoding the code gives the error back.
pub proof fn lemma_cme_error_canonical_roundtrip(e: CmeError)
    requires
        cme_error_canonical(e),
    ensures
        cme_error_from_code(cme_error_code(e)) == e,
{
    if !(e is Reserved) && !(e is ManufacturerSpecific) {
        lemma_cme_error_decode_named(e);
    }
}

/// Decoding any code and encoding the result gives the code back.
pub proof fn lemma_cme_error_code_of_decoded(v: u16)
    ensures
        cme_error_code(cme_error_from_code(v)) == v,
{
}

/// Every named error is what its own code decodes to.
pub proof fn lemma_cme_error_decode_named(e: CmeError)
    requires
        !(e is Reserved) && !(e is ManufacturerSpecific),
    ensures
        cme_error_from_code(cme_error_code(e)) == e,
{
}

/// A manufacturer specific code (256 and above) survives encoding and decoding.
pub proof fn lemma_cme_error_manufacturer_roundtrip(x: u16)
    requires
        x >= 256,
    ensures
        cme_error_from_code(cme_error_code(CmeError::ManufacturerSpecific(x)))
            == CmeError::ManufacturerSpecific(x),
{
}

/// The text that describes each error; an error that carries a number is
/// described by this text followed by the number.
pub open spec fn cme_error_message(e: CmeError) -> Seq<char> {
    match e {
        CmeError::PhoneFailure => "Phone failure"@,
        CmeError::NoConnection => "No connection to phone"@,
        CmeError::LinkReserved => "Phone-adaptor link reserved"@,
        CmeError::NotAllowed => "Operation not allowed"@,
        CmeError::NotSupported => "Operation not supported"@,
        CmeError::PhSimPin => "PH-SIM PIN required"@,
        CmeError::PhFsimPin => "PH-FSIM PIN required"@,
        CmeError::PhFsimPuk => "PH-FSIM PUK required"@,
        CmeError::SimNotInserted => "SIM not inserted"@,
        CmeError::SimPin => "SIM PIN required"@,
        CmeError::SimPuk => "SIM PUK required"@,
        CmeError::SimFailure => "SIM failure"@,
        CmeError::SimBusy => "SIM busy"@,
        CmeError::SimWrong => "SIM wrong"@,
        CmeError::IncorrectPassword => "Incorrect password"@,
        CmeError::SimPin2 => "SIM PIN2 required"@,
        CmeError::SimPuk2 => "SIM PUK2 required"@,
        CmeError::MemoryFull => "Memory full"@,
        CmeError::InvalidIndex => "Invalid index"@,
        CmeError::NotFound => "Not found"@,
        CmeError::MemoryFailure => "Memory failure"@,
        CmeError::TextTooLong => "Text string too long"@,
        CmeError::InvalidChars => "Invalid characters in text string"@,
        CmeError::DialStringTooLong => "Dial string too long"@,
        CmeError::DialStringInvalid => "Invalid characters in dial string"@,
        CmeError::NoNetwork => "No network service"@,
        CmeError::NetworkTimeout => "Network timeout"@,
        CmeError::NetworkNotAllowed => "Network not allowed - emergency calls only"@,
        CmeError::NetworkPin => "Network personalization PIN required"@,
        CmeError::NetworkPuk => "Network personalization PUK required"@,
        CmeError::NetworkSubsetPin => "Network subset personalization PIN required"@,
        CmeError::NetworkSubsetPuk => "Network subset personalization PUK required"@,
        CmeError::ServicePin => "Service provider personalization PIN required"@,
        CmeError::ServicePuk => "Service provider personalization PUK required"@,
        CmeError::CorpPin => "Corporate personalization PIN required"@,
        CmeError::CorpPuk => "Corporate personalization PUK required"@,
        CmeError::HiddenKeyRequired => "Hidden key required"@,
        CmeError::EapMethodNotSupported => "EAP method not supported"@,
        CmeError::IncorrectParameters => "Incorrect parameters"@,
        CmeError::CommandDisabled => "Command disabled"@,
        CmeError::CommandAborted => "Command aborted"@,
        CmeError::NotAttachedRestricted => "Not attached] restricted"@,
        CmeError::NotAllowedEmergencyOnly => "Not allowed] emergency only"@,
        CmeError::NotAllowedRestricted => "Not allowed] restricted"@,
        CmeError::FixedDialNumberOnly => "Fixed dial number only"@,
        CmeError::TemporarilyOutOfService => "Temporarily out of service"@,
        CmeError::LanguageOrAlphabetNotSupported => "Language or alphabet not supported"@,
        CmeError::UnexpectedDataValue => "Unexpected data value"@,
        CmeError::SystemFailure => "System failure"@,
        CmeError::DataMissing => "Data missing"@,
        CmeError::CallBarred => "Call barred"@,
        CmeError::MessageWaitingIndicationSubscriptionFailure => "Message waiting indication subscription failure"@,
        CmeError::Unknown => "Unknown error"@,
        CmeError::ImsiUnknownInHss => "IMSI unknown in HLR/HSS"@,
        CmeError::IllegalUe => "Illegal MS/UE"@,
        CmeError::ImsiUnknownInVlr => "IMSI unknown in VLR"@,
        CmeError::ImeiNotAccepted => "IMEI not accepted"@,
        CmeError::IllegalMe => "Illegal ME"@,
        CmeError::PsServicesNotAllowed => "PS services not allowed"@,
        CmeError::PsAndNonPsServicesNotAllowed => "PS and non-PS services not allowed"@,
        CmeError::UeIdentityNotDerivedFromNetwork => "UE identity not derived from network"@,
        CmeError::ImplicitlyDetached => "Implicitly detached"@,
        CmeError::PlmnNotAllowed => "PLMN not allowed"@,
        CmeError::AreaNotAllowed => "Location/tracking area not allowed"@,
        CmeError::RoamingNotAllowedInArea => "Roaming not allowed in this location/tracking area"@,
        CmeError::PsServicesNotAllowedInPlmn => "PS services not allowed in PLMN"@,
        CmeError::NoCellsInArea => "No cells in location/tracking area"@,
        CmeError::MscTemporarilyNotReachable => "MSC temporarily not reachable"@,
        CmeError::NetworkFailureAttach => "Network failure (attach)"@,
        CmeError::CsDomainUnavailable => "CS domain unavailable"@,
        CmeError::EsmFailure => "ESM failure"@,
        CmeError::Congestion => "Congestion"@,
        CmeError::MbmsBearerCapabilitiesInsufficientForService => "MBMS bearer capabilities insufficient for service"@,
        CmeError::NotAuthorizedForCsg => "Not authorized for CSG"@,
        CmeError::InsufficientResources => "Insufficient resources"@,
        CmeError::MissingOrUnknownApn => "Missing or unknown APN"@,
        CmeError::UnknownPdpAddressOrType => "Unknown PDP address or type"@,
        CmeError::UserAuthenticationFailed => "User authentication failed"@,
        CmeError::ActivationRejectedByGgsnOrGw => "Activation rejected by GGSN or GW"@,
        CmeError::ActivationRejectedUnspecified => "Activation rejected (unspecified)"@,
        CmeError::ServiceOptionNotSupported => "Service option not supported"@,
        CmeError::ServiceOptionNotSubscribed => "Requested service option not subscribed"@,
        CmeError::ServiceOptionOutOfOrder => "Service option temporarily out of order"@,
        CmeError::NsapiOrPtiAlreadyInUse => "NSAPI/PTI already in use"@,
        CmeError::RegularDeactivation => "Regular deactivation"@,
        CmeError::QosNotAccepted => "QoS not accepted"@,
        CmeError::CallCannotBeIdentified => "Call cannot be identified"@,
        CmeError::CsServiceTemporarilyUnavailable => "CS service temporarily unavailable"@,
        CmeError::FeatureNotSupported => "Feature not supported"@,
        CmeError::SemanticErrorInTftOperation => "Semantic error in TFT operation"@,
        CmeError::SyntacticalErrorInTftOperation => "Syntactical error in TFT operation"@,
        CmeError::UnknownPdpContext => "Unknown PDP context"@,
        CmeError::SemanticErrorsInPacketFilter => "Semantic error in packet filter"@,
        CmeError::SyntacticalErrorInPacketFilter => "Syntactical error in packet filter"@,
        CmeError::PdpContextWithoutTftAlreadyActivated => "PDP context without TFT already activated"@,
        CmeError::MulticastGroupMembershipTimeout => "Multicast group membership timeout"@,
        CmeError::GprsUnknown => "Unspecified GPRS error"@,
        CmeError::PdpAuthFailure => "PDP authentication failure"@,
        CmeError::InvalidMobileClass => "Invalid mobile class"@,
        CmeError::LastPdnDisconnectionNotAllowedLegacy => "Last PDN disconnection not allowed (legacy)"@,
        CmeError::LastPdnDisconnectionNotAllowed => "Last PDN disconnection not allowed"@,
        CmeError::SemanticallyIncorrectMessage => "Semantically incorrect message"@,
        CmeError::InvalidMandatoryInformation => "Invalid mandatory information"@,
        CmeError::MessageTypeNotImplemented => "Message type not implemented"@,
        CmeError::ConditionalIeError => "Conditional IE error"@,
        CmeError::UnspecifiedProtocolError => "Unspecified protocol error"@,
        CmeError::OperatorDeterminedBarring => "Operator determined barring"@,
        CmeError::MaximumNumberOfBearersReached => "Maximum number of PDP/bearer contexts reached"@,
        CmeError::RequestedApnNotSupported => "Requested APN not supported"@,
        CmeError::RequestRejectedBcmViolation => "Rejected BCM violation"@,
        CmeError::UnsupportedQciOr5QiValue => "Unsupported QCI/5QI value"@,
        CmeError::UserDataViaControlPlaneCongested => "User data via control plane congested"@,
        CmeError::SmsProvidedViaGprsInRoutingArea => "SMS provided via GPRS in routing area"@,
        CmeError::InvalidPtiValue => "Invalid PTI value"@,
        CmeError::NoBearerActivated => "No bearer activated"@,
        CmeError::MessageNotCompatibleWithProtocolState => "Message not compatible with protocol state"@,
        CmeError::RecoveryOnTimerExpiry => "Recovery on timer expiry"@,
        CmeError::InvalidTransactionIdValue => "Invalid transaction ID value"@,
        CmeError::ServiceOptionNotAuthorizedInPlmn => "Service option not authorized in PLMN"@,
        CmeError::NetworkFailureActivation => "Network failure (activation)"@,
        CmeError::ReactivationRequested => "Reactivation requested"@,
        CmeError::Ipv4OnlyAllowed => "IPv4 only allowed"@,
        CmeError::Ipv6OnlyAllowed => "IPv6 only allowed"@,
        CmeError::SingleAddressBearersOnlyAllowed => "Single address bearers only allowed"@,
        CmeError::CollisionWithNetworkInitiatedRequest => "Collision with network initiated request"@,
        CmeError::Ipv4V6OnlyAllowed => "IPv4v6 only allowed"@,
        CmeError::NonIpOnlyAllowed => "Non-IP only allowed"@,
        CmeError::BearerHandlingUnsupported => "Bearer handling unsupported"@,
        CmeError::ApnRestrictionIncompatible => "APN restriction incompatible"@,
        CmeError::MultipleAccessToPdnConnectionNotAllowed => "Multiple access to PDN connection not allowed"@,
        CmeError::EsmInformationNotReceived => "ESM information not received"@,
        CmeError::PdnConnectionNonexistent => "PDN connection nonexistent"@,
        CmeError::MultiplePdnConnectionSameApnNotAllowed => "Multiple PDN connection to same APN not allowed"@,
        CmeError::SevereNetworkFailure => "Severe network failure"@,
        CmeError::InsufficientResourcesForSliceAndDnn => "Insufficient resources for slice and DNN"@,
        CmeError::UnsupportedSscMode => "Unsupported SSC mode"@,
        CmeError::InsufficientResourcesForSlice => "Insufficient resources for slice"@,
        CmeError::MessageTypeNotCompatibleWithProtocolState => "Message type not compatible with protocol state"@,
        CmeError::IeNotImplemented => "IE not implemented"@,
        CmeError::N1ModeNotAllowed => "N1 mode not allowed"@,
        CmeError::RestrictedServiceArea => "Restricted service area"@,
        CmeError::LadnUnavailable => "LADN unavailable"@,
        CmeError::MissingOrUnknownDnnInSlice => "Missing or unknown DNN in slice"@,
        CmeError::NgksiAlreadyInUse => "ngKSI already in use"@,
        CmeError::PayloadNotForwarded => "Payload not forwarded"@,
        CmeError::Non3GppAccessTo5GcnNotAllowed => "Non-3GPP access to 5GCN not allowed"@,
        CmeError::ServingNetworkNotAuthorized => "Serving network not authorized"@,
        CmeError::DnnNotSupportedInSlice => "DNN not supported in slice"@,
        CmeError::InsufficientUserPlaneResourcesForPduSessio => "Insufficient user plane resources for PDU session"@,
        CmeError::OutOfLadnServiceArea => "Out of LADN service area"@,
        CmeError::PtiMismatch => "PTI mismatch"@,
        CmeError::MaxDataRateForUserPlaneIntegrityTooLow => "Max data rate for user plane integrity too low"@,
        CmeError::SemanticErrorInQosOperation => "Semantic error in QoS operation"@,
        CmeError::SyntacticalErrorInQosOperation => "Syntactical error in QoS operation"@,
        CmeError::InvalidMappedEpsBearerIdentity => "Invalid mapped EPS bearer identity"@,
        CmeError::RedirectionTo5GcnRequired => "Redirection to 5GCN required"@,
        CmeError::RedirectionToEpcRequired => "Redirection to EPC required"@,
        CmeError::TemporarilyUnauthorizedForSnpn => "Temporarily unauthorized for SNPN"@,
        CmeError::PermanentlyUnauthorizedForSnpn => "Permanently unauthorized for SNPN"@,
        CmeError::EthernetOnlyAllowed => "Ethernet only allowed"@,
        CmeError::UnauthorizedForCag => "Unauthorized for CAG"@,
        CmeError::NoNetworkSlicesAvailable => "No network slices available"@,
        CmeError::WirelineAccessAreaNotAllowed => "Wireline access area not allowed"@,
        CmeError::Reserved(_) => "Unknown reserved error"@,
        CmeError::ManufacturerSpecific(_) => "Manufacturer specific error"@,
    }
}

impl CmeError {
    /// The text that describes this error; an error that carries a number is
    /// described by this text followed by the number.
    pub fn message(&self) -> (m: &'static str)
        ensures
            m@ == cme_error_message(*self),
    {
        match self {
            CmeError::PhoneFailure => "Phone failure",
            CmeError::NoConnection => "No connection to phone",
            CmeError::LinkReserved => "Phone-adaptor link reserved",
            CmeError::NotAllowed => "Operation not allowed",
            CmeError::NotSupported => "Operation not supported",
            CmeError::PhSimPin => "PH-SIM PIN required",
            CmeError::PhFsimPin => "PH-FSIM PIN required",
            CmeError::PhFsimPuk => "PH-FSIM PUK required",
            CmeError::SimNotInserted => "SIM not inserted",
            CmeError::SimPin => "SIM PIN required",
            CmeError::SimPuk => "SIM PUK required",
            CmeError::SimFailure => "SIM failure",
            CmeError::SimBusy => "SIM busy",
            CmeError::SimWrong => "SIM wrong",
            CmeError::IncorrectPassword => "Incorrect password",
            CmeError::SimPin2 => "SIM PIN2 required",
            CmeError::SimPuk2 => "SIM PUK2 required",
            CmeError::MemoryFull => "Memory full",
            CmeError::InvalidIndex => "Invalid index",
            CmeError::NotFound => "Not found",
            CmeError::MemoryFailure => "Memory failure",
            CmeError::TextTooLong => "Text string too long",
            CmeError::InvalidChars => "Invalid characters in text string",
            CmeError::DialStringTooLong => "Dial string too long",
            CmeError::DialStringInvalid => "Invalid characters in dial string",
            CmeError::NoNetwork => "No network service",
            CmeError::NetworkTimeout => "Network timeout",
            CmeError::NetworkNotAllowed => "Network not allowed - emergency calls only",
            CmeError::NetworkPin => "Network personalization PIN required",
            CmeError::NetworkPuk => "Network personalization PUK required",
            CmeError::NetworkSubsetPin => "Network subset personalization PIN required",
            CmeError::NetworkSubsetPuk => "Network subset personalization PUK required",
            CmeError::ServicePin => "Service provider personalization PIN required",
            CmeError::ServicePuk => "Service provider personalization PUK required",
            CmeError::CorpPin => "Corporate personalization PIN required",
            CmeError::CorpPuk => "Corporate personalization PUK required",
            CmeError::HiddenKeyRequired => "Hidden key required",
            CmeError::EapMethodNotSupported => "EAP method not supported",
            CmeError::IncorrectParameters => "Incorrect parameters",
            CmeError::CommandDisabled => "Command disabled",
            CmeError::CommandAborted => "Command aborted",
            CmeError::NotAttachedRestricted => "Not attached] restricted",
            CmeError::NotAllowedEmergencyOnly => "Not allowed] emergency only",
            CmeError::NotAllowedRestricted => "Not allowed] restricted",
            CmeError::FixedDialNumberOnly => "Fixed dial number only",
            CmeError::TemporarilyOutOfService => "Temporarily out of service",
            CmeError::LanguageOrAlphabetNotSupported => "Language or alphabet not supported",
            CmeError::UnexpectedDataValue => "Unexpected data value",
            CmeError::SystemFailure => "System failure",
            CmeError::DataMissing => "Data missing",
            CmeError::CallBarred => "Call barred",
            CmeError::MessageWaitingIndicationSubscriptionFailure => "Message waiting indication subscription failure",
            CmeError::Unknown => "Unknown error",
            CmeError::ImsiUnknownInHss => "IMSI unknown in HLR/HSS",
            CmeError::IllegalUe => "Illegal MS/UE",
            CmeError::ImsiUnknownInVlr => "IMSI unknown in VLR",
            CmeError::ImeiNotAccepted => "IMEI not accepted",
            CmeError::IllegalMe => "Illegal ME",
            CmeError::PsServicesNotAllowed => "PS services not allowed",
            CmeError::PsAndNonPsServicesNotAllowed => "PS and non-PS services not allowed",
            CmeError::UeIdentityNotDerivedFromNetwork => "UE identity not derived from network",
            CmeError::ImplicitlyDetached => "Implicitly detached",
            CmeError::PlmnNotAllowed => "PLMN not allowed",
            CmeError::AreaNotAllowed => "Location/tracking area not allowed",
            CmeError::RoamingNotAllowedInArea => "Roaming not allowed in this location/tracking area",
            CmeError::PsServicesNotAllowedInPlmn => "PS services not allowed in PLMN",
            CmeError::NoCellsInArea => "No cells in location/tracking area",
            CmeError::MscTemporarilyNotReachable => "MSC temporarily not reachable",
            CmeError::NetworkFailureAttach => "Network failure (attach)",
            CmeError::CsDomainUnavailable => "CS domain unavailable",
            CmeError::EsmFailure => "ESM failure",
            CmeError::Congestion => "Congestion",
            CmeError::MbmsBearerCapabilitiesInsufficientForService => "MBMS bearer capabilities insufficient for service",
            CmeError::NotAuthorizedForCsg => "Not authorized for CSG",
            CmeError::InsufficientResources => "Insufficient resources",
            CmeError::MissingOrUnknownApn => "Missing or unknown APN",
            CmeError::UnknownPdpAddressOrType => "Unknown PDP address or type",
            CmeError::UserAuthenticationFailed => "User authentication failed",
            CmeError::ActivationRejectedByGgsnOrGw => "Activation rejected by GGSN or GW",
            CmeError::ActivationRejectedUnspecified => "Activation rejected (unspecified)",
            CmeError::ServiceOptionNotSupported => "Service option not supported",
            CmeError::ServiceOptionNotSubscribed => "Requested service option not subscribed",
            CmeError::ServiceOptionOutOfOrder => "Service option temporarily out of order",
            CmeError::NsapiOrPtiAlreadyInUse => "NSAPI/PTI already in use",
            CmeError::RegularDeactivation => "Regular deactivation",
            CmeError::QosNotAccepted => "QoS not accepted",
            CmeError::CallCannotBeIdentified => "Call cannot be identified",
            CmeError::CsServiceTemporarilyUnavailable => "CS service temporarily unavailable",
            CmeError::FeatureNotSupported => "Feature not supported",
            CmeError::SemanticErrorInTftOperation => "Semantic error in TFT operation",
            CmeError::SyntacticalErrorInTftOperation => "Syntactical error in TFT operation",
            CmeError::UnknownPdpContext => "Unknown PDP context",
            CmeError::SemanticErrorsInPacketFilter => "Semantic error in packet filter",
            CmeError::SyntacticalErrorInPacketFilter => "Syntactical error in packet filter",
            CmeError::PdpContextWithoutTftAlreadyActivated => "PDP context without TFT already activated",
            CmeError::MulticastGroupMembershipTimeout => "Multicast group membership timeout",
            CmeError::GprsUnknown => "Unspecified GPRS error",
            CmeError::PdpAuthFailure => "PDP authentication failure",
            CmeError::InvalidMobileClass => "Invalid mobile class",
            CmeError::LastPdnDisconnectionNotAllowedLegacy => "Last PDN disconnection not allowed (legacy)",
            CmeError::LastPdnDisconnectionNotAllowed => "Last PDN disconnection not allowed",
            CmeError::SemanticallyIncorrectMessage => "Semantically incorrect message",
            CmeError::InvalidMandatoryInformation => "Invalid mandatory information",
            CmeError::MessageTypeNotImplemented => "Message type not implemented",
            CmeError::ConditionalIeError => "Conditional IE error",
            CmeError::UnspecifiedProtocolError => "Unspecified protocol error",
            CmeError::OperatorDeterminedBarring => "Operator determined barring",
            CmeError::MaximumNumberOfBearersReached => "Maximum number of PDP/bearer contexts reached",
            CmeError::RequestedApnNotSupported => "Requested APN not supported",
            CmeError::RequestRejectedBcmViolation => "Rejected BCM violation",
            CmeError::UnsupportedQciOr5QiValue => "Unsupported QCI/5QI value",
            CmeError::UserDataViaControlPlaneCongested => "User data via control plane congested",
            CmeError::SmsProvidedViaGprsInRoutingArea => "SMS provided via GPRS in routing area",
            CmeError::InvalidPtiValue => "Invalid PTI value",
            CmeError::NoBearerActivated => "No bearer activated",
            CmeError::MessageNotCompatibleWithProtocolState => "Message not compatible with protocol state",
            CmeError::RecoveryOnTimerExpiry => "Recovery on timer expiry",
            CmeError::InvalidTransactionIdValue => "Invalid transaction ID value",
            CmeError::ServiceOptionNotAuthorizedInPlmn => "Service option not authorized in PLMN",
            CmeError::NetworkFailureActivation => "Network failure (activation)",
            CmeError::ReactivationRequested => "Reactivation requested",
            CmeError::Ipv4OnlyAllowed => "IPv4 only allowed",
            CmeError::Ipv6OnlyAllowed => "IPv6 only allowed",
            CmeError::SingleAddressBearersOnlyAllowed => "Single address bearers only allowed",
            CmeError::CollisionWithNetworkInitiatedRequest => "Collision with network initiated request",
            CmeError::Ipv4V6OnlyAllowed => "IPv4v6 only allowed",
            CmeError::NonIpOnlyAllowed => "Non-IP only allowed",
            CmeError::BearerHandlingUnsupported => "Bearer handling unsupported",
            CmeError::ApnRestrictionIncompatible => "APN restriction incompatible",
            CmeError::MultipleAccessToPdnConnectionNotAllowed => "Multiple access to PDN connection not allowed",
            CmeError::EsmInformationNotReceived => "ESM information not received",
            CmeError::PdnConnectionNonexistent => "PDN connection nonexistent",
            CmeError::MultiplePdnConnectionSameApnNotAllowed => "Multiple PDN connection to same APN not allowed",
            CmeError::SevereNetworkFailure => "Severe network failure",
            CmeError::InsufficientResourcesForSliceAndDnn => "Insufficient resources for slice and DNN",
            CmeError::UnsupportedSscMode => "Unsupported SSC mode",
            CmeError::InsufficientResourcesForSlice => "Insufficient resources for slice",
            CmeError::MessageTypeNotCompatibleWithProtocolState => "Message type not compatible with protocol state",
            CmeError::IeNotImplemented => "IE not implemented",
            CmeError::N1ModeNotAllowed => "N1 mode not allowed",
            CmeError::RestrictedServiceArea => "Restricted service area",
            CmeError::LadnUnavailable => "LADN unavailable",
            CmeError::MissingOrUnknownDnnInSlice => "Missing or unknown DNN in slice",
            CmeError::NgksiAlreadyInUse => "ngKSI already in use",
            CmeError::PayloadNotForwarded => "Payload not forwarded",
            CmeError::Non3GppAccessTo5GcnNotAllowed => "Non-3GPP access to 5GCN not allowed",
            CmeError::ServingNetworkNotAuthorized => "Serving network not authorized",
            CmeError::DnnNotSupportedInSlice => "DNN not supported in slice",
            CmeError::InsufficientUserPlaneResourcesForPduSessio => "Insufficient user plane resources for PDU session",
            CmeError::OutOfLadnServiceArea => "Out of LADN service area",
            CmeError::PtiMismatch => "PTI mismatch",
            CmeError::MaxDataRateForUserPlaneIntegrityTooLow => "Max data rate for user plane integrity too low",
            CmeError::SemanticErrorInQosOperation => "Semantic error in QoS operation",
            CmeError::SyntacticalErrorInQosOperation => "Syntactical error in QoS operation",
            CmeError::InvalidMappedEpsBearerIdentity => "Invalid mapped EPS bearer identity",
            CmeError::RedirectionTo5GcnRequired => "Redirection to 5GCN required",
            CmeError::RedirectionToEpcRequired => "Redirection to EPC required",
            CmeError::TemporarilyUnauthorizedForSnpn => "Temporarily unauthorized for SNPN",
            CmeError::PermanentlyUnauthorizedForSnpn => "Permanently unauthorized for SNPN",
            CmeError::EthernetOnlyAllowed => "Ethernet only allowed",
            CmeError::UnauthorizedForCag => "Unauthorized for CAG",
            CmeError::NoNetworkSlicesAvailable => "No network slices available",
            CmeError::WirelineAccessAreaNotAllowed => "Wireline access area not allowed",
            CmeError::Reserved(_) => "Unknown reserved error",
            CmeError::ManufacturerSpecific(_) => "Manufacturer specific error",
        }
    }
}

/// The text of an error as it is shown: its message, followed by a space and
/// the number for an error that carries one.
pub open spec fn cme_error_text(e: CmeError) -> Seq<char> {
    match e {
        CmeError::Reserved(n) => numbered_text(cme_error_message(e), n as nat),
        CmeError::ManufacturerSpecific(n) => numbered_text(cme_error_message(e), n as nat),
        _ => cme_error_message(e),
    }
}

impl CmeError {
    /// The error as text, such as "Unknown reserved error 99".
    pub fn to_string(&self) -> (s: String)
        ensures
            s@ == cme_error_text(*self),
    {
        match self {
            CmeError::Reserved(n) | CmeError::ManufacturerSpecific(n) => numbered_string(
                self.message(),
                *n,
            ),
            _ => String::from_str(self.message()),
        }
    }
}

/// The bytes of an ASCII text, one per character.
pub open spec fn ascii_bytes(t: Seq<char>) -> Seq<u8> {
    t.map_values(|c: char| (c as u32) as u8)
}

/// The UTF-8 encoding of an ASCII text is its bytes, one per character.
pub proof fn lemma_encode_ascii(t: Seq<char>)
    requires
        forall|i: int| 0 <= i < t.len() ==> (t[i] as u32) < 128,
    ensures
        encode_utf8(t) == ascii_bytes(t),
    decreases t.len(),
{
    if t.len() > 0 {
        lemma_encode_ascii(t.drop_first());
        let v = t[0] as u32;
        assert(v < 128);
        assert((v & 0x7F) as u8 == v as u8) by (bit_vector)
            requires
                v < 128,
        ;
        assert(ascii_bytes(t) =~= seq![v as u8] + ascii_bytes(t.drop_first()));
    }
}

/// The errors that a verbose error message names: those `from_msg` knows,
/// and `Unknown`.
pub open spec fn cme_error_named_by_message(e: CmeError) -> bool {
        ||| e is PhoneFailure
        ||| e is NoConnection
        ||| e is LinkReserved
        ||| e is NotAllowed
        ||| e is NotSupported
        ||| e is SimNotInserted
        ||| e is SimPin
        ||| e is SimPuk
        ||| e is SimFailure
        ||| e is SimBusy
        ||| e is SimWrong
        ||| e is IncorrectPassword
        ||| e is NotFound
        ||| e is NoNetwork
        ||| e is NetworkTimeout
        ||| e is IncorrectParameters
        ||| e is Unknown
}

/// Reading back the text of an error that a verbose message names, as its
/// UTF-8 bytes, gives that error again.
pub proof fn lemma_cme_error_from_own_message(e: CmeError)
    requires
        cme_error_named_by_message(e),
    ensures
        cme_error_from_msg(encode_utf8(cme_error_text(e))) == e,
{
    match e {
        CmeError::PhoneFailure => {
            reveal_strlit("Phone failure");
            assert(forall|i: int| 0 <= i < cme_error_message(e).len() ==> (cme_error_message(e)[i] as u32) < 128);
            lemma_encode_ascii(cme_error_message(e));
            assert(ascii_bytes(cme_error_message(e)) =~= seq![80u8, 104u8, 111u8, 110u8, 101u8, 32u8, 102u8, 97u8, 105u8, 108u8, 117u8, 114u8, 101u8]);
        },
        CmeError::NoConnection => {
            reveal_strlit("No connection to phone");
            assert(forall|i: int| 0 <= i < cme_error_message(e).len() ==> (cme_error_message(e)[i] as u32) < 128);
            lemma_encode_ascii(cme_error_message(e));
            assert(ascii_bytes(cme_error_message(e)) =~= seq![78u8, 111u8, 32u8, 99u8, 111u8, 110u8, 110u8, 101u8, 99u8, 116u8, 105u8, 111u8, 110u8, 32u8, 116u8, 111u8, 32u8, 112u8, 104u8, 111u8, 110u8, 101u8]);
        },
        CmeError::LinkReserved => {
            reveal_strlit("Phone-adaptor link reserved");
            assert(forall|i: int| 0 <= i < cme_error_message(e).len() ==> (cme_error_message(e)[i] as u32) < 128);
            lemma_encode_ascii(cme_error_message(e));
            assert(ascii_bytes(cme_error_message(e)) =~= seq![80u8, 104u8, 111u8, 110u8, 101u8, 45u8, 97u8, 100u8, 97u8, 112u8, 116u8, 111u8, 114u8, 32u8, 108u8, 105u8, 110u8, 107u8, 32u8, 114u8, 101u8, 115u8, 101u8, 114u8, 118u8, 101u8, 100u8]);
        },
        CmeError::NotAllowed => {
            reveal_strlit("Operation not allowed");
            assert(forall|i: int| 0 <= i < cme_error_message(e).len() ==> (cme_error_message(e)[i] as u32) < 128);
            lemma_encode_ascii(cme_error_message(e));
            assert(ascii_bytes(cme_error_message(e)) =~= seq![79u8, 112u8, 101u8, 114u8, 97u8, 116u8, 105u8, 111u8, 110u8, 32u8, 110u8, 111u8, 116u8, 32u8, 97u8, 108u8, 108u8, 111u8, 119u8, 101u8, 100u8]);
        },
        CmeError::NotSupported => {
            reveal_strlit("Operation not supported");
            assert(forall|i: int| 0 <= i < cme_error_message(e).len() ==> (cme_error_message(e)[i] as u32) < 128);
            lemma_encode_ascii(cme_error_message(e));
            assert(ascii_bytes(cme_error_message(e)) =~= seq![79u8, 112u8, 101u8, 114u8, 97u8, 116u8, 105u8, 111u8, 110u8, 32u8, 110u8, 111u8, 116u8, 32u8, 115u8, 117u8, 112u8, 112u8, 111u8, 114u8, 116u8, 101u8, 100u8]);
        },
        CmeError::SimNotInserted => {
            reveal_strlit("SIM not inserted");
            assert(forall|i: int| 0 <= i < cme_error_message(e).len() ==> (cme_error_message(e)[i] as u32) < 128);
            lemma_encode_ascii(cme_error_message(e));
            assert(ascii_bytes(cme_error_message(e)) =~= seq![83u8, 73u8, 77u8, 32u8, 110u8, 111u8, 116u8, 32u8, 105u8, 110u8, 115u8, 101u8, 114u8, 116u8, 101u8, 100u8]);
        },
        CmeError::SimPin => {
            reveal_strlit("SIM PIN required");
            assert(forall|i: int| 0 <= i < cme_error_message(e).len() ==> (cme_error_message(e)[i] as u32) < 128);
            lemma_encode_ascii(cme_error_message(e));
            assert(ascii_bytes(cme_error_message(e)) =~= seq![83u8, 73u8, 77u8, 32u8, 80u8, 73u8, 78u8, 32u8, 114u8, 101u8, 113u8, 117u8, 105u8, 114u8, 101u8, 100u8]);
        },
        CmeError::SimPuk => {
            reveal_strlit("SIM PUK required");
            assert(forall|i: int| 0 <= i < cme_error_message(e).len() ==> (cme_error_message(e)[i] as u32) < 128);
            lemma_encode_ascii(cme_error_message(e));
            assert(ascii_bytes(cme_error_message(e)) =~= seq![83u8, 73u8, 77u8, 32u8, 80u8, 85u8, 75u8, 32u8, 114u8, 101u8, 113u8, 117u8, 105u8, 114u8, 101u8, 100u8]);
        },
        CmeError::SimFailure => {
            reveal_strlit("SIM failure");
            assert(forall|i: int| 0 <= i < cme_error_message(e).len() ==> (cme_error_message(e)[i] as u32) < 128);
            lemma_encode_ascii(cme_error_message(e));
            assert(ascii_bytes(cme_error_message(e)) =~= seq![83u8, 73u8, 77u8, 32u8, 102u8, 97u8, 105u8, 108u8, 117u8, 114u8, 101u8]);
        },
        CmeError::SimBusy => {
            reveal_strlit("SIM busy");
            assert(forall|i: int| 0 <= i < cme_error_message(e).len() ==> (cme_error_message(e)[i] as u32) < 128);
            lemma_encode_ascii(cme_error_message(e));
            assert(ascii_bytes(cme_error_message(e)) =~= seq![83u8, 73u8, 77u8, 32u8, 98u8, 117u8, 115u8, 121u8]);
        },
        CmeError::SimWrong => {
            reveal_strlit("SIM wrong");
            assert(forall|i: int| 0 <= i < cme_error_message(e).len() ==> (cme_error_message(e)[i] as u32) < 128);
            lemma_encode_ascii(cme_error_message(e));
            assert(ascii_bytes(cme_error_message(e)) =~= seq![83u8, 73u8, 77u8, 32u8, 119u8, 114u8, 111u8, 110u8, 103u8]);
        },
        CmeError::IncorrectPassword => {
            reveal_strlit("Incorrect password");
            assert(forall|i: int| 0 <= i < cme_error_message(e).len() ==> (cme_error_message(e)[i] as u32) < 128);
            lemma_encode_ascii(cme_error_message(e));
            assert(ascii_bytes(cme_error_message(e)) =~= seq![73u8, 110u8, 99u8, 111u8, 114u8, 114u8, 101u8, 99u8, 116u8, 32u8, 112u8, 97u8, 115u8, 115u8, 119u8, 111u8, 114u8, 100u8]);
        },
        CmeError::NotFound => {
            reveal_strlit("Not found");
            assert(forall|i: int| 0 <= i < cme_error_message(e).len() ==> (cme_error_message(e)[i] as u32) < 128);
            lemma_encode_ascii(cme_error_message(e));
            assert(ascii_bytes(cme_error_message(e)) =~= seq![78u8, 111u8, 116u8, 32u8, 102u8, 111u8, 117u8, 110u8, 100u8]);
        },
        CmeError::NoNetwork => {
            reveal_strlit("No network service");
            assert(forall|i: int| 0 <= i < cme_error_message(e).len() ==> (cme_error_message(e)[i] as u32) < 128);
            lemma_encode_ascii(cme_error_message(e));
            assert(ascii_bytes(cme_error_message(e)) =~= seq![78u8, 111u8, 32u8, 110u8, 101u8, 116u8, 119u8, 111u8, 114u8, 107u8, 32u8, 115u8, 101u8, 114u8, 118u8, 105u8, 99u8, 101u8]);
        },
        CmeError::NetworkTimeout => {
            reveal_strlit("Network timeout");
            assert(forall|i: int| 0 <= i < cme_error_message(e).len() ==> (cme_error_message(e)[i] as u32) < 128);
            lemma_encode_ascii(cme_error_message(e));
            assert(ascii_bytes(cme_error_message(e)) =~= seq![78u8, 101u8, 116u8, 119u8, 111u8, 114u8, 107u8, 32u8, 116u8, 105u8, 109u8, 101u8, 111u8, 117u8, 116u8]);
        },
        CmeError::IncorrectParameters => {
            reveal_strlit("Incorrect parameters");
            assert(forall|i: int| 0 <= i < cme_error_message(e).len() ==> (cme_error_message(e)[i] as u32) < 128);
            lemma_encode_ascii(cme_error_message(e));
            assert(ascii_bytes(cme_error_message(e)) =~= seq![73u8, 110u8, 99u8, 111u8, 114u8, 114u8, 101u8, 99u8, 116u8, 32u8, 112u8, 97u8, 114u8, 97u8, 109u8, 101u8, 116u8, 101u8, 114u8, 115u8]);
        },
        CmeError::Unknown => {
            reveal_strlit("Unknown error");
            assert(forall|i: int| 0 <= i < cme_error_message(e).len() ==> (cme_error_message(e)[i] as u32) < 128);
            lemma_encode_ascii(cme_error_message(e));
            assert(ascii_bytes(cme_error_message(e)) =~= seq![85u8, 110u8, 107u8, 110u8, 111u8, 119u8, 110u8, 32u8, 101u8, 114u8, 114u8, 111u8, 114u8]);
        },
        _ => {},
    }
}

/// The numbering of the named errors with codes 0 to 108, as the
/// standard assigns them: each code decodes to its error, and each error
/// encodes as its code.
pub proof fn lemma_cme_error_numbering_1()
    ensures
        cme_error_from_code(0) == CmeError::PhoneFailure,
        cme_error_code(CmeError::PhoneFailure) == 0u16,
        cme_error_from_code(1) == CmeError::NoConnection,
        cme_error_code(CmeError::NoConnection) == 1u16,
        cme_error_from_code(2) == CmeError::LinkReserved,
        cme_error_code(CmeError::LinkReserved) == 2u16,
        cme_error_from_code(3) == CmeError::NotAllowed,
        cme_error_code(CmeError::NotAllowed) == 3u16,
        cme_error_from_code(4) == CmeError::NotSupported,
        cme_error_code(CmeError::NotSupported) == 4u16,
        cme_error_from_code(5) == CmeError::PhSimPin,
        cme_error_code(CmeError::PhSimPin) == 5u16,
        cme_error_from_code(6) == CmeError::PhFsimPin,
        cme_error_code(CmeError::PhFsimPin) == 6u16,
        cme_error_from_code(7) == CmeError::PhFsimPuk,
        cme_error_code(CmeError::PhFsimPuk) == 7u16,
        cme_error_from_code(10) == CmeError::SimNotInserted,
        cme_error_code(CmeError::SimNotInserted) == 10u16,
        cme_error_from_code(11) == CmeError::SimPin,
        cme_error_code(CmeError::SimPin) == 11u16,
        cme_error_from_code(12) == CmeError::SimPuk,
        cme_error_code(CmeError::SimPuk) == 12u16,
        cme_error_from_code(13) == CmeError::SimFailure,
        cme_error_code(CmeError::SimFailure) == 13u16,
        cme_error_from_code(14) == CmeError::SimBusy,
        cme_error_code(CmeError::SimBusy) == 14u16,
        cme_error_from_code(15) == CmeError::SimWrong,
        cme_error_code(CmeError::SimWrong) == 15u16,
        cme_error_from_code(16) == CmeError::IncorrectPassword,
        cme_error_code(CmeError::IncorrectPassword) == 16u16,
        cme_error_from_code(17) == CmeError::SimPin2,
        cme_error_code(CmeError::SimPin2) == 17u16,
        cme_error_from_code(18) == CmeError::SimPuk2,
        cme_error_code(CmeError::SimPuk2) == 18u16,
        cme_error_from_code(20) == CmeError::MemoryFull,
        cme_error_code(CmeError::MemoryFull) == 20u16,
        cme_error_from_code(21) == CmeError::InvalidIndex,
        cme_error_code(CmeError::InvalidIndex) == 21u16,
        cme_error_from_code(22) == CmeError::NotFound,
        cme_error_code(CmeError::NotFound) == 22u16,
        cme_error_from_code(23) == CmeError::MemoryFailure,
        cme_error_code(CmeError::MemoryFailure) == 23u16,
        cme_error_from_code(24) == CmeError::TextTooLong,
        cme_error_code(CmeError::TextTooLong) == 24u16,
        cme_error_from_code(25) == CmeError::InvalidChars,
        cme_error_code(CmeError::InvalidChars) == 25u16,
        cme_error_from_code(26) == CmeError::DialStringTooLong,
        cme_error_code(CmeError::DialStringTooLong) == 26u16,
        cme_error_from_code(27) == CmeError::DialStringInvalid,
        cme_error_code(CmeError::DialStringInvalid) == 27u16,
        cme_error_from_code(30) == CmeError::NoNetwork,
        cme_error_code(CmeError::NoNetwork) == 30u16,
        cme_error_from_code(31) == CmeError::NetworkTimeout,
        cme_error_code(CmeError::NetworkTimeout) == 31u16,
        cme_error_from_code(32) == CmeError::NetworkNotAllowed,
        cme_error_code(CmeError::NetworkNotAllowed) == 32u16,
        cme_error_from_code(40) == CmeError::NetworkPin,
        cme_error_code(CmeError::NetworkPin) == 40u16,
        cme_error_from_code(41) == CmeError::NetworkPuk,
        cme_error_code(CmeError::NetworkPuk) == 41u16,
        cme_error_from_code(42) == CmeError::NetworkSubsetPin,
        cme_error_code(CmeError::NetworkSubsetPin) == 42u16,
        cme_error_from_code(43) == CmeError::NetworkSubsetPuk,
        cme_error_code(CmeError::NetworkSubsetPuk) == 43u16,
        cme_error_from_code(44) == CmeError::ServicePin,
        cme_error_code(CmeError::ServicePin) == 44u16,
        cme_error_from_code(45) == CmeError::ServicePuk,
        cme_error_code(CmeError::ServicePuk) == 45u16,
        cme_error_from_code(46) == CmeError::CorpPin,
        cme_error_code(CmeError::CorpPin) == 46u16,
        cme_error_from_code(47) == CmeError::CorpPuk,
        cme_error_code(CmeError::CorpPuk) == 47u16,
        cme_error_from_code(48) == CmeError::HiddenKeyRequired,
        cme_error_code(CmeError::HiddenKeyRequired) == 48u16,
        cme_error_from_code(49) == CmeError::EapMethodNotSupported,
        cme_error_code(CmeError::EapMethodNotSupported) == 49u16,
        cme_error_from_code(50) == CmeError::IncorrectParameters,
        cme_error_code(CmeError::IncorrectParameters) == 50u16,
        cme_error_from_code(51) == CmeError::CommandDisabled,
        cme_error_code(CmeError::CommandDisabled) == 51u16,
        cme_error_from_code(52) == CmeError::CommandAborted,
        cme_error_code(CmeError::CommandAborted) == 52u16,
        cme_error_from_code(53) == CmeError::NotAttachedRestricted,
        cme_error_code(CmeError::NotAttachedRestricted) == 53u16,
        cme_error_from_code(54) == CmeError::NotAllowedEmergencyOnly,
        cme_error_code(CmeError::NotAllowedEmergencyOnly) == 54u16,
        cme_error_from_code(55) == CmeError::NotAllowedRestricted,
        cme_error_code(CmeError::NotAllowedRestricted) == 55u16,
        cme_error_from_code(56) == CmeError::FixedDialNumberOnly,
        cme_error_code(CmeError::FixedDialNumberOnly) == 56u16,
        cme_error_from_code(57) == CmeError::TemporarilyOutOfService,
        cme_error_code(CmeError::TemporarilyOutOfService) == 57u16,
        cme_error_from_code(58) == CmeError::LanguageOrAlphabetNotSupported,
        cme_error_code(CmeError::LanguageOrAlphabetNotSupported) == 58u16,
        cme_error_from_code(59) == CmeError::UnexpectedDataValue,
        cme_error_code(CmeError::UnexpectedDataValue) == 59u16,
        cme_error_from_code(60) == CmeError::SystemFailure,
        cme_error_code(CmeError::SystemFailure) == 60u16,
        cme_error_from_code(61) == CmeError::DataMissing,
        cme_error_code(CmeError::DataMissing) == 61u16,
        cme_error_from_code(62) == CmeError::CallBarred,
        cme_error_code(CmeError::CallBarred) == 62u16,
        cme_error_from_code(63) == CmeError::MessageWaitingIndicationSubscriptionFailure,
        cme_error_code(CmeError::MessageWaitingIndicationSubscriptionFailure) == 63u16,
        cme_error_from_code(100) == CmeError::Unknown,
        cme_error_code(CmeError::Unknown) == 100u16,
        cme_error_from_code(102) == CmeError::ImsiUnknownInHss,
        cme_error_code(CmeError::ImsiUnknownInHss) == 102u16,
        cme_error_from_code(103) == CmeError::IllegalUe,
        cme_error_code(CmeError::IllegalUe) == 103u16,
        cme_error_from_code(104) == CmeError::ImsiUnknownInVlr,
        cme_error_code(CmeError::ImsiUnknownInVlr) == 104u16,
        cme_error_from_code(105) == CmeError::ImeiNotAccepted,
        cme_error_code(CmeError::ImeiNotAccepted) == 105u16,
        cme_error_from_code(106) == CmeError::IllegalMe,
        cme_error_code(CmeError::IllegalMe) == 106u16,
        cme_error_from_code(107) == CmeError::PsServicesNotAllowed,
        cme_error_code(CmeError::PsServicesNotAllowed) == 107u16,
        cme_error_from_code(108) == CmeError::PsAndNonPsServicesNotAllowed,
        cme_error_code(CmeError::PsAndNonPsServicesNotAllowed) == 108u16,
{
}

/// The numbering of the named errors with codes 109 to 190, as the
/// standard assigns them: each code decodes to its error, and each error
/// encodes as its code.
pub proof fn lemma_cme_error_numbering_2()
    ensures
        cme_error_from_code(109) == CmeError::UeIdentityNotDerivedFromNetwork,
        cme_error_code(CmeError::UeIdentityNotDerivedFromNetwork) == 109u16,
        cme_error_from_code(110) == CmeError::ImplicitlyDetached,
        cme_error_code(CmeError::ImplicitlyDetached) == 110u16,
        cme_error_from_code(111) == CmeError::PlmnNotAllowed,
        cme_error_code(CmeError::PlmnNotAllowed) == 111u16,
        cme_error_from_code(112) == CmeError::AreaNotAllowed,
        cme_error_code(CmeError::AreaNotAllowed) == 112u16,
        cme_error_from_code(113) == CmeError::RoamingNotAllowedInArea,
        cme_error_code(CmeError::RoamingNotAllowedInArea) == 113u16,
        cme_error_from_code(114) == CmeError::PsServicesNotAllowedInPlmn,
        cme_error_code(CmeError::PsServicesNotAllowedInPlmn) == 114u16,
        cme_error_from_code(115) == CmeError::NoCellsInArea,
        cme_error_code(CmeError::NoCellsInArea) == 115u16,
        cme_error_from_code(116) == CmeError::MscTemporarilyNotReachable,
        cme_error_code(CmeError::MscTemporarilyNotReachable) == 116u16,
        cme_error_from_code(117) == CmeError::NetworkFailureAttach,
        cme_error_code(CmeError::NetworkFailureAttach) == 117u16,
        cme_error_from_code(118) == CmeError::CsDomainUnavailable,
        cme_error_code(CmeError::CsDomainUnavailable) == 118u16,
        cme_error_from_code(119) == CmeError::EsmFailure,
        cme_error_code(CmeError::EsmFailure) == 119u16,
        cme_error_from_code(122) == CmeError::Congestion,
        cme_error_code(CmeError::Congestion) == 122u16,
        cme_error_from_code(124) == CmeError::MbmsBearerCapabilitiesInsufficientForService,
        cme_error_code(CmeError::MbmsBearerCapabilitiesInsufficientForService) == 124u16,
        cme_error_from_code(125) == CmeError::NotAuthorizedForCsg,
        cme_error_code(CmeError::NotAuthorizedForCsg) == 125u16,
        cme_error_from_code(126) == CmeError::InsufficientResources,
        cme_error_code(CmeError::InsufficientResources) == 126u16,
        cme_error_from_code(127) == CmeError::MissingOrUnknownApn,
        cme_error_code(CmeError::MissingOrUnknownApn) == 127u16,
        cme_error_from_code(128) == CmeError::UnknownPdpAddressOrType,
        cme_error_code(CmeError::UnknownPdpAddressOrType) == 128u16,
        cme_error_from_code(129) == CmeError::UserAuthenticationFailed,
        cme_error_code(CmeError::UserAuthenticationFailed) == 129u16,
        cme_error_from_code(130) == CmeError::ActivationRejectedByGgsnOrGw,
        cme_error_code(CmeError::ActivationRejectedByGgsnOrGw) == 130u16,
        cme_error_from_code(131) == CmeError::ActivationRejectedUnspecified,
        cme_error_code(CmeError::ActivationRejectedUnspecified) == 131u16,
        cme_error_from_code(132) == CmeError::ServiceOptionNotSupported,
        cme_error_code(CmeError::ServiceOptionNotSupported) == 132u16,
        cme_error_from_code(133) == CmeError::ServiceOptionNotSubscribed,
        cme_error_code(CmeError::ServiceOptionNotSubscribed) == 133u16,
        cme_error_from_code(134) == CmeError::ServiceOptionOutOfOrder,
        cme_error_code(CmeError::ServiceOptionOutOfOrder) == 134u16,
        cme_error_from_code(135) == CmeError::NsapiOrPtiAlreadyInUse,
        cme_error_code(CmeError::NsapiOrPtiAlreadyInUse) == 135u16,
        cme_error_from_code(136) == CmeError::RegularDeactivation,
        cme_error_code(CmeError::RegularDeactivation) == 136u16,
        cme_error_from_code(137) == CmeError::QosNotAccepted,
        cme_error_code(CmeError::QosNotAccepted) == 137u16,
        cme_error_from_code(138) == CmeError::CallCannotBeIdentified,
        cme_error_code(CmeError::CallCannotBeIdentified) == 138u16,
        cme_error_from_code(139) == CmeError::CsServiceTemporarilyUnavailable,
        cme_error_code(CmeError::CsServiceTemporarilyUnavailable) == 139u16,
        cme_error_from_code(140) == CmeError::FeatureNotSupported,
        cme_error_code(CmeError::FeatureNotSupported) == 140u16,
        cme_error_from_code(141) == CmeError::SemanticErrorInTftOperation,
        cme_error_code(CmeError::SemanticErrorInTftOperation) == 141u16,
        cme_error_from_code(142) == CmeError::SyntacticalErrorInTftOperation,
        cme_error_code(CmeError::SyntacticalErrorInTftOperation) == 142u16,
        cme_error_from_code(143) == CmeError::UnknownPdpContext,
        cme_error_code(CmeError::UnknownPdpContext) == 143u16,
        cme_error_from_code(144) == CmeError::SemanticErrorsInPacketFilter,
        cme_error_code(CmeError::SemanticErrorsInPacketFilter) == 144u16,
        cme_error_from_code(145) == CmeError::SyntacticalErrorInPacketFilter,
        cme_error_code(CmeError::SyntacticalErrorInPacketFilter) == 145u16,
        cme_error_from_code(146) == CmeError::PdpContextWithoutTftAlreadyActivated,
        cme_error_code(CmeError::PdpContextWithoutTftAlreadyActivated) == 146u16,
        cme_error_from_code(147) == CmeError::MulticastGroupMembershipTimeout,
        cme_error_code(CmeError::MulticastGroupMembershipTimeout) == 147u16,
        cme_error_from_code(148) == CmeError::GprsUnknown,
        cme_error_code(CmeError::GprsUnknown) == 148u16,
        cme_error_from_code(149) == CmeError::PdpAuthFailure,
        cme_error_code(CmeError::PdpAuthFailure) == 149u16,
        cme_error_from_code(150) == CmeError::InvalidMobileClass,
        cme_error_code(CmeError::InvalidMobileClass) == 150u16,
        cme_error_from_code(151) == CmeError::LastPdnDisconnectionNotAllowedLegacy,
        cme_error_code(CmeError::LastPdnDisconnectionNotAllowedLegacy) == 151u16,
        cme_error_from_code(171) == CmeError::LastPdnDisconnectionNotAllowed,
        cme_error_code(CmeError::LastPdnDisconnectionNotAllowed) == 171u16,
        cme_error_from_code(172) == CmeError::SemanticallyIncorrectMessage,
        cme_error_code(CmeError::SemanticallyIncorrectMessage) == 172u16,
        cme_error_from_code(173) == CmeError::InvalidMandatoryInformation,
        cme_error_code(CmeError::InvalidMandatoryInformation) == 173u16,
        cme_error_from_code(174) == CmeError::MessageTypeNotImplemented,
        cme_error_code(CmeError::MessageTypeNotImplemented) == 174u16,
        cme_error_from_code(175) == CmeError::ConditionalIeError,
        cme_error_code(CmeError::ConditionalIeError) == 175u16,
        cme_error_from_code(176) == CmeError::UnspecifiedProtocolError,
        cme_error_code(CmeError::UnspecifiedProtocolError) == 176u16,
        cme_error_from_code(177) == CmeError::OperatorDeterminedBarring,
        cme_error_code(CmeError::OperatorDeterminedBarring) == 177u16,
        cme_error_from_code(178) == CmeError::MaximumNumberOfBearersReached,
        cme_error_code(CmeError::MaximumNumberOfBearersReached) == 178u16,
        cme_error_from_code(179) == CmeError::RequestedApnNotSupported,
        cme_error_code(CmeError::RequestedApnNotSupported) == 179u16,
        cme_error_from_code(180) == CmeError::RequestRejectedBcmViolation,
        cme_error_code(CmeError::RequestRejectedBcmViolation) == 180u16,
        cme_error_from_code(181) == CmeError::UnsupportedQciOr5QiValue,
        cme_error_code(CmeError::UnsupportedQciOr5QiValue) == 181u16,
        cme_error_from_code(182) == CmeError::UserDataViaControlPlaneCongested,
        cme_error_code(CmeError::UserDataViaControlPlaneCongested) == 182u16,
        cme_error_from_code(183) == CmeError::SmsProvidedViaGprsInRoutingArea,
        cme_error_code(CmeError::SmsProvidedViaGprsInRoutingArea) == 183u16,
        cme_error_from_code(184) == CmeError::InvalidPtiValue,
        cme_error_code(CmeError::InvalidPtiValue) == 184u16,
        cme_error_from_code(185) == CmeError::NoBearerActivated,
        cme_error_code(CmeError::NoBearerActivated) == 185u16,
        cme_error_from_code(186) == CmeError::MessageNotCompatibleWithProtocolState,
        cme_error_code(CmeError::MessageNotCompatibleWithProtocolState) == 186u16,
        cme_error_from_code(187) == CmeError::RecoveryOnTimerExpiry,
        cme_error_code(CmeError::RecoveryOnTimerExpiry) == 187u16,
        cme_error_from_code(188) == CmeError::InvalidTransactionIdValue,
        cme_error_code(CmeError::InvalidTransactionIdValue) == 188u16,
        cme_error_from_code(189) == CmeError::ServiceOptionNotAuthorizedInPlmn,
        cme_error_code(CmeError::ServiceOptionNotAuthorizedInPlmn) == 189u16,
        cme_error_from_code(190) == CmeError::NetworkFailureActivation,
        cme_error_code(CmeError::NetworkFailureActivation) == 190u16,
{
}

/// The numbering of the named errors with codes 191 to 233, as the
/// standard assigns them: each code decodes to its error, and each error
/// encodes as its code.
pub proof fn lemma_cme_error_numbering_3()
    ensures
        cme_error_from_code(191) == CmeError::ReactivationRequested,
        cme_error_code(CmeError::ReactivationRequested) == 191u16,
        cme_error_from_code(192) == CmeError::Ipv4OnlyAllowed,
        cme_error_code(CmeError::Ipv4OnlyAllowed) == 192u16,
        cme_error_from_code(193) == CmeError::Ipv6OnlyAllowed,
        cme_error_code(CmeError::Ipv6OnlyAllowed) == 193u16,
        cme_error_from_code(194) == CmeError::SingleAddressBearersOnlyAllowed,
        cme_error_code(CmeError::SingleAddressBearersOnlyAllowed) == 194u16,
        cme_error_from_code(195) == CmeError::CollisionWithNetworkInitiatedRequest,
        cme_error_code(CmeError::CollisionWithNetworkInitiatedRequest) == 195u16,
        cme_error_from_code(196) == CmeError::Ipv4V6OnlyAllowed,
        cme_error_code(CmeError::Ipv4V6OnlyAllowed) == 196u16,
        cme_error_from_code(197) == CmeError::NonIpOnlyAllowed,
        cme_error_code(CmeError::NonIpOnlyAllowed) == 197u16,
        cme_error_from_code(198) == CmeError::BearerHandlingUnsupported,
        cme_error_code(CmeError::BearerHandlingUnsupported) == 198u16,
        cme_error_from_code(199) == CmeError::ApnRestrictionIncompatible,
        cme_error_code(CmeError::ApnRestrictionIncompatible) == 199u16,
        cme_error_from_code(200) == CmeError::MultipleAccessToPdnConnectionNotAllowed,
        cme_error_code(CmeError::MultipleAccessToPdnConnectionNotAllowed) == 200u16,
        cme_error_from_code(201) == CmeError::EsmInformationNotReceived,
        cme_error_code(CmeError::EsmInformationNotReceived) == 201u16,
        cme_error_from_code(202) == CmeError::PdnConnectionNonexistent,
        cme_error_code(CmeError::PdnConnectionNonexistent) == 202u16,
        cme_error_from_code(203) == CmeError::MultiplePdnConnectionSameApnNotAllowed,
        cme_error_code(CmeError::MultiplePdnConnectionSameApnNotAllowed) == 203u16,
        cme_error_from_code(204) == CmeError::SevereNetworkFailure,
        cme_error_code(CmeError::SevereNetworkFailure) == 204u16,
        cme_error_from_code(205) == CmeError::InsufficientResourcesForSliceAndDnn,
        cme_error_code(CmeError::InsufficientResourcesForSliceAndDnn) == 205u16,
        cme_error_from_code(206) == CmeError::UnsupportedSscMode,
        cme_error_code(CmeError::UnsupportedSscMode) == 206u16,
        cme_error_from_code(207) == CmeError::InsufficientResourcesForSlice,
        cme_error_code(CmeError::InsufficientResourcesForSlice) == 207u16,
        cme_error_from_code(208) == CmeError::MessageTypeNotCompatibleWithProtocolState,
        cme_error_code(CmeError::MessageTypeNotCompatibleWithProtocolState) == 208u16,
        cme_error_from_code(209) == CmeError::IeNotImplemented,
        cme_error_code(CmeError::IeNotImplemented) == 209u16,
        cme_error_from_code(210) == CmeError::N1ModeNotAllowed,
        cme_error_code(CmeError::N1ModeNotAllowed) == 210u16,
        cme_error_from_code(211) == CmeError::RestrictedServiceArea,
        cme_error_code(CmeError::RestrictedServiceArea) == 211u16,
        cme_error_from_code(212) == CmeError::LadnUnavailable,
        cme_error_code(CmeError::LadnUnavailable) == 212u16,
        cme_error_from_code(213) == CmeError::MissingOrUnknownDnnInSlice,
        cme_error_code(CmeError::MissingOrUnknownDnnInSlice) == 213u16,
        cme_error_from_code(214) == CmeError::NgksiAlreadyInUse,
        cme_error_code(CmeError::NgksiAlreadyInUse) == 214u16,
        cme_error_from_code(215) == CmeError::PayloadNotForwarded,
        cme_error_code(CmeError::PayloadNotForwarded) == 215u16,
        cme_error_from_code(216) == CmeError::Non3GppAccessTo5GcnNotAllowed,
        cme_error_code(CmeError::Non3GppAccessTo5GcnNotAllowed) == 216u16,
        cme_error_from_code(217) == CmeError::ServingNetworkNotAuthorized,
        cme_error_code(CmeError::ServingNetworkNotAuthorized) == 217u16,
        cme_error_from_code(218) == CmeError::DnnNotSupportedInSlice,
        cme_error_code(CmeError::DnnNotSupportedInSlice) == 218u16,
        cme_error_from_code(219) == CmeError::InsufficientUserPlaneResourcesForPduSessio,
        cme_error_code(CmeError::InsufficientUserPlaneResourcesForPduSessio) == 219u16,
        cme_error_from_code(220) == CmeError::OutOfLadnServiceArea,
        cme_error_code(CmeError::OutOfLadnServiceArea) == 220u16,
        cme_error_from_code(221) == CmeError::PtiMismatch,
        cme_error_code(CmeError::PtiMismatch) == 221u16,
        cme_error_from_code(222) == CmeError::MaxDataRateForUserPlaneIntegrityTooLow,
        cme_error_code(CmeError::MaxDataRateForUserPlaneIntegrityTooLow) == 222u16,
        cme_error_from_code(223) == CmeError::SemanticErrorInQosOperation,
        cme_error_code(CmeError::SemanticErrorInQosOperation) == 223u16,
        cme_error_from_code(224) == CmeError::SyntacticalErrorInQosOperation,
        cme_error_code(CmeError::SyntacticalErrorInQosOperation) == 224u16,
        cme_error_from_code(225) == CmeError::InvalidMappedEpsBearerIdentity,
        cme_error_code(CmeError::InvalidMappedEpsBearerIdentity) == 225u16,
        cme_error_from_code(226) == CmeError::RedirectionTo5GcnRequired,
        cme_error_code(CmeError::RedirectionTo5GcnRequired) == 226u16,
        cme_error_from_code(227) == CmeError::RedirectionToEpcRequired,
        cme_error_code(CmeError::RedirectionToEpcRequired) == 227u16,
        cme_error_from_code(228) == CmeError::TemporarilyUnauthorizedForSnpn,
        cme_error_code(CmeError::TemporarilyUnauthorizedForSnpn) == 228u16,
        cme_error_from_code(229) == CmeError::PermanentlyUnauthorizedForSnpn,
        cme_error_code(CmeError::PermanentlyUnauthorizedForSnpn) == 229u16,
        cme_error_from_code(230) == CmeError::EthernetOnlyAllowed,
        cme_error_code(CmeError::EthernetOnlyAllowed) == 230u16,
        cme_error_from_code(231) == CmeError::UnauthorizedForCag,
        cme_error_code(CmeError::UnauthorizedForCag) == 231u16,
        cme_error_from_code(232) == CmeError::NoNetworkSlicesAvailable,
        cme_error_code(CmeError::NoNetworkSlicesAvailable) == 232u16,
        cme_error_from_code(233) == CmeError::WirelineAccessAreaNotAllowed,
        cme_error_code(CmeError::WirelineAccessAreaNotAllowed) == 233u16,
{
}

/// Codes from 256 on are manufacturer specific; a code below that which the
/// standard does not name is reserved, and keeps its number.
pub proof fn lemma_cme_error_numbering_ranges(v: u16)
    ensures
        v >= 256 ==> cme_error_from_code(v) == CmeError::ManufacturerSpecific(v),
        v < 256 ==> !(cme_error_from_code(v) is ManufacturerSpecific),
        cme_error_from_code(v) matches CmeError::Reserved(x) ==> x == v && v < 256,
{
}

} // verus!
