//! The enumerations and nested records that a payment attempt holds, their
//! canonical defaults and their canonical JSON text.
use vstd::prelude::*;

use crate::entropy::{true_coins, Draw, Source};
use crate::json::{
    Canonical,
    canonical_json_of, datetime_text, decimal, json_canonical, json_datetime, json_i64, json_str,
    json_string_of,
};
use crate::randr::Randr;
use crate::timestamp::Timestamp;

verus! {

#[derive(Clone, Copy, Debug, PartialEq, Eq, Hash)]
pub enum AttemptStatus {
    Started,
    AuthenticationFailed,
    RouterDeclined,
    AuthenticationPending,
    AuthenticationSuccessful,
    Authorized,
    AuthorizationFailed,
    Charged,
    Authorizing,
    CodInitiated,
    Voided,
    VoidInitiated,
    CaptureInitiated,
    CaptureFailed,
    VoidFailed,
    AutoRefunded,
    PartialCharged,
    PartialChargedAndChargeable,
    Unresolved,
    Pending,
    Failure,
    PaymentMethodAwaited,
    ConfirmationAwaited,
    DeviceDataCollectionPending,
}

impl AttemptStatus {
    /// The name under which the variant is stored.
    pub open spec fn spec_name(&self) -> Seq<char> {
        match self {
            AttemptStatus::Started => "Started"@,
            AttemptStatus::AuthenticationFailed => "AuthenticationFailed"@,
            AttemptStatus::RouterDeclined => "RouterDeclined"@,
            AttemptStatus::AuthenticationPending => "AuthenticationPending"@,
            AttemptStatus::AuthenticationSuccessful => "AuthenticationSuccessful"@,
            AttemptStatus::Authorized => "Authorized"@,
            AttemptStatus::AuthorizationFailed => "AuthorizationFailed"@,
            AttemptStatus::Charged => "Charged"@,
            AttemptStatus::Authorizing => "Authorizing"@,
            AttemptStatus::CodInitiated => "CodInitiated"@,
            AttemptStatus::Voided => "Voided"@,
            AttemptStatus::VoidInitiated => "VoidInitiated"@,
            AttemptStatus::CaptureInitiated => "CaptureInitiated"@,
            AttemptStatus::CaptureFailed => "CaptureFailed"@,
            AttemptStatus::VoidFailed => "VoidFailed"@,
            AttemptStatus::AutoRefunded => "AutoRefunded"@,
            AttemptStatus::PartialCharged => "PartialCharged"@,
            AttemptStatus::PartialChargedAndChargeable => "PartialChargedAndChargeable"@,
            AttemptStatus::Unresolved => "Unresolved"@,
            AttemptStatus::Pending => "Pending"@,
            AttemptStatus::Failure => "Failure"@,
            AttemptStatus::PaymentMethodAwaited => "PaymentMethodAwaited"@,
            AttemptStatus::ConfirmationAwaited => "ConfirmationAwaited"@,
            AttemptStatus::DeviceDataCollectionPending => "DeviceDataCollectionPending"@,
        }
    }

    pub fn name(&self) -> (r: &'static str)
        ensures
            r@ == self.spec_name(),
    {
        match self {
            AttemptStatus::Started => "Started",
            AttemptStatus::AuthenticationFailed => "AuthenticationFailed",
            AttemptStatus::RouterDeclined => "RouterDeclined",
            AttemptStatus::AuthenticationPending => "AuthenticationPending",
            AttemptStatus::AuthenticationSuccessful => "AuthenticationSuccessful",
            AttemptStatus::Authorized => "Authorized",
            AttemptStatus::AuthorizationFailed => "AuthorizationFailed",
            AttemptStatus::Charged => "Charged",
            AttemptStatus::Authorizing => "Authorizing",
            AttemptStatus::CodInitiated => "CodInitiated",
            AttemptStatus::Voided => "Voided",
            AttemptStatus::VoidInitiated => "VoidInitiated",
            AttemptStatus::CaptureInitiated => "CaptureInitiated",
            AttemptStatus::CaptureFailed => "CaptureFailed",
            AttemptStatus::VoidFailed => "VoidFailed",
            AttemptStatus::AutoRefunded => "AutoRefunded",
            AttemptStatus::PartialCharged => "PartialCharged",
            AttemptStatus::PartialChargedAndChargeable => "PartialChargedAndChargeable",
            AttemptStatus::Unresolved => "Unresolved",
            AttemptStatus::Pending => "Pending",
            AttemptStatus::Failure => "Failure",
            AttemptStatus::PaymentMethodAwaited => "PaymentMethodAwaited",
            AttemptStatus::ConfirmationAwaited => "ConfirmationAwaited",
            AttemptStatus::DeviceDataCollectionPending => "DeviceDataCollectionPending",
        }
    }

}

/// The canonical text: the name as a JSON string.
impl Canonical for AttemptStatus {
    open spec fn canonical(&self) -> Seq<char> {
        json_string_of(self.spec_name())
    }

    fn json_text(&self) -> (r: Result<String, serde_json::Error>) {
        json_str(self.name())
    }
}

impl Randr for AttemptStatus {
    open spec fn generated(&self) -> bool {
        *self == AttemptStatus::Started
    }

    open spec fn draws_nothing() -> bool {
        true
    }

    /// A constant: nothing is drawn and the source is left as it was.
    open spec fn drawn_by(&self, before: Seq<Draw>, after: Seq<Draw>, clock: Option<Timestamp>) -> bool {
        after == before
    }

    fn default<S: Source>(src: &mut S) -> (r: Self) {
        let r = AttemptStatus::Started;
        assert(r.drawn_by(old(src).draws(), src.draws(), old(src).fixed_clock()));
        assert(<AttemptStatus as Randr>::draws_nothing());
        r
    }
}

#[derive(Clone, Copy, Debug, PartialEq, Eq, Hash)]
pub enum Currency {
    AED,
    ALL,
    AMD,
    ANG,
    AOA,
    ARS,
    AUD,
    AWG,
    AZN,
    BAM,
    BBD,
    BDT,
    BGN,
    BHD,
    BIF,
    BMD,
    BND,
    BOB,
    BRL,
    BSD,
    BWP,
    BYN,
    BZD,
    CAD,
    CHF,
    CLP,
    CNY,
    COP,
    CRC,
    CUP,
    CVE,
    CZK,
    DJF,
    DKK,
    DOP,
    DZD,
    EGP,
    ETB,
    EUR,
    FJD,
    FKP,
    GBP,
    GEL,
    GHS,
    GIP,
    GMD,
    GNF,
    GTQ,
    GYD,
    HKD,
    HNL,
    HRK,
    HTG,
    HUF,
    IDR,
    ILS,
    INR,
    IQD,
    JMD,
    JOD,
    JPY,
    KES,
    KGS,
    KHR,
    KMF,
    KRW,
    KWD,
    KYD,
    KZT,
    LAK,
    LBP,
    LKR,
    LRD,
    LSL,
    LYD,
    MAD,
    MDL,
    MGA,
    MKD,
    MMK,
    MNT,
    MOP,
    MRU,
    MUR,
    MVR,
    MWK,
    MXN,
    MYR,
    MZN,
    NAD,
    NGN,
    NIO,
    NOK,
    NPR,
    NZD,
    OMR,
    PAB,
    PEN,
    PGK,
    PHP,
    PKR,
    PLN,
    PYG,
    QAR,
    RON,
    RSD,
    RUB,
    RWF,
    SAR,
    SBD,
    SCR,
    SEK,
    SGD,
    SHP,
    SLE,
    SLL,
    SOS,
    SRD,
    SSP,
    STN,
    SVC,
    SZL,
    THB,
    TND,
    TOP,
    TRY,
    TTD,
    TWD,
    TZS,
    UAH,
    UGX,
    USD,
    UYU,
    UZS,
    VES,
    VND,
    VUV,
    WST,
    XAF,
    XCD,
    XOF,
    XPF,
    YER,
    ZAR,
    ZMW,
}

impl Currency {
    /// The name under which the variant is stored.
    pub open spec fn spec_name(&self) -> Seq<char> {
        match self {
            Currency::AED => "AED"@,
            Currency::ALL => "ALL"@,
            Currency::AMD => "AMD"@,
            Currency::ANG => "ANG"@,
            Currency::AOA => "AOA"@,
            Currency::ARS => "ARS"@,
            Currency::AUD => "AUD"@,
            Currency::AWG => "AWG"@,
            Currency::AZN => "AZN"@,
            Currency::BAM => "BAM"@,
            Currency::BBD => "BBD"@,
            Currency::BDT => "BDT"@,
            Currency::BGN => "BGN"@,
            Currency::BHD => "BHD"@,
            Currency::BIF => "BIF"@,
            Currency::BMD => "BMD"@,
            Currency::BND => "BND"@,
            Currency::BOB => "BOB"@,
            Currency::BRL => "BRL"@,
            Currency::BSD => "BSD"@,
            Currency::BWP => "BWP"@,
            Currency::BYN => "BYN"@,
            Currency::BZD => "BZD"@,
            Currency::CAD => "CAD"@,
            Currency::CHF => "CHF"@,
            Currency::CLP => "CLP"@,
            Currency::CNY => "CNY"@,
            Currency::COP => "COP"@,
            Currency::CRC => "CRC"@,
            Currency::CUP => "CUP"@,
            Currency::CVE => "CVE"@,
            Currency::CZK => "CZK"@,
            Currency::DJF => "DJF"@,
            Currency::DKK => "DKK"@,
            Currency::DOP => "DOP"@,
            Currency::DZD => "DZD"@,
            Currency::EGP => "EGP"@,
            Currency::ETB => "ETB"@,
            Currency::EUR => "EUR"@,
            Currency::FJD => "FJD"@,
            Currency::FKP => "FKP"@,
            Currency::GBP => "GBP"@,
            Currency::GEL => "GEL"@,
            Currency::GHS => "GHS"@,
            Currency::GIP => "GIP"@,
            Currency::GMD => "GMD"@,
            Currency::GNF => "GNF"@,
            Currency::GTQ => "GTQ"@,
            Currency::GYD => "GYD"@,
            Currency::HKD => "HKD"@,
            Currency::HNL => "HNL"@,
            Currency::HRK => "HRK"@,
            Currency::HTG => "HTG"@,
            Currency::HUF => "HUF"@,
            Currency::IDR => "IDR"@,
            Currency::ILS => "ILS"@,
            Currency::INR => "INR"@,
            Currency::IQD => "IQD"@,
            Currency::JMD => "JMD"@,
            Currency::JOD => "JOD"@,
            Currency::JPY => "JPY"@,
            Currency::KES => "KES"@,
            Currency::KGS => "KGS"@,
            Currency::KHR => "KHR"@,
            Currency::KMF => "KMF"@,
            Currency::KRW => "KRW"@,
            Currency::KWD => "KWD"@,
            Currency::KYD => "KYD"@,
            Currency::KZT => "KZT"@,
            Currency::LAK => "LAK"@,
            Currency::LBP => "LBP"@,
            Currency::LKR => "LKR"@,
            Currency::LRD => "LRD"@,
            Currency::LSL => "LSL"@,
            Currency::LYD => "LYD"@,
            Currency::MAD => "MAD"@,
            Currency::MDL => "MDL"@,
            Currency::MGA => "MGA"@,
            Currency::MKD => "MKD"@,
            Currency::MMK => "MMK"@,
            Currency::MNT => "MNT"@,
            Currency::MOP => "MOP"@,
            Currency::MRU => "MRU"@,
            Currency::MUR => "MUR"@,
            Currency::MVR => "MVR"@,
            Currency::MWK => "MWK"@,
            Currency::MXN => "MXN"@,
            Currency::MYR => "MYR"@,
            Currency::MZN => "MZN"@,
            Currency::NAD => "NAD"@,
            Currency::NGN => "NGN"@,
            Currency::NIO => "NIO"@,
            Currency::NOK => "NOK"@,
            Currency::NPR => "NPR"@,
            Currency::NZD => "NZD"@,
            Currency::OMR => "OMR"@,
            Currency::PAB => "PAB"@,
            Currency::PEN => "PEN"@,
            Currency::PGK => "PGK"@,
            Currency::PHP => "PHP"@,
            Currency::PKR => "PKR"@,
            Currency::PLN => "PLN"@,
            Currency::PYG => "PYG"@,
            Currency::QAR => "QAR"@,
            Currency::RON => "RON"@,
            Currency::RSD => "RSD"@,
            Currency::RUB => "RUB"@,
            Currency::RWF => "RWF"@,
            Currency::SAR => "SAR"@,
            Currency::SBD => "SBD"@,
            Currency::SCR => "SCR"@,
            Currency::SEK => "SEK"@,
            Currency::SGD => "SGD"@,
            Currency::SHP => "SHP"@,
            Currency::SLE => "SLE"@,
            Currency::SLL => "SLL"@,
            Currency::SOS => "SOS"@,
            Currency::SRD => "SRD"@,
            Currency::SSP => "SSP"@,
            Currency::STN => "STN"@,
            Currency::SVC => "SVC"@,
            Currency::SZL => "SZL"@,
            Currency::THB => "THB"@,
            Currency::TND => "TND"@,
            Currency::TOP => "TOP"@,
            Currency::TRY => "TRY"@,
            Currency::TTD => "TTD"@,
            Currency::TWD => "TWD"@,
            Currency::TZS => "TZS"@,
            Currency::UAH => "UAH"@,
            Currency::UGX => "UGX"@,
            Currency::USD => "USD"@,
            Currency::UYU => "UYU"@,
            Currency::UZS => "UZS"@,
            Currency::VES => "VES"@,
            Currency::VND => "VND"@,
            Currency::VUV => "VUV"@,
            Currency::WST => "WST"@,
            Currency::XAF => "XAF"@,
            Currency::XCD => "XCD"@,
            Currency::XOF => "XOF"@,
            Currency::XPF => "XPF"@,
            Currency::YER => "YER"@,
            Currency::ZAR => "ZAR"@,
            Currency::ZMW => "ZMW"@,
        }
    }

    pub fn name(&self) -> (r: &'static str)
        ensures
            r@ == self.spec_name(),
    {
        match self {
            Currency::AED => "AED",
            Currency::ALL => "ALL",
            Currency::AMD => "AMD",
            Currency::ANG => "ANG",
            Currency::AOA => "AOA",
            Currency::ARS => "ARS",
            Currency::AUD => "AUD",
            Currency::AWG => "AWG",
            Currency::AZN => "AZN",
            Currency::BAM => "BAM",
            Currency::BBD => "BBD",
            Currency::BDT => "BDT",
            Currency::BGN => "BGN",
            Currency::BHD => "BHD",
            Currency::BIF => "BIF",
            Currency::BMD => "BMD",
            Currency::BND => "BND",
            Currency::BOB => "BOB",
            Currency::BRL => "BRL",
            Currency::BSD => "BSD",
            Currency::BWP => "BWP",
            Currency::BYN => "BYN",
            Currency::BZD => "BZD",
            Currency::CAD => "CAD",
            Currency::CHF => "CHF",
            Currency::CLP => "CLP",
            Currency::CNY => "CNY",
            Currency::COP => "COP",
            Currency::CRC => "CRC",
            Currency::CUP => "CUP",
            Currency::CVE => "CVE",
            Currency::CZK => "CZK",
            Currency::DJF => "DJF",
            Currency::DKK => "DKK",
            Currency::DOP => "DOP",
            Currency::DZD => "DZD",
            Currency::EGP => "EGP",
            Currency::ETB => "ETB",
            Currency::EUR => "EUR",
            Currency::FJD => "FJD",
            Currency::FKP => "FKP",
            Currency::GBP => "GBP",
            Currency::GEL => "GEL",
            Currency::GHS => "GHS",
            Currency::GIP => "GIP",
            Currency::GMD => "GMD",
            Currency::GNF => "GNF",
            Currency::GTQ => "GTQ",
            Currency::GYD => "GYD",
            Currency::HKD => "HKD",
            Currency::HNL => "HNL",
            Currency::HRK => "HRK",
            Currency::HTG => "HTG",
            Currency::HUF => "HUF",
            Currency::IDR => "IDR",
            Currency::ILS => "ILS",
            Currency::INR => "INR",
            Currency::IQD => "IQD",
            Currency::JMD => "JMD",
            Currency::JOD => "JOD",
            Currency::JPY => "JPY",
            Currency::KES => "KES",
            Currency::KGS => "KGS",
            Currency::KHR => "KHR",
            Currency::KMF => "KMF",
            Currency::KRW => "KRW",
            Currency::KWD => "KWD",
            Currency::KYD => "KYD",
            Currency::KZT => "KZT",
            Currency::LAK => "LAK",
            Currency::LBP => "LBP",
            Currency::LKR => "LKR",
            Currency::LRD => "LRD",
            Currency::LSL => "LSL",
            Currency::LYD => "LYD",
            Currency::MAD => "MAD",
            Currency::MDL => "MDL",
            Currency::MGA => "MGA",
            Currency::MKD => "MKD",
            Currency::MMK => "MMK",
            Currency::MNT => "MNT",
            Currency::MOP => "MOP",
            Currency::MRU => "MRU",
            Currency::MUR => "MUR",
            Currency::MVR => "MVR",
            Currency::MWK => "MWK",
            Currency::MXN => "MXN",
            Currency::MYR => "MYR",
            Currency::MZN => "MZN",
            Currency::NAD => "NAD",
            Currency::NGN => "NGN",
            Currency::NIO => "NIO",
            Currency::NOK => "NOK",
            Currency::NPR => "NPR",
            Currency::NZD => "NZD",
            Currency::OMR => "OMR",
            Currency::PAB => "PAB",
            Currency::PEN => "PEN",
            Currency::PGK => "PGK",
            Currency::PHP => "PHP",
            Currency::PKR => "PKR",
            Currency::PLN => "PLN",
            Currency::PYG => "PYG",
            Currency::QAR => "QAR",
            Currency::RON => "RON",
            Currency::RSD => "RSD",
            Currency::RUB => "RUB",
            Currency::RWF => "RWF",
            Currency::SAR => "SAR",
            Currency::SBD => "SBD",
            Currency::SCR => "SCR",
            Currency::SEK => "SEK",
            Currency::SGD => "SGD",
            Currency::SHP => "SHP",
            Currency::SLE => "SLE",
            Currency::SLL => "SLL",
            Currency::SOS => "SOS",
            Currency::SRD => "SRD",
            Currency::SSP => "SSP",
            Currency::STN => "STN",
            Currency::SVC => "SVC",
            Currency::SZL => "SZL",
            Currency::THB => "THB",
            Currency::TND => "TND",
            Currency::TOP => "TOP",
            Currency::TRY => "TRY",
            Currency::TTD => "TTD",
            Currency::TWD => "TWD",
            Currency::TZS => "TZS",
            Currency::UAH => "UAH",
            Currency::UGX => "UGX",
            Currency::USD => "USD",
            Currency::UYU => "UYU",
            Currency::UZS => "UZS",
            Currency::VES => "VES",
            Currency::VND => "VND",
            Currency::VUV => "VUV",
            Currency::WST => "WST",
            Currency::XAF => "XAF",
            Currency::XCD => "XCD",
            Currency::XOF => "XOF",
            Currency::XPF => "XPF",
            Currency::YER => "YER",
            Currency::ZAR => "ZAR",
            Currency::ZMW => "ZMW",
        }
    }

}

/// The canonical text: the name as a JSON string.
impl Canonical for Currency {
    open spec fn canonical(&self) -> Seq<char> {
        json_string_of(self.spec_name())
    }

    fn json_text(&self) -> (r: Result<String, serde_json::Error>) {
        json_str(self.name())
    }
}

impl Randr for Currency {
    open spec fn generated(&self) -> bool {
        *self == Currency::USD
    }

    open spec fn draws_nothing() -> bool {
        true
    }

    /// A constant: nothing is drawn and the source is left as it was.
    open spec fn drawn_by(&self, before: Seq<Draw>, after: Seq<Draw>, clock: Option<Timestamp>) -> bool {
        after == before
    }

    fn default<S: Source>(src: &mut S) -> (r: Self) {
        let r = Currency::USD;
        assert(r.drawn_by(old(src).draws(), src.draws(), old(src).fixed_clock()));
        assert(<Currency as Randr>::draws_nothing());
        r
    }
}

#[derive(Clone, Copy, Debug, PartialEq, Eq, Hash)]
pub enum PaymentMethod {
    Card,
    Token,
    PaymentProfile,
    Cash,
    Cheque,
    Interac,
    ApplePay,
    AndroidPay,
    ThreeDSecure,
    ProcessorToken,
}

impl PaymentMethod {
    /// The name under which the variant is stored.
    pub open spec fn spec_name(&self) -> Seq<char> {
        match self {
            PaymentMethod::Card => "Card"@,
            PaymentMethod::Token => "Token"@,
            PaymentMethod::PaymentProfile => "PaymentProfile"@,
            PaymentMethod::Cash => "Cash"@,
            PaymentMethod::Cheque => "Cheque"@,
            PaymentMethod::Interac => "Interac"@,
            PaymentMethod::ApplePay => "ApplePay"@,
            PaymentMethod::AndroidPay => "AndroidPay"@,
            PaymentMethod::ThreeDSecure => "3d_secure"@,
            PaymentMethod::ProcessorToken => "ProcessorToken"@,
        }
    }

    pub fn name(&self) -> (r: &'static str)
        ensures
            r@ == self.spec_name(),
    {
        match self {
            PaymentMethod::Card => "Card",
            PaymentMethod::Token => "Token",
            PaymentMethod::PaymentProfile => "PaymentProfile",
            PaymentMethod::Cash => "Cash",
            PaymentMethod::Cheque => "Cheque",
            PaymentMethod::Interac => "Interac",
            PaymentMethod::ApplePay => "ApplePay",
            PaymentMethod::AndroidPay => "AndroidPay",
            PaymentMethod::ThreeDSecure => "3d_secure",
            PaymentMethod::ProcessorToken => "ProcessorToken",
        }
    }

}

/// The canonical text: the name as a JSON string.
impl Canonical for PaymentMethod {
    open spec fn canonical(&self) -> Seq<char> {
        json_string_of(self.spec_name())
    }

    fn json_text(&self) -> (r: Result<String, serde_json::Error>) {
        json_str(self.name())
    }
}

impl Randr for PaymentMethod {
    open spec fn generated(&self) -> bool {
        *self == PaymentMethod::Card
    }

    open spec fn draws_nothing() -> bool {
        true
    }

    /// A constant: nothing is drawn and the source is left as it was.
    open spec fn drawn_by(&self, before: Seq<Draw>, after: Seq<Draw>, clock: Option<Timestamp>) -> bool {
        after == before
    }

    fn default<S: Source>(src: &mut S) -> (r: Self) {
        let r = PaymentMethod::Card;
        assert(r.drawn_by(old(src).draws(), src.draws(), old(src).fixed_clock()));
        assert(<PaymentMethod as Randr>::draws_nothing());
        r
    }
}

#[derive(Clone, Copy, Debug, PartialEq, Eq, Hash)]
pub enum CaptureMethod {
    /// Post the payment authorization, the capture will be executed on the full amount immediately
    Automatic,
    /// The capture will happen only if the merchant triggers a Capture API request
    Manual,
    /// The capture will happen only if the merchant triggers a Capture API request
    ManualMultiple,
    /// The capture can be scheduled to automatically get triggered at a specific date & time
    Scheduled,
}

impl CaptureMethod {
    /// The name under which the variant is stored.
    pub open spec fn spec_name(&self) -> Seq<char> {
        match self {
            CaptureMethod::Automatic => "Automatic"@,
            CaptureMethod::Manual => "Manual"@,
            CaptureMethod::ManualMultiple => "ManualMultiple"@,
            CaptureMethod::Scheduled => "Scheduled"@,
        }
    }

    pub fn name(&self) -> (r: &'static str)
        ensures
            r@ == self.spec_name(),
    {
        match self {
            CaptureMethod::Automatic => "Automatic",
            CaptureMethod::Manual => "Manual",
            CaptureMethod::ManualMultiple => "ManualMultiple",
            CaptureMethod::Scheduled => "Scheduled",
        }
    }

}

/// The canonical text: the name as a JSON string.
impl Canonical for CaptureMethod {
    open spec fn canonical(&self) -> Seq<char> {
        json_string_of(self.spec_name())
    }

    fn json_text(&self) -> (r: Result<String, serde_json::Error>) {
        json_str(self.name())
    }
}

impl Randr for CaptureMethod {
    open spec fn generated(&self) -> bool {
        *self == CaptureMethod::Automatic
    }

    open spec fn draws_nothing() -> bool {
        true
    }

    /// A constant: nothing is drawn and the source is left as it was.
    open spec fn drawn_by(&self, before: Seq<Draw>, after: Seq<Draw>, clock: Option<Timestamp>) -> bool {
        after == before
    }

    fn default<S: Source>(src: &mut S) -> (r: Self) {
        let r = CaptureMethod::Automatic;
        assert(r.drawn_by(old(src).draws(), src.draws(), old(src).fixed_clock()));
        assert(<CaptureMethod as Randr>::draws_nothing());
        r
    }
}

#[derive(Clone, Copy, Debug, PartialEq, Eq, Hash)]
pub enum AuthenticationType {
    /// If the card is enrolled for 3DS authentication, the 3DS based authentication will be activated. The liability of chargeback shift to the issuer
    ThreeDs,
    /// 3DS based authentication will not be activated. The liability of chargeback stays with the merchant.
    NoThreeDs,
}

impl AuthenticationType {
    /// The name under which the variant is stored.
    pub open spec fn spec_name(&self) -> Seq<char> {
        match self {
            AuthenticationType::ThreeDs => "ThreeDs"@,
            AuthenticationType::NoThreeDs => "NoThreeDs"@,
        }
    }

    pub fn name(&self) -> (r: &'static str)
        ensures
            r@ == self.spec_name(),
    {
        match self {
            AuthenticationType::ThreeDs => "ThreeDs",
            AuthenticationType::NoThreeDs => "NoThreeDs",
        }
    }

}

/// The canonical text: the name as a JSON string.
impl Canonical for AuthenticationType {
    open spec fn canonical(&self) -> Seq<char> {
        json_string_of(self.spec_name())
    }

    fn json_text(&self) -> (r: Result<String, serde_json::Error>) {
        json_str(self.name())
    }
}

impl Randr for AuthenticationType {
    open spec fn generated(&self) -> bool {
        *self == AuthenticationType::ThreeDs
    }

    open spec fn draws_nothing() -> bool {
        true
    }

    /// A constant: nothing is drawn and the source is left as it was.
    open spec fn drawn_by(&self, before: Seq<Draw>, after: Seq<Draw>, clock: Option<Timestamp>) -> bool {
        after == before
    }

    fn default<S: Source>(src: &mut S) -> (r: Self) {
        let r = AuthenticationType::ThreeDs;
        assert(r.drawn_by(old(src).draws(), src.draws(), old(src).fixed_clock()));
        assert(<AuthenticationType as Randr>::draws_nothing());
        r
    }
}

#[derive(Clone, Copy, Debug, PartialEq, Eq, Hash)]
pub enum PaymentExperience {
    /// The URL to which the customer needs to be redirected for completing the payment.
    RedirectToUrl,
    /// Contains the data for invoking the sdk client for completing the payment.
    InvokeSdkClient,
    /// The QR code data to be displayed to the customer.
    DisplayQrCode,
    /// Contains data to finish one click payment.
    OneClick,
    /// Redirect customer to link wallet
    LinkWallet,
    /// Contains the data for invoking the sdk client for completing the payment.
    InvokePaymentApp,
    /// Contains the data for displaying wait screen
    DisplayWaitScreen,
}

impl PaymentExperience {
    /// The name under which the variant is stored.
    pub open spec fn spec_name(&self) -> Seq<char> {
        match self {
            PaymentExperience::RedirectToUrl => "RedirectToUrl"@,
            PaymentExperience::InvokeSdkClient => "InvokeSdkClient"@,
            PaymentExperience::DisplayQrCode => "DisplayQrCode"@,
            PaymentExperience::OneClick => "OneClick"@,
            PaymentExperience::LinkWallet => "LinkWallet"@,
            PaymentExperience::InvokePaymentApp => "InvokePaymentApp"@,
            PaymentExperience::DisplayWaitScreen => "DisplayWaitScreen"@,
        }
    }

    pub fn name(&self) -> (r: &'static str)
        ensures
            r@ == self.spec_name(),
    {
        match self {
            PaymentExperience::RedirectToUrl => "RedirectToUrl",
            PaymentExperience::InvokeSdkClient => "InvokeSdkClient",
            PaymentExperience::DisplayQrCode => "DisplayQrCode",
            PaymentExperience::OneClick => "OneClick",
            PaymentExperience::LinkWallet => "LinkWallet",
            PaymentExperience::InvokePaymentApp => "InvokePaymentApp",
            PaymentExperience::DisplayWaitScreen => "DisplayWaitScreen",
        }
    }

}

/// The canonical text: the name as a JSON string.
impl Canonical for PaymentExperience {
    open spec fn canonical(&self) -> Seq<char> {
        json_string_of(self.spec_name())
    }

    fn json_text(&self) -> (r: Result<String, serde_json::Error>) {
        json_str(self.name())
    }
}

impl Randr for PaymentExperience {
    open spec fn generated(&self) -> bool {
        *self == PaymentExperience::RedirectToUrl
    }

    open spec fn draws_nothing() -> bool {
        true
    }

    /// A constant: nothing is drawn and the source is left as it was.
    open spec fn drawn_by(&self, before: Seq<Draw>, after: Seq<Draw>, clock: Option<Timestamp>) -> bool {
        after == before
    }

    fn default<S: Source>(src: &mut S) -> (r: Self) {
        let r = PaymentExperience::RedirectToUrl;
        assert(r.drawn_by(old(src).draws(), src.draws(), old(src).fixed_clock()));
        assert(<PaymentExperience as Randr>::draws_nothing());
        r
    }
}

#[derive(Clone, Copy, Debug, PartialEq, Eq, Hash)]
pub enum PaymentMethodType {
    Ach,
    Affirm,
    AfterpayClearpay,
    Alfamart,
    AliPay,
    AliPayHk,
    Alma,
    ApplePay,
    Atome,
    Bacs,
    BancontactCard,
    Becs,
    Benefit,
    Bizum,
    Blik,
    Boleto,
    BcaBankTransfer,
    BniVa,
    BriVa,
    CardRedirect,
    CimbVa,
    ClassicReward,
    Credit,
    CryptoCurrency,
    Cashapp,
    Dana,
    DanamonVa,
    Debit,
    DuitNow,
    Efecty,
    Eps,
    Fps,
    Evoucher,
    Giropay,
    Givex,
    GooglePay,
    GoPay,
    Gcash,
    Ideal,
    Interac,
    Indomaret,
    Klarna,
    KakaoPay,
    LocalBankRedirect,
    MandiriVa,
    Knet,
    MbWay,
    MobilePay,
    Momo,
    MomoAtm,
    Multibanco,
    OnlineBankingThailand,
    OnlineBankingCzechRepublic,
    OnlineBankingFinland,
    OnlineBankingFpx,
    OnlineBankingPoland,
    OnlineBankingSlovakia,
    Oxxo,
    PagoEfectivo,
    PermataBankTransfer,
    OpenBankingUk,
    PayBright,
    Paypal,
    Pix,
    PaySafeCard,
    Przelewy24,
    PromptPay,
    Pse,
    RedCompra,
    RedPagos,
    SamsungPay,
    Sepa,
    Sofort,
    Swish,
    TouchNGo,
    Trustly,
    Twint,
    UpiCollect,
    UpiIntent,
    Vipps,
    VietQr,
    Venmo,
    Walley,
    WeChatPay,
    SevenEleven,
    Lawson,
    MiniStop,
    FamilyMart,
    Seicomart,
    PayEasy,
    LocalBankTransfer,
    Mifinity,
}

impl PaymentMethodType {
    /// The name under which the variant is stored.
    pub open spec fn spec_name(&self) -> Seq<char> {
        match self {
            PaymentMethodType::Ach => "Ach"@,
            PaymentMethodType::Affirm => "Affirm"@,
            PaymentMethodType::AfterpayClearpay => "AfterpayClearpay"@,
            PaymentMethodType::Alfamart => "Alfamart"@,
            PaymentMethodType::AliPay => "AliPay"@,
            PaymentMethodType::AliPayHk => "AliPayHk"@,
            PaymentMethodType::Alma => "Alma"@,
            PaymentMethodType::ApplePay => "ApplePay"@,
            PaymentMethodType::Atome => "Atome"@,
            PaymentMethodType::Bacs => "Bacs"@,
            PaymentMethodType::BancontactCard => "BancontactCard"@,
            PaymentMethodType::Becs => "Becs"@,
            PaymentMethodType::Benefit => "Benefit"@,
            PaymentMethodType::Bizum => "Bizum"@,
            PaymentMethodType::Blik => "Blik"@,
            PaymentMethodType::Boleto => "Boleto"@,
            PaymentMethodType::BcaBankTransfer => "BcaBankTransfer"@,
            PaymentMethodType::BniVa => "BniVa"@,
            PaymentMethodType::BriVa => "BriVa"@,
            PaymentMethodType::CardRedirect => "CardRedirect"@,
            PaymentMethodType::CimbVa => "CimbVa"@,
            PaymentMethodType::ClassicReward => "classic"@,
            PaymentMethodType::Credit => "Credit"@,
            PaymentMethodType::CryptoCurrency => "CryptoCurrency"@,
            PaymentMethodType::Cashapp => "Cashapp"@,
            PaymentMethodType::Dana => "Dana"@,
            PaymentMethodType::DanamonVa => "DanamonVa"@,
            PaymentMethodType::Debit => "Debit"@,
            PaymentMethodType::DuitNow => "DuitNow"@,
            PaymentMethodType::Efecty => "Efecty"@,
            PaymentMethodType::Eps => "Eps"@,
            PaymentMethodType::Fps => "Fps"@,
            PaymentMethodType::Evoucher => "Evoucher"@,
            PaymentMethodType::Giropay => "Giropay"@,
            PaymentMethodType::Givex => "Givex"@,
            PaymentMethodType::GooglePay => "GooglePay"@,
            PaymentMethodType::GoPay => "GoPay"@,
            PaymentMethodType::Gcash => "Gcash"@,
            PaymentMethodType::Ideal => "Ideal"@,
            PaymentMethodType::Interac => "Interac"@,
            PaymentMethodType::Indomaret => "Indomaret"@,
            PaymentMethodType::Klarna => "Klarna"@,
            PaymentMethodType::KakaoPay => "KakaoPay"@,
            PaymentMethodType::LocalBankRedirect => "LocalBankRedirect"@,
            PaymentMethodType::MandiriVa => "MandiriVa"@,
            PaymentMethodType::Knet => "Knet"@,
            PaymentMethodType::MbWay => "MbWay"@,
            PaymentMethodType::MobilePay => "MobilePay"@,
            PaymentMethodType::Momo => "Momo"@,
            PaymentMethodType::MomoAtm => "MomoAtm"@,
            PaymentMethodType::Multibanco => "Multibanco"@,
            PaymentMethodType::OnlineBankingThailand => "OnlineBankingThailand"@,
            PaymentMethodType::OnlineBankingCzechRepublic => "OnlineBankingCzechRepublic"@,
            PaymentMethodType::OnlineBankingFinland => "OnlineBankingFinland"@,
            PaymentMethodType::OnlineBankingFpx => "OnlineBankingFpx"@,
            PaymentMethodType::OnlineBankingPoland => "OnlineBankingPoland"@,
            PaymentMethodType::OnlineBankingSlovakia => "OnlineBankingSlovakia"@,
            PaymentMethodType::Oxxo => "Oxxo"@,
            PaymentMethodType::PagoEfectivo => "PagoEfectivo"@,
            PaymentMethodType::PermataBankTransfer => "PermataBankTransfer"@,
            PaymentMethodType::OpenBankingUk => "OpenBankingUk"@,
            PaymentMethodType::PayBright => "PayBright"@,
            PaymentMethodType::Paypal => "Paypal"@,
            PaymentMethodType::Pix => "Pix"@,
            PaymentMethodType::PaySafeCard => "PaySafeCard"@,
            PaymentMethodType::Przelewy24 => "Przelewy24"@,
            PaymentMethodType::PromptPay => "PromptPay"@,
            PaymentMethodType::Pse => "Pse"@,
            PaymentMethodType::RedCompra => "RedCompra"@,
            PaymentMethodType::RedPagos => "RedPagos"@,
            PaymentMethodType::SamsungPay => "SamsungPay"@,
            PaymentMethodType::Sepa => "Sepa"@,
            PaymentMethodType::Sofort => "Sofort"@,
            PaymentMethodType::Swish => "Swish"@,
            PaymentMethodType::TouchNGo => "TouchNGo"@,
            PaymentMethodType::Trustly => "Trustly"@,
            PaymentMethodType::Twint => "Twint"@,
            PaymentMethodType::UpiCollect => "UpiCollect"@,
            PaymentMethodType::UpiIntent => "UpiIntent"@,
            PaymentMethodType::Vipps => "Vipps"@,
            PaymentMethodType::VietQr => "VietQr"@,
            PaymentMethodType::Venmo => "Venmo"@,
            PaymentMethodType::Walley => "Walley"@,
            PaymentMethodType::WeChatPay => "WeChatPay"@,
            PaymentMethodType::SevenEleven => "SevenEleven"@,
            PaymentMethodType::Lawson => "Lawson"@,
            PaymentMethodType::MiniStop => "MiniStop"@,
            PaymentMethodType::FamilyMart => "FamilyMart"@,
            PaymentMethodType::Seicomart => "Seicomart"@,
            PaymentMethodType::PayEasy => "PayEasy"@,
            PaymentMethodType::LocalBankTransfer => "LocalBankTransfer"@,
            PaymentMethodType::Mifinity => "Mifinity"@,
        }
    }

    pub fn name(&self) -> (r: &'static str)
        ensures
            r@ == self.spec_name(),
    {
        match self {
            PaymentMethodType::Ach => "Ach",
            PaymentMethodType::Affirm => "Affirm",
            PaymentMethodType::AfterpayClearpay => "AfterpayClearpay",
            PaymentMethodType::Alfamart => "Alfamart",
            PaymentMethodType::AliPay => "AliPay",
            PaymentMethodType::AliPayHk => "AliPayHk",
            PaymentMethodType::Alma => "Alma",
            PaymentMethodType::ApplePay => "ApplePay",
            PaymentMethodType::Atome => "Atome",
            PaymentMethodType::Bacs => "Bacs",
            PaymentMethodType::BancontactCard => "BancontactCard",
            PaymentMethodType::Becs => "Becs",
            PaymentMethodType::Benefit => "Benefit",
            PaymentMethodType::Bizum => "Bizum",
            PaymentMethodType::Blik => "Blik",
            PaymentMethodType::Boleto => "Boleto",
            PaymentMethodType::BcaBankTransfer => "BcaBankTransfer",
            PaymentMethodType::BniVa => "BniVa",
            PaymentMethodType::BriVa => "BriVa",
            PaymentMethodType::CardRedirect => "CardRedirect",
            PaymentMethodType::CimbVa => "CimbVa",
            PaymentMethodType::ClassicReward => "classic",
            PaymentMethodType::Credit => "Credit",
            PaymentMethodType::CryptoCurrency => "CryptoCurrency",
            PaymentMethodType::Cashapp => "Cashapp",
            PaymentMethodType::Dana => "Dana",
            PaymentMethodType::DanamonVa => "DanamonVa",
            PaymentMethodType::Debit => "Debit",
            PaymentMethodType::DuitNow => "DuitNow",
            PaymentMethodType::Efecty => "Efecty",
            PaymentMethodType::Eps => "Eps",
            PaymentMethodType::Fps => "Fps",
            PaymentMethodType::Evoucher => "Evoucher",
            PaymentMethodType::Giropay => "Giropay",
            PaymentMethodType::Givex => "Givex",
            PaymentMethodType::GooglePay => "GooglePay",
            PaymentMethodType::GoPay => "GoPay",
            PaymentMethodType::Gcash => "Gcash",
            PaymentMethodType::Ideal => "Ideal",
            PaymentMethodType::Interac => "Interac",
            PaymentMethodType::Indomaret => "Indomaret",
            PaymentMethodType::Klarna => "Klarna",
            PaymentMethodType::KakaoPay => "KakaoPay",
            PaymentMethodType::LocalBankRedirect => "LocalBankRedirect",
            PaymentMethodType::MandiriVa => "MandiriVa",
            PaymentMethodType::Knet => "Knet",
            PaymentMethodType::MbWay => "MbWay",
            PaymentMethodType::MobilePay => "MobilePay",
            PaymentMethodType::Momo => "Momo",
            PaymentMethodType::MomoAtm => "MomoAtm",
            PaymentMethodType::Multibanco => "Multibanco",
            PaymentMethodType::OnlineBankingThailand => "OnlineBankingThailand",
            PaymentMethodType::OnlineBankingCzechRepublic => "OnlineBankingCzechRepublic",
            PaymentMethodType::OnlineBankingFinland => "OnlineBankingFinland",
            PaymentMethodType::OnlineBankingFpx => "OnlineBankingFpx",
            PaymentMethodType::OnlineBankingPoland => "OnlineBankingPoland",
            PaymentMethodType::OnlineBankingSlovakia => "OnlineBankingSlovakia",
            PaymentMethodType::Oxxo => "Oxxo",
            PaymentMethodType::PagoEfectivo => "PagoEfectivo",
            PaymentMethodType::PermataBankTransfer => "PermataBankTransfer",
            PaymentMethodType::OpenBankingUk => "OpenBankingUk",
            PaymentMethodType::PayBright => "PayBright",
            PaymentMethodType::Paypal => "Paypal",
            PaymentMethodType::Pix => "Pix",
            PaymentMethodType::PaySafeCard => "PaySafeCard",
            PaymentMethodType::Przelewy24 => "Przelewy24",
            PaymentMethodType::PromptPay => "PromptPay",
            PaymentMethodType::Pse => "Pse",
            PaymentMethodType::RedCompra => "RedCompra",
            PaymentMethodType::RedPagos => "RedPagos",
            PaymentMethodType::SamsungPay => "SamsungPay",
            PaymentMethodType::Sepa => "Sepa",
            PaymentMethodType::Sofort => "Sofort",
            PaymentMethodType::Swish => "Swish",
            PaymentMethodType::TouchNGo => "TouchNGo",
            PaymentMethodType::Trustly => "Trustly",
            PaymentMethodType::Twint => "Twint",
            PaymentMethodType::UpiCollect => "UpiCollect",
            PaymentMethodType::UpiIntent => "UpiIntent",
            PaymentMethodType::Vipps => "Vipps",
            PaymentMethodType::VietQr => "VietQr",
            PaymentMethodType::Venmo => "Venmo",
            PaymentMethodType::Walley => "Walley",
            PaymentMethodType::WeChatPay => "WeChatPay",
            PaymentMethodType::SevenEleven => "SevenEleven",
            PaymentMethodType::Lawson => "Lawson",
            PaymentMethodType::MiniStop => "MiniStop",
            PaymentMethodType::FamilyMart => "FamilyMart",
            PaymentMethodType::Seicomart => "Seicomart",
            PaymentMethodType::PayEasy => "PayEasy",
            PaymentMethodType::LocalBankTransfer => "LocalBankTransfer",
            PaymentMethodType::Mifinity => "Mifinity",
        }
    }

}

/// The canonical text: the name as a JSON string.
impl Canonical for PaymentMethodType {
    open spec fn canonical(&self) -> Seq<char> {
        json_string_of(self.spec_name())
    }

    fn json_text(&self) -> (r: Result<String, serde_json::Error>) {
        json_str(self.name())
    }
}

impl Randr for PaymentMethodType {
    open spec fn generated(&self) -> bool {
        *self == PaymentMethodType::CardRedirect
    }

    open spec fn draws_nothing() -> bool {
        true
    }

    /// A constant: nothing is drawn and the source is left as it was.
    open spec fn drawn_by(&self, before: Seq<Draw>, after: Seq<Draw>, clock: Option<Timestamp>) -> bool {
        after == before
    }

    fn default<S: Source>(src: &mut S) -> (r: Self) {
        let r = PaymentMethodType::CardRedirect;
        assert(r.drawn_by(old(src).draws(), src.draws(), old(src).fixed_clock()));
        assert(<PaymentMethodType as Randr>::draws_nothing());
        r
    }
}
/// A free-form JSON payload, held as its canonical text and never looked into.
#[derive(Clone, Debug, PartialEq, Eq)]
pub struct Payload {
    text: String,
}

impl Payload {
    pub closed spec fn spec_text(&self) -> Seq<char> {
        self.text@
    }

    /// The JSON `null`.
    pub fn null() -> (r: Payload)
        ensures
            r.spec_text() == "null"@,
    {
        Payload { text: String::from_str("null") }
    }

    /// The payload that the JSON document `s` holds, or `None` where `s` is
    /// not JSON.
    pub fn parse(s: &str) -> (r: Option<Payload>)
        ensures
            r matches Some(p) ==> p.spec_text() == canonical_json_of(s@),
    {
        match json_canonical(s) {
            Ok(text) => Some(Payload { text }),
            Err(_) => None,
        }
    }

    /// The canonical JSON text.
    pub fn text(&self) -> (r: &str)
        ensures
            r@ == self.spec_text(),
    {
        self.text.as_str()
    }
}

impl Canonical for Payload {
    open spec fn canonical(&self) -> Seq<char> {
        self.spec_text()
    }

    fn json_text(&self) -> (r: Result<String, serde_json::Error>) {
        Ok(String::from_str(self.text()))
    }
}

impl Randr for Payload {
    open spec fn generated(&self) -> bool {
        self.spec_text() == "null"@
    }

    open spec fn draws_nothing() -> bool {
        true
    }

    /// A constant: nothing is drawn and the source is left as it was.
    open spec fn drawn_by(&self, before: Seq<Draw>, after: Seq<Draw>, clock: Option<Timestamp>) -> bool {
        after == before
    }

    fn default<S: Source>(src: &mut S) -> (r: Self) {
        let r = Payload::null();
        assert(r.drawn_by(old(src).draws(), src.draws(), old(src).fixed_clock()));
        assert(<Payload as Randr>::draws_nothing());
        r
    }
}

pub open spec fn opt_string_text(o: Option<String>) -> Seq<char> {
    match o {
        Some(s) => json_string_of(s@),
        None => "null"@,
    }
}

pub open spec fn opt_datetime_text(o: Option<Timestamp>) -> Seq<char> {
    match o {
        Some(t) => datetime_text(t),
        None => "null"@,
    }
}

pub open spec fn opt_payload_text(o: Option<Payload>) -> Seq<char> {
    match o {
        Some(p) => p.spec_text(),
        None => "null"@,
    }
}

fn opt_string_json(o: &Option<String>) -> (r: Result<String, serde_json::Error>)
    ensures
        r is Ok,
        r matches Ok(t) ==> t@ == opt_string_text(*o),
{
    match o {
        Some(s) => json_str(s.as_str()),
        None => Ok(String::from_str("null")),
    }
}

fn opt_datetime_json(o: &Option<Timestamp>) -> (r: Result<String, serde_json::Error>)
    ensures
        r is Ok,
        r matches Ok(t) ==> t@ == opt_datetime_text(*o),
{
    match o {
        Some(t) => json_datetime(t),
        None => Ok(String::from_str("null")),
    }
}

fn opt_payload_json(o: &Option<Payload>) -> (r: String)
    ensures
        r@ == opt_payload_text(*o),
{
    match o {
        Some(p) => String::from_str(p.text()),
        None => String::from_str("null"),
    }
}

#[derive(Clone, Debug, PartialEq, Eq)]
pub struct MandateDetails {
    pub update_mandate_id: Option<String>,
}

/// The JSON object of mandate details.
pub open spec fn details_text(d: MandateDetails) -> Seq<char> {
    "{\"update_mandate_id\":"@ + opt_string_text(d.update_mandate_id) + "}"@
}

impl Canonical for MandateDetails {
    open spec fn canonical(&self) -> Seq<char> {
        details_text(*self)
    }

    fn json_text(&self) -> (r: Result<String, serde_json::Error>) {
        let id = match opt_string_json(&self.update_mandate_id) {
            Ok(t) => t,
            Err(e) => return Err(e),
        };
        let mut out = String::from_str("{\"update_mandate_id\":");
        out.append(id.as_str());
        out.append("}");
        Ok(out)
    }
}

impl Randr for MandateDetails {
    open spec fn draws_nothing() -> bool {
        false
    }

    open spec fn generated(&self) -> bool {
        self.update_mandate_id.generated()
    }

    /// The optional id's rule is the whole draw.
    open spec fn drawn_by(&self, before: Seq<Draw>, after: Seq<Draw>, clock: Option<Timestamp>) -> bool {
        self.update_mandate_id.drawn_by(before, after, clock)
    }

    fn default<S: Source>(src: &mut S) -> (r: Self) {
        let r = MandateDetails { update_mandate_id: <Option<String> as Randr>::default(src) };
        assert(r.drawn_by(old(src).draws(), src.draws(), old(src).fixed_clock()));
        assert(!<MandateDetails as Randr>::draws_nothing());
        r
    }
}

#[derive(Clone, Debug, PartialEq, Eq)]
pub struct MandateAmountData {
    pub amount: i64,
    pub currency: Currency,
    pub start_date: Option<Timestamp>,
    pub end_date: Option<Timestamp>,
    pub metadata: Option<Payload>,
}

/// The JSON object of mandate amount data, its fields in declaration order.
pub open spec fn amount_data_text(a: MandateAmountData) -> Seq<char> {
    "{\"amount\":"@ + decimal(a.amount as int) + ",\"currency\":"@ + json_string_of(
        a.currency.spec_name(),
    ) + ",\"start_date\":"@ + opt_datetime_text(a.start_date) + ",\"end_date\":"@
        + opt_datetime_text(a.end_date) + ",\"metadata\":"@ + opt_payload_text(a.metadata) + "}"@
}

impl Canonical for MandateAmountData {
    open spec fn canonical(&self) -> Seq<char> {
        amount_data_text(*self)
    }

    fn json_text(&self) -> (r: Result<String, serde_json::Error>) {
        let amount = match json_i64(self.amount) {
            Ok(t) => t,
            Err(e) => return Err(e),
        };
        let currency = match self.currency.json_text() {
            Ok(t) => t,
            Err(e) => return Err(e),
        };
        let start = match opt_datetime_json(&self.start_date) {
            Ok(t) => t,
            Err(e) => return Err(e),
        };
        let end = match opt_datetime_json(&self.end_date) {
            Ok(t) => t,
            Err(e) => return Err(e),
        };
        let metadata = opt_payload_json(&self.metadata);
        let mut out = String::from_str("{\"amount\":");
        out.append(amount.as_str());
        out.append(",\"currency\":");
        out.append(currency.as_str());
        out.append(",\"start_date\":");
        out.append(start.as_str());
        out.append(",\"end_date\":");
        out.append(end.as_str());
        out.append(",\"metadata\":");
        out.append(metadata.as_str());
        out.append("}");
        Ok(out)
    }
}

impl MandateAmountData {
    pub open spec fn has_no_optionals(&self) -> bool {
        &&& self.start_date is None
        &&& self.end_date is None
        &&& self.metadata is None
    }
}

impl Randr for MandateAmountData {
    open spec fn draws_nothing() -> bool {
        false
    }

    open spec fn generated(&self) -> bool {
        &&& self.currency.generated()
        &&& self.start_date.generated()
        &&& self.end_date.generated()
        &&& self.metadata.generated()
    }

    /// Without a true coin every optional field is absent, and the dates
    /// read the source's fixed clock, if it has one.
    open spec fn drawn_by(&self, before: Seq<Draw>, after: Seq<Draw>, clock: Option<Timestamp>) -> bool {
        &&& true_coins(after) == true_coins(before) ==> self.has_no_optionals()
        &&& clock matches Some(t) ==> {
            &&& self.start_date matches Some(d) ==> d == t
            &&& self.end_date matches Some(d) ==> d == t
        }
    }

    fn default<S: Source>(src: &mut S) -> (r: Self) {
        let amount = <i64 as Randr>::default(src);
        let currency = Currency::default(src);
        let start_date = <Option<Timestamp> as Randr>::default(src);
        let end_date = <Option<Timestamp> as Randr>::default(src);
        let metadata = <Option<Payload> as Randr>::default(src);
        let r = MandateAmountData { amount, currency, start_date, end_date, metadata };
        assert(r.drawn_by(old(src).draws(), src.draws(), old(src).fixed_clock()));
        assert(!<MandateAmountData as Randr>::draws_nothing());
        r
    }
}

/// Mandate data: for a single use, or for many uses with optional amount data.
#[derive(Clone, Debug, PartialEq, Eq)]
pub enum MandateDataType {
    SingleUse(MandateAmountData),
    MultiUse(Option<MandateAmountData>),
}

/// The JSON of a tagged union: an object whose one key is the arm's name.
pub open spec fn mandate_type_text(m: MandateDataType) -> Seq<char> {
    match m {
        MandateDataType::SingleUse(a) => "{\"SingleUse\":"@ + amount_data_text(a) + "}"@,
        MandateDataType::MultiUse(None) => "{\"MultiUse\":null}"@,
        MandateDataType::MultiUse(Some(a)) => "{\"MultiUse\":"@ + amount_data_text(a) + "}"@,
    }
}

impl Canonical for MandateDataType {
    open spec fn canonical(&self) -> Seq<char> {
        mandate_type_text(*self)
    }

    fn json_text(&self) -> (r: Result<String, serde_json::Error>) {
        match self {
            MandateDataType::SingleUse(a) => {
                let inner = match a.json_text() {
                    Ok(t) => t,
                    Err(e) => return Err(e),
                };
                let mut out = String::from_str("{\"SingleUse\":");
                out.append(inner.as_str());
                out.append("}");
                Ok(out)
            },
            MandateDataType::MultiUse(None) => Ok(String::from_str("{\"MultiUse\":null}")),
            MandateDataType::MultiUse(Some(a)) => {
                let inner = match a.json_text() {
                    Ok(t) => t,
                    Err(e) => return Err(e),
                };
                let mut out = String::from_str("{\"MultiUse\":");
                out.append(inner.as_str());
                out.append("}");
                Ok(out)
            },
        }
    }
}

impl Randr for MandateDataType {
    open spec fn draws_nothing() -> bool {
        false
    }

    open spec fn generated(&self) -> bool {
        match self {
            MandateDataType::SingleUse(a) => a.generated(),
            MandateDataType::MultiUse(o) => o.generated(),
        }
    }

    /// The first draw is the arm coin: true gives `MultiUse`. Without any
    /// true coin the result is `SingleUse` with every optional field absent.
    open spec fn drawn_by(&self, before: Seq<Draw>, after: Seq<Draw>, clock: Option<Timestamp>) -> bool {
        &&& before.len() < after.len()
        &&& after[before.len() as int] == Draw::Coin(self is MultiUse)
        &&& true_coins(after) == true_coins(before) ==> (
        self matches MandateDataType::SingleUse(a) && a.has_no_optionals())
    }

    /// A fair coin picks the arm; the arm's payload follows its own rules.
    fn default<S: Source>(src: &mut S) -> (r: Self) {
        let r = if src.coin() {
            MandateDataType::MultiUse(<Option<MandateAmountData> as Randr>::default(src))
        } else {
            MandateDataType::SingleUse(MandateAmountData::default(src))
        };
        assert(r.drawn_by(old(src).draws(), src.draws(), old(src).fixed_clock()));
        assert(!<MandateDataType as Randr>::draws_nothing());
        r
    }
}

} // verus!
