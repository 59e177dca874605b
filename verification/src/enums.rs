//! Closed sets of tags carried by payment records.

use vstd::prelude::*;

use crate::text::str_eq;

verus! {

/// ISO 4217 currency of an amount.
#[derive(Clone, Copy, Debug, PartialEq, Eq, Structural)]
pub enum Currency {
    AED,
    AFN,
    ALL,
    AMD,
    ANG,
    AOA,
    ARS,
    AUD,
    AWG,
    AZN,
    BAM,
    BBD,
    BDT,
    BGN,
    BHD,
    BIF,
    BMD,
    BND,
    BOB,
    BRL,
    BSD,
    BTN,
    BWP,
    BYN,
    BZD,
    CAD,
    CDF,
    CHF,
    CLP,
    CNY,
    COP,
    CRC,
    CUP,
    CVE,
    CZK,
    DJF,
    DKK,
    DOP,
    DZD,
    EGP,
    ERN,
    ETB,
    EUR,
    FJD,
    FKP,
    GBP,
    GEL,
    GHS,
    GIP,
    GMD,
    GNF,
    GTQ,
    GYD,
    HKD,
    HNL,
    HRK,
    HTG,
    HUF,
    IDR,
    ILS,
    INR,
    IQD,
    IRR,
    ISK,
    JMD,
    JOD,
    JPY,
    KES,
    KGS,
    KHR,
    KMF,
    KPW,
    KRW,
    KWD,
    KYD,
    KZT,
    LAK,
    LBP,
    LKR,
    LRD,
    LSL,
    LYD,
    MAD,
    MDL,
    MGA,
    MKD,
    MMK,
    MNT,
    MOP,
    MRU,
    MUR,
    MVR,
    MWK,
    MXN,
    MYR,
    MZN,
    NAD,
    NGN,
    NIO,
    NOK,
    NPR,
    NZD,
    OMR,
    PAB,
    PEN,
    PGK,
    PHP,
    PKR,
    PLN,
    PYG,
    QAR,
    RON,
    RSD,
    RUB,
    RWF,
    SAR,
    SBD,
    SCR,
    SDG,
    SEK,
    SGD,
    SHP,
    SLE,
    SLL,
    SOS,
    SRD,
    SSP,
    STN,
    SVC,
    SYP,
    SZL,
    THB,
    TJS,
    TMT,
    TND,
    TOP,
    TRY,
    TTD,
    TWD,
    TZS,
    UAH,
    UGX,
    USD,
    UYU,
    UZS,
    VES,
    VND,
    VUV,
    WST,
    XAF,
    XCD,
    XOF,
    XPF,
    YER,
    ZAR,
    ZMW,
    ZWL,
}

impl Currency {
    /// The text of the name.
    pub open spec fn name_spec(self) -> Seq<char> {
        match self {
            Currency::AED => "AED"@,
            Currency::AFN => "AFN"@,
            Currency::ALL => "ALL"@,
            Currency::AMD => "AMD"@,
            Currency::ANG => "ANG"@,
            Currency::AOA => "AOA"@,
            Currency::ARS => "ARS"@,
            Currency::AUD => "AUD"@,
            Currency::AWG => "AWG"@,
            Currency::AZN => "AZN"@,
            Currency::BAM => "BAM"@,
            Currency::BBD => "BBD"@,
            Currency::BDT => "BDT"@,
            Currency::BGN => "BGN"@,
            Currency::BHD => "BHD"@,
            Currency::BIF => "BIF"@,
            Currency::BMD => "BMD"@,
            Currency::BND => "BND"@,
            Currency::BOB => "BOB"@,
            Currency::BRL => "BRL"@,
            Currency::BSD => "BSD"@,
            Currency::BTN => "BTN"@,
            Currency::BWP => "BWP"@,
            Currency::BYN => "BYN"@,
            Currency::BZD => "BZD"@,
            Currency::CAD => "CAD"@,
            Currency::CDF => "CDF"@,
            Currency::CHF => "CHF"@,
            Currency::CLP => "CLP"@,
            Currency::CNY => "CNY"@,
            Currency::COP => "COP"@,
            Currency::CRC => "CRC"@,
            Currency::CUP => "CUP"@,
            Currency::CVE => "CVE"@,
            Currency::CZK => "CZK"@,
            Currency::DJF => "DJF"@,
            Currency::DKK => "DKK"@,
            Currency::DOP => "DOP"@,
            Currency::DZD => "DZD"@,
            Currency::EGP => "EGP"@,
            Currency::ERN => "ERN"@,
            Currency::ETB => "ETB"@,
            Currency::EUR => "EUR"@,
            Currency::FJD => "FJD"@,
            Currency::FKP => "FKP"@,
            Currency::GBP => "GBP"@,
            Currency::GEL => "GEL"@,
            Currency::GHS => "GHS"@,
            Currency::GIP => "GIP"@,
            Currency::GMD => "GMD"@,
            Currency::GNF => "GNF"@,
            Currency::GTQ => "GTQ"@,
            Currency::GYD => "GYD"@,
            Currency::HKD => "HKD"@,
            Currency::HNL => "HNL"@,
            Currency::HRK => "HRK"@,
            Currency::HTG => "HTG"@,
            Currency::HUF => "HUF"@,
            Currency::IDR => "IDR"@,
            Currency::ILS => "ILS"@,
            Currency::INR => "INR"@,
            Currency::IQD => "IQD"@,
            Currency::IRR => "IRR"@,
            Currency::ISK => "ISK"@,
            Currency::JMD => "JMD"@,
            Currency::JOD => "JOD"@,
            Currency::JPY => "JPY"@,
            Currency::KES => "KES"@,
            Currency::KGS => "KGS"@,
            Currency::KHR => "KHR"@,
            Currency::KMF => "KMF"@,
            Currency::KPW => "KPW"@,
            Currency::KRW => "KRW"@,
            Currency::KWD => "KWD"@,
            Currency::KYD => "KYD"@,
            Currency::KZT => "KZT"@,
            Currency::LAK => "LAK"@,
            Currency::LBP => "LBP"@,
            Currency::LKR => "LKR"@,
            Currency::LRD => "LRD"@,
            Currency::LSL => "LSL"@,
            Currency::LYD => "LYD"@,
            Currency::MAD => "MAD"@,
            Currency::MDL => "MDL"@,
            Currency::MGA => "MGA"@,
            Currency::MKD => "MKD"@,
            Currency::MMK => "MMK"@,
            Currency::MNT => "MNT"@,
            Currency::MOP => "MOP"@,
            Currency::MRU => "MRU"@,
            Currency::MUR => "MUR"@,
            Currency::MVR => "MVR"@,
            Currency::MWK => "MWK"@,
            Currency::MXN => "MXN"@,
            Currency::MYR => "MYR"@,
            Currency::MZN => "MZN"@,
            Currency::NAD => "NAD"@,
            Currency::NGN => "NGN"@,
            Currency::NIO => "NIO"@,
            Currency::NOK => "NOK"@,
            Currency::NPR => "NPR"@,
            Currency::NZD => "NZD"@,
            Currency::OMR => "OMR"@,
            Currency::PAB => "PAB"@,
            Currency::PEN => "PEN"@,
            Currency::PGK => "PGK"@,
            Currency::PHP => "PHP"@,
            Currency::PKR => "PKR"@,
            Currency::PLN => "PLN"@,
            Currency::PYG => "PYG"@,
            Currency::QAR => "QAR"@,
            Currency::RON => "RON"@,
            Currency::RSD => "RSD"@,
            Currency::RUB => "RUB"@,
            Currency::RWF => "RWF"@,
            Currency::SAR => "SAR"@,
            Currency::SBD => "SBD"@,
            Currency::SCR => "SCR"@,
            Currency::SDG => "SDG"@,
            Currency::SEK => "SEK"@,
            Currency::SGD => "SGD"@,
            Currency::SHP => "SHP"@,
            Currency::SLE => "SLE"@,
            Currency::SLL => "SLL"@,
            Currency::SOS => "SOS"@,
            Currency::SRD => "SRD"@,
            Currency::SSP => "SSP"@,
            Currency::STN => "STN"@,
            Currency::SVC => "SVC"@,
            Currency::SYP => "SYP"@,
            Currency::SZL => "SZL"@,
            Currency::THB => "THB"@,
            Currency::TJS => "TJS"@,
            Currency::TMT => "TMT"@,
            Currency::TND => "TND"@,
            Currency::TOP => "TOP"@,
            Currency::TRY => "TRY"@,
            Currency::TTD => "TTD"@,
            Currency::TWD => "TWD"@,
            Currency::TZS => "TZS"@,
            Currency::UAH => "UAH"@,
            Currency::UGX => "UGX"@,
            Currency::USD => "USD"@,
            Currency::UYU => "UYU"@,
            Currency::UZS => "UZS"@,
            Currency::VES => "VES"@,
            Currency::VND => "VND"@,
            Currency::VUV => "VUV"@,
            Currency::WST => "WST"@,
            Currency::XAF => "XAF"@,
            Currency::XCD => "XCD"@,
            Currency::XOF => "XOF"@,
            Currency::XPF => "XPF"@,
            Currency::YER => "YER"@,
            Currency::ZAR => "ZAR"@,
            Currency::ZMW => "ZMW"@,
            Currency::ZWL => "ZWL"@,
        }
    }

    /// The three-letter code of the currency.
    pub fn name(&self) -> (r: &'static str)
        ensures
            r@ == self.name_spec(),
    {
        match self {
            Currency::AED => "AED",
            Currency::AFN => "AFN",
            Currency::ALL => "ALL",
            Currency::AMD => "AMD",
            Currency::ANG => "ANG",
            Currency::AOA => "AOA",
            Currency::ARS => "ARS",
            Currency::AUD => "AUD",
            Currency::AWG => "AWG",
            Currency::AZN => "AZN",
            Currency::BAM => "BAM",
            Currency::BBD => "BBD",
            Currency::BDT => "BDT",
            Currency::BGN => "BGN",
            Currency::BHD => "BHD",
            Currency::BIF => "BIF",
            Currency::BMD => "BMD",
            Currency::BND => "BND",
            Currency::BOB => "BOB",
            Currency::BRL => "BRL",
            Currency::BSD => "BSD",
            Currency::BTN => "BTN",
            Currency::BWP => "BWP",
            Currency::BYN => "BYN",
            Currency::BZD => "BZD",
            Currency::CAD => "CAD",
            Currency::CDF => "CDF",
            Currency::CHF => "CHF",
            Currency::CLP => "CLP",
            Currency::CNY => "CNY",
            Currency::COP => "COP",
            Currency::CRC => "CRC",
            Currency::CUP => "CUP",
            Currency::CVE => "CVE",
            Currency::CZK => "CZK",
            Currency::DJF => "DJF",
            Currency::DKK => "DKK",
            Currency::DOP => "DOP",
            Currency::DZD => "DZD",
            Currency::EGP => "EGP",
            Currency::ERN => "ERN",
            Currency::ETB => "ETB",
            Currency::EUR => "EUR",
            Currency::FJD => "FJD",
            Currency::FKP => "FKP",
            Currency::GBP => "GBP",
            Currency::GEL => "GEL",
            Currency::GHS => "GHS",
            Currency::GIP => "GIP",
            Currency::GMD => "GMD",
            Currency::GNF => "GNF",
            Currency::GTQ => "GTQ",
            Currency::GYD => "GYD",
            Currency::HKD => "HKD",
            Currency::HNL => "HNL",
            Currency::HRK => "HRK",
            Currency::HTG => "HTG",
            Currency::HUF => "HUF",
            Currency::IDR => "IDR",
            Currency::ILS => "ILS",
            Currency::INR => "INR",
            Currency::IQD => "IQD",
            Currency::IRR => "IRR",
            Currency::ISK => "ISK",
            Currency::JMD => "JMD",
            Currency::JOD => "JOD",
            Currency::JPY => "JPY",
            Currency::KES => "KES",
            Currency::KGS => "KGS",
            Currency::KHR => "KHR",
            Currency::KMF => "KMF",
            Currency::KPW => "KPW",
            Currency::KRW => "KRW",
            Currency::KWD => "KWD",
            Currency::KYD => "KYD",
            Currency::KZT => "KZT",
            Currency::LAK => "LAK",
            Currency::LBP => "LBP",
            Currency::LKR => "LKR",
            Currency::LRD => "LRD",
            Currency::LSL => "LSL",
            Currency::LYD => "LYD",
            Currency::MAD => "MAD",
            Currency::MDL => "MDL",
            Currency::MGA => "MGA",
            Currency::MKD => "MKD",
            Currency::MMK => "MMK",
            Currency::MNT => "MNT",
            Currency::MOP => "MOP",
            Currency::MRU => "MRU",
            Currency::MUR => "MUR",
            Currency::MVR => "MVR",
            Currency::MWK => "MWK",
            Currency::MXN => "MXN",
            Currency::MYR => "MYR",
            Currency::MZN => "MZN",
            Currency::NAD => "NAD",
            Currency::NGN => "NGN",
            Currency::NIO => "NIO",
            Currency::NOK => "NOK",
            Currency::NPR => "NPR",
            Currency::NZD => "NZD",
            Currency::OMR => "OMR",
            Currency::PAB => "PAB",
            Currency::PEN => "PEN",
            Currency::PGK => "PGK",
            Currency::PHP => "PHP",
            Currency::PKR => "PKR",
            Currency::PLN => "PLN",
            Currency::PYG => "PYG",
            Currency::QAR => "QAR",
            Currency::RON => "RON",
            Currency::RSD => "RSD",
            Currency::RUB => "RUB",
            Currency::RWF => "RWF",
            Currency::SAR => "SAR",
            Currency::SBD => "SBD",
            Currency::SCR => "SCR",
            Currency::SDG => "SDG",
            Currency::SEK => "SEK",
            Currency::SGD => "SGD",
            Currency::SHP => "SHP",
            Currency::SLE => "SLE",
            Currency::SLL => "SLL",
            Currency::SOS => "SOS",
            Currency::SRD => "SRD",
            Currency::SSP => "SSP",
            Currency::STN => "STN",
            Currency::SVC => "SVC",
            Currency::SYP => "SYP",
            Currency::SZL => "SZL",
            Currency::THB => "THB",
            Currency::TJS => "TJS",
            Currency::TMT => "TMT",
            Currency::TND => "TND",
            Currency::TOP => "TOP",
            Currency::TRY => "TRY",
            Currency::TTD => "TTD",
            Currency::TWD => "TWD",
            Currency::TZS => "TZS",
            Currency::UAH => "UAH",
            Currency::UGX => "UGX",
            Currency::USD => "USD",
            Currency::UYU => "UYU",
            Currency::UZS => "UZS",
            Currency::VES => "VES",
            Currency::VND => "VND",
            Currency::VUV => "VUV",
            Currency::WST => "WST",
            Currency::XAF => "XAF",
            Currency::XCD => "XCD",
            Currency::XOF => "XOF",
            Currency::XPF => "XPF",
            Currency::YER => "YER",
            Currency::ZAR => "ZAR",
            Currency::ZMW => "ZMW",
            Currency::ZWL => "ZWL",
        }
    }
}

/// When the authorised funds are captured.
#[derive(Clone, Copy, Debug, PartialEq, Eq, Structural)]
pub enum CaptureMethod {
    Automatic,
    Manual,
    ManualMultiple,
    Scheduled,
}

/// Family of the payment instrument.
#[derive(Clone, Copy, Debug, PartialEq, Eq, Structural)]
pub enum PaymentMethod {
    Card,
    CardRedirect,
    PayLater,
    Wallet,
    BankRedirect,
    BankTransfer,
    Crypto,
    BankDebit,
    Reward,
    RealTimePayment,
    Upi,
    Voucher,
    GiftCard,
    OpenBanking,
}

/// Concrete instrument within a payment-method family.
#[derive(Clone, Copy, Debug, PartialEq, Eq, Structural)]
pub enum PaymentMethodType {
    Ach,
    Affirm,
    AliPay,
    ApplePay,
    Bacs,
    Boleto,
    Credit,
    CryptoCurrency,
    Debit,
    Eps,
    Giropay,
    GooglePay,
    Ideal,
    Klarna,
    Multibanco,
    OpenBankingPIS,
    Oxxo,
    Paypal,
    Pix,
    Sepa,
    Sofort,
    UpiCollect,
    WeChatPay,
}

/// Lifecycle state of a payment intent.
#[derive(Clone, Copy, Debug, PartialEq, Eq, Structural)]
pub enum IntentStatus {
    RequiresPaymentMethod,
    RequiresConfirmation,
    RequiresCustomerAction,
    RequiresMerchantAction,
    RequiresCapture,
    Processing,
    PartiallyCaptured,
    PartiallyCapturedAndCapturable,
    Succeeded,
    Failed,
    Cancelled,
}

/// Lifecycle state of one connector attempt.
#[derive(Clone, Copy, Debug, PartialEq, Eq, Structural)]
pub enum AttemptStatus {
    Started,
    AuthenticationFailed,
    RouterDeclined,
    AuthenticationPending,
    AuthenticationSuccessful,
    Authorized,
    AuthorizationFailed,
    Charged,
    Authorizing,
    CodInitiated,
    Voided,
    VoidInitiated,
    CaptureInitiated,
    CaptureFailed,
    VoidFailed,
    AutoRefunded,
    PartialCharged,
    PartialChargedAndChargeable,
    Unresolved,
    Pending,
    Failure,
    PaymentMethodAwaited,
    ConfirmationAwaited,
    DeviceDataCollectionPending,
}

/// State of one partial capture.
#[derive(Clone, Copy, Debug, PartialEq, Eq, Structural)]
pub enum CaptureStatus {
    Started,
    Charged,
    Pending,
    Failed,
}

/// Whether the payment runs through 3-D Secure.
#[derive(Clone, Copy, Debug, PartialEq, Eq, Structural)]
pub enum AuthenticationType {
    ThreeDs,
    NoThreeDs,
}

/// How a stored payment method may be used later.
#[derive(Clone, Copy, Debug, PartialEq, Eq, Structural)]
pub enum FutureUsage {
    OffSession,
    OnSession,
}

/// How the customer completes the payment.
#[derive(Clone, Copy, Debug, PartialEq, Eq, Structural)]
pub enum PaymentExperience {
    RedirectToUrl,
    InvokeSdkClient,
    DisplayQrCode,
    OneClick,
    LinkWallet,
    InvokePaymentApp,
    DisplayWaitScreen,
}

/// Whether the merchant asked for incremental authorisation.
#[derive(Clone, Copy, Debug, PartialEq, Eq, Structural)]
pub enum RequestIncrementalAuthorization {
    True,
    False,
    Default,
}

/// State of a stored payment method.
#[derive(Clone, Copy, Debug, PartialEq, Eq, Structural)]
pub enum PaymentMethodStatus {
    Active,
    Inactive,
    Processing,
    AwaitingData,
}

/// Where a confirm request came from.
#[derive(Clone, Copy, Debug, PartialEq, Eq, Structural)]
pub enum PaymentSource {
    MerchantServer,
    Postman,
    Dashboard,
    Sdk,
    Webhook,
    ExternalAuthenticator,
}

impl PaymentSource {
    /// The text of the name.
    pub open spec fn name_spec(self) -> Seq<char> {
        match self {
            PaymentSource::MerchantServer => "merchant_server"@,
            PaymentSource::Postman => "postman"@,
            PaymentSource::Dashboard => "dashboard"@,
            PaymentSource::Sdk => "sdk"@,
            PaymentSource::Webhook => "webhook"@,
            PaymentSource::ExternalAuthenticator => "external_authenticator"@,
        }
    }

    /// The name sent in the confirm-source header.
    pub fn name(&self) -> (r: &'static str)
        ensures
            r@ == self.name_spec(),
    {
        match self {
            PaymentSource::MerchantServer => "merchant_server",
            PaymentSource::Postman => "postman",
            PaymentSource::Dashboard => "dashboard",
            PaymentSource::Sdk => "sdk",
            PaymentSource::Webhook => "webhook",
            PaymentSource::ExternalAuthenticator => "external_authenticator",
        }
    }
}

/// Point of the flow at which the fraud check ran.
#[derive(Clone, Copy, Debug, PartialEq, Eq, Structural)]
pub enum FraudCheckType {
    PreFrm,
    PostFrm,
}

impl FraudCheckType {
    /// The text of the name.
    pub open spec fn name_spec(self) -> Seq<char> {
        match self {
            FraudCheckType::PreFrm => "pre_frm"@,
            FraudCheckType::PostFrm => "post_frm"@,
        }
    }

    /// The name shown to the client.
    pub fn name(&self) -> (r: &'static str)
        ensures
            r@ == self.name_spec(),
    {
        match self {
            FraudCheckType::PreFrm => "pre_frm",
            FraudCheckType::PostFrm => "post_frm",
        }
    }
}

/// Verdict of a fraud check.
#[derive(Clone, Copy, Debug, PartialEq, Eq, Structural)]
pub enum FraudCheckStatus {
    Fraud,
    ManualReview,
    Pending,
    Legit,
    TransactionFailure,
}

impl FraudCheckStatus {
    /// The text of the name.
    pub open spec fn name_spec(self) -> Seq<char> {
        match self {
            FraudCheckStatus::Fraud => "fraud"@,
            FraudCheckStatus::ManualReview => "manual_review"@,
            FraudCheckStatus::Pending => "pending"@,
            FraudCheckStatus::Legit => "legit"@,
            FraudCheckStatus::TransactionFailure => "transaction_failure"@,
        }
    }

    /// The name shown to the client.
    pub fn name(&self) -> (r: &'static str)
        ensures
            r@ == self.name_spec(),
    {
        match self {
            FraudCheckStatus::Fraud => "fraud",
            FraudCheckStatus::ManualReview => "manual_review",
            FraudCheckStatus::Pending => "pending",
            FraudCheckStatus::Legit => "legit",
            FraudCheckStatus::TransactionFailure => "transaction_failure",
        }
    }
}

/// How the customer accepted a mandate.
#[derive(Clone, Copy, Debug, PartialEq, Eq, Structural)]
pub enum AcceptanceType {
    Online,
    Offline,
}

/// Which party decrypts an Apple Pay token.
#[derive(Clone, Copy, Debug, PartialEq, Eq, Structural)]
pub enum ApplePayFlow {
    Simplified,
    Manual,
}

/// Kind of split-payment charge.
#[derive(Clone, Copy, Debug, PartialEq, Eq, Structural)]
pub enum PaymentChargeType {
    StripeDirect,
    StripeDestination,
}

/// Call the client SDK makes after its own step.
#[derive(Clone, Copy, Debug, PartialEq, Eq, Structural)]
pub enum NextActionCall {
    Confirm,
    Sync,
    CompleteAuthorize,
}

/// Outcome of an external authentication.
#[derive(Clone, Copy, Debug, PartialEq, Eq, Structural)]
pub enum AuthenticationStatus {
    Started,
    Pending,
    Success,
    Failed,
}

/// How a session token is obtained from a connector.
#[derive(Clone, Copy, Debug, PartialEq, Eq, Structural)]
pub enum GetToken {
    GpayMetadata,
    ApplePayMetadata,
    PaypalSdkMetadata,
    Connector,
}

/// Which party authenticated the API request.
#[derive(Clone, Copy, Debug, PartialEq, Eq, Structural)]
pub enum AuthFlow {
    Client,
    Merchant,
}

/// The operation on whose behalf a response is assembled.
#[derive(Clone, Copy, Debug, PartialEq, Eq, Structural)]
pub enum Operation {
    PaymentCreate,
    PaymentConfirm,
    PaymentStart,
    PaymentStatus,
    PaymentUpdate,
    PaymentCapture,
    PaymentCancel,
    PaymentSession,
    PaymentApprove,
    PaymentReject,
    CompleteAuthorize,
    PaymentIncrementalAuthorization,
    PaymentSessionUpdate,
}

/// HTTP method of a redirect form.
#[derive(Clone, Copy, Debug, PartialEq, Eq, Structural)]
pub enum RedirectMethod {
    Get,
    Post,
}

/// The payment processors that this library knows by name.
#[derive(Clone, Copy, Debug, PartialEq, Eq, Structural)]
pub enum Connector {
    Aci,
    Adyen,
    Airwallex,
    Authorizedotnet,
    Bluesnap,
    Braintree,
    Checkout,
    Cybersource,
    Globalpay,
    Helcim,
    Klarna,
    Mollie,
    Nexinets,
    Nmi,
    Noon,
    Nuvei,
    Payme,
    Paypal,
    Plaid,
    Shift4,
    Stripe,
    Trustpay,
    Worldpay,
    Zen,
}

impl Connector {
    /// The text of the name.
    pub open spec fn name_spec(self) -> Seq<char> {
        match self {
            Connector::Aci => "aci"@,
            Connector::Adyen => "adyen"@,
            Connector::Airwallex => "airwallex"@,
            Connector::Authorizedotnet => "authorizedotnet"@,
            Connector::Bluesnap => "bluesnap"@,
            Connector::Braintree => "braintree"@,
            Connector::Checkout => "checkout"@,
            Connector::Cybersource => "cybersource"@,
            Connector::Globalpay => "globalpay"@,
            Connector::Helcim => "helcim"@,
            Connector::Klarna => "klarna"@,
            Connector::Mollie => "mollie"@,
            Connector::Nexinets => "nexinets"@,
            Connector::Nmi => "nmi"@,
            Connector::Noon => "noon"@,
            Connector::Nuvei => "nuvei"@,
            Connector::Payme => "payme"@,
            Connector::Paypal => "paypal"@,
            Connector::Plaid => "plaid"@,
            Connector::Shift4 => "shift4"@,
            Connector::Stripe => "stripe"@,
            Connector::Trustpay => "trustpay"@,
            Connector::Worldpay => "worldpay"@,
            Connector::Zen => "zen"@,
        }
    }

    /// The name under which the connector is configured.
    pub fn name(&self) -> (r: &'static str)
        ensures
            r@ == self.name_spec(),
    {
        match self {
            Connector::Aci => "aci",
            Connector::Adyen => "adyen",
            Connector::Airwallex => "airwallex",
            Connector::Authorizedotnet => "authorizedotnet",
            Connector::Bluesnap => "bluesnap",
            Connector::Braintree => "braintree",
            Connector::Checkout => "checkout",
            Connector::Cybersource => "cybersource",
            Connector::Globalpay => "globalpay",
            Connector::Helcim => "helcim",
            Connector::Klarna => "klarna",
            Connector::Mollie => "mollie",
            Connector::Nexinets => "nexinets",
            Connector::Nmi => "nmi",
            Connector::Noon => "noon",
            Connector::Nuvei => "nuvei",
            Connector::Payme => "payme",
            Connector::Paypal => "paypal",
            Connector::Plaid => "plaid",
            Connector::Shift4 => "shift4",
            Connector::Stripe => "stripe",
            Connector::Trustpay => "trustpay",
            Connector::Worldpay => "worldpay",
            Connector::Zen => "zen",
        }
    }
}

impl Connector {
    /// The connector configured under `name`, if there is one.
    pub open spec fn named(name: Seq<char>) -> Option<Connector> {
        if name == "aci"@ {
            Some(Connector::Aci)
        } else if name == "adyen"@ {
            Some(Connector::Adyen)
        } else if name == "airwallex"@ {
            Some(Connector::Airwallex)
        } else if name == "authorizedotnet"@ {
            Some(Connector::Authorizedotnet)
        } else if name == "bluesnap"@ {
            Some(Connector::Bluesnap)
        } else if name == "braintree"@ {
            Some(Connector::Braintree)
        } else if name == "checkout"@ {
            Some(Connector::Checkout)
        } else if name == "cybersource"@ {
            Some(Connector::Cybersource)
        } else if name == "globalpay"@ {
            Some(Connector::Globalpay)
        } else if name == "helcim"@ {
            Some(Connector::Helcim)
        } else if name == "klarna"@ {
            Some(Connector::Klarna)
        } else if name == "mollie"@ {
            Some(Connector::Mollie)
        } else if name == "nexinets"@ {
            Some(Connector::Nexinets)
        } else if name == "nmi"@ {
            Some(Connector::Nmi)
        } else if name == "noon"@ {
            Some(Connector::Noon)
        } else if name == "nuvei"@ {
            Some(Connector::Nuvei)
        } else if name == "payme"@ {
            Some(Connector::Payme)
        } else if name == "paypal"@ {
            Some(Connector::Paypal)
        } else if name == "plaid"@ {
            Some(Connector::Plaid)
        } else if name == "shift4"@ {
            Some(Connector::Shift4)
        } else if name == "stripe"@ {
            Some(Connector::Stripe)
        } else if name == "trustpay"@ {
            Some(Connector::Trustpay)
        } else if name == "worldpay"@ {
            Some(Connector::Worldpay)
        } else if name == "zen"@ {
            Some(Connector::Zen)
        } else {
            None
        }
    }

    /// Looks a connector up by the name under which it is configured.
    pub fn from_name(name: &str) -> (r: Option<Self>)
        ensures
            r == Self::named(name@),
    {
        if str_eq(name, "aci") {
            Some(Connector::Aci)
        } else if str_eq(name, "adyen") {
            Some(Connector::Adyen)
        } else if str_eq(name, "airwallex") {
            Some(Connector::Airwallex)
        } else if str_eq(name, "authorizedotnet") {
            Some(Connector::Authorizedotnet)
        } else if str_eq(name, "bluesnap") {
            Some(Connector::Bluesnap)
        } else if str_eq(name, "braintree") {
            Some(Connector::Braintree)
        } else if str_eq(name, "checkout") {
            Some(Connector::Checkout)
        } else if str_eq(name, "cybersource") {
            Some(Connector::Cybersource)
        } else if str_eq(name, "globalpay") {
            Some(Connector::Globalpay)
        } else if str_eq(name, "helcim") {
            Some(Connector::Helcim)
        } else if str_eq(name, "klarna") {
            Some(Connector::Klarna)
        } else if str_eq(name, "mollie") {
            Some(Connector::Mollie)
        } else if str_eq(name, "nexinets") {
            Some(Connector::Nexinets)
        } else if str_eq(name, "nmi") {
            Some(Connector::Nmi)
        } else if str_eq(name, "noon") {
            Some(Connector::Noon)
        } else if str_eq(name, "nuvei") {
            Some(Connector::Nuvei)
        } else if str_eq(name, "payme") {
            Some(Connector::Payme)
        } else if str_eq(name, "paypal") {
            Some(Connector::Paypal)
        } else if str_eq(name, "plaid") {
            Some(Connector::Plaid)
        } else if str_eq(name, "shift4") {
            Some(Connector::Shift4)
        } else if str_eq(name, "stripe") {
            Some(Connector::Stripe)
        } else if str_eq(name, "trustpay") {
            Some(Connector::Trustpay)
        } else if str_eq(name, "worldpay") {
            Some(Connector::Worldpay)
        } else if str_eq(name, "zen") {
            Some(Connector::Zen)
        } else {
            None
        }
    }
}

/// A connector found by name is configured under that name, and a name
/// under which none is found belongs to no connector.
pub proof fn named_connector_has_that_name(name: Seq<char>)
    ensures
        match Connector::named(name) {
            Some(c) => c.name_spec() == name,
            None => forall|c: Connector| c.name_spec() != name,
        },
{
}

/// Every connector is found under its own name.
pub proof fn connector_is_found_by_its_name(connector: Connector)
    ensures
        Connector::named(connector.name_spec()) == Some(connector),
{
    reveal_strlit("aci");
    reveal_strlit("adyen");
    reveal_strlit("airwallex");
    reveal_strlit("authorizedotnet");
    reveal_strlit("bluesnap");
    reveal_strlit("braintree");
    reveal_strlit("checkout");
    reveal_strlit("cybersource");
    reveal_strlit("globalpay");
    reveal_strlit("helcim");
    reveal_strlit("klarna");
    reveal_strlit("mollie");
    reveal_strlit("nexinets");
    reveal_strlit("nmi");
    reveal_strlit("noon");
    reveal_strlit("nuvei");
    reveal_strlit("payme");
    reveal_strlit("paypal");
    reveal_strlit("plaid");
    reveal_strlit("shift4");
    reveal_strlit("stripe");
    reveal_strlit("trustpay");
    reveal_strlit("worldpay");
    reveal_strlit("zen");
    assert("aci"@ =~= seq!['a', 'c', 'i']);
    assert("adyen"@ =~= seq!['a', 'd', 'y', 'e', 'n']);
    assert("airwallex"@ =~= seq!['a', 'i', 'r', 'w', 'a', 'l', 'l', 'e', 'x']);
    assert("authorizedotnet"@ =~= seq!['a', 'u', 't', 'h', 'o', 'r', 'i', 'z', 'e', 'd', 'o', 't', 'n', 'e', 't']);
    assert("bluesnap"@ =~= seq!['b', 'l', 'u', 'e', 's', 'n', 'a', 'p']);
    assert("braintree"@ =~= seq!['b', 'r', 'a', 'i', 'n', 't', 'r', 'e', 'e']);
    assert("checkout"@ =~= seq!['c', 'h', 'e', 'c', 'k', 'o', 'u', 't']);
    assert("cybersource"@ =~= seq!['c', 'y', 'b', 'e', 'r', 's', 'o', 'u', 'r', 'c', 'e']);
    assert("globalpay"@ =~= seq!['g', 'l', 'o', 'b', 'a', 'l', 'p', 'a', 'y']);
    assert("helcim"@ =~= seq!['h', 'e', 'l', 'c', 'i', 'm']);
    assert("klarna"@ =~= seq!['k', 'l', 'a', 'r', 'n', 'a']);
    assert("mollie"@ =~= seq!['m', 'o', 'l', 'l', 'i', 'e']);
    assert("nexinets"@ =~= seq!['n', 'e', 'x', 'i', 'n', 'e', 't', 's']);
    assert("nmi"@ =~= seq!['n', 'm', 'i']);
    assert("noon"@ =~= seq!['n', 'o', 'o', 'n']);
    assert("nuvei"@ =~= seq!['n', 'u', 'v', 'e', 'i']);
    assert("payme"@ =~= seq!['p', 'a', 'y', 'm', 'e']);
    assert("paypal"@ =~= seq!['p', 'a', 'y', 'p', 'a', 'l']);
    assert("plaid"@ =~= seq!['p', 'l', 'a', 'i', 'd']);
    assert("shift4"@ =~= seq!['s', 'h', 'i', 'f', 't', '4']);
    assert("stripe"@ =~= seq!['s', 't', 'r', 'i', 'p', 'e']);
    assert("trustpay"@ =~= seq!['t', 'r', 'u', 's', 't', 'p', 'a', 'y']);
    assert("worldpay"@ =~= seq!['w', 'o', 'r', 'l', 'd', 'p', 'a', 'y']);
    assert("zen"@ =~= seq!['z', 'e', 'n']);
}

impl Operation {
    /// Whether the operation resumes a payment after a redirect.
    pub open spec fn is_start_pay_spec(self) -> bool {
        self == Operation::PaymentStart
    }

    /// Whether the operation resumes a payment after a redirect.
    pub fn is_start_pay(&self) -> (r: bool)
        ensures
            r == self.is_start_pay_spec(),
    {
        matches!(self, Operation::PaymentStart)
    }

    /// Whether the operation confirms a payment.
    pub open spec fn is_confirm_spec(self) -> bool {
        self == Operation::PaymentConfirm
    }

    /// Whether the operation confirms a payment.
    pub fn is_confirm(&self) -> (r: bool)
        ensures
            r == self.is_confirm_spec(),
    {
        matches!(self, Operation::PaymentConfirm)
    }
}

impl AuthenticationType {
    /// The authentication type used when an attempt names none.
    pub fn default_type() -> (r: Self)
        ensures
            r == AuthenticationType::NoThreeDs,
    {
        AuthenticationType::NoThreeDs
    }
}

impl PaymentMethod {
    /// The payment method used when a request names none.
    pub fn default_method() -> (r: Self)
        ensures
            r == PaymentMethod::Card,
    {
        PaymentMethod::Card
    }
}

} // verus!
