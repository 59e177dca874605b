//! Accessors and conversions used by every connector request builder.

use vstd::prelude::*;

use vstd::string::*;

use crate::api::{Address, AddressDetails, Card, PaymentMethodData, PhoneDetails};
use crate::document::{document_json, document_text};
use crate::domain::PaymentAddress;
use crate::enums::{CaptureMethod, Currency};
use crate::errors::ConnectorError;
use crate::pattern::{match_outcome, strip_whitespace, try_match, without_whitespace};
use crate::text::{decimal_digits, major_unit_string, major_unit_text};
use crate::types;
use crate::types::{
    PaymentsAuthorizeData, PaymentsAuthorizeRouterData, PaymentsCancelData, PaymentsSyncData,
    RefreshTokenRouterData, RefundsData,
};

verus! {

/// The error that reports `message` as a missing required field.
pub fn missing_field_err(message: &'static str) -> (r: ConnectorError)
    ensures
        r == (ConnectorError::MissingRequiredField { field_name: message }),
{
    ConnectorError::MissingRequiredField { field_name: message }
}

/// Number of decimal places that the display form of `currency` implies.
pub open spec fn decimal_places(currency: Currency) -> nat {
    match currency {
        Currency::JPY | Currency::KRW => 0,
        Currency::BHD | Currency::JOD | Currency::KWD | Currency::OMR => 3,
        _ => 2,
    }
}

/// Whether a minor-unit amount lies in the range that can be displayed.
pub open spec fn displayable_amount(amount: i64) -> bool {
    0 <= amount <= u32::MAX
}

/// Display form of a minor-unit amount: unchanged for zero-decimal
/// currencies, divided by 1000 for three-decimal ones and by 100 otherwise.
/// Amounts outside the unsigned 32-bit range are rejected.
pub fn to_currency_base_unit(amount: i64, currency: Currency) -> (r: Result<String, ConnectorError>)
    ensures
        displayable_amount(amount) ==> r is Ok && r->Ok_0@ == major_unit_text(
            amount as nat,
            decimal_places(currency),
        ),
        !displayable_amount(amount) ==> r == Err::<String, ConnectorError>(
            ConnectorError::RequestEncodingFailed,
        ),
{
    if amount < 0 || amount > 4294967295 {
        return Err(ConnectorError::RequestEncodingFailed);
    }
    let amount_u32: u32 = amount as u32;
    match currency {
        Currency::JPY | Currency::KRW => Ok(major_unit_string(amount_u32, 0)),
        Currency::BHD | Currency::JOD | Currency::KWD | Currency::OMR => Ok(
            major_unit_string(amount_u32, 3),
        ),
        _ => Ok(major_unit_string(amount_u32, 2)),
    }
}

/// As [`to_currency_base_unit`], for an amount that may be absent.
pub fn to_currency_base_unit_from_optional_amount(
    amount: Option<i64>,
    currency: Currency,
) -> (r: Result<String, ConnectorError>)
    ensures
        amount is None ==> r == Err::<String, ConnectorError>(
            ConnectorError::MissingRequiredField { field_name: "amount" },
        ),
        amount is Some && displayable_amount(amount->Some_0) ==> r is Ok && r->Ok_0@
            == major_unit_text(amount->Some_0 as nat, decimal_places(currency)),
        amount is Some && !displayable_amount(amount->Some_0) ==> r == Err::<String, ConnectorError>(
            ConnectorError::RequestEncodingFailed,
        ),
{
    match amount {
        Some(a) => to_currency_base_unit(a, currency),
        None => Err(ConnectorError::MissingRequiredField { field_name: "amount" }),
    }
}

/// With no implied decimals the display form is the plain decimal notation.
pub proof fn zero_decimal_amount_is_unchanged(amount: nat)
    ensures
        major_unit_text(amount, 0) == decimal_digits(amount),
{
    reveal_with_fuel(crate::text::pow10, 1);
}

/// The value of a required part of a record, or the error that names the missing part.
pub open spec fn required<T>(value: Option<T>, field_name: &'static str) -> Result<
    T,
    ConnectorError,
> {
    match value {
        Some(v) => Ok(v),
        None => Err(ConnectorError::MissingRequiredField { field_name }),
    }
}

/// Whether `r` borrows the required part `value` of a record, or is the
/// error that names the missing part.
pub open spec fn is_required_ref<T>(
    r: Result<&T, ConnectorError>,
    value: Option<T>,
    field_name: &'static str,
) -> bool {
    match r {
        Ok(v) => value == Some(*v),
        Err(e) => value is None && e == (ConnectorError::MissingRequiredField { field_name }),
    }
}

fn require_text(value: &Option<String>, field_name: &'static str) -> (r: Result<
    String,
    ConnectorError,
>)
    ensures
        r == required(*value, field_name),
{
    match value {
        Some(v) => Ok(v.clone()),
        None => Err(missing_field_err(field_name)),
    }
}

fn require_ref<'a, T>(value: &'a Option<T>, field_name: &'static str) -> (r: Result<
    &'a T,
    ConnectorError,
>)
    ensures
        is_required_ref(r, *value, field_name),
{
    match value {
        Some(v) => Ok(v),
        None => Err(missing_field_err(field_name)),
    }
}

/// What a request for an access token can be asked for.
pub trait AccessTokenRequestInfo {
    /// The id of the request, if it has one.
    spec fn request_id(&self) -> Option<String>;

    fn get_request_id(&self) -> (r: Result<String, ConnectorError>)
        ensures
            r == required(self.request_id(), "request.id"),
    ;
}

impl AccessTokenRequestInfo for RefreshTokenRouterData {
    open spec fn request_id(&self) -> Option<String> {
        self.request.id
    }

    fn get_request_id(&self) -> (r: Result<String, ConnectorError>) {
        require_text(&self.request.id, "request.id")
    }
}

/// The billing address of a set of payment addresses, where it has the details.
pub open spec fn billing_address_details(address: PaymentAddress) -> Option<AddressDetails> {
    match address.billing {
        Some(billing) => billing.address,
        None => None,
    }
}

/// The billing phone of a set of payment addresses, if known.
pub open spec fn billing_phone(address: PaymentAddress) -> Option<PhoneDetails> {
    match address.billing {
        Some(billing) => billing.phone,
        None => None,
    }
}

/// The billing country of a set of payment addresses, if known.
pub open spec fn billing_country(address: PaymentAddress) -> Option<String> {
    match billing_address_details(address) {
        Some(details) => details.country,
        None => None,
    }
}

/// What every request builder can ask of a transformation unit. Each
/// accessor yields the part it is named after, or the error that names,
/// by its dotted path, the part that is missing.
pub trait RouterData {
    /// The addresses of the unit.
    spec fn addresses(&self) -> PaymentAddress;

    /// The description of the payment, if it has one.
    spec fn description_text(&self) -> Option<String>;

    /// The connector metadata of the unit, if it has any.
    spec fn connector_meta(&self) -> Option<serde_json::Value>;

    /// The session token of the unit, if it has one.
    spec fn session_token_text(&self) -> Option<String>;

    /// The URL to which the customer returns, if one is set.
    spec fn return_url_text(&self) -> Option<String>;

    fn get_billing(&self) -> (r: Result<&Address, ConnectorError>)
        ensures
            is_required_ref(r, self.addresses().billing, "billing"),
    ;

    fn get_billing_country(&self) -> (r: Result<String, ConnectorError>)
        ensures
            r == required(billing_country(self.addresses()), "billing.address.country"),
    ;

    fn get_billing_phone(&self) -> (r: Result<&PhoneDetails, ConnectorError>)
        ensures
            is_required_ref(r, billing_phone(self.addresses()), "billing.phone"),
    ;

    fn get_description(&self) -> (r: Result<String, ConnectorError>)
        ensures
            r == required(self.description_text(), "description"),
    ;

    fn get_billing_address(&self) -> (r: Result<&AddressDetails, ConnectorError>)
        ensures
            is_required_ref(r, billing_address_details(self.addresses()), "billing.address"),
    ;

    fn get_connector_meta(&self) -> (r: Result<serde_json::Value, ConnectorError>)
        ensures
            r == required(self.connector_meta(), "connector_meta_data"),
    ;

    fn get_session_token(&self) -> (r: Result<String, ConnectorError>)
        ensures
            r == required(self.session_token_text(), "session_token"),
    ;

    /// The connector metadata of the unit read as a `T`, given the
    /// outcome `parsed` of reading them so: without metadata the missing
    /// field is named whatever `parsed` holds, and metadata of another
    /// shape count as no connector metadata.
    fn to_connector_meta<T>(&self, parsed: Result<T, serde_json::Error>) -> (r: Result<
        T,
        ConnectorError,
    >)
        ensures
            r == match self.connector_meta() {
                None => Err::<T, ConnectorError>(
                    ConnectorError::MissingRequiredField { field_name: "connector_meta_data" },
                ),
                Some(_) => match parsed {
                    Ok(value) => Ok(value),
                    Err(_) => Err(ConnectorError::NoConnectorMetaData),
                },
            },
    ;

    fn get_return_url(&self) -> (r: Result<String, ConnectorError>)
        ensures
            r == required(self.return_url_text(), "return_url"),
    ;
}

impl<Flow, Request, Response> RouterData for types::RouterData<Flow, Request, Response> {
    open spec fn addresses(&self) -> PaymentAddress {
        self.address
    }

    open spec fn description_text(&self) -> Option<String> {
        self.description
    }

    open spec fn connector_meta(&self) -> Option<serde_json::Value> {
        self.connector_meta_data
    }

    open spec fn session_token_text(&self) -> Option<String> {
        self.session_token
    }

    open spec fn return_url_text(&self) -> Option<String> {
        self.return_url
    }

    fn get_billing(&self) -> (r: Result<&Address, ConnectorError>) {
        require_ref(&self.address.billing, "billing")
    }

    fn get_billing_country(&self) -> (r: Result<String, ConnectorError>) {
        match &self.address.billing {
            Some(billing) => match &billing.address {
                Some(details) => require_text(&details.country, "billing.address.country"),
                None => Err(missing_field_err("billing.address.country")),
            },
            None => Err(missing_field_err("billing.address.country")),
        }
    }

    fn get_billing_phone(&self) -> (r: Result<&PhoneDetails, ConnectorError>) {
        match &self.address.billing {
            Some(billing) => require_ref(&billing.phone, "billing.phone"),
            None => Err(missing_field_err("billing.phone")),
        }
    }

    fn get_description(&self) -> (r: Result<String, ConnectorError>) {
        require_text(&self.description, "description")
    }

    fn get_billing_address(&self) -> (r: Result<&AddressDetails, ConnectorError>) {
        match &self.address.billing {
            Some(billing) => require_ref(&billing.address, "billing.address"),
            None => Err(missing_field_err("billing.address")),
        }
    }

    fn get_connector_meta(&self) -> (r: Result<serde_json::Value, ConnectorError>) {
        match &self.connector_meta_data {
            Some(meta) => Ok(meta.clone()),
            None => Err(missing_field_err("connector_meta_data")),
        }
    }

    fn get_session_token(&self) -> (r: Result<String, ConnectorError>) {
        require_text(&self.session_token, "session_token")
    }

    fn to_connector_meta<T>(&self, parsed: Result<T, serde_json::Error>) -> (r: Result<
        T,
        ConnectorError,
    >) {
        if self.connector_meta_data.is_none() {
            return Err(missing_field_err("connector_meta_data"));
        }
        match parsed {
            Ok(value) => Ok(value),
            Err(_) => Err(ConnectorError::NoConnectorMetaData),
        }
    }

    fn get_return_url(&self) -> (r: Result<String, ConnectorError>) {
        require_text(&self.return_url, "return_url")
    }
}

/// What an authorisation unit can be asked for.
pub trait PaymentsRequestData {
    /// What the customer pays with.
    spec fn method_data(&self) -> PaymentMethodData;

    /// The card that the customer pays with; any other instrument is a missing card.
    fn get_card(&self) -> (r: Result<Card, ConnectorError>)
        ensures
            r == match self.method_data() {
                PaymentMethodData::Card(card) => Ok::<Card, ConnectorError>(card),
                _ => Err(ConnectorError::MissingRequiredField { field_name: "card" }),
            },
    ;
}

impl PaymentsRequestData for PaymentsAuthorizeRouterData {
    open spec fn method_data(&self) -> PaymentMethodData {
        self.request.payment_method_data
    }

    fn get_card(&self) -> (r: Result<Card, ConnectorError>) {
        match &self.request.payment_method_data {
            PaymentMethodData::Card(card) => Ok(card.clone()),
            _ => Err(missing_field_err("card")),
        }
    }
}

/// What an authorisation request can be asked for.
pub trait PaymentsAuthorizeRequestData {
    /// When the authorised funds are captured, where the request says.
    spec fn capture(&self) -> Option<CaptureMethod>;

    /// Whether the funds are captured as soon as they are authorised.
    fn is_auto_capture(&self) -> (r: bool)
        ensures
            r == (self.capture() == Some(CaptureMethod::Automatic)),
    ;
}

impl PaymentsAuthorizeRequestData for PaymentsAuthorizeData {
    open spec fn capture(&self) -> Option<CaptureMethod> {
        self.capture_method
    }

    fn is_auto_capture(&self) -> (r: bool) {
        matches!(self.capture_method, Some(CaptureMethod::Automatic))
    }
}

/// What a sync request can be asked for.
pub trait PaymentsSyncRequestData {
    /// When the authorised funds are captured, where the request says.
    spec fn capture(&self) -> Option<CaptureMethod>;

    /// Whether the funds are captured as soon as they are authorised.
    fn is_auto_capture(&self) -> (r: bool)
        ensures
            r == (self.capture() == Some(CaptureMethod::Automatic)),
    ;
}

impl PaymentsSyncRequestData for PaymentsSyncData {
    open spec fn capture(&self) -> Option<CaptureMethod> {
        self.capture_method
    }

    fn is_auto_capture(&self) -> (r: bool) {
        matches!(self.capture_method, Some(CaptureMethod::Automatic))
    }
}

/// What a cancel request can be asked for.
pub trait PaymentsCancelRequestData {
    /// The amount to cancel, if the request names one.
    spec fn amount_value(&self) -> Option<i64>;

    /// The currency of the amount, if the request names one.
    spec fn currency_value(&self) -> Option<Currency>;

    fn get_amount(&self) -> (r: Result<i64, ConnectorError>)
        ensures
            r == required(self.amount_value(), "amount"),
    ;

    fn get_currency(&self) -> (r: Result<Currency, ConnectorError>)
        ensures
            r == required(self.currency_value(), "currency"),
    ;
}

impl PaymentsCancelRequestData for PaymentsCancelData {
    open spec fn amount_value(&self) -> Option<i64> {
        self.amount
    }

    open spec fn currency_value(&self) -> Option<Currency> {
        self.currency
    }

    fn get_amount(&self) -> (r: Result<i64, ConnectorError>) {
        match self.amount {
            Some(amount) => Ok(amount),
            None => Err(missing_field_err("amount")),
        }
    }

    fn get_currency(&self) -> (r: Result<Currency, ConnectorError>) {
        match self.currency {
            Some(currency) => Ok(currency),
            None => Err(missing_field_err("currency")),
        }
    }
}

/// What a refund request can be asked for.
pub trait RefundsRequestData {
    /// The connector's id of the refund, once the connector gave one.
    spec fn refund_id(&self) -> Option<String>;

    /// The connector's id of the refund; without it the refund cannot be
    /// traced to a transaction of the connector.
    fn get_connector_refund_id(&self) -> (r: Result<String, ConnectorError>)
        ensures
            r == match self.refund_id() {
                Some(id) => Ok::<String, ConnectorError>(id),
                None => Err(ConnectorError::MissingConnectorTransactionID),
            },
    ;
}

impl RefundsRequestData for RefundsData {
    open spec fn refund_id(&self) -> Option<String> {
        self.connector_refund_id
    }

    fn get_connector_refund_id(&self) -> (r: Result<String, ConnectorError>) {
        match &self.connector_refund_id {
            Some(id) => Ok(id.clone()),
            None => Err(ConnectorError::MissingConnectorTransactionID),
        }
    }
}

/// The networks that issue the cards which this library tells apart.
#[derive(Clone, Copy, Debug, PartialEq, Eq, Hash, Structural)]
pub enum CardIssuer {
    AmericanExpress,
    Master,
    Maestro,
    Visa,
    Discover,
}

impl CardIssuer {
    /// The text of the name.
    pub open spec fn name_spec(self) -> Seq<char> {
        match self {
            CardIssuer::AmericanExpress => "AmericanExpress"@,
            CardIssuer::Master => "Master"@,
            CardIssuer::Maestro => "Maestro"@,
            CardIssuer::Visa => "Visa"@,
            CardIssuer::Discover => "Discover"@,
        }
    }

    /// The name of the issuer.
    pub fn name(&self) -> (r: &'static str)
        ensures
            r@ == self.name_spec(),
    {
        match self {
            CardIssuer::AmericanExpress => "AmericanExpress",
            CardIssuer::Master => "Master",
            CardIssuer::Maestro => "Maestro",
            CardIssuer::Visa => "Visa",
            CardIssuer::Discover => "Discover",
        }
    }

    /// The pattern of the card numbers of the issuer.
    pub open spec fn pattern_spec(self) -> Seq<char> {
        match self {
            CardIssuer::Visa => "^4[0-9]{12}(?:[0-9]{3})?$"@,
            CardIssuer::Master => "^5[1-5][0-9]{14}$"@,
            CardIssuer::AmericanExpress => "^3[47][0-9]{13}$"@,
            CardIssuer::Discover => "^65[4-9][0-9]{13}|64[4-9][0-9]{13}|6011[0-9]{12}|(622(?:12[6-9]|1[3-9][0-9]|[2-8][0-9][0-9]|9[01][0-9]|92[0-5])[0-9]{10})$"@,
            CardIssuer::Maestro => "^(5018|5020|5038|5893|6304|6759|6761|6762|6763)[0-9]{8,15}$"@,
        }
    }

    /// The regular expression that the card numbers of the issuer match.
    pub fn pattern(&self) -> (r: &'static str)
        ensures
            r@ == self.pattern_spec(),
    {
        match self {
            CardIssuer::Visa => "^4[0-9]{12}(?:[0-9]{3})?$",
            CardIssuer::Master => "^5[1-5][0-9]{14}$",
            CardIssuer::AmericanExpress => "^3[47][0-9]{13}$",
            CardIssuer::Discover => "^65[4-9][0-9]{13}|64[4-9][0-9]{13}|6011[0-9]{12}|(622(?:12[6-9]|1[3-9][0-9]|[2-8][0-9][0-9]|9[01][0-9]|92[0-5])[0-9]{10})$",
            CardIssuer::Maestro => "^(5018|5020|5038|5893|6304|6759|6761|6762|6763)[0-9]{8,15}$",
        }
    }
}

/// The issuers in the order in which a card number is held against their
/// patterns: Visa, Mastercard, American Express, Discover, Maestro.
pub open spec fn issuers_by_priority() -> Seq<CardIssuer> {
    seq![
        CardIssuer::Visa,
        CardIssuer::Master,
        CardIssuer::AmericanExpress,
        CardIssuer::Discover,
        CardIssuer::Maestro,
    ]
}

/// For each issuer, in the order of priority, the outcome of matching
/// its pattern against the card number.
pub open spec fn issuer_candidates(card_number: Seq<char>) -> Seq<(CardIssuer, Option<bool>)> {
    Seq::new(
        issuers_by_priority().len(),
        |i: int|
            (
                issuers_by_priority()[i],
                match_outcome(issuers_by_priority()[i].pattern_spec(), card_number),
            ),
    )
}

/// The issuer of the first candidate that matched. A candidate whose
/// pattern is no regular expression ends the search with an error, and so
/// does the end of the list.
pub open spec fn first_match(candidates: Seq<(CardIssuer, Option<bool>)>) -> Result<
    CardIssuer,
    ConnectorError,
>
    decreases candidates.len(),
{
    if candidates.len() == 0 {
        Err(ConnectorError::NotImplemented("Card Type"))
    } else {
        match candidates[0].1 {
            None => Err(ConnectorError::RequestEncodingFailed),
            Some(true) => Ok(candidates[0].0),
            Some(false) => first_match(candidates.drop_first()),
        }
    }
}

/// Picks the issuer of the first candidate that matched.
pub fn issuer_of_first_match(candidates: &Vec<(CardIssuer, Option<bool>)>) -> (r: Result<
    CardIssuer,
    ConnectorError,
>)
    ensures
        r == first_match(candidates@),
{
    let mut i: usize = 0;
    assert(candidates@.skip(0) =~= candidates@);
    while i < candidates.len()
        invariant
            i <= candidates.len(),
            first_match(candidates@) == first_match(candidates@.skip(i as int)),
        decreases candidates.len() - i,
    {
        assert(candidates@.skip(i as int).drop_first() =~= candidates@.skip(i + 1));
        match candidates[i].1 {
            None => {
                return Err(ConnectorError::RequestEncodingFailed);
            },
            Some(true) => {
                return Ok(candidates[i].0);
            },
            Some(false) => {},
        }
        i += 1;
    }
    Err(ConnectorError::NotImplemented("Card Type"))
}

/// Tells the issuer of a card from its number, given without whitespace:
/// the first issuer, in the order of priority, whose pattern the number
/// matches.
pub fn get_card_issuer(card_number: &str) -> (r: Result<CardIssuer, ConnectorError>)
    ensures
        r == first_match(issuer_candidates(card_number@)),
{
    let mut candidates: Vec<(CardIssuer, Option<bool>)> = Vec::new();
    candidates.push((CardIssuer::Visa, try_match(CardIssuer::Visa.pattern(), card_number)));
    candidates.push((CardIssuer::Master, try_match(CardIssuer::Master.pattern(), card_number)));
    candidates.push(
        (
            CardIssuer::AmericanExpress,
            try_match(CardIssuer::AmericanExpress.pattern(), card_number),
        ),
    );
    candidates.push((CardIssuer::Discover, try_match(CardIssuer::Discover.pattern(), card_number)));
    candidates.push((CardIssuer::Maestro, try_match(CardIssuer::Maestro.pattern(), card_number)));
    assert(candidates@ =~= issuer_candidates(card_number@));
    issuer_of_first_match(&candidates)
}

/// A number that matches the pattern of Visa is a Visa card, whatever
/// else it may match and however often it is asked.
pub proof fn visa_number_is_visa(card_number: Seq<char>)
    requires
        match_outcome(CardIssuer::Visa.pattern_spec(), card_number) == Some(true),
    ensures
        first_match(issuer_candidates(card_number)) == Ok::<CardIssuer, ConnectorError>(
            CardIssuer::Visa,
        ),
{
}

/// A number that matches the pattern of no issuer is not classified.
pub proof fn unrecognised_number_is_not_implemented(card_number: Seq<char>)
    requires
        forall|issuer: CardIssuer| #[trigger]
            match_outcome(issuer.pattern_spec(), card_number) == Some(false),
    ensures
        first_match(issuer_candidates(card_number)) == Err::<CardIssuer, ConnectorError>(
            ConnectorError::NotImplemented("Card Type"),
        ),
{
    reveal_with_fuel(first_match, 6);
}

/// The last two characters of a text; the whole text where it has fewer than two.
pub open spec fn last_two(text: Seq<char>) -> Seq<char> {
    if text.len() >= 2 {
        text.subrange(text.len() - 2, text.len() as int)
    } else {
        text
    }
}

/// What a card can be asked for.
pub trait CardData {
    /// The number of the card as it is written.
    spec fn number(&self) -> Seq<char>;

    /// The expiry month of the card as it is written.
    spec fn expiry_month(&self) -> Seq<char>;

    /// The expiry year of the card as it is written.
    spec fn expiry_year(&self) -> Seq<char>;

    /// The last two characters of the expiry year; the whole year where
    /// it has fewer than two.
    fn get_card_expiry_year_2_digit(&self) -> (r: String)
        ensures
            r@ == last_two(self.expiry_year()),
    ;

    /// The issuer of the card, told from its number with the whitespace taken out.
    fn get_card_issuer(&self) -> (r: Result<CardIssuer, ConnectorError>)
        ensures
            r == first_match(issuer_candidates(without_whitespace(self.number()))),
    ;

    /// The expiry year, the delimiter and the expiry month, in this order.
    fn get_expiry_date_as_yyyymm(&self, delimiter: &str) -> (r: String)
        ensures
            r@ == self.expiry_year() + delimiter@ + self.expiry_month(),
    ;
}

impl CardData for Card {
    open spec fn number(&self) -> Seq<char> {
        self.card_number@
    }

    open spec fn expiry_month(&self) -> Seq<char> {
        self.card_exp_month@
    }

    open spec fn expiry_year(&self) -> Seq<char> {
        self.card_exp_year@
    }

    fn get_card_expiry_year_2_digit(&self) -> (r: String) {
        let year = self.card_exp_year.as_str();
        let length = year.unicode_len();
        if length >= 2 {
            String::from_str(year.substring_char(length - 2, length))
        } else {
            String::from_str(year)
        }
    }

    fn get_card_issuer(&self) -> (r: Result<CardIssuer, ConnectorError>) {
        let card = strip_whitespace(self.card_number.as_str());
        get_card_issuer(card.as_str())
    }

    fn get_expiry_date_as_yyyymm(&self, delimiter: &str) -> (r: String) {
        let mut date = self.card_exp_year.clone();
        date.append(delimiter);
        date.append(self.card_exp_month.as_str());
        date
    }
}

/// What phone details can be asked for.
pub trait PhoneDetailsData {
    /// The number, if known.
    spec fn number_text(&self) -> Option<String>;

    /// The country code, if known.
    spec fn country_code_text(&self) -> Option<String>;

    fn get_number(&self) -> (r: Result<String, ConnectorError>)
        ensures
            r == required(self.number_text(), "billing.phone.number"),
    ;

    fn get_country_code(&self) -> (r: Result<String, ConnectorError>)
        ensures
            r == required(self.country_code_text(), "billing.phone.country_code"),
    ;
}

impl PhoneDetailsData for PhoneDetails {
    open spec fn number_text(&self) -> Option<String> {
        self.number
    }

    open spec fn country_code_text(&self) -> Option<String> {
        self.country_code
    }

    fn get_country_code(&self) -> (r: Result<String, ConnectorError>) {
        require_text(&self.country_code, "billing.phone.country_code")
    }

    fn get_number(&self) -> (r: Result<String, ConnectorError>) {
        require_text(&self.number, "billing.phone.number")
    }
}

/// What address details can be asked for.
pub trait AddressDetailsData {
    /// The details themselves.
    spec fn details(&self) -> AddressDetails;

    fn get_first_name(&self) -> (r: Result<&String, ConnectorError>)
        ensures
            is_required_ref(r, self.details().first_name, "address.first_name"),
    ;

    fn get_last_name(&self) -> (r: Result<&String, ConnectorError>)
        ensures
            is_required_ref(r, self.details().last_name, "address.last_name"),
    ;

    fn get_line1(&self) -> (r: Result<&String, ConnectorError>)
        ensures
            is_required_ref(r, self.details().line1, "address.line1"),
    ;

    fn get_city(&self) -> (r: Result<&String, ConnectorError>)
        ensures
            is_required_ref(r, self.details().city, "address.city"),
    ;

    fn get_line2(&self) -> (r: Result<&String, ConnectorError>)
        ensures
            is_required_ref(r, self.details().line2, "address.line2"),
    ;

    fn get_zip(&self) -> (r: Result<&String, ConnectorError>)
        ensures
            is_required_ref(r, self.details().zip, "address.zip"),
    ;

    fn get_country(&self) -> (r: Result<&String, ConnectorError>)
        ensures
            is_required_ref(r, self.details().country, "address.country"),
    ;
}

impl AddressDetailsData for AddressDetails {
    open spec fn details(&self) -> AddressDetails {
        *self
    }

    fn get_first_name(&self) -> (r: Result<&String, ConnectorError>) {
        require_ref(&self.first_name, "address.first_name")
    }

    fn get_last_name(&self) -> (r: Result<&String, ConnectorError>) {
        require_ref(&self.last_name, "address.last_name")
    }

    fn get_line1(&self) -> (r: Result<&String, ConnectorError>) {
        require_ref(&self.line1, "address.line1")
    }

    fn get_city(&self) -> (r: Result<&String, ConnectorError>) {
        require_ref(&self.city, "address.city")
    }

    fn get_line2(&self) -> (r: Result<&String, ConnectorError>) {
        require_ref(&self.line2, "address.line2")
    }

    fn get_zip(&self) -> (r: Result<&String, ConnectorError>) {
        require_ref(&self.zip, "address.zip")
    }

    fn get_country(&self) -> (r: Result<&String, ConnectorError>) {
        require_ref(&self.country, "address.country")
    }
}

/// Whether `e` reports that the document `json` could not be read as the
/// type `to_type`, with the text of the document.
pub open spec fn is_parsing_failure(
    e: ConnectorError,
    json: serde_json::Value,
    to_type: &'static str,
) -> bool {
    e matches ConnectorError::ParsingFailed { from_type, to_type: reported, data } && from_type
        == "Json" && reported == to_type && data@ == document_json(json)
}

/// The connector metadata `connector_meta` read as a `T`, given the
/// outcome `parsed` of reading them so and the name `to_type` of `T`.
/// Without metadata the missing field is named whatever `parsed` holds.
pub fn to_connector_meta<T>(
    connector_meta: Option<serde_json::Value>,
    parsed: Result<T, serde_json::Error>,
    to_type: &'static str,
) -> (r: Result<T, ConnectorError>)
    ensures
        match connector_meta {
            None => r == Err::<T, ConnectorError>(
                ConnectorError::MissingRequiredField { field_name: "connector_meta_data" },
            ),
            Some(json) => match parsed {
                Ok(value) => r == Ok::<T, ConnectorError>(value),
                Err(_) => r is Err && is_parsing_failure(r->Err_0, json, to_type),
            },
        },
{
    match connector_meta {
        Some(json) => parse_struct(json, parsed, to_type),
        None => Err(missing_field_err("connector_meta_data")),
    }
}

/// The document `json` read as a `T`, given the outcome `parsed` of
/// reading it so and the name `to_type` of `T`: what was read, or a
/// parsing failure that carries the text of the document.
pub fn parse_struct<T>(
    json: serde_json::Value,
    parsed: Result<T, serde_json::Error>,
    to_type: &'static str,
) -> (r: Result<T, ConnectorError>)
    ensures
        match parsed {
            Ok(value) => r == Ok::<T, ConnectorError>(value),
            Err(_) => r is Err && is_parsing_failure(r->Err_0, json, to_type),
        },
{
    match parsed {
        Ok(value) => Ok(value),
        Err(_) => Err(
            ConnectorError::ParsingFailed {
                from_type: "Json",
                to_type,
                data: document_text(&json),
            },
        ),
    }
}

} // verus!
