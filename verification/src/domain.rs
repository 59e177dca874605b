//! Domain records around a payment: addresses, mandates, merchant context.

use vstd::prelude::*;

use crate::api::{Address, AddressDetails, MinorUnit};
use crate::document::Stored;
use crate::enums::{AcceptanceType, Currency, ApplePayFlow};
use crate::types::ConnectorAuthType;

verus! {

#[derive(Clone, Debug, PartialEq)]
pub struct MandateAmountData {
    pub amount: MinorUnit,
    pub currency: Currency,
    pub start_date: Option<time::PrimitiveDateTime>,
    pub end_date: Option<time::PrimitiveDateTime>,
    pub metadata: Option<serde_json::Value>,
}

#[derive(Clone, Debug, PartialEq)]
pub enum MandateDataType {
    SingleUse(MandateAmountData),
    MultiUse(Option<MandateAmountData>),
}

#[derive(Clone, Debug, PartialEq)]
pub struct OnlineMandate {
    pub ip_address: Option<String>,
    pub user_agent: String,
}

#[derive(Clone, Debug, PartialEq)]
pub struct CustomerAcceptance {
    pub acceptance_type: AcceptanceType,
    pub accepted_at: Option<time::PrimitiveDateTime>,
    pub online: Option<OnlineMandate>,
}

/// A mandate being set up with a payment.
#[derive(Clone, Debug, PartialEq)]
pub struct MandateData {
    pub update_mandate_id: Option<String>,
    pub customer_acceptance: Option<CustomerAcceptance>,
    pub mandate_type: Option<MandateDataType>,
}

/// The addresses of a payment.
#[derive(Debug, PartialEq)]
pub struct PaymentAddress {
    pub shipping: Option<Address>,
    pub billing: Option<Address>,
    /// Billing address of the payment method, completed from other sources.
    pub unified_payment_method_billing: Option<Address>,
    /// Billing address of the payment method as the request gave it.
    pub payment_method_billing: Option<Address>,
}

/// The merchant on whose behalf a payment runs.
#[derive(Clone, Debug, PartialEq)]
pub struct MerchantAccount {
    pub merchant_id: String,
}

/// The merchant's account with one connector.
#[derive(Clone, Debug, PartialEq)]
pub struct MerchantConnectorAccountType {
    pub disabled: Option<bool>,
    pub test_mode: Option<bool>,
    pub connector_account_details: Stored<ConnectorAuthType>,
    pub metadata: Option<serde_json::Value>,
    pub connector_wallets_details: Option<serde_json::Value>,
    /// How Apple Pay tokens are handled with this account, where it is set up for them.
    pub apple_pay_flow: Option<ApplePayFlow>,
}

impl MerchantConnectorAccountType {
    /// Whether the account is marked as disabled.
    pub open spec fn is_disabled_spec(&self) -> bool {
        self.disabled == Some(true)
    }

    /// Whether the account is marked as disabled.
    pub fn is_disabled(&self) -> (r: bool)
        ensures
            r == self.is_disabled_spec(),
    {
        match self.disabled {
            Some(d) => d,
            None => false,
        }
    }

    /// Whether the account runs in test mode, where it says.
    pub fn is_test_mode_on(&self) -> (r: Option<bool>)
        ensures
            r == self.test_mode,
    {
        self.test_mode
    }
}

/// Whether `r` borrows exactly what `value` holds.
pub open spec fn refers_to<T>(r: Option<&T>, value: Option<T>) -> bool {
    match r {
        Some(v) => value == Some(*v),
        None => value is None,
    }
}

/// The first of two optional values that is present.
pub open spec fn first_some<T>(a: Option<T>, b: Option<T>) -> Option<T> {
    if a is Some {
        a
    } else {
        b
    }
}

impl AddressDetails {
    /// Field by field, the value of `self` where it has one, else that of `other`.
    pub open spec fn unify_spec(self, other: Option<AddressDetails>) -> AddressDetails {
        match other {
            None => self,
            Some(o) => AddressDetails {
                city: first_some(self.city, o.city),
                country: first_some(self.country, o.country),
                line1: first_some(self.line1, o.line1),
                line2: first_some(self.line2, o.line2),
                line3: first_some(self.line3, o.line3),
                zip: first_some(self.zip, o.zip),
                state: first_some(self.state, o.state),
                first_name: first_some(self.first_name, o.first_name),
                last_name: first_some(self.last_name, o.last_name),
            },
        }
    }

    /// Completes the missing fields of `self` from `other`.
    pub fn unify_address_details(self, other: Option<AddressDetails>) -> (r: AddressDetails)
        ensures
            r == self.unify_spec(other),
    {
        match other {
            None => self,
            Some(o) => AddressDetails {
                city: or_else(self.city, o.city),
                country: or_else(self.country, o.country),
                line1: or_else(self.line1, o.line1),
                line2: or_else(self.line2, o.line2),
                line3: or_else(self.line3, o.line3),
                zip: or_else(self.zip, o.zip),
                state: or_else(self.state, o.state),
                first_name: or_else(self.first_name, o.first_name),
                last_name: or_else(self.last_name, o.last_name),
            },
        }
    }
}

/// `a` where it is present, else `b`.
pub fn or_else<T>(a: Option<T>, b: Option<T>) -> (r: Option<T>)
    ensures
        r == first_some(a, b),
{
    match a {
        Some(v) => Some(v),
        None => b,
    }
}

impl Address {
    /// Part by part, the value of `self` where it has one, else that of `other`.
    pub open spec fn unify_spec(self, other: Option<Address>) -> Address {
        match other {
            None => self,
            Some(o) => Address {
                address: match self.address {
                    Some(a) => Some(a.unify_spec(o.address)),
                    None => o.address,
                },
                phone: first_some(self.phone, o.phone),
                email: first_some(self.email, o.email),
            },
        }
    }

    /// Completes the missing parts of `self` from `other`.
    pub fn unify_address(self, other: Option<Address>) -> (r: Address)
        ensures
            r == self.unify_spec(other),
    {
        match other {
            None => self,
            Some(o) => {
                let address = match self.address {
                    Some(a) => Some(a.unify_address_details(o.address)),
                    None => o.address,
                };
                Address {
                    address,
                    phone: or_else(self.phone, o.phone),
                    email: or_else(self.email, o.email),
                }
            },
        }
    }
}

impl PaymentAddress {
    /// The shipping address of the payment.
    pub fn get_shipping(&self) -> (r: Option<&Address>)
        ensures
            refers_to(r, self.shipping),
    {
        self.shipping.as_ref()
    }

    /// The billing address of the payment.
    pub fn get_payment_billing(&self) -> (r: Option<&Address>)
        ensures
            refers_to(r, self.billing),
    {
        self.billing.as_ref()
    }

    /// The unified billing address of the payment method.
    pub fn get_payment_method_billing(&self) -> (r: Option<&Address>)
        ensures
            refers_to(r, self.unified_payment_method_billing),
    {
        self.unified_payment_method_billing.as_ref()
    }

    /// The billing address of the payment method as the request gave it.
    pub fn get_request_payment_method_billing(&self) -> (r: Option<&Address>)
        ensures
            refers_to(r, self.payment_method_billing),
    {
        self.payment_method_billing.as_ref()
    }

    /// The unified billing address once the stored billing address of the
    /// payment method is taken into account: the stored one, completed from
    /// the one already unified; or the latter alone where none is stored.
    pub open spec fn unified_billing_spec(self, stored: Option<Address>) -> Option<Address> {
        match stored {
            Some(s) => Some(s.unify_spec(self.unified_payment_method_billing)),
            None => self.unified_payment_method_billing,
        }
    }

    /// Takes the billing address stored with the payment method into the
    /// unified billing address; the other addresses stay as they are.
    pub fn unify_with_payment_data_billing(self, stored: Option<Address>) -> (r: PaymentAddress)
        ensures
            r.shipping == self.shipping,
            r.billing == self.billing,
            r.payment_method_billing == self.payment_method_billing,
            r.unified_payment_method_billing == self.unified_billing_spec(stored),
    {
        let unified = match stored {
            Some(s) => Some(s.unify_address(self.unified_payment_method_billing)),
            None => self.unified_payment_method_billing,
        };
        PaymentAddress {
            shipping: self.shipping,
            billing: self.billing,
            unified_payment_method_billing: unified,
            payment_method_billing: self.payment_method_billing,
        }
    }
}

/// A copy of an optional address.
pub fn clone_opt_address(value: &Option<Address>) -> (r: Option<Address>)
    ensures
        r == *value,
{
    match value {
        Some(a) => Some(a.clone()),
        None => None,
    }
}

impl Clone for PaymentAddress {
    fn clone(&self) -> (r: Self)
        ensures
            r == *self,
    {
        PaymentAddress {
            shipping: clone_opt_address(&self.shipping),
            billing: clone_opt_address(&self.billing),
            unified_payment_method_billing: clone_opt_address(&self.unified_payment_method_billing),
            payment_method_billing: clone_opt_address(&self.payment_method_billing),
        }
    }
}

impl MerchantConnectorAccountType {
    /// An account with the given credentials: enabled, and with every optional part absent.
    pub fn new(
        connector_account_details: Stored<ConnectorAuthType>,
    ) -> (r: Self)
        ensures
            r.disabled is None,
            r.test_mode is None,
            r.connector_account_details == connector_account_details,
            r.metadata is None,
            r.connector_wallets_details is None,
            r.apple_pay_flow is None,
    {
        MerchantConnectorAccountType {
                disabled: None,
                test_mode: None,
                connector_account_details,
                metadata: None,
                connector_wallets_details: None,
                apple_pay_flow: None,
        }
    }
}

impl PaymentAddress {
    /// The unified billing address of a payment method: the one that the
    /// request gave for the method, completed from the billing address of
    /// the payment; or the latter alone where the request gave none.
    pub open spec fn unified_on_creation(
        billing: Option<Address>,
        payment_method_billing: Option<Address>,
    ) -> Option<Address> {
        match payment_method_billing {
            Some(address) => Some(address.unify_spec(billing)),
            None => billing,
        }
    }

    /// The addresses of a payment, with the unified billing address of its payment method.
    pub fn new(
        shipping: Option<Address>,
        billing: Option<Address>,
        payment_method_billing: Option<Address>,
    ) -> (r: Self)
        ensures
            r.shipping == shipping,
            r.billing == billing,
            r.payment_method_billing == payment_method_billing,
            r.unified_payment_method_billing == Self::unified_on_creation(
                billing,
                payment_method_billing,
            ),
    {
        let unified = match &payment_method_billing {
            Some(address) => Some(address.clone().unify_address(clone_opt_address(&billing))),
            None => clone_opt_address(&billing),
        };
        PaymentAddress {
            shipping,
            billing,
            unified_payment_method_billing: unified,
            payment_method_billing,
        }
    }
}

} // verus!
