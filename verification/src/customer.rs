//! The customer of a merchant, in its domain form and as it is stored.

use vstd::prelude::*;

use crate::clock::now;
use crate::errors::ValidationError;

verus! {

/// A value kept in clear beside its encrypted form.
#[derive(Debug, PartialEq)]
pub struct Encryptable {
    pub inner: String,
    pub encrypted: Vec<u8>,
}

/// An encrypted value as it is stored.
#[derive(Debug, PartialEq)]
pub struct Encryption {
    pub inner: Vec<u8>,
}

impl Encryptable {
    /// The clear value.
    pub fn into_inner(self) -> (r: String)
        ensures
            r == self.inner,
    {
        self.inner
    }

    /// The encrypted form of the value.
    pub fn into_encrypted(self) -> (r: Encryption)
        ensures
            r.inner == self.encrypted,
    {
        Encryption { inner: self.encrypted }
    }
}

/// The encrypted form of an optional value.
pub open spec fn encrypted_of(value: Option<Encryptable>) -> Option<Encryption> {
    match value {
        Some(v) => Some(Encryption { inner: v.encrypted }),
        None => None,
    }
}

fn encrypt_optional(value: Option<Encryptable>) -> (r: Option<Encryption>)
    ensures
        r == encrypted_of(value),
{
    match value {
        Some(v) => Some(v.into_encrypted()),
        None => None,
    }
}

/// A customer in the form that the payment flows work with.
#[derive(Debug, PartialEq)]
pub struct Customer {
    pub id: Option<i32>,
    pub customer_id: String,
    pub merchant_id: String,
    pub name: Option<Encryptable>,
    pub email: Option<Encryptable>,
    pub phone: Option<Encryptable>,
    pub phone_country_code: Option<String>,
    pub description: Option<String>,
    pub created_at: time::PrimitiveDateTime,
    pub metadata: Option<serde_json::Value>,
    pub modified_at: time::PrimitiveDateTime,
    pub connector_customer: Option<serde_json::Value>,
    pub address_id: Option<String>,
    pub default_payment_method_id: Option<String>,
    pub updated_by: Option<String>,
}

/// A customer as the store holds it.
#[derive(Debug, PartialEq)]
pub struct StoredCustomer {
    pub id: i32,
    pub customer_id: String,
    pub merchant_id: String,
    pub name: Option<Encryption>,
    pub email: Option<Encryption>,
    pub phone: Option<Encryption>,
    pub phone_country_code: Option<String>,
    pub description: Option<String>,
    pub created_at: time::PrimitiveDateTime,
    pub metadata: Option<serde_json::Value>,
    pub modified_at: time::PrimitiveDateTime,
    pub connector_customer: Option<serde_json::Value>,
    pub address_id: Option<String>,
    pub default_payment_method_id: Option<String>,
    pub updated_by: Option<String>,
}

/// A customer that is about to be stored for the first time.
#[derive(Debug, PartialEq)]
pub struct CustomerNew {
    pub customer_id: String,
    pub merchant_id: String,
    pub name: Option<Encryption>,
    pub email: Option<Encryption>,
    pub phone: Option<Encryption>,
    pub description: Option<String>,
    pub phone_country_code: Option<String>,
    pub metadata: Option<serde_json::Value>,
    pub created_at: time::PrimitiveDateTime,
    pub modified_at: time::PrimitiveDateTime,
    pub connector_customer: Option<serde_json::Value>,
    pub address_id: Option<String>,
    pub updated_by: Option<String>,
}

/// The decrypted fields of a stored customer.
#[derive(Debug, PartialEq)]
pub struct DecryptedCustomerFields {
    pub name: Option<Encryptable>,
    pub phone: Option<Encryptable>,
}

impl Customer {
    /// The stored form of the customer `c`, under the record number `id`.
    pub open spec fn stored_form(c: Customer, id: i32) -> StoredCustomer {
        StoredCustomer {
            id,
            customer_id: c.customer_id,
            merchant_id: c.merchant_id,
            name: encrypted_of(c.name),
            email: encrypted_of(c.email),
            phone: encrypted_of(c.phone),
            phone_country_code: c.phone_country_code,
            description: c.description,
            created_at: c.created_at,
            metadata: c.metadata,
            modified_at: c.modified_at,
            connector_customer: c.connector_customer,
            address_id: c.address_id,
            default_payment_method_id: c.default_payment_method_id,
            updated_by: c.updated_by,
        }
    }

    /// The stored form of the customer; a customer without a record number has none.
    pub fn convert(self) -> (r: Result<StoredCustomer, ValidationError>)
        ensures
            self.id is Some ==> r == Ok::<StoredCustomer, ValidationError>(
                Self::stored_form(self, self.id->Some_0),
            ),
            self.id is None ==> r == Err::<StoredCustomer, ValidationError>(
                ValidationError::MissingRequiredField { field_name: "id" },
            ),
    {
        match self.id {
            None => Err(ValidationError::MissingRequiredField { field_name: "id" }),
            Some(id) => Ok(
                StoredCustomer {
                    id,
                    customer_id: self.customer_id,
                    merchant_id: self.merchant_id,
                    name: encrypt_optional(self.name),
                    email: encrypt_optional(self.email),
                    phone: encrypt_optional(self.phone),
                    phone_country_code: self.phone_country_code,
                    description: self.description,
                    created_at: self.created_at,
                    metadata: self.metadata,
                    modified_at: self.modified_at,
                    connector_customer: self.connector_customer,
                    address_id: self.address_id,
                    default_payment_method_id: self.default_payment_method_id,
                    updated_by: self.updated_by,
                },
            ),
        }
    }

    /// The domain form of the stored customer `item` with the given decrypted fields.
    pub open spec fn domain_form(
        item: StoredCustomer,
        fields: DecryptedCustomerFields,
        email: Option<Encryptable>,
    ) -> Customer {
        Customer {
            id: Some(item.id),
            customer_id: item.customer_id,
            merchant_id: item.merchant_id,
            name: fields.name,
            email,
            phone: fields.phone,
            phone_country_code: item.phone_country_code,
            description: item.description,
            created_at: item.created_at,
            metadata: item.metadata,
            modified_at: item.modified_at,
            connector_customer: item.connector_customer,
            address_id: item.address_id,
            default_payment_method_id: item.default_payment_method_id,
            updated_by: item.updated_by,
        }
    }

    /// Builds the domain form of a stored customer from the outcomes of
    /// decrypting its name and phone together, and its email. Either
    /// decryption failing fails the conversion.
    pub fn convert_back<E1, E2>(
        item: StoredCustomer,
        decrypted: Result<DecryptedCustomerFields, E1>,
        decrypted_email: Result<Option<Encryptable>, E2>,
    ) -> (r: Result<Customer, ValidationError>)
        ensures
            decrypted is Ok && decrypted_email is Ok ==> r == Ok::<Customer, ValidationError>(
                Self::domain_form(item, decrypted->Ok_0, decrypted_email->Ok_0),
            ),
            decrypted is Err || decrypted_email is Err ==> r == Err::<Customer, ValidationError>(
                ValidationError::InvalidValue { message: "Failed while decrypting customer data" },
            ),
    {
        let fields = match decrypted {
            Ok(fields) => fields,
            Err(_) => {
                return Err(
                    ValidationError::InvalidValue {
                        message: "Failed while decrypting customer data",
                    },
                );
            },
        };
        let email = match decrypted_email {
            Ok(email) => email,
            Err(_) => {
                return Err(
                    ValidationError::InvalidValue {
                        message: "Failed while decrypting customer data",
                    },
                );
            },
        };
        Ok(
            Customer {
                id: Some(item.id),
                customer_id: item.customer_id,
                merchant_id: item.merchant_id,
                name: fields.name,
                email,
                phone: fields.phone,
                phone_country_code: item.phone_country_code,
                description: item.description,
                created_at: item.created_at,
                metadata: item.metadata,
                modified_at: item.modified_at,
                connector_customer: item.connector_customer,
                address_id: item.address_id,
                default_payment_method_id: item.default_payment_method_id,
                updated_by: item.updated_by,
            },
        )
    }

    /// The record that stores the customer `c` for the first time at `at`.
    pub open spec fn new_record(c: Customer, at: time::PrimitiveDateTime) -> CustomerNew {
        CustomerNew {
            customer_id: c.customer_id,
            merchant_id: c.merchant_id,
            name: encrypted_of(c.name),
            email: encrypted_of(c.email),
            phone: encrypted_of(c.phone),
            description: c.description,
            phone_country_code: c.phone_country_code,
            metadata: c.metadata,
            created_at: at,
            modified_at: at,
            connector_customer: c.connector_customer,
            address_id: c.address_id,
            updated_by: c.updated_by,
        }
    }

    /// The record that stores the customer for the first time at `at`.
    pub fn construct_new_at(self, at: time::PrimitiveDateTime) -> (r: CustomerNew)
        ensures
            r == Self::new_record(self, at),
    {
        CustomerNew {
            customer_id: self.customer_id,
            merchant_id: self.merchant_id,
            name: encrypt_optional(self.name),
            email: encrypt_optional(self.email),
            phone: encrypt_optional(self.phone),
            description: self.description,
            phone_country_code: self.phone_country_code,
            metadata: self.metadata,
            created_at: at,
            modified_at: at,
            connector_customer: self.connector_customer,
            address_id: self.address_id,
            updated_by: self.updated_by,
        }
    }

    /// The record that stores the customer for the first time now: created
    /// and modified at one and the same instant.
    pub fn construct_new(self) -> (r: Result<CustomerNew, ValidationError>)
        ensures
            r is Ok,
            r->Ok_0 == Self::new_record(self, r->Ok_0.created_at),
    {
        let at = now();
        Ok(self.construct_new_at(at))
    }
}

/// A change to a stored customer.
#[derive(Debug, PartialEq)]
pub enum CustomerUpdate {
    Update {
        name: Option<Encryptable>,
        email: Option<Encryptable>,
        phone: Box<Option<Encryptable>>,
        description: Option<String>,
        phone_country_code: Option<String>,
        metadata: Option<serde_json::Value>,
        connector_customer: Option<serde_json::Value>,
        address_id: Option<String>,
    },
    ConnectorCustomer { connector_customer: Option<serde_json::Value> },
    UpdateDefaultPaymentMethod { default_payment_method_id: Option<Option<String>> },
}

/// A change to a stored customer, field by field; an absent field is left as it is.
#[derive(Debug, PartialEq)]
pub struct CustomerUpdateInternal {
    pub name: Option<Encryption>,
    pub email: Option<Encryption>,
    pub phone: Option<Encryption>,
    pub description: Option<String>,
    pub phone_country_code: Option<String>,
    pub metadata: Option<serde_json::Value>,
    pub modified_at: Option<time::PrimitiveDateTime>,
    pub connector_customer: Option<serde_json::Value>,
    pub address_id: Option<String>,
    pub default_payment_method_id: Option<Option<String>>,
    pub updated_by: Option<String>,
}

impl CustomerUpdateInternal {
    /// The field-by-field form of `update`, made at `at`.
    pub open spec fn of_update(update: CustomerUpdate, at: time::PrimitiveDateTime) -> Self {
        match update {
            CustomerUpdate::Update {
                name,
                email,
                phone,
                description,
                phone_country_code,
                metadata,
                connector_customer,
                address_id,
            } => CustomerUpdateInternal {
                name: encrypted_of(name),
                email: encrypted_of(email),
                phone: encrypted_of(*phone),
                description,
                phone_country_code,
                metadata,
                modified_at: Some(at),
                connector_customer,
                address_id,
                default_payment_method_id: None,
                updated_by: None,
            },
            CustomerUpdate::ConnectorCustomer { connector_customer } => CustomerUpdateInternal {
                name: None,
                email: None,
                phone: None,
                description: None,
                phone_country_code: None,
                metadata: None,
                modified_at: Some(at),
                connector_customer,
                address_id: None,
                default_payment_method_id: None,
                updated_by: None,
            },
            CustomerUpdate::UpdateDefaultPaymentMethod {
                default_payment_method_id,
            } => CustomerUpdateInternal {
                name: None,
                email: None,
                phone: None,
                description: None,
                phone_country_code: None,
                metadata: None,
                modified_at: Some(at),
                connector_customer: None,
                address_id: None,
                default_payment_method_id,
                updated_by: None,
            },
        }
    }

    /// The field-by-field form of `customer_update`, made at `at`.
    pub fn from_at(customer_update: CustomerUpdate, at: time::PrimitiveDateTime) -> (r: Self)
        ensures
            r == Self::of_update(customer_update, at),
    {
        match customer_update {
            CustomerUpdate::Update {
                name,
                email,
                phone,
                description,
                phone_country_code,
                metadata,
                connector_customer,
                address_id,
            } => CustomerUpdateInternal {
                name: encrypt_optional(name),
                email: encrypt_optional(email),
                phone: encrypt_optional(*phone),
                description,
                phone_country_code,
                metadata,
                modified_at: Some(at),
                connector_customer,
                address_id,
                default_payment_method_id: None,
                updated_by: None,
            },
            CustomerUpdate::ConnectorCustomer { connector_customer } => CustomerUpdateInternal {
                name: None,
                email: None,
                phone: None,
                description: None,
                phone_country_code: None,
                metadata: None,
                modified_at: Some(at),
                connector_customer,
                address_id: None,
                default_payment_method_id: None,
                updated_by: None,
            },
            CustomerUpdate::UpdateDefaultPaymentMethod {
                default_payment_method_id,
            } => CustomerUpdateInternal {
                name: None,
                email: None,
                phone: None,
                description: None,
                phone_country_code: None,
                metadata: None,
                modified_at: Some(at),
                connector_customer: None,
                address_id: None,
                default_payment_method_id,
                updated_by: None,
            },
        }
    }

    /// The field-by-field form of `customer_update`, made now.
    pub fn from(customer_update: CustomerUpdate) -> (r: Self)
        ensures
            r.modified_at is Some,
            r == Self::of_update(customer_update, r.modified_at->Some_0),
    {
        let at = now();
        Self::from_at(customer_update, at)
    }
}

} // verus!
