//! The configuration entry record and its projections into store requests.

use vstd::prelude::*;

verus! {

/// How a value is held at rest in the remote store: as plaintext or as
/// ciphertext.
#[derive(Clone, Copy, Debug, PartialEq, Eq, Structural)]
pub enum StorageType {
    /// Plaintext storage (the store's `String` type).
    Plain,
    /// Encrypted-at-rest storage (the store's `SecureString` type).
    Secure,
}

impl StorageType {
    /// The store-side label of this storage type.
    pub open spec fn spec_label(self) -> Seq<char> {
        match self {
            StorageType::Plain => "String"@,
            StorageType::Secure => "SecureString"@,
        }
    }

    /// Returns the store-side label of this storage type.
    pub fn label(&self) -> (r: String)
        ensures
            r@ == self.spec_label(),
    {
        match self {
            StorageType::Plain => "String".to_owned(),
            StorageType::Secure => "SecureString".to_owned(),
        }
    }

    /// Returns whether this storage type keeps values encrypted at rest.
    pub fn is_secure(&self) -> (r: bool)
        ensures
            r == (*self is Secure),
    {
        match self {
            StorageType::Plain => false,
            StorageType::Secure => true,
        }
    }
}

/// One named configuration value to be synchronized into the remote store.
#[derive(Clone, Debug, PartialEq)]
pub struct Parameter {
    /// The name under which the value is stored; the identity used for both
    /// fetch and upsert.
    pub name: String,
    /// The value the store should hold under `name`.
    pub value: String,
    /// Free text clarifying the use of the parameter; advisory only.
    pub description: String,
    /// Whether the value must be stored encrypted at rest.
    pub is_secure: bool,
}

/// A fetch-by-name request: asks the store for the current value under
/// `name`, decrypted.
#[derive(Clone, Debug, PartialEq)]
pub struct GetRequest {
    /// The name to look up.
    pub name: String,
    /// Whether the store should hand back secure values decrypted. Always set,
    /// so that an existing secure value and a prospective plaintext value are
    /// compared by content, not by storage representation.
    pub with_decryption: bool,
}

/// An upsert-by-name request: asks the store to make the value under `name`
/// equal `value`, replacing any existing entry.
#[derive(Clone, Debug, PartialEq)]
pub struct PutRequest {
    /// The name to write under.
    pub name: String,
    /// The value to store.
    pub value: String,
    /// Free text stored alongside the value.
    pub description: String,
    /// Plaintext or ciphertext storage.
    pub type_: StorageType,
    /// Whether an existing entry is replaced unconditionally. Always set: the
    /// whole point of the tool is idempotent forced overwrite.
    pub overwrite: bool,
}

impl Parameter {
    /// The fetch request this entry projects to: its name, with decryption
    /// always requested.
    pub open spec fn spec_get_request(self) -> GetRequest {
        GetRequest { name: self.name, with_decryption: true }
    }

    /// The upsert request this entry projects to: its fields, overwrite
    /// always set, and the storage type chosen by `is_secure`.
    pub open spec fn spec_put_request(self) -> PutRequest {
        PutRequest {
            name: self.name,
            value: self.value,
            description: self.description,
            type_: if self.is_secure {
                StorageType::Secure
            } else {
                StorageType::Plain
            },
            overwrite: true,
        }
    }

    /// Creates a new entry from its four parts, verbatim: no validation is
    /// performed here; an unusable name or value surfaces as a store-side
    /// failure, not a local one.
    pub fn new(name: &str, value: &str, description: &str, is_secure: bool) -> (p: Parameter)
        ensures
            p.name@ == name@,
            p.value@ == value@,
            p.description@ == description@,
            p.is_secure == is_secure,
    {
        Parameter {
            name: name.to_owned(),
            value: value.to_owned(),
            description: description.to_owned(),
            is_secure,
        }
    }

    /// Builds the fetch request for this entry's name, with decryption always
    /// requested.
    pub fn to_get_parameter_request(&self) -> (r: GetRequest)
        ensures
            r == self.spec_get_request(),
    {
        GetRequest { name: self.name.clone(), with_decryption: true }
    }

    /// Builds the upsert request for this entry: overwrite always set, and
    /// secure storage exactly when `is_secure` holds.
    pub fn to_put_parameter_request(&self) -> (r: PutRequest)
        ensures
            r == self.spec_put_request(),
    {
        PutRequest {
            name: self.name.clone(),
            value: self.value.clone(),
            description: self.description.clone(),
            type_: if self.is_secure {
                StorageType::Secure
            } else {
                StorageType::Plain
            },
            overwrite: true,
        }
    }
}

} // verus!
