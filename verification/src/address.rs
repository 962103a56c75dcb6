//! A recipient's provisioning record.

use vstd::prelude::*;
use crate::storage::Backend;

verus! {

/// One row of the address directory.
#[derive(Debug, PartialEq, Eq)]
pub struct Address {
    pub address: String,
    pub user_id: i32,
    /// Largest email, in bytes, that the address accepts.
    pub max_email_size: i32,
    /// Number of emails that the address accepts per period.
    pub quota: i32,
    /// Number of emails accepted in the running period.
    pub received: i32,
    pub storage_token: String,
    pub storage_backend: Backend,
    pub storage_path: String,
    /// Start of the running period, in microseconds since the Unix epoch.
    pub last_renewal_time: i64,
}

/// What an [`Address`] holds, as mathematical values.
pub struct AddressView {
    pub address: Seq<char>,
    pub user_id: int,
    pub max_email_size: int,
    pub quota: int,
    pub received: int,
    pub storage_token: Seq<char>,
    pub storage_backend: Backend,
    pub storage_path: Seq<char>,
    pub last_renewal_time: int,
}

impl View for Address {
    type V = AddressView;

    open spec fn view(&self) -> AddressView {
        AddressView {
            address: self.address@,
            user_id: self.user_id as int,
            max_email_size: self.max_email_size as int,
            quota: self.quota as int,
            received: self.received as int,
            storage_token: self.storage_token@,
            storage_backend: self.storage_backend,
            storage_path: self.storage_path@,
            last_renewal_time: self.last_renewal_time as int,
        }
    }
}

impl AddressView {
    /// An email of `size` bytes is larger than the address allows.
    pub open spec fn size_exceeded(self, size: nat) -> bool {
        size > self.max_email_size
    }

    /// One more email would go beyond the quota of the period.
    pub open spec fn quota_exceeded(self) -> bool {
        self.received + 1 > self.quota
    }
}

impl Clone for Address {
    fn clone(&self) -> (copy: Address)
        ensures
            copy@ == self@,
    {
        Address {
            address: self.address.clone(),
            user_id: self.user_id,
            max_email_size: self.max_email_size,
            quota: self.quota,
            received: self.received,
            storage_token: self.storage_token.clone(),
            storage_backend: self.storage_backend,
            storage_path: self.storage_path.clone(),
            last_renewal_time: self.last_renewal_time,
        }
    }
}

impl Address {
    /// Whether an email of `size` bytes is larger than the address allows.
    pub fn size_exceeded(&self, size: usize) -> (exceeded: bool)
        ensures
            exceeded == self@.size_exceeded(size as nat),
    {
        self.max_email_size < 0 || size > self.max_email_size as usize
    }

    /// Whether one more email would go beyond the quota of the period.
    pub fn quota_exceeded(&self) -> (exceeded: bool)
        ensures
            exceeded == self@.quota_exceeded(),
    {
        self.received >= self.quota
    }
}

} // verus!
