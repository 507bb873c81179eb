//! Identities and the balances that the host keeps for them.

use vstd::prelude::*;
use vstd::std_specs::cmp::PartialEqSpecImpl;

verus! {

/// The identity of an account: the 32 bytes of its address.
#[derive(Clone, Copy, Debug)]
pub struct Identity {
    pub bytes: [u8; 32],
}

impl Identity {
    /// The identity with the given address bytes.
    pub fn new(bytes: [u8; 32]) -> (id: Identity)
        ensures
            id.bytes == bytes,
    {
        Identity { bytes }
    }

    /// The address bytes of this identity.
    pub fn to_bytes(&self) -> (bytes: [u8; 32])
        ensures
            bytes == self.bytes,
    {
        self.bytes
    }
}

impl PartialEq for Identity {
    /// Two identities are equal when all their bytes are.
    fn eq(&self, other: &Identity) -> (r: bool) {
        let mut i: usize = 0;
        while i < 32
            invariant
                i <= 32,
                forall|j: int| 0 <= j < i ==> self.bytes[j] == other.bytes[j],
            decreases 32 - i,
        {
            if self.bytes[i] != other.bytes[i] {
                return false;
            }
            i += 1;
        }
        assert(self.bytes =~= other.bytes);
        true
    }
}

impl Eq for Identity {

}

impl PartialEqSpecImpl for Identity {
    open spec fn obeys_eq_spec() -> bool {
        true
    }

    open spec fn eq_spec(&self, other: &Identity) -> bool {
        *self == *other
    }
}

/// An account as the host presents it: who it belongs to and what it holds.
#[derive(Clone, Copy, Debug, PartialEq, Eq)]
pub struct Wallet {
    /// The account's identity.
    pub key: Identity,
    /// The balance of the account, in the smallest unit of the currency.
    pub lamports: u64,
}

impl Wallet {
    /// The account of `key` holding `lamports`.
    pub fn new(key: Identity, lamports: u64) -> (w: Wallet)
        ensures
            w.key == key,
            w.lamports == lamports,
    {
        Wallet { key, lamports }
    }

    /// This account with `amount` taken out of it.
    pub open spec fn debited(self, amount: u64) -> Wallet
        recommends
            amount <= self.lamports,
    {
        Wallet { key: self.key, lamports: (self.lamports - amount) as u64 }
    }

    /// This account with `amount` added to it.
    pub open spec fn credited(self, amount: u64) -> Wallet
        recommends
            self.lamports + amount <= u64::MAX,
    {
        Wallet { key: self.key, lamports: (self.lamports + amount) as u64 }
    }
}

} // verus!
