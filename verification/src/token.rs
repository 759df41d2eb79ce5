//! Identifiers of tokens and accounts.

use vstd::prelude::*;

verus! {

/// The name of the chain's native token: the ASCII bytes of `EGLD`.
pub open spec fn native_token_name() -> Seq<u8> {
    seq![69u8, 71u8, 76u8, 68u8]
}

/// The name of a fungible token. Two identifiers denote the same token
/// exactly when their names are the same bytes.
#[derive(Debug, Clone)]
pub struct TokenId {
    name: Vec<u8>,
}

impl View for TokenId {
    type V = Seq<u8>;

    closed spec fn view(&self) -> Seq<u8> {
        self.name@
    }
}

impl TokenId {
    /// The token with the given name.
    pub fn from_bytes(name: Vec<u8>) -> (token: TokenId)
        ensures
            token@ == name@,
    {
        TokenId { name }
    }

    /// The chain's native token.
    pub fn egld() -> (token: TokenId)
        ensures
            token@ == native_token_name(),
    {
        let mut name: Vec<u8> = Vec::new();
        name.push(69u8);
        name.push(71u8);
        name.push(76u8);
        name.push(68u8);
        assert(name@ =~= native_token_name());
        TokenId { name }
    }

    /// The bytes of the token's name.
    pub fn as_bytes(&self) -> (name: &Vec<u8>)
        ensures
            name@ == self@,
    {
        &self.name
    }

    /// Whether `self` and `other` denote the same token.
    pub fn same_token(&self, other: &TokenId) -> (same: bool)
        ensures
            same == (self@ == other@),
    {
        if self.name.len() != other.name.len() {
            return false;
        }
        let mut i: usize = 0;
        while i < self.name.len()
            invariant
                self.name.len() == other.name.len(),
                i <= self.name.len(),
                forall|j: int| 0 <= j < i ==> self.name@[j] == other.name@[j],
            decreases self.name.len() - i,
        {
            if self.name[i] != other.name[i] {
                return false;
            }
            i += 1;
        }
        assert(self.name@ =~= other.name@);
        true
    }
}

/// An account: the 32 bytes of its public key. The gateway never looks
/// inside one.
#[derive(Debug, Clone, Copy)]
pub struct Address {
    key: [u8; 32],
}

impl View for Address {
    type V = Seq<u8>;

    closed spec fn view(&self) -> Seq<u8> {
        self.key@
    }
}

impl Address {
    /// The account with the given public key.
    pub fn from_bytes(key: [u8; 32]) -> (address: Address)
        ensures
            address@ == key@,
    {
        Address { key }
    }

    /// The account's public key.
    pub fn to_bytes(&self) -> (key: [u8; 32])
        ensures
            key@ == self@,
    {
        self.key
    }
}

} // verus!
