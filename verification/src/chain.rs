//! The chain model the capability contracts speak of: the closed set of
//! chains in the deployment, 32-byte signing public keys and account ids,
//! and each chain's balance width.

use vstd::prelude::*;

verus! {

/// The chains of the closed, compiled-in deployment.
#[derive(Debug, Clone, Copy, PartialEq, Eq, Structural)]
pub enum ChainId {
    Millau,
    Rialto,
    RialtoParachain,
}

/// The public half of a transaction-signing key pair, as its 32 bytes.
#[derive(Debug, Clone, Copy, PartialEq, Eq)]
pub struct PublicKey(pub [u8; 32]);

impl View for PublicKey {
    type V = Seq<u8>;

    open spec fn view(&self) -> Seq<u8> {
        self.0@
    }
}

/// A chain account identity, as its 32 bytes.
#[derive(Debug, Clone, Copy, PartialEq, Eq)]
pub struct AccountId(pub [u8; 32]);

impl View for AccountId {
    type V = Seq<u8>;

    open spec fn view(&self) -> Seq<u8> {
        self.0@
    }
}

/// The largest balance a chain's balance type can carry. Millau balances
/// are 64 bits wide; Rialto and its parachain carry full 128-bit balances.
pub open spec fn spec_balance_limit(c: ChainId) -> u128 {
    match c {
        ChainId::Millau => u64::MAX as u128,
        ChainId::Rialto => u128::MAX,
        ChainId::RialtoParachain => u128::MAX,
    }
}

/// The account identity a public key converts to: the identity conversion
/// on the 32 bytes, on every chain of the deployment.
pub fn account_of_public(key: &PublicKey) -> (r: AccountId)
    ensures
        r@ == key@,
{
    AccountId(key.0)
}

/// Convert a balance of `from` into a balance of `to`: succeeds exactly
/// when the value fits the destination chain's balance width.
pub fn convert_balance(b: u128, to: ChainId) -> (r: Option<u128>)
    ensures
        b <= spec_balance_limit(to) ==> r == Some(b),
        b > spec_balance_limit(to) ==> r.is_none(),
{
    let limit: u128 = match to {
        ChainId::Millau => u64::MAX as u128,
        ChainId::Rialto => u128::MAX,
        ChainId::RialtoParachain => u128::MAX,
    };
    if b <= limit {
        Some(b)
    } else {
        None
    }
}

} // verus!
