use linera_base::identifiers::{AccountOwner, ChainId};
use vstd::prelude::*;

verus! {

/// `linera_base::identifiers::AccountOwner`: the identity of an authenticated
/// caller. The library only carries, compares and prints such a value.
#[verifier::external_type_specification]
#[verifier::external_body]
pub struct ExAccountOwner(linera_base::identifiers::AccountOwner);

/// `linera_base::identifiers::ChainId`: the chain on which a game was created.
/// The library only carries and prints such a value.
#[verifier::external_type_specification]
#[verifier::external_body]
pub struct ExChainId(linera_base::identifiers::ChainId);

/// The text that the `Debug` implementation of `AccountOwner` writes for
/// `owner`.
pub uninterp spec fn owner_text(owner: AccountOwner) -> Seq<char>;

/// The text that the `Debug` implementation of `ChainId` writes for `chain`.
pub uninterp spec fn chain_text(chain: ChainId) -> Seq<char>;

/// Calls `==` of `AccountOwner`, which the crate derives: it compares the
/// variant and the bytes, so it answers `true` exactly for the same owner.
#[verifier::external_body]
pub(crate) fn same_owner(a: &AccountOwner, b: &AccountOwner) -> (same: bool)
    ensures
        same == (*a == *b),
{
    a == b
}

/// Formats `owner` with the `Debug` implementation of `AccountOwner`, which
/// writes the variant's name and the address in hexadecimal, from the value
/// alone.
#[verifier::external_body]
pub(crate) fn owner_to_text(owner: &AccountOwner) -> (text: String)
    ensures
        text@ == owner_text(*owner),
{
    format!("{:?}", owner)
}

/// Formats `chain` with the `Debug` implementation of `ChainId`, which writes
/// the chain's hash in hexadecimal, from the value alone.
#[verifier::external_body]
pub(crate) fn chain_to_text(chain: &ChainId) -> (text: String)
    ensures
        text@ == chain_text(*chain),
{
    format!("{:?}", chain)
}

} // verus!
