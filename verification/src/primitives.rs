//! The address and hash types of `zksync_basic_types`, as far as the
//! configuration needs them: the bytes that a value holds, the constructor
//! that repeats one byte, and equality.

use vstd::prelude::*;
use zksync_basic_types::{Address, H256};

verus! {

/// `H160`, which `zksync_basic_types` also exports as `Address`: a fixed
/// array of 20 bytes. Verus carries such a value around without looking into it.
#[verifier::external_type_specification]
#[verifier::external_body]
pub struct ExH160(zksync_basic_types::H160);

/// `H256` of `zksync_basic_types`: a fixed array of 32 bytes, opaque to Verus.
#[verifier::external_type_specification]
#[verifier::external_body]
pub struct ExH256(zksync_basic_types::H256);

/// The bytes that an address holds, first byte first. Verus knows of them
/// only what the specifications below say.
pub uninterp spec fn address_bytes(a: Address) -> Seq<u8>;

/// The bytes that a hash holds, first byte first. Verus knows of them only
/// what the specifications below say.
pub uninterp spec fn hash_bytes(h: H256) -> Seq<u8>;

/// The sequence of `len` bytes that are all equal to `byte`.
pub open spec fn repeated(byte: u8, len: nat) -> Seq<u8> {
    Seq::new(len, |i: int| byte)
}

/// What an optional address holds: nothing, or the bytes of the address.
pub open spec fn optional_address_bytes(a: Option<Address>) -> Option<Seq<u8>> {
    match a {
        Some(address) => Some(address_bytes(address)),
        None => None,
    }
}

/// What an optional hash holds: nothing, or the bytes of the hash.
pub open spec fn optional_hash_bytes(h: Option<H256>) -> Option<Seq<u8>> {
    match h {
        Some(hash) => Some(hash_bytes(hash)),
        None => None,
    }
}

/// Assumed of `H160::repeat_byte`: it returns the address whose 20 bytes all
/// equal `byte`.
pub assume_specification[ Address::repeat_byte ](byte: u8) -> (a: Address)
    ensures
        address_bytes(a) == repeated(byte, 20),
;

/// Assumed of `H256::repeat_byte`: it returns the hash whose 32 bytes all
/// equal `byte`.
pub assume_specification[ H256::repeat_byte ](byte: u8) -> (h: H256)
    ensures
        hash_bytes(h) == repeated(byte, 32),
;

/// Assumed of `H160`'s `PartialEq::eq`: two addresses are equal exactly when
/// they hold the same bytes.
pub assume_specification[ <Address as PartialEq>::eq ](a: &Address, b: &Address) -> (equal: bool)
    ensures
        equal == (address_bytes(*a) == address_bytes(*b)),
;

/// Assumed of `H256`'s `PartialEq::eq`: two hashes are equal exactly when they
/// hold the same bytes.
pub assume_specification[ <H256 as PartialEq>::eq ](a: &H256, b: &H256) -> (equal: bool)
    ensures
        equal == (hash_bytes(*a) == hash_bytes(*b)),
;

/// Whether two optional addresses are both absent, or both present with the
/// same bytes.
pub fn optional_address_eq(a: &Option<Address>, b: &Option<Address>) -> (equal: bool)
    ensures
        equal == (optional_address_bytes(*a) == optional_address_bytes(*b)),
{
    match (a, b) {
        (Some(x), Some(y)) => *x == *y,
        (None, None) => true,
        _ => false,
    }
}

/// Whether two optional hashes are both absent, or both present with the
/// same bytes.
pub fn optional_hash_eq(a: &Option<H256>, b: &Option<H256>) -> (equal: bool)
    ensures
        equal == (optional_hash_bytes(*a) == optional_hash_bytes(*b)),
{
    match (a, b) {
        (Some(x), Some(y)) => *x == *y,
        (None, None) => true,
        _ => false,
    }
}

/// Two different bytes, repeated over the same non-zero length, give two
/// different sequences: slots filled with different bytes never compare equal.
pub proof fn lemma_repeated_differs(first: u8, second: u8, len: nat)
    requires
        first != second,
        len > 0,
    ensures
        repeated(first, len) != repeated(second, len),
{
    assert(repeated(first, len)[0] == first);
    assert(repeated(second, len)[0] == second);
}

/// An absent address is told apart from every address that is present, the
/// all-zero address included.
pub proof fn lemma_absent_is_no_address(address: Address)
    ensures
        optional_address_bytes(None) != optional_address_bytes(Some(address)),
{
}

} // verus!
