//! 256-bit unsigned amounts of value.

use primitive_types::U256;
use vstd::prelude::*;

verus! {

/// The smallest deposit that opens a todo, in the smallest units of value.
pub const MINIMUM_DEPOSIT: u128 = 1_000_000_000_000;

/// The weight of the second word of an amount: 2^64.
pub open spec fn word_weight() -> nat {
    0x1_0000_0000_0000_0000
}

/// The number that four 64-bit words stand for, least significant word first.
pub open spec fn words_value(words: Seq<u64>) -> nat
    recommends
        words.len() == 4,
{
    (words[0] as nat) + word_weight() * ((words[1] as nat) + word_weight() * ((words[2] as nat)
        + word_weight() * (words[3] as nat)))
}

/// An unsigned 256-bit amount, held as four 64-bit words, least significant
/// word first.
#[derive(Debug, Clone, Copy, PartialEq, Eq)]
pub struct Amount {
    pub words: [u64; 4],
}

impl View for Amount {
    type V = nat;

    open spec fn view(&self) -> nat {
        words_value(self.words@)
    }
}

/// `primitive_types::U256::from(u128)`: the 256-bit number with the value of
/// `value`. Its low two words hold the halves of `value`, the high two are
/// zero, so the words stand for `value` itself.
#[verifier::external_body]
fn u256_from_u128(value: u128) -> (r: Amount)
    ensures
        r@ == value as nat,
{
    Amount { words: U256::from(value).0 }
}

/// `<` on `primitive_types::U256`: the words are compared from the most
/// significant one down, which is the order of the numbers they stand for.
#[verifier::external_body]
fn u256_less(a: &Amount, b: &Amount) -> (r: bool)
    ensures
        r == (a@ < b@),
{
    U256(a.words) < U256(b.words)
}

/// `primitive_types::U256::is_zero`: whether every word is zero, that is,
/// whether the number is zero.
#[verifier::external_body]
fn u256_is_zero(a: &Amount) -> (r: bool)
    ensures
        r == (a@ == 0),
{
    U256(a.words).is_zero()
}

impl Amount {
    /// The amount zero.
    pub fn zero() -> (r: Amount)
        ensures
            r@ == 0,
    {
        Amount { words: [0u64, 0u64, 0u64, 0u64] }
    }

    /// The amount with the value of `value`.
    pub fn from_u128(value: u128) -> (r: Amount)
        ensures
            r@ == value as nat,
    {
        u256_from_u128(value)
    }

    /// The minimum deposit as an amount.
    pub fn minimum_deposit() -> (r: Amount)
        ensures
            r@ == MINIMUM_DEPOSIT as nat,
    {
        u256_from_u128(MINIMUM_DEPOSIT)
    }

    /// Whether this amount is strictly less than `other`.
    pub fn less_than(&self, other: &Amount) -> (r: bool)
        ensures
            r == (self@ < other@),
    {
        u256_less(self, other)
    }

    /// Whether this amount is zero.
    pub fn is_zero(&self) -> (r: bool)
        ensures
            r == (self@ == 0),
    {
        u256_is_zero(self)
    }
}

} // verus!
