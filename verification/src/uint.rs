//! The two wide unsigned integers of the escrow: amounts of 512 bits and
//! token identifiers of 256 bits, each held as 64-bit limbs, lowest first.

use vstd::prelude::*;

verus! {

/// Two to the power 256: one more than the largest `U256`.
pub open spec fn pow2_256() -> nat {
    0x1_0000_0000_0000_0000_0000_0000_0000_0000_0000_0000_0000_0000_0000_0000_0000_0000nat
}

/// The number that four limbs stand for, lowest limb first.
pub open spec fn value_of_4(l0: u64, l1: u64, l2: u64, l3: u64) -> nat {
    (l0 as nat) + (l1 as nat) * 0x1_0000_0000_0000_0000nat + (l2 as nat)
        * 0x1_0000_0000_0000_0000_0000_0000_0000_0000nat + (l3 as nat)
        * 0x1_0000_0000_0000_0000_0000_0000_0000_0000_0000_0000_0000_0000nat
}

/// An unsigned integer of 256 bits.
#[derive(Clone, Copy, Debug, PartialEq, Eq)]
pub struct U256 {
    /// The limbs, lowest first.
    pub limbs: [u64; 4],
}

/// The identifier of a non-fungible token.
pub type TokenId = U256;

/// An unsigned integer of 512 bits.
#[derive(Clone, Copy, Debug, PartialEq, Eq)]
pub struct U512 {
    /// The limbs, lowest first.
    pub limbs: [u64; 8],
}

impl View for U256 {
    type V = nat;

    /// The number that the limbs stand for.
    open spec fn view(&self) -> nat {
        value_of_4(self.limbs[0], self.limbs[1], self.limbs[2], self.limbs[3])
    }
}

impl View for U512 {
    type V = nat;

    /// The number that the limbs stand for.
    open spec fn view(&self) -> nat {
        value_of_4(self.limbs[0], self.limbs[1], self.limbs[2], self.limbs[3]) + pow2_256()
            * value_of_4(self.limbs[4], self.limbs[5], self.limbs[6], self.limbs[7])
    }
}

/// Four limbs stand for a number below two to the power 256.
pub proof fn value_of_4_is_bounded(l0: u64, l1: u64, l2: u64, l3: u64)
    ensures
        value_of_4(l0, l1, l2, l3) < pow2_256(),
{
}

impl U256 {
    /// The number zero.
    pub fn zero() -> (z: U256)
        ensures
            z@ == 0,
    {
        U256 { limbs: [0, 0, 0, 0] }
    }

    /// The number `value`.
    pub fn from_u64(value: u64) -> (n: U256)
        ensures
            n@ == value,
    {
        U256 { limbs: [value, 0, 0, 0] }
    }

    /// The same number in 512 bits.
    pub fn to_u512(&self) -> (wide: U512)
        ensures
            wide@ == self@,
    {
        U512 {
            limbs: [self.limbs[0], self.limbs[1], self.limbs[2], self.limbs[3], 0, 0, 0, 0],
        }
    }
}

impl U512 {
    /// The number zero.
    pub fn zero() -> (z: U512)
        ensures
            z@ == 0,
    {
        U512 { limbs: [0, 0, 0, 0, 0, 0, 0, 0] }
    }

    /// The number `value`.
    pub fn from_u64(value: u64) -> (n: U512)
        ensures
            n@ == value,
    {
        U512 { limbs: [value, 0, 0, 0, 0, 0, 0, 0] }
    }

    /// Whether this is the number zero.
    pub fn is_zero(&self) -> (z: bool)
        ensures
            z == (self@ == 0),
    {
        self.limbs[0] == 0 && self.limbs[1] == 0 && self.limbs[2] == 0 && self.limbs[3] == 0
            && self.limbs[4] == 0 && self.limbs[5] == 0 && self.limbs[6] == 0 && self.limbs[7]
            == 0
    }
}

/// Narrowing of a 512-bit number to 256 bits.
pub trait U512ToU256 {
    /// The number that is narrowed.
    spec fn wide_value(&self) -> nat;

    /// The low 256 bits: the same number where it is below two to the power
    /// 256, and what is left of it on division by that power where it is not.
    fn to_u256(self) -> (narrow: U256)
        ensures
            narrow@ == self.wide_value() % pow2_256(),
            self.wide_value() < pow2_256() ==> narrow@ == self.wide_value(),
    ;
}

impl U512ToU256 for U512 {
    open spec fn wide_value(&self) -> nat {
        self@
    }

    fn to_u256(self) -> (narrow: U256) {
        let narrow = U256 { limbs: [self.limbs[0], self.limbs[1], self.limbs[2], self.limbs[3]] };
        proof {
            let high = value_of_4(self.limbs[4], self.limbs[5], self.limbs[6], self.limbs[7]);
            vstd::arithmetic::div_mod::lemma_fundamental_div_mod_converse(
                self@ as int,
                pow2_256() as int,
                high as int,
                narrow@ as int,
            );
        }
        narrow
    }
}

/// Subtraction that refuses to go below zero: calls `checked_sub` of
/// `casper_types::U512`, which is `None` exactly where the subtraction would
/// underflow and the difference otherwise.
#[verifier::external_body]
pub(crate) fn u512_checked_sub(a: &U512, b: &U512) -> (difference: Option<U512>)
    ensures
        difference is Some <==> a@ >= b@,
        difference matches Some(d) ==> d@ == a@ - b@,
{
    match casper_types::U512(a.limbs).checked_sub(casper_types::U512(b.limbs)) {
        Some(d) => Some(U512 { limbs: d.0 }),
        None => None,
    }
}

/// Strict order: calls `<` of `casper_types::U512`, which orders the numbers
/// from the highest limb down.
#[verifier::external_body]
pub(crate) fn u512_less_than(a: &U512, b: &U512) -> (less: bool)
    ensures
        less == (a@ < b@),
{
    casper_types::U512(a.limbs) < casper_types::U512(b.limbs)
}

} // verus!
