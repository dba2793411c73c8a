//! Arbitrary-precision, non-negative token amounts.
//!
//! An [`Amount`] stores the big-endian bytes of a natural number. Its view is
//! that number, and every contract in this crate speaks of amounts through it.
//! Addition, subtraction, multiplication, division and ordering of amounts are
//! done by the `BigUint` of `multiversx_sc`, run on the `StaticApi` of
//! `multiversx_sc_scenario`, which works outside a contract call. The five
//! functions that call it are the only code of this crate that is not
//! verified: Verus takes their contracts on trust.

use multiversx_sc::types::BigUint;
use multiversx_sc_scenario::api::StaticApi;
use vstd::prelude::*;

verus! {

/// The natural number written by `bytes`, most significant byte first.
/// The empty string and any string of zero bytes write 0.
pub open spec fn be_value(bytes: Seq<u8>) -> nat
    decreases bytes.len(),
{
    if bytes.len() == 0 {
        0
    } else {
        be_value(bytes.drop_last()) * 256 + bytes.last() as nat
    }
}

/// Appending a byte shifts the value by one byte and adds the new digit.
pub proof fn lemma_be_value_push(bytes: Seq<u8>, digit: u8)
    ensures
        be_value(bytes.push(digit)) == be_value(bytes) * 256 + digit as nat,
{
    assert(bytes.push(digit).drop_last() =~= bytes);
}

/// Adds two big-endian numbers with `+` of `multiversx_sc::types::BigUint`.
///
/// Not proved, but taken from that crate: `BigUint::from_bytes_be` reads a
/// byte string as an unsigned big-endian number, `+` adds without loss, and
/// `BigUint::to_bytes_be` writes the result big-endian. So the bytes returned
/// write the sum of what `a` and `b` write.
#[verifier::external_body]
fn managed_add(a: &Vec<u8>, b: &Vec<u8>) -> (sum: Vec<u8>)
    ensures
        be_value(sum@) == be_value(a@) + be_value(b@),
{
    let x = BigUint::<StaticApi>::from_bytes_be(a.as_slice());
    let y = BigUint::<StaticApi>::from_bytes_be(b.as_slice());
    (x + y).to_bytes_be().into_vec()
}

/// Subtracts two big-endian numbers with `-` of
/// `multiversx_sc::types::BigUint`.
///
/// Not proved, but taken from that crate: `-` yields the difference where it
/// is not negative, and raises an error where it would be, which the
/// precondition rules out. The bytes are read and written as in
/// `managed_add`.
#[verifier::external_body]
fn managed_sub(a: &Vec<u8>, b: &Vec<u8>) -> (difference: Vec<u8>)
    requires
        be_value(b@) <= be_value(a@),
    ensures
        be_value(difference@) == be_value(a@) - be_value(b@),
{
    let x = BigUint::<StaticApi>::from_bytes_be(a.as_slice());
    let y = BigUint::<StaticApi>::from_bytes_be(b.as_slice());
    (x - y).to_bytes_be().into_vec()
}

/// Multiplies two big-endian numbers with `*` of
/// `multiversx_sc::types::BigUint`.
///
/// Not proved, but taken from that crate: `*` multiplies without loss,
/// whatever the size of the factors. The bytes are read and written as in
/// `managed_add`.
#[verifier::external_body]
fn managed_mul(a: &Vec<u8>, b: &Vec<u8>) -> (product: Vec<u8>)
    ensures
        be_value(product@) == be_value(a@) * be_value(b@),
{
    let x = BigUint::<StaticApi>::from_bytes_be(a.as_slice());
    let y = BigUint::<StaticApi>::from_bytes_be(b.as_slice());
    (x * y).to_bytes_be().into_vec()
}

/// Divides two big-endian numbers with `/` of
/// `multiversx_sc::types::BigUint`.
///
/// Not proved, but taken from that crate: `/` truncates, which on natural
/// numbers is the floor of the quotient, and raises an error on a zero
/// divisor, which the precondition rules out. The bytes are read and written
/// as in `managed_add`.
#[verifier::external_body]
fn managed_div(a: &Vec<u8>, b: &Vec<u8>) -> (quotient: Vec<u8>)
    requires
        be_value(b@) > 0,
    ensures
        be_value(quotient@) == be_value(a@) / be_value(b@),
{
    let x = BigUint::<StaticApi>::from_bytes_be(a.as_slice());
    let y = BigUint::<StaticApi>::from_bytes_be(b.as_slice());
    (x / y).to_bytes_be().into_vec()
}

/// Compares two big-endian numbers with `<=` of
/// `multiversx_sc::types::BigUint`.
///
/// Not proved, but taken from that crate: `BigUint` values are ordered as
/// the natural numbers they hold. The bytes are read as in `managed_add`.
#[verifier::external_body]
fn managed_le(a: &Vec<u8>, b: &Vec<u8>) -> (at_most: bool)
    ensures
        at_most == (be_value(a@) <= be_value(b@)),
{
    let x = BigUint::<StaticApi>::from_bytes_be(a.as_slice());
    let y = BigUint::<StaticApi>::from_bytes_be(b.as_slice());
    x <= y
}

/// A non-negative integer of any size.
#[derive(Debug)]
pub struct Amount {
    bytes: Vec<u8>,
}

impl View for Amount {
    type V = nat;

    closed spec fn view(&self) -> nat {
        be_value(self.bytes@)
    }
}

impl Amount {
    /// The amount 0.
    pub fn zero() -> (amount: Amount)
        ensures
            amount@ == 0,
    {
        Amount { bytes: Vec::new() }
    }

    /// The amount with the given machine-integer value.
    pub fn from_u64(value: u64) -> (amount: Amount)
        ensures
            amount@ == value,
    {
        let mut bytes: Vec<u8> = Vec::new();
        let mut shift: u32 = 64;
        while shift > 0
            invariant
                shift <= 64,
                shift % 8 == 0,
                shift == 64 ==> be_value(bytes@) == 0,
                shift < 64 ==> be_value(bytes@) == (value >> shift),
            decreases shift,
        {
            let ghost before = bytes@;
            shift = shift - 8;
            let digit: u8 = ((value >> shift) & 0xff) as u8;
            proof {
                lemma_be_value_push(before, digit);
                lemma_shift_digit(value, shift);
            }
            if digit != 0 || bytes.len() > 0 {
                bytes.push(digit);
            }
        }
        assert(value >> 0u32 == value) by (bit_vector);
        Amount { bytes }
    }

    /// The amount that `bytes` writes as an unsigned big-endian number.
    pub fn from_bytes_be(bytes: Vec<u8>) -> (amount: Amount)
        ensures
            amount@ == be_value(bytes@),
    {
        Amount { bytes }
    }

    /// A big-endian encoding of this amount.
    pub fn to_bytes_be(&self) -> (bytes: Vec<u8>)
        ensures
            be_value(bytes@) == self@,
    {
        self.bytes.clone()
    }

    /// Whether this amount is 0.
    pub fn is_zero(&self) -> (zero: bool)
        ensures
            zero == (self@ == 0),
    {
        let none: Vec<u8> = Vec::new();
        managed_le(&self.bytes, &none)
    }

    /// Whether this amount is at most `other`.
    pub fn at_most(&self, other: &Amount) -> (holds: bool)
        ensures
            holds == (self@ <= other@),
    {
        managed_le(&self.bytes, &other.bytes)
    }

    /// `self + other`.
    pub fn plus(&self, other: &Amount) -> (sum: Amount)
        ensures
            sum@ == self@ + other@,
    {
        Amount { bytes: managed_add(&self.bytes, &other.bytes) }
    }

    /// `self - other`, for `other` no larger than `self`.
    pub fn minus(&self, other: &Amount) -> (difference: Amount)
        requires
            other@ <= self@,
        ensures
            difference@ == self@ - other@,
    {
        Amount { bytes: managed_sub(&self.bytes, &other.bytes) }
    }

    /// `self * other`.
    pub fn times(&self, other: &Amount) -> (product: Amount)
        ensures
            product@ == self@ * other@,
    {
        Amount { bytes: managed_mul(&self.bytes, &other.bytes) }
    }

    /// The floor of `self / other`, for a non-zero `other`.
    pub fn divided_by(&self, other: &Amount) -> (quotient: Amount)
        requires
            other@ > 0,
        ensures
            quotient@ == self@ / other@,
    {
        Amount { bytes: managed_div(&self.bytes, &other.bytes) }
    }
}

impl Clone for Amount {
    fn clone(&self) -> (copy: Self)
        ensures
            copy@ == self@,
    {
        Amount { bytes: self.bytes.clone() }
    }
}

impl PartialEq for Amount {
    fn eq(&self, other: &Self) -> (same: bool) {
        managed_le(&self.bytes, &other.bytes) && managed_le(&other.bytes, &self.bytes)
    }
}

impl vstd::std_specs::cmp::PartialEqSpecImpl for Amount {
    open spec fn obeys_eq_spec() -> bool {
        true
    }

    open spec fn eq_spec(&self, other: &Self) -> bool {
        self@ == other@
    }
}

/// Shifting eight bits less brings in exactly the next byte of `value`.
proof fn lemma_shift_digit(value: u64, shift: u32)
    requires
        shift <= 56,
        shift % 8 == 0,
    ensures
        shift == 56 ==> (value >> shift) == ((value >> shift) & 0xff),
        shift < 56 ==> (value >> shift) == (value >> ((shift + 8) as u32)) * 256 + ((value
            >> shift) & 0xff),
        ((value >> shift) & 0xff) < 256,
{
    assert(((value >> shift) & 0xff) < 256) by (bit_vector);
    if shift == 56 {
        assert((value >> 56u32) == ((value >> 56u32) & 0xff)) by (bit_vector);
    } else {
        let next = (shift + 8) as u32;
        assert((value >> shift) == (value >> next) * 256 + ((value >> shift) & 0xff))
            by (bit_vector)
            requires
                shift < 56,
                next == shift + 8,
        ;
    }
}

} // verus!
