use vstd::prelude::*;

verus! {

/// Value of base-2^32 digits, least significant first.
pub open spec fn digits_value(d: Seq<u32>) -> nat
    decreases d.len(),
{
    if d.len() == 0 {
        0
    } else {
        d[0] as nat + 0x1_0000_0000 * digits_value(d.drop_first())
    }
}

/// Relies on num's `BigUint`: `BigUint::new` reads base-2^32 digits least
/// significant first, `+` adds, `to_u32_digits` gives the digits of the sum.
#[verifier::external_body]
fn digits_sum(a: &Vec<u32>, b: &Vec<u32>) -> (r: Vec<u32>)
    ensures
        digits_value(r@) == digits_value(a@) + digits_value(b@),
{
    (num::BigUint::new(a.clone()) + num::BigUint::new(b.clone())).to_u32_digits()
}

/// Relies on num's `BigUint` equality, after `BigUint::new` has read both
/// digit vectors: true exactly when the two numbers are equal.
#[verifier::external_body]
fn digits_equal(a: &Vec<u32>, b: &Vec<u32>) -> (r: bool)
    ensures
        r == (digits_value(a@) == digits_value(b@)),
{
    num::BigUint::new(a.clone()) == num::BigUint::new(b.clone())
}

/// An unsigned integer of any size.
#[derive(Debug, Clone)]
pub struct BigAmount {
    digits: Vec<u32>,
}

impl View for BigAmount {
    type V = nat;

    closed spec fn view(&self) -> nat {
        digits_value(self.digits@)
    }
}

impl BigAmount {
    /// The number whose base-2^32 digits, least significant first, are `digits`.
    pub fn from_digits(digits: Vec<u32>) -> (r: BigAmount)
        ensures
            r@ == digits_value(digits@),
    {
        BigAmount { digits }
    }

    pub fn from_u64(v: u64) -> (r: BigAmount)
        ensures
            r@ == v,
    {
        let lo = (v % 0x1_0000_0000) as u32;
        let hi = (v / 0x1_0000_0000) as u32;
        let mut digits: Vec<u32> = Vec::new();
        digits.push(lo);
        digits.push(hi);
        proof {
            let rest = digits@.drop_first();
            assert(rest.drop_first().len() == 0);
            assert(digits_value(rest.drop_first()) == 0);
            assert(digits_value(rest) == hi as nat);
            assert(digits_value(digits@) == lo as nat + 0x1_0000_0000 * hi as nat);
        }
        BigAmount { digits }
    }

    /// The base-2^32 digits, least significant first.
    pub fn digits(&self) -> (r: Vec<u32>)
        ensures
            digits_value(r@) == self@,
    {
        self.digits.clone()
    }

    pub fn add(&self, other: &BigAmount) -> (r: BigAmount)
        ensures
            r@ == self@ + other@,
    {
        BigAmount { digits: digits_sum(&self.digits, &other.digits) }
    }

    /// Whether the two amounts are the same number.
    pub fn same_value(&self, other: &BigAmount) -> (r: bool)
        ensures
            r == (self@ == other@),
    {
        digits_equal(&self.digits, &other.digits)
    }
}

} // verus!
