//! Exact decimal amounts.

use crate::text::{all_digits, digit_of};
use vstd::prelude::*;

verus! {

/// An exact decimal number: the digits of its magnitude in base ten, a sign,
/// and the number of digits that stand behind the decimal point. `999` with
/// scale `2` is 9.99. The digits are never rounded, so an amount leaves the
/// library exactly as it came in. An amount is well formed if it has at
/// least one digit and nothing but digits.
#[derive(Debug, PartialEq, Eq)]
pub struct Decimal {
    pub negative: bool,
    pub digits: String,
    pub scale: i64,
}

impl Clone for Decimal {
    fn clone(&self) -> (copy: Self)
        ensures
            copy == *self,
    {
        Decimal { negative: self.negative, digits: self.digits.clone(), scale: self.scale }
    }
}

impl Decimal {
    /// The amount has at least one digit, and nothing but decimal digits.
    pub open spec fn wf(self) -> bool {
        self.digits@.len() > 0 && all_digits(self.digits@)
    }

    /// Whether the amount is well formed.
    pub fn is_valid(&self) -> (valid: bool)
        ensures
            valid == self.wf(),
    {
        let digits = self.digits.as_str();
        let length = digits.unicode_len();
        if length == 0 {
            return false;
        }
        let mut i: usize = 0;
        while i < length
            invariant
                i <= length,
                length == digits@.len(),
                digits@ == self.digits@,
                forall|k: int| 0 <= k < i ==> crate::text::digit_value(#[trigger] digits@[k]) is Some,
            decreases length - i,
        {
            if digit_of(digits.get_char(i)).is_none() {
                return false;
            }
            i += 1;
        }
        true
    }

    /// Whether two amounts have the same sign, digits and scale.
    pub open spec fn same(self, other: Decimal) -> bool {
        &&& self.negative == other.negative
        &&& self.digits@ == other.digits@
        &&& self.scale == other.scale
    }

    /// Whether two amounts have the same sign, digits and scale.
    pub fn same_as(&self, other: &Decimal) -> (answer: bool)
        ensures
            answer == self.same(*other),
    {
        self.negative == other.negative && self.digits == other.digits && self.scale
            == other.scale
    }
}

} // verus!
