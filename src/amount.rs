use vstd::prelude::*;

verus! {

/// Errors raised while planning or assembling a transfer.
#[derive(Clone, Copy, Debug, PartialEq, Eq, Structural)]
pub enum TransferError {
    /// The requested spend amount is negative, or an amount handed to a
    /// statement is negative.
    InvalidAmount,
    /// A negative amount was converted to an unsigned magnitude.
    NegativeAmount,
    /// A sum of values does not fit the range of the result.
    AmountOverflow,
    /// The vault holds no committed-output bucket at all.
    NoConfidentialResource,
    /// The selected inputs do not cover the amount to pay.
    InsufficientFunds,
    /// The input-selection strategy is not implemented.
    UnsupportedStrategy,
    /// The key-derivation schedule has no index left to hand out.
    KeyScheduleExhausted,
}

/// A signed monetary quantity in the range of `i64`.
#[derive(Clone, Copy, Debug, PartialEq, Eq, Structural)]
pub struct Amount(pub i64);

impl Amount {
    pub fn new(value: i64) -> (r: Amount)
        ensures
            r.0 == value,
    {
        Amount(value)
    }

    pub fn zero() -> (r: Amount)
        ensures
            r.0 == 0,
    {
        Amount(0)
    }

    pub fn value(&self) -> (r: i64)
        ensures
            r == self.0,
    {
        self.0
    }

    pub fn is_zero(&self) -> (r: bool)
        ensures
            r == (self.0 == 0),
    {
        self.0 == 0
    }

    pub fn is_negative(&self) -> (r: bool)
        ensures
            r == (self.0 < 0),
    {
        self.0 < 0
    }

    pub fn is_positive(&self) -> (r: bool)
        ensures
            r == (self.0 > 0),
    {
        self.0 > 0
    }

    /// The non-negative difference `self - other`: `None` when `other`
    /// exceeds `self` or when the difference does not fit an `i64`.
    pub open spec fn spec_checked_sub_positive(self, other: Amount) -> Option<Amount> {
        if other.0 > self.0 || self.0 - other.0 > i64::MAX {
            None
        } else {
            Some(Amount((self.0 - other.0) as i64))
        }
    }

    /// `self - other`, failing instead of going below zero.
    pub fn checked_sub_positive(&self, other: Amount) -> (r: Option<Amount>)
        ensures
            r == self.spec_checked_sub_positive(other),
    {
        if other.0 > self.0 {
            None
        } else {
            match self.0.checked_sub(other.0) {
                Some(d) => Some(Amount(d)),
                None => None,
            }
        }
    }

    /// `self + other`, or `None` when the sum leaves the `i64` range.
    pub fn checked_add(&self, other: Amount) -> (r: Option<Amount>)
        ensures
            r == (if i64::MIN <= self.0 + other.0 <= i64::MAX {
                Some(Amount((self.0 + other.0) as i64))
            } else {
                None::<Amount>
            }),
    {
        match self.0.checked_add(other.0) {
            Some(s) => Some(Amount(s)),
            None => None,
        }
    }

    /// `self - other`, or `None` when the difference leaves the `i64` range.
    pub fn checked_sub(&self, other: Amount) -> (r: Option<Amount>)
        ensures
            r == (if i64::MIN <= self.0 - other.0 <= i64::MAX {
                Some(Amount((self.0 - other.0) as i64))
            } else {
                None::<Amount>
            }),
    {
        match self.0.checked_sub(other.0) {
            Some(d) => Some(Amount(d)),
            None => None,
        }
    }

    /// The unsigned magnitude of a non-negative amount.
    pub fn as_u64_checked(&self) -> (r: Result<u64, TransferError>)
        ensures
            r == (if self.0 < 0 {
                Err::<u64, TransferError>(TransferError::NegativeAmount)
            } else {
                Ok(self.0 as u64)
            }),
    {
        if self.0 < 0 {
            Err(TransferError::NegativeAmount)
        } else {
            Ok(self.0 as u64)
        }
    }

    /// The amount of an unsigned magnitude, failing when it exceeds `i64::MAX`.
    pub fn try_from_u64(value: u64) -> (r: Result<Amount, TransferError>)
        ensures
            r == (if value > i64::MAX {
                Err::<Amount, TransferError>(TransferError::AmountOverflow)
            } else {
                Ok(Amount(value as i64))
            }),
    {
        if value > i64::MAX as u64 {
            Err(TransferError::AmountOverflow)
        } else {
            Ok(Amount(value as i64))
        }
    }
}

/// Subtracting with `checked_sub_positive` fails exactly when the subtrahend
/// exceeds the minuend, and otherwise yields the exact difference, for every
/// pair whose difference fits an `i64`.
pub proof fn lemma_checked_sub_positive_exact(a: Amount, b: Amount)
    requires
        a.0 - b.0 <= i64::MAX,
    ensures
        b.0 > a.0 ==> a.spec_checked_sub_positive(b) is None,
        b.0 <= a.0 ==> a.spec_checked_sub_positive(b) == Some(Amount((a.0 - b.0) as i64)),
{
}

} // verus!
