use vstd::prelude::*;

use crate::error::{VaultError, VaultResult};

verus! {

/// Checked arithmetic: `safe_add`, `safe_sub` and `safe_mul` report
/// `MathOverflow` instead of wrapping, `safe_div` reports `DivisionByZero`
/// for a zero divisor.  Each operation's exact outcome is fixed by its
/// companion spec function.
pub trait SafeMath<T>: Sized {
    spec fn safe_add_spec(&self, other: T) -> VaultResult<T>;

    spec fn safe_sub_spec(&self, other: T) -> VaultResult<T>;

    spec fn safe_mul_spec(&self, other: T) -> VaultResult<T>;

    spec fn safe_div_spec(&self, other: T) -> VaultResult<T>;

    fn safe_add(&self, other: T) -> (r: VaultResult<T>)
        ensures
            r == self.safe_add_spec(other),
    ;

    fn safe_sub(&self, other: T) -> (r: VaultResult<T>)
        ensures
            r == self.safe_sub_spec(other),
    ;

    fn safe_mul(&self, other: T) -> (r: VaultResult<T>)
        ensures
            r == self.safe_mul_spec(other),
    ;

    fn safe_div(&self, other: T) -> (r: VaultResult<T>)
        ensures
            r == self.safe_div_spec(other),
    ;
}

impl SafeMath<u64> for u64 {
    open spec fn safe_add_spec(&self, other: u64) -> VaultResult<u64> {
        if *self + other > u64::MAX {
            Err(VaultError::MathOverflow)
        } else {
            Ok((*self + other) as u64)
        }
    }

    open spec fn safe_sub_spec(&self, other: u64) -> VaultResult<u64> {
        if *self < other {
            Err(VaultError::MathOverflow)
        } else {
            Ok((*self - other) as u64)
        }
    }

    open spec fn safe_mul_spec(&self, other: u64) -> VaultResult<u64> {
        if *self * other > u64::MAX {
            Err(VaultError::MathOverflow)
        } else {
            Ok((*self * other) as u64)
        }
    }

    open spec fn safe_div_spec(&self, other: u64) -> VaultResult<u64> {
        if other == 0 {
            Err(VaultError::DivisionByZero)
        } else {
            Ok((*self / other) as u64)
        }
    }

    fn safe_add(&self, other: u64) -> VaultResult<u64> {
        self.checked_add(other).ok_or(VaultError::MathOverflow)
    }

    fn safe_sub(&self, other: u64) -> VaultResult<u64> {
        self.checked_sub(other).ok_or(VaultError::MathOverflow)
    }

    fn safe_mul(&self, other: u64) -> VaultResult<u64> {
        self.checked_mul(other).ok_or(VaultError::MathOverflow)
    }

    fn safe_div(&self, other: u64) -> VaultResult<u64> {
        if other == 0 {
            return Err(VaultError::DivisionByZero);
        }
        self.checked_div(other).ok_or(VaultError::MathOverflow)
    }
}

impl SafeMath<u128> for u128 {
    open spec fn safe_add_spec(&self, other: u128) -> VaultResult<u128> {
        if *self + other > u128::MAX {
            Err(VaultError::MathOverflow)
        } else {
            Ok((*self + other) as u128)
        }
    }

    open spec fn safe_sub_spec(&self, other: u128) -> VaultResult<u128> {
        if *self < other {
            Err(VaultError::MathOverflow)
        } else {
            Ok((*self - other) as u128)
        }
    }

    open spec fn safe_mul_spec(&self, other: u128) -> VaultResult<u128> {
        if *self * other > u128::MAX {
            Err(VaultError::MathOverflow)
        } else {
            Ok((*self * other) as u128)
        }
    }

    open spec fn safe_div_spec(&self, other: u128) -> VaultResult<u128> {
        if other == 0 {
            Err(VaultError::DivisionByZero)
        } else {
            Ok((*self / other) as u128)
        }
    }

    fn safe_add(&self, other: u128) -> VaultResult<u128> {
        self.checked_add(other).ok_or(VaultError::MathOverflow)
    }

    fn safe_sub(&self, other: u128) -> VaultResult<u128> {
        self.checked_sub(other).ok_or(VaultError::MathOverflow)
    }

    fn safe_mul(&self, other: u128) -> VaultResult<u128> {
        self.checked_mul(other).ok_or(VaultError::MathOverflow)
    }

    fn safe_div(&self, other: u128) -> VaultResult<u128> {
        if other == 0 {
            return Err(VaultError::DivisionByZero);
        }
        self.checked_div(other).ok_or(VaultError::MathOverflow)
    }
}

impl SafeMath<u32> for u32 {
    open spec fn safe_add_spec(&self, other: u32) -> VaultResult<u32> {
        if *self + other > u32::MAX {
            Err(VaultError::MathOverflow)
        } else {
            Ok((*self + other) as u32)
        }
    }

    open spec fn safe_sub_spec(&self, other: u32) -> VaultResult<u32> {
        if *self < other {
            Err(VaultError::MathOverflow)
        } else {
            Ok((*self - other) as u32)
        }
    }

    open spec fn safe_mul_spec(&self, other: u32) -> VaultResult<u32> {
        if *self * other > u32::MAX {
            Err(VaultError::MathOverflow)
        } else {
            Ok((*self * other) as u32)
        }
    }

    open spec fn safe_div_spec(&self, other: u32) -> VaultResult<u32> {
        if other == 0 {
            Err(VaultError::DivisionByZero)
        } else {
            Ok((*self / other) as u32)
        }
    }

    fn safe_add(&self, other: u32) -> VaultResult<u32> {
        self.checked_add(other).ok_or(VaultError::MathOverflow)
    }

    fn safe_sub(&self, other: u32) -> VaultResult<u32> {
        self.checked_sub(other).ok_or(VaultError::MathOverflow)
    }

    fn safe_mul(&self, other: u32) -> VaultResult<u32> {
        self.checked_mul(other).ok_or(VaultError::MathOverflow)
    }

    fn safe_div(&self, other: u32) -> VaultResult<u32> {
        if other == 0 {
            return Err(VaultError::DivisionByZero);
        }
        self.checked_div(other).ok_or(VaultError::MathOverflow)
    }
}

impl SafeMath<i64> for i64 {
    open spec fn safe_add_spec(&self, other: i64) -> VaultResult<i64> {
        if *self + other > i64::MAX || *self + other < i64::MIN {
            Err(VaultError::MathOverflow)
        } else {
            Ok((*self + other) as i64)
        }
    }

    open spec fn safe_sub_spec(&self, other: i64) -> VaultResult<i64> {
        if *self - other > i64::MAX || *self - other < i64::MIN {
            Err(VaultError::MathOverflow)
        } else {
            Ok((*self - other) as i64)
        }
    }

    open spec fn safe_mul_spec(&self, other: i64) -> VaultResult<i64> {
        if *self * other > i64::MAX || *self * other < i64::MIN {
            Err(VaultError::MathOverflow)
        } else {
            Ok((*self * other) as i64)
        }
    }

    open spec fn safe_div_spec(&self, other: i64) -> VaultResult<i64> {
        if other == 0 {
            Err(VaultError::DivisionByZero)
        } else {
            match (*self).checked_div(other) {
                Some(q) => Ok(q),
                None => Err(VaultError::MathOverflow),
            }
        }
    }

    fn safe_add(&self, other: i64) -> VaultResult<i64> {
        self.checked_add(other).ok_or(VaultError::MathOverflow)
    }

    fn safe_sub(&self, other: i64) -> VaultResult<i64> {
        self.checked_sub(other).ok_or(VaultError::MathOverflow)
    }

    fn safe_mul(&self, other: i64) -> VaultResult<i64> {
        self.checked_mul(other).ok_or(VaultError::MathOverflow)
    }

    fn safe_div(&self, other: i64) -> VaultResult<i64> {
        if other == 0 {
            return Err(VaultError::DivisionByZero);
        }
        self.checked_div(other).ok_or(VaultError::MathOverflow)
    }
}

/// Range-checked casts between the ledger's integer widths.  A value outside
/// the target range reports `MathOverflow` instead of truncating.
pub trait SafeCast<T>: Sized {
    spec fn safe_cast_spec(&self) -> VaultResult<T>;

    fn safe_cast(&self) -> (r: VaultResult<T>)
        ensures
            r == self.safe_cast_spec(),
    ;
}

impl SafeCast<u64> for u128 {
    open spec fn safe_cast_spec(&self) -> VaultResult<u64> {
        if *self > u64::MAX {
            Err(VaultError::MathOverflow)
        } else {
            Ok(*self as u64)
        }
    }

    fn safe_cast(&self) -> VaultResult<u64> {
        if *self > u64::MAX as u128 {
            return Err(VaultError::MathOverflow);
        }
        Ok(*self as u64)
    }
}

impl SafeCast<u128> for u64 {
    open spec fn safe_cast_spec(&self) -> VaultResult<u128> {
        Ok(*self as u128)
    }

    fn safe_cast(&self) -> VaultResult<u128> {
        Ok(*self as u128)
    }
}

impl SafeCast<i64> for u64 {
    open spec fn safe_cast_spec(&self) -> VaultResult<i64> {
        if *self > i64::MAX {
            Err(VaultError::MathOverflow)
        } else {
            Ok(*self as i64)
        }
    }

    fn safe_cast(&self) -> VaultResult<i64> {
        if *self > i64::MAX as u64 {
            return Err(VaultError::MathOverflow);
        }
        Ok(*self as i64)
    }
}

impl SafeCast<u64> for i64 {
    open spec fn safe_cast_spec(&self) -> VaultResult<u64> {
        if *self < 0 {
            Err(VaultError::MathOverflow)
        } else {
            Ok(*self as u64)
        }
    }

    fn safe_cast(&self) -> VaultResult<u64> {
        if *self < 0 {
            return Err(VaultError::MathOverflow);
        }
        Ok(*self as u64)
    }
}

impl SafeCast<u128> for i64 {
    open spec fn safe_cast_spec(&self) -> VaultResult<u128> {
        if *self < 0 {
            Err(VaultError::MathOverflow)
        } else {
            Ok(*self as u128)
        }
    }

    fn safe_cast(&self) -> VaultResult<u128> {
        if *self < 0 {
            return Err(VaultError::MathOverflow);
        }
        Ok(*self as u128)
    }
}

/// The product of two values bounded by `u64::MAX` fits in a `u128`.
pub proof fn lemma_u64_mul_fits_u128(a: int, b: int)
    requires
        0 <= a <= u64::MAX,
        0 <= b <= u64::MAX,
    ensures
        a * b <= u128::MAX,
{
    assert(a * b <= u64::MAX * u64::MAX) by (nonlinear_arith)
        requires
            0 <= a <= u64::MAX,
            0 <= b <= u64::MAX,
    ;
}

/// Integer division by a positive divisor never increases a non-negative
/// dividend.
pub proof fn lemma_div_le_dividend(a: int, b: int)
    requires
        0 <= a,
        1 <= b,
    ensures
        0 <= a / b <= a,
{
    assert(0 <= a / b <= a) by (nonlinear_arith)
        requires
            0 <= a,
            1 <= b,
    ;
}

} // verus!
