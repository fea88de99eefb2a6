use crate::gcd::{gcd, gcd_u64, lemma_gcd_divides, lemma_gcd_scale, lemma_gcd_self};
use vstd::prelude::*;

verus! {

/// Conversion errors
#[non_exhaustive]
#[derive(Debug, PartialEq, Eq, Structural, Hash)]
pub enum ConversionError {
    /// Exact cause of failure is unknown
    Unspecified,
    /// Attempted type conversion failed
    ConversionFailure,
    /// Result is outside of those valid for this type
    Overflow,
    /// Attempted to divide by zero
    DivByZero,
    /// Resulting duration is negative (not allowed)
    NegDuration,
}

/// Fallible conversion from `T`, with its outcome stated by `conversion_spec`.
pub trait MyTryFrom<T>: Sized {
    type Error;

    spec fn conversion_spec(value: T) -> Result<Self, Self::Error>;

    fn try_from(value: T) -> (r: Result<Self, Self::Error>)
        ensures
            r == Self::conversion_spec(value),
    ;
}

/// Fallible conversion into `T`, the mirror of [`MyTryFrom`].
pub trait MyTryInto<T>: Sized {
    type Error;

    spec fn into_conversion_spec(self) -> Result<T, Self::Error>;

    fn try_into(self) -> (r: Result<T, Self::Error>)
        ensures
            r == self.into_conversion_spec(),
    ;
}

impl<T, U> MyTryInto<U> for T where U: MyTryFrom<T> {
    type Error = U::Error;

    open spec fn into_conversion_spec(self) -> Result<U, U::Error> {
        U::conversion_spec(self)
    }

    fn try_into(self) -> (r: Result<U, U::Error>) {
        U::try_from(self)
    }
}

/// Integer widths that may hold a scaled value.
pub trait TimeInt: From<u32> + PartialEq + Copy {

}

impl TimeInt for u32 {

}

impl TimeInt for u64 {

}

/// The four scale constants of a conversion are all positive.
pub open spec fn positive_scales(n: nat, d: nat, n2: nat, d2: nat) -> bool {
    n > 0 && d > 0 && n2 > 0 && d2 > 0
}

/// The ratio `(n2 * d) / (d2 * n)` that turns a count at scale `n2 / d2` into a
/// count at scale `n / d`, in lowest terms: `(numerator, denominator)`.
pub open spec fn ratio(n: nat, d: nat, n2: nat, d2: nat) -> (nat, nat) {
    let a = n2 * d;
    let b = d2 * n;
    (a / gcd(a, b), b / gcd(a, b))
}

/// Applies a reduced ratio to `v`: the product must fit in `wide_max`, the
/// truncated quotient in `target_max`. A ratio of one leaves `v` as it is.
pub open spec fn apply_ratio(v: nat, num: nat, den: nat, wide_max: nat, target_max: nat) -> Result<
    nat,
    ConversionError,
> {
    if num == 1 && den == 1 {
        if v <= target_max {
            Ok(v)
        } else {
            Err(ConversionError::Overflow)
        }
    } else if v * num > wide_max {
        Err(ConversionError::Overflow)
    } else if (v * num) / den > target_max {
        Err(ConversionError::Overflow)
    } else {
        Ok((v * num) / den)
    }
}

/// Outcome of converting the count `v` from scale `n2 / d2` to scale `n / d`.
/// With `narrow_ratio` the reduced ratio must also fit in 32 bits.
pub open spec fn conversion(
    v: nat,
    n: nat,
    d: nat,
    n2: nat,
    d2: nat,
    narrow_ratio: bool,
    wide_max: nat,
    target_max: nat,
) -> Result<nat, ConversionError> {
    if !positive_scales(n, d, n2, d2) {
        Err(ConversionError::DivByZero)
    } else if narrow_ratio && (ratio(n, d, n2, d2).0 > u32::MAX || ratio(n, d, n2, d2).1
        > u32::MAX) {
        Err(ConversionError::ConversionFailure)
    } else {
        apply_ratio(v, ratio(n, d, n2, d2).0, ratio(n, d, n2, d2).1, wide_max, target_max)
    }
}

/// A count of `N / D` base units, held in an integer of type `U`.
#[derive(Clone, Copy, Debug, Default)]
pub struct Unit<U, const N: u32, const D: u32>(pub U);

impl<U, const N: u32, const D: u32> Unit<U, N, D> {
    pub fn new(val: U) -> (r: Self)
        ensures
            r.0 == val,
    {
        Unit(val)
    }

    pub fn integer(self) -> (r: U)
        ensures
            r == self.0,
    {
        self.0
    }

    /// The reduced ratio from scale `N2 / D2` to this scale, in 64 bits.
    pub fn scale_factor_u64<const N2: u32, const D2: u32>() -> (r: (u64, u64))
        requires
            positive_scales(N as nat, D as nat, N2 as nat, D2 as nat),
        ensures
            r.0 as nat == ratio(N as nat, D as nat, N2 as nat, D2 as nat).0,
            r.1 as nat == ratio(N as nat, D as nat, N2 as nat, D2 as nat).1,
            r.0 > 0,
            r.1 > 0,
    {
        let n: u32 = N;
        let d: u32 = D;
        let n2: u32 = N2;
        let d2: u32 = D2;
        assert((n2 as u64) * (d as u64) <= u64::MAX) by (nonlinear_arith);
        assert((d2 as u64) * (n as u64) <= u64::MAX) by (nonlinear_arith);
        let num = (n2 as u64) * (d as u64);
        let denum = (d2 as u64) * (n as u64);
        let gcd = gcd_u64(num, denum);
        proof {
            assert(num > 0 && denum > 0) by (nonlinear_arith)
                requires
                    n > 0,
                    d > 0,
                    n2 > 0,
                    d2 > 0,
                    num == n2 * d,
                    denum == d2 * n,
            ;
            lemma_gcd_divides(num as nat, denum as nat);
            lemma_quotient_positive(num as nat, gcd as nat);
            lemma_quotient_positive(denum as nat, gcd as nat);
        }
        let num = num / gcd;
        let denum = denum / gcd;
        (num, denum)
    }

    /// The reduced ratio from scale `N2 / D2` to this scale, in 32 bits, or
    /// `None` where either term does not fit.
    pub fn scale_factor<const N2: u32, const D2: u32>() -> (r: Option<(u32, u32)>)
        requires
            positive_scales(N as nat, D as nat, N2 as nat, D2 as nat),
        ensures
            r == (if ratio(N as nat, D as nat, N2 as nat, D2 as nat).0 > u32::MAX || ratio(
                N as nat,
                D as nat,
                N2 as nat,
                D2 as nat,
            ).1 > u32::MAX {
                None
            } else {
                Some(
                    (
                        ratio(N as nat, D as nat, N2 as nat, D2 as nat).0 as u32,
                        ratio(N as nat, D as nat, N2 as nat, D2 as nat).1 as u32,
                    ),
                )
            }),
            r matches Some(p) ==> p.0 > 0 && p.1 > 0,
    {
        let (num, denum) = Self::scale_factor_u64::<N2, D2>();
        if num > u32::MAX as u64 || denum > u32::MAX as u64 {
            None
        } else {
            Some((num as u32, denum as u32))
        }
    }
}

/// Turns an outcome over counts into one over values of the target type.
pub open spec fn as_unit<U, const N: u32, const D: u32>(
    r: Result<nat, ConversionError>,
    cast: spec_fn(nat) -> U,
) -> Result<Unit<U, N, D>, ConversionError> {
    match r {
        Ok(v) => Ok(Unit(cast(v))),
        Err(e) => Err(e),
    }
}

impl<const N: u32, const D: u32, const N2: u32, const D2: u32> MyTryFrom<Unit<u32, N2, D2>> for Unit<
    u64,
    N,
    D,
> {
    type Error = ConversionError;

    open spec fn conversion_spec(f: Unit<u32, N2, D2>) -> Result<Self, ConversionError> {
        as_unit(
            conversion(
                f.0 as nat,
                N as nat,
                D as nat,
                N2 as nat,
                D2 as nat,
                false,
                u64::MAX as nat,
                u64::MAX as nat,
            ),
            |x: nat| x as u64,
        )
    }

    fn try_from(f: Unit<u32, N2, D2>) -> (r: Result<Self, ConversionError>) {
        if N == 0 || D == 0 || N2 == 0 || D2 == 0 {
            return Err(ConversionError::DivByZero);
        }
        let val = f.0 as u64;
        let (num, denum) = Self::scale_factor_u64::<N2, D2>();
        if num == 1 && denum == 1 {
            Ok(Self(val))
        } else {
            if let Some(up) = val.checked_mul(num) {
                proof {
                    lemma_quotient_bound(up as nat, denum as nat);
                }
                Ok(Self(up / denum))
            } else {
                Err(ConversionError::Overflow)
            }
        }
    }
}

impl<const N: u32, const D: u32, const N2: u32, const D2: u32> MyTryFrom<Unit<u64, N2, D2>> for Unit<
    u64,
    N,
    D,
> {
    type Error = ConversionError;

    open spec fn conversion_spec(f: Unit<u64, N2, D2>) -> Result<Self, ConversionError> {
        as_unit(
            conversion(
                f.0 as nat,
                N as nat,
                D as nat,
                N2 as nat,
                D2 as nat,
                false,
                u64::MAX as nat,
                u64::MAX as nat,
            ),
            |x: nat| x as u64,
        )
    }

    fn try_from(f: Unit<u64, N2, D2>) -> (r: Result<Self, ConversionError>) {
        if N == 0 || D == 0 || N2 == 0 || D2 == 0 {
            return Err(ConversionError::DivByZero);
        }
        let (num, denum) = Self::scale_factor_u64::<N2, D2>();
        if num == 1 && denum == 1 {
            Ok(Self(f.0))
        } else {
            if let Some(up) = f.0.checked_mul(num) {
                proof {
                    lemma_quotient_bound(up as nat, denum as nat);
                }
                Ok(Self(up / denum))
            } else {
                Err(ConversionError::Overflow)
            }
        }
    }
}

impl<const N: u32, const D: u32, const N2: u32, const D2: u32> MyTryFrom<Unit<u64, N2, D2>> for Unit<
    u32,
    N,
    D,
> {
    type Error = ConversionError;

    open spec fn conversion_spec(f: Unit<u64, N2, D2>) -> Result<Self, ConversionError> {
        as_unit(
            conversion(
                f.0 as nat,
                N as nat,
                D as nat,
                N2 as nat,
                D2 as nat,
                false,
                u64::MAX as nat,
                u32::MAX as nat,
            ),
            |x: nat| x as u32,
        )
    }

    fn try_from(f: Unit<u64, N2, D2>) -> (r: Result<Self, ConversionError>) {
        if N == 0 || D == 0 || N2 == 0 || D2 == 0 {
            return Err(ConversionError::DivByZero);
        }
        let (num, denum) = Self::scale_factor_u64::<N2, D2>();
        if num == 1 && denum == 1 {
            let res_u64 = f.0;
            if res_u64 > u32::MAX as u64 {
                Err(ConversionError::Overflow)
            } else {
                Ok(Self(res_u64 as u32))
            }
        } else {
            if let Some(up) = f.0.checked_mul(num) {
                let res_u64 = up / denum;
                if res_u64 > u32::MAX as u64 {
                    Err(ConversionError::Overflow)
                } else {
                    Ok(Self(res_u64 as u32))
                }
            } else {
                Err(ConversionError::Overflow)
            }
        }
    }
}

impl<const N: u32, const D: u32, const N2: u32, const D2: u32> MyTryFrom<Unit<u32, N2, D2>> for Unit<
    u32,
    N,
    D,
> {
    type Error = ConversionError;

    open spec fn conversion_spec(f: Unit<u32, N2, D2>) -> Result<Self, ConversionError> {
        as_unit(
            conversion(
                f.0 as nat,
                N as nat,
                D as nat,
                N2 as nat,
                D2 as nat,
                true,
                u64::MAX as nat,
                u32::MAX as nat,
            ),
            |x: nat| x as u32,
        )
    }

    fn try_from(f: Unit<u32, N2, D2>) -> (r: Result<Self, ConversionError>) {
        if N == 0 || D == 0 || N2 == 0 || D2 == 0 {
            return Err(ConversionError::DivByZero);
        }
        if let Some((num, denum)) = Self::scale_factor::<N2, D2>() {
            if num == 1 && denum == 1 {
                Ok(Self(f.0))
            } else {
                if let Some(up) = (f.0 as u64).checked_mul(num as u64) {
                    let res_u64 = up / (denum as u64);
                    if res_u64 > u32::MAX as u64 {
                        Err(ConversionError::Overflow)
                    } else {
                        Ok(Self(res_u64 as u32))
                    }
                } else {
                    Err(ConversionError::Overflow)
                }
            }
        } else {
            Err(ConversionError::ConversionFailure)
        }
    }
}

/// `a` equals the other side where that side converts into `a`'s scale and
/// width and comes out as `a`; a failed conversion means not equal. The
/// comparison is directional: it always converts the right-hand side.
pub open spec fn equal_after_conversion<T, const N: u32, const D: u32>(
    a: T,
    converted: Result<Unit<T, N, D>, ConversionError>,
) -> bool {
    match converted {
        Ok(c) => c.0 == a,
        Err(_) => false,
    }
}

impl<const N: u32, const D: u32, const N2: u32, const D2: u32> PartialEq<Unit<u32, N2, D2>> for Unit<u32, N, D> {
    fn eq(&self, rhs: &Unit<u32, N2, D2>) -> (r: bool) {
        match <Self as MyTryFrom<Unit<u32, N2, D2>>>::try_from(*rhs) {
            Ok(rhs) => self.0 == rhs.0,
            Err(_) => false,
        }
    }
}

impl<const N: u32, const D: u32, const N2: u32, const D2: u32> vstd::std_specs::cmp::PartialEqSpecImpl<Unit<u32, N2, D2>> for Unit<u32, N, D> {
    open spec fn obeys_eq_spec() -> bool {
        true
    }

    open spec fn eq_spec(&self, rhs: &Unit<u32, N2, D2>) -> bool {
        equal_after_conversion(self.0, <Self as MyTryFrom<Unit<u32, N2, D2>>>::conversion_spec(*rhs))
    }
}

impl<const N: u32, const D: u32, const N2: u32, const D2: u32> PartialEq<Unit<u64, N2, D2>> for Unit<u32, N, D> {
    fn eq(&self, rhs: &Unit<u64, N2, D2>) -> (r: bool) {
        match <Self as MyTryFrom<Unit<u64, N2, D2>>>::try_from(*rhs) {
            Ok(rhs) => self.0 == rhs.0,
            Err(_) => false,
        }
    }
}

impl<const N: u32, const D: u32, const N2: u32, const D2: u32> vstd::std_specs::cmp::PartialEqSpecImpl<Unit<u64, N2, D2>> for Unit<u32, N, D> {
    open spec fn obeys_eq_spec() -> bool {
        true
    }

    open spec fn eq_spec(&self, rhs: &Unit<u64, N2, D2>) -> bool {
        equal_after_conversion(self.0, <Self as MyTryFrom<Unit<u64, N2, D2>>>::conversion_spec(*rhs))
    }
}

impl<const N: u32, const D: u32, const N2: u32, const D2: u32> PartialEq<Unit<u32, N2, D2>> for Unit<u64, N, D> {
    fn eq(&self, rhs: &Unit<u32, N2, D2>) -> (r: bool) {
        match <Self as MyTryFrom<Unit<u32, N2, D2>>>::try_from(*rhs) {
            Ok(rhs) => self.0 == rhs.0,
            Err(_) => false,
        }
    }
}

impl<const N: u32, const D: u32, const N2: u32, const D2: u32> vstd::std_specs::cmp::PartialEqSpecImpl<Unit<u32, N2, D2>> for Unit<u64, N, D> {
    open spec fn obeys_eq_spec() -> bool {
        true
    }

    open spec fn eq_spec(&self, rhs: &Unit<u32, N2, D2>) -> bool {
        equal_after_conversion(self.0, <Self as MyTryFrom<Unit<u32, N2, D2>>>::conversion_spec(*rhs))
    }
}

impl<const N: u32, const D: u32, const N2: u32, const D2: u32> PartialEq<Unit<u64, N2, D2>> for Unit<u64, N, D> {
    fn eq(&self, rhs: &Unit<u64, N2, D2>) -> (r: bool) {
        match <Self as MyTryFrom<Unit<u64, N2, D2>>>::try_from(*rhs) {
            Ok(rhs) => self.0 == rhs.0,
            Err(_) => false,
        }
    }
}

impl<const N: u32, const D: u32, const N2: u32, const D2: u32> vstd::std_specs::cmp::PartialEqSpecImpl<Unit<u64, N2, D2>> for Unit<u64, N, D> {
    open spec fn obeys_eq_spec() -> bool {
        true
    }

    open spec fn eq_spec(&self, rhs: &Unit<u64, N2, D2>) -> bool {
        equal_after_conversion(self.0, <Self as MyTryFrom<Unit<u64, N2, D2>>>::conversion_spec(*rhs))
    }
}

/// A conversion to the very scale and width that a value already has gives
/// the value back unchanged; to the same scale in a wider integer, the same
/// count.
pub proof fn lemma_same_scale_identity<const N: u32, const D: u32>(
    a: Unit<u32, N, D>,
    b: Unit<u64, N, D>,
)
    requires
        N > 0,
        D > 0,
    ensures
        <Unit<u32, N, D> as MyTryFrom<Unit<u32, N, D>>>::conversion_spec(a) == Ok::<
            Unit<u32, N, D>,
            ConversionError,
        >(a),
        <Unit<u64, N, D> as MyTryFrom<Unit<u64, N, D>>>::conversion_spec(b) == Ok::<
            Unit<u64, N, D>,
            ConversionError,
        >(b),
        <Unit<u64, N, D> as MyTryFrom<Unit<u32, N, D>>>::conversion_spec(a) == Ok::<
            Unit<u64, N, D>,
            ConversionError,
        >(Unit(a.0 as u64)),
{
    let x = D as nat * N as nat;
    assert(x == N as nat * D as nat && x > 0) by (nonlinear_arith)
        requires
            N > 0,
            D > 0,
            x == D as nat * N as nat,
    ;
    lemma_gcd_self(x);
    vstd::arithmetic::div_mod::lemma_div_basics(x as int);
    assert(ratio(N as nat, D as nat, N as nat, D as nat) == (1nat, 1nat));
}

/// Where `b` does not convert into the scale and width of `a`, `a == b` is
/// false, whatever the two quantities are.
pub proof fn lemma_failed_conversion_not_equal<
    const N: u32,
    const D: u32,
    const N2: u32,
    const D2: u32,
>(a32: Unit<u32, N, D>, a64: Unit<u64, N, D>, b32: Unit<u32, N2, D2>, b64: Unit<u64, N2, D2>)
    ensures
        <Unit<u32, N, D> as MyTryFrom<Unit<u32, N2, D2>>>::conversion_spec(b32) is Err
            ==> !vstd::std_specs::cmp::PartialEqSpec::eq_spec(&a32, &b32),
        <Unit<u32, N, D> as MyTryFrom<Unit<u64, N2, D2>>>::conversion_spec(b64) is Err
            ==> !vstd::std_specs::cmp::PartialEqSpec::eq_spec(&a32, &b64),
        <Unit<u64, N, D> as MyTryFrom<Unit<u32, N2, D2>>>::conversion_spec(b32) is Err
            ==> !vstd::std_specs::cmp::PartialEqSpec::eq_spec(&a64, &b32),
        <Unit<u64, N, D> as MyTryFrom<Unit<u64, N2, D2>>>::conversion_spec(b64) is Err
            ==> !vstd::std_specs::cmp::PartialEqSpec::eq_spec(&a64, &b64),
{
}

/// Converting to a coarser scale, `k` times the source's, never fails where
/// the target integer is at least as wide as the source's: the count is
/// divided by `k`, truncating toward zero.
pub proof fn lemma_coarser_scale_succeeds<const N: u32, const N2: u32>(
    a32: Unit<u32, N2, 1>,
    a64: Unit<u64, N2, 1>,
    k: nat,
)
    requires
        N2 > 0,
        N as nat == N2 as nat * k,
        k > 0,
    ensures
        <Unit<u32, N, 1> as MyTryFrom<Unit<u32, N2, 1>>>::conversion_spec(a32) == Ok::<
            Unit<u32, N, 1>,
            ConversionError,
        >(Unit((a32.0 as nat / k) as u32)),
        <Unit<u64, N, 1> as MyTryFrom<Unit<u32, N2, 1>>>::conversion_spec(a32) == Ok::<
            Unit<u64, N, 1>,
            ConversionError,
        >(Unit((a32.0 as nat / k) as u64)),
        <Unit<u64, N, 1> as MyTryFrom<Unit<u64, N2, 1>>>::conversion_spec(a64) == Ok::<
            Unit<u64, N, 1>,
            ConversionError,
        >(Unit((a64.0 as nat / k) as u64)),
{
    let m = N2 as nat;
    lemma_gcd_scale(1, k, m);
    lemma_gcd_divides(1, k);
    let g1 = gcd(1, k);
    if g1 > 1 {
        vstd::arithmetic::div_mod::lemma_small_mod(1, g1);
    }
    assert(gcd(1, k) == 1);
    assert(gcd(m * 1, 1 * N as nat) == m) by {
        assert(1 * m == m * 1);
        assert(k * m == 1 * N as nat) by (nonlinear_arith)
            requires
                N as nat == m * k,
        ;
    }
    vstd::arithmetic::div_mod::lemma_div_basics(m as int);
    assert((1 * N as nat) / m == k) by (nonlinear_arith)
        requires
            N as nat == m * k,
            m > 0,
    ;
    assert(ratio(N as nat, 1, m, 1) == (1nat, k));
    assert(k <= N) by (nonlinear_arith)
        requires
            N as nat == m * k,
            m > 0,
    ;
    lemma_quotient_bound(a32.0 as nat, k);
    lemma_quotient_bound(a64.0 as nat, k);
    vstd::arithmetic::div_mod::lemma_div_basics(a32.0 as int);
    vstd::arithmetic::div_mod::lemma_div_basics(a64.0 as int);
}

proof fn lemma_quotient_bound(a: nat, b: nat)
    requires
        b > 0,
    ensures
        a / b <= a,
{
    vstd::arithmetic::div_mod::lemma_div_is_ordered_by_denominator(a as int, 1, b as int);
}

proof fn lemma_quotient_positive(a: nat, g: nat)
    requires
        a > 0,
        g > 0,
        a % g == 0,
    ensures
        a / g > 0,
{
    vstd::arithmetic::div_mod::lemma_fundamental_div_mod(a as int, g as int);
}

} // verus!
