use crate::units::{lemma_coarser_scale_succeeds, ConversionError, MyTryFrom, TimeInt, Unit};
use vstd::prelude::*;
use vstd::std_specs::cmp::PartialEqSpec;

verus! {

/// A frequency counted in hertz.
#[derive(Clone, Copy, Debug, Default)]
pub struct Hertz<T = u32>(pub Unit<T, 1, 1>);

/// A frequency counted in kilohertz.
#[derive(Clone, Copy, Debug, Default)]
pub struct Kilohertz<T = u32>(pub Unit<T, 1_000, 1>);

/// A frequency counted in megahertz.
#[derive(Clone, Copy, Debug, Default)]
pub struct Megahertz<T = u32>(pub Unit<T, 1_000_000, 1>);

impl<T> Hertz<T> {
    pub fn new(val: T) -> (r: Self)
        ensures
            r.0.0 == val,
    {
        Self(Unit::new(val))
    }

    pub fn integer(self) -> (r: T)
        ensures
            r == self.0.0,
    {
        self.0.integer()
    }
}

impl<T> Kilohertz<T> {
    pub fn new(val: T) -> (r: Self)
        ensures
            r.0.0 == val,
    {
        Self(Unit::new(val))
    }

    pub fn integer(self) -> (r: T)
        ensures
            r == self.0.0,
    {
        self.0.integer()
    }
}

impl<T> Megahertz<T> {
    pub fn new(val: T) -> (r: Self)
        ensures
            r.0.0 == val,
    {
        Self(Unit::new(val))
    }

    pub fn integer(self) -> (r: T)
        ensures
            r == self.0.0,
    {
        self.0.integer()
    }
}

impl PartialEq for Hertz<u32> {
    fn eq(&self, rhs: &Self) -> (r: bool) {
        self.0.0 == rhs.0.0
    }
}

impl vstd::std_specs::cmp::PartialEqSpecImpl for Hertz<u32> {
    open spec fn obeys_eq_spec() -> bool {
        true
    }

    open spec fn eq_spec(&self, rhs: &Self) -> bool {
        self.0.0 == rhs.0.0
    }
}

impl PartialEq for Hertz<u64> {
    fn eq(&self, rhs: &Self) -> (r: bool) {
        self.0.0 == rhs.0.0
    }
}

impl vstd::std_specs::cmp::PartialEqSpecImpl for Hertz<u64> {
    open spec fn obeys_eq_spec() -> bool {
        true
    }

    open spec fn eq_spec(&self, rhs: &Self) -> bool {
        self.0.0 == rhs.0.0
    }
}

// Equality across units compares the inner counts, converting the right-hand
// side into the left-hand side's scale and width.
impl<T, T2> PartialEq<Kilohertz<T2>> for Hertz<T> where Unit<T, 1, 1>: PartialEq<Unit<T2, 1_000, 1>> {
    fn eq(&self, rhs: &Kilohertz<T2>) -> (r: bool) {
        self.0.eq(&rhs.0)
    }
}

impl<T, T2> vstd::std_specs::cmp::PartialEqSpecImpl<Kilohertz<T2>> for Hertz<T> where Unit<T, 1, 1>: PartialEq<Unit<T2, 1_000, 1>> {
    open spec fn obeys_eq_spec() -> bool {
        <Unit<T, 1, 1> as PartialEqSpec<Unit<T2, 1_000, 1>>>::obeys_eq_spec()
    }

    open spec fn eq_spec(&self, rhs: &Kilohertz<T2>) -> bool {
        PartialEqSpec::eq_spec(&self.0, &rhs.0)
    }
}

impl<T, T2> PartialEq<Hertz<T2>> for Kilohertz<T> where Unit<T, 1_000, 1>: PartialEq<Unit<T2, 1, 1>> {
    fn eq(&self, rhs: &Hertz<T2>) -> (r: bool) {
        self.0.eq(&rhs.0)
    }
}

impl<T, T2> vstd::std_specs::cmp::PartialEqSpecImpl<Hertz<T2>> for Kilohertz<T> where Unit<T, 1_000, 1>: PartialEq<Unit<T2, 1, 1>> {
    open spec fn obeys_eq_spec() -> bool {
        <Unit<T, 1_000, 1> as PartialEqSpec<Unit<T2, 1, 1>>>::obeys_eq_spec()
    }

    open spec fn eq_spec(&self, rhs: &Hertz<T2>) -> bool {
        PartialEqSpec::eq_spec(&self.0, &rhs.0)
    }
}

impl<T, T2> PartialEq<Megahertz<T2>> for Hertz<T> where Unit<T, 1, 1>: PartialEq<Unit<T2, 1_000_000, 1>> {
    fn eq(&self, rhs: &Megahertz<T2>) -> (r: bool) {
        self.0.eq(&rhs.0)
    }
}

impl<T, T2> vstd::std_specs::cmp::PartialEqSpecImpl<Megahertz<T2>> for Hertz<T> where Unit<T, 1, 1>: PartialEq<Unit<T2, 1_000_000, 1>> {
    open spec fn obeys_eq_spec() -> bool {
        <Unit<T, 1, 1> as PartialEqSpec<Unit<T2, 1_000_000, 1>>>::obeys_eq_spec()
    }

    open spec fn eq_spec(&self, rhs: &Megahertz<T2>) -> bool {
        PartialEqSpec::eq_spec(&self.0, &rhs.0)
    }
}

impl<T, T2> PartialEq<Hertz<T2>> for Megahertz<T> where Unit<T, 1_000_000, 1>: PartialEq<Unit<T2, 1, 1>> {
    fn eq(&self, rhs: &Hertz<T2>) -> (r: bool) {
        self.0.eq(&rhs.0)
    }
}

impl<T, T2> vstd::std_specs::cmp::PartialEqSpecImpl<Hertz<T2>> for Megahertz<T> where Unit<T, 1_000_000, 1>: PartialEq<Unit<T2, 1, 1>> {
    open spec fn obeys_eq_spec() -> bool {
        <Unit<T, 1_000_000, 1> as PartialEqSpec<Unit<T2, 1, 1>>>::obeys_eq_spec()
    }

    open spec fn eq_spec(&self, rhs: &Hertz<T2>) -> bool {
        PartialEqSpec::eq_spec(&self.0, &rhs.0)
    }
}

impl<T, T2> PartialEq<Megahertz<T2>> for Kilohertz<T> where Unit<T, 1_000, 1>: PartialEq<Unit<T2, 1_000_000, 1>> {
    fn eq(&self, rhs: &Megahertz<T2>) -> (r: bool) {
        self.0.eq(&rhs.0)
    }
}

impl<T, T2> vstd::std_specs::cmp::PartialEqSpecImpl<Megahertz<T2>> for Kilohertz<T> where Unit<T, 1_000, 1>: PartialEq<Unit<T2, 1_000_000, 1>> {
    open spec fn obeys_eq_spec() -> bool {
        <Unit<T, 1_000, 1> as PartialEqSpec<Unit<T2, 1_000_000, 1>>>::obeys_eq_spec()
    }

    open spec fn eq_spec(&self, rhs: &Megahertz<T2>) -> bool {
        PartialEqSpec::eq_spec(&self.0, &rhs.0)
    }
}

impl<T, T2> PartialEq<Kilohertz<T2>> for Megahertz<T> where Unit<T, 1_000_000, 1>: PartialEq<Unit<T2, 1_000, 1>> {
    fn eq(&self, rhs: &Kilohertz<T2>) -> (r: bool) {
        self.0.eq(&rhs.0)
    }
}

impl<T, T2> vstd::std_specs::cmp::PartialEqSpecImpl<Kilohertz<T2>> for Megahertz<T> where Unit<T, 1_000_000, 1>: PartialEq<Unit<T2, 1_000, 1>> {
    open spec fn obeys_eq_spec() -> bool {
        <Unit<T, 1_000_000, 1> as PartialEqSpec<Unit<T2, 1_000, 1>>>::obeys_eq_spec()
    }

    open spec fn eq_spec(&self, rhs: &Kilohertz<T2>) -> bool {
        PartialEqSpec::eq_spec(&self.0, &rhs.0)
    }
}

// Widening into an integer at least as wide as the source's cannot fail, so
// these pairs convert with `From`; the others go through `MyTryFrom`.
impl From<Hertz<u32>> for Kilohertz<u32> {
    fn from(small: Hertz<u32>) -> (r: Self) {
        proof {
            lemma_coarser_scale_succeeds::<1_000, 1>(small.0, Unit::<u64, 1, 1>(0), 1_000);
        }
        match <Unit<u32, 1_000, 1> as MyTryFrom<Unit<u32, 1, 1>>>::try_from(small.0) {
            Ok(u) => Self(u),
            Err(_) => vstd::pervasive::unreached(),
        }
    }
}

impl vstd::std_specs::convert::FromSpecImpl<Hertz<u32>> for Kilohertz<u32> {
    open spec fn obeys_from_spec() -> bool {
        true
    }

    open spec fn from_spec(small: Hertz<u32>) -> Self {
        Kilohertz(Unit((small.0.0 as nat / 1_000) as u32))
    }
}

impl From<Hertz<u32>> for Kilohertz<u64> {
    fn from(small: Hertz<u32>) -> (r: Self) {
        proof {
            lemma_coarser_scale_succeeds::<1_000, 1>(small.0, Unit::<u64, 1, 1>(0), 1_000);
        }
        match <Unit<u64, 1_000, 1> as MyTryFrom<Unit<u32, 1, 1>>>::try_from(small.0) {
            Ok(u) => Self(u),
            Err(_) => vstd::pervasive::unreached(),
        }
    }
}

impl vstd::std_specs::convert::FromSpecImpl<Hertz<u32>> for Kilohertz<u64> {
    open spec fn obeys_from_spec() -> bool {
        true
    }

    open spec fn from_spec(small: Hertz<u32>) -> Self {
        Kilohertz(Unit((small.0.0 as nat / 1_000) as u64))
    }
}

impl From<Hertz<u64>> for Kilohertz<u64> {
    fn from(small: Hertz<u64>) -> (r: Self) {
        proof {
            lemma_coarser_scale_succeeds::<1_000, 1>(Unit::<u32, 1, 1>(0), small.0, 1_000);
        }
        match <Unit<u64, 1_000, 1> as MyTryFrom<Unit<u64, 1, 1>>>::try_from(small.0) {
            Ok(u) => Self(u),
            Err(_) => vstd::pervasive::unreached(),
        }
    }
}

impl vstd::std_specs::convert::FromSpecImpl<Hertz<u64>> for Kilohertz<u64> {
    open spec fn obeys_from_spec() -> bool {
        true
    }

    open spec fn from_spec(small: Hertz<u64>) -> Self {
        Kilohertz(Unit((small.0.0 as nat / 1_000) as u64))
    }
}

impl From<Hertz<u32>> for Megahertz<u32> {
    fn from(small: Hertz<u32>) -> (r: Self) {
        proof {
            lemma_coarser_scale_succeeds::<1_000_000, 1>(small.0, Unit::<u64, 1, 1>(0), 1_000_000);
        }
        match <Unit<u32, 1_000_000, 1> as MyTryFrom<Unit<u32, 1, 1>>>::try_from(small.0) {
            Ok(u) => Self(u),
            Err(_) => vstd::pervasive::unreached(),
        }
    }
}

impl vstd::std_specs::convert::FromSpecImpl<Hertz<u32>> for Megahertz<u32> {
    open spec fn obeys_from_spec() -> bool {
        true
    }

    open spec fn from_spec(small: Hertz<u32>) -> Self {
        Megahertz(Unit((small.0.0 as nat / 1_000_000) as u32))
    }
}

impl From<Hertz<u32>> for Megahertz<u64> {
    fn from(small: Hertz<u32>) -> (r: Self) {
        proof {
            lemma_coarser_scale_succeeds::<1_000_000, 1>(small.0, Unit::<u64, 1, 1>(0), 1_000_000);
        }
        match <Unit<u64, 1_000_000, 1> as MyTryFrom<Unit<u32, 1, 1>>>::try_from(small.0) {
            Ok(u) => Self(u),
            Err(_) => vstd::pervasive::unreached(),
        }
    }
}

impl vstd::std_specs::convert::FromSpecImpl<Hertz<u32>> for Megahertz<u64> {
    open spec fn obeys_from_spec() -> bool {
        true
    }

    open spec fn from_spec(small: Hertz<u32>) -> Self {
        Megahertz(Unit((small.0.0 as nat / 1_000_000) as u64))
    }
}

impl From<Hertz<u64>> for Megahertz<u64> {
    fn from(small: Hertz<u64>) -> (r: Self) {
        proof {
            lemma_coarser_scale_succeeds::<1_000_000, 1>(Unit::<u32, 1, 1>(0), small.0, 1_000_000);
        }
        match <Unit<u64, 1_000_000, 1> as MyTryFrom<Unit<u64, 1, 1>>>::try_from(small.0) {
            Ok(u) => Self(u),
            Err(_) => vstd::pervasive::unreached(),
        }
    }
}

impl vstd::std_specs::convert::FromSpecImpl<Hertz<u64>> for Megahertz<u64> {
    open spec fn obeys_from_spec() -> bool {
        true
    }

    open spec fn from_spec(small: Hertz<u64>) -> Self {
        Megahertz(Unit((small.0.0 as nat / 1_000_000) as u64))
    }
}

impl From<Kilohertz<u32>> for Megahertz<u32> {
    fn from(small: Kilohertz<u32>) -> (r: Self) {
        proof {
            lemma_coarser_scale_succeeds::<1_000_000, 1_000>(small.0, Unit::<u64, 1_000, 1>(0), 1_000);
        }
        match <Unit<u32, 1_000_000, 1> as MyTryFrom<Unit<u32, 1_000, 1>>>::try_from(small.0) {
            Ok(u) => Self(u),
            Err(_) => vstd::pervasive::unreached(),
        }
    }
}

impl vstd::std_specs::convert::FromSpecImpl<Kilohertz<u32>> for Megahertz<u32> {
    open spec fn obeys_from_spec() -> bool {
        true
    }

    open spec fn from_spec(small: Kilohertz<u32>) -> Self {
        Megahertz(Unit((small.0.0 as nat / 1_000) as u32))
    }
}

impl From<Kilohertz<u32>> for Megahertz<u64> {
    fn from(small: Kilohertz<u32>) -> (r: Self) {
        proof {
            lemma_coarser_scale_succeeds::<1_000_000, 1_000>(small.0, Unit::<u64, 1_000, 1>(0), 1_000);
        }
        match <Unit<u64, 1_000_000, 1> as MyTryFrom<Unit<u32, 1_000, 1>>>::try_from(small.0) {
            Ok(u) => Self(u),
            Err(_) => vstd::pervasive::unreached(),
        }
    }
}

impl vstd::std_specs::convert::FromSpecImpl<Kilohertz<u32>> for Megahertz<u64> {
    open spec fn obeys_from_spec() -> bool {
        true
    }

    open spec fn from_spec(small: Kilohertz<u32>) -> Self {
        Megahertz(Unit((small.0.0 as nat / 1_000) as u64))
    }
}

impl From<Kilohertz<u64>> for Megahertz<u64> {
    fn from(small: Kilohertz<u64>) -> (r: Self) {
        proof {
            lemma_coarser_scale_succeeds::<1_000_000, 1_000>(Unit::<u32, 1_000, 1>(0), small.0, 1_000);
        }
        match <Unit<u64, 1_000_000, 1> as MyTryFrom<Unit<u64, 1_000, 1>>>::try_from(small.0) {
            Ok(u) => Self(u),
            Err(_) => vstd::pervasive::unreached(),
        }
    }
}

impl vstd::std_specs::convert::FromSpecImpl<Kilohertz<u64>> for Megahertz<u64> {
    open spec fn obeys_from_spec() -> bool {
        true
    }

    open spec fn from_spec(small: Kilohertz<u64>) -> Self {
        Megahertz(Unit((small.0.0 as nat / 1_000) as u64))
    }
}

impl<T, T2> MyTryFrom<Hertz<T2>> for Kilohertz<T> where Unit<T, 1_000, 1>: MyTryFrom<Unit<T2, 1, 1>, Error = ConversionError> {
    type Error = ConversionError;

    open spec fn conversion_spec(small: Hertz<T2>) -> Result<Self, ConversionError> {
        match <Unit<T, 1_000, 1> as MyTryFrom<Unit<T2, 1, 1>>>::conversion_spec(small.0) {
            Ok(u) => Ok(Kilohertz(u)),
            Err(e) => Err(e),
        }
    }

    fn try_from(small: Hertz<T2>) -> (r: Result<Self, ConversionError>) {
        match <Unit<T, 1_000, 1> as MyTryFrom<Unit<T2, 1, 1>>>::try_from(small.0) {
            Ok(u) => Ok(Self(u)),
            Err(e) => Err(e),
        }
    }
}

impl<T, T2> TryFrom<Kilohertz<T2>> for Hertz<T> where Unit<T, 1, 1>: MyTryFrom<Unit<T2, 1_000, 1>, Error = ConversionError> {
    type Error = ConversionError;

    fn try_from(big: Kilohertz<T2>) -> (r: Result<Self, ConversionError>) {
        match <Unit<T, 1, 1> as MyTryFrom<Unit<T2, 1_000, 1>>>::try_from(big.0) {
            Ok(u) => Ok(Self(u)),
            Err(e) => Err(e),
        }
    }
}

impl<T, T2> vstd::std_specs::convert::TryFromSpecImpl<Kilohertz<T2>> for Hertz<T> where Unit<T, 1, 1>: MyTryFrom<Unit<T2, 1_000, 1>, Error = ConversionError> {
    open spec fn obeys_try_from_spec() -> bool {
        true
    }

    open spec fn try_from_spec(big: Kilohertz<T2>) -> Result<Self, ConversionError> {
        match <Unit<T, 1, 1> as MyTryFrom<Unit<T2, 1_000, 1>>>::conversion_spec(big.0) {
            Ok(u) => Ok(Hertz(u)),
            Err(e) => Err(e),
        }
    }
}

impl<T, T2> MyTryFrom<Hertz<T2>> for Megahertz<T> where Unit<T, 1_000_000, 1>: MyTryFrom<Unit<T2, 1, 1>, Error = ConversionError> {
    type Error = ConversionError;

    open spec fn conversion_spec(small: Hertz<T2>) -> Result<Self, ConversionError> {
        match <Unit<T, 1_000_000, 1> as MyTryFrom<Unit<T2, 1, 1>>>::conversion_spec(small.0) {
            Ok(u) => Ok(Megahertz(u)),
            Err(e) => Err(e),
        }
    }

    fn try_from(small: Hertz<T2>) -> (r: Result<Self, ConversionError>) {
        match <Unit<T, 1_000_000, 1> as MyTryFrom<Unit<T2, 1, 1>>>::try_from(small.0) {
            Ok(u) => Ok(Self(u)),
            Err(e) => Err(e),
        }
    }
}

impl<T, T2> MyTryFrom<Kilohertz<T2>> for Megahertz<T> where Unit<T, 1_000_000, 1>: MyTryFrom<Unit<T2, 1_000, 1>, Error = ConversionError> {
    type Error = ConversionError;

    open spec fn conversion_spec(small: Kilohertz<T2>) -> Result<Self, ConversionError> {
        match <Unit<T, 1_000_000, 1> as MyTryFrom<Unit<T2, 1_000, 1>>>::conversion_spec(small.0) {
            Ok(u) => Ok(Megahertz(u)),
            Err(e) => Err(e),
        }
    }

    fn try_from(small: Kilohertz<T2>) -> (r: Result<Self, ConversionError>) {
        match <Unit<T, 1_000_000, 1> as MyTryFrom<Unit<T2, 1_000, 1>>>::try_from(small.0) {
            Ok(u) => Ok(Self(u)),
            Err(e) => Err(e),
        }
    }
}

impl<T, T2> TryFrom<Megahertz<T2>> for Hertz<T> where Unit<T, 1, 1>: MyTryFrom<Unit<T2, 1_000_000, 1>, Error = ConversionError> {
    type Error = ConversionError;

    fn try_from(big: Megahertz<T2>) -> (r: Result<Self, ConversionError>) {
        match <Unit<T, 1, 1> as MyTryFrom<Unit<T2, 1_000_000, 1>>>::try_from(big.0) {
            Ok(u) => Ok(Self(u)),
            Err(e) => Err(e),
        }
    }
}

impl<T, T2> vstd::std_specs::convert::TryFromSpecImpl<Megahertz<T2>> for Hertz<T> where Unit<T, 1, 1>: MyTryFrom<Unit<T2, 1_000_000, 1>, Error = ConversionError> {
    open spec fn obeys_try_from_spec() -> bool {
        true
    }

    open spec fn try_from_spec(big: Megahertz<T2>) -> Result<Self, ConversionError> {
        match <Unit<T, 1, 1> as MyTryFrom<Unit<T2, 1_000_000, 1>>>::conversion_spec(big.0) {
            Ok(u) => Ok(Hertz(u)),
            Err(e) => Err(e),
        }
    }
}

impl<T, T2> TryFrom<Megahertz<T2>> for Kilohertz<T> where Unit<T, 1_000, 1>: MyTryFrom<Unit<T2, 1_000_000, 1>, Error = ConversionError> {
    type Error = ConversionError;

    fn try_from(big: Megahertz<T2>) -> (r: Result<Self, ConversionError>) {
        match <Unit<T, 1_000, 1> as MyTryFrom<Unit<T2, 1_000_000, 1>>>::try_from(big.0) {
            Ok(u) => Ok(Self(u)),
            Err(e) => Err(e),
        }
    }
}

impl<T, T2> vstd::std_specs::convert::TryFromSpecImpl<Megahertz<T2>> for Kilohertz<T> where Unit<T, 1_000, 1>: MyTryFrom<Unit<T2, 1_000_000, 1>, Error = ConversionError> {
    open spec fn obeys_try_from_spec() -> bool {
        true
    }

    open spec fn try_from_spec(big: Megahertz<T2>) -> Result<Self, ConversionError> {
        match <Unit<T, 1_000, 1> as MyTryFrom<Unit<T2, 1_000_000, 1>>>::conversion_spec(big.0) {
            Ok(u) => Ok(Kilohertz(u)),
            Err(e) => Err(e),
        }
    }
}

/// Suffix constructors on plain integers.
#[allow(non_snake_case)]
pub trait Extensions: TimeInt {
    /// megahertz
    fn MHz(self) -> (r: Megahertz<Self>)
        ensures
            r.0.0 == self,
    {
        Megahertz::new(self)
    }

    /// kilohertz
    fn kHz(self) -> (r: Kilohertz<Self>)
        ensures
            r.0.0 == self,
    {
        Kilohertz::new(self)
    }

    /// hertz
    fn Hz(self) -> (r: Hertz<Self>)
        ensures
            r.0.0 == self,
    {
        Hertz::new(self)
    }
}

impl Extensions for u32 {

}

} // verus!
