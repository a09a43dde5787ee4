//! Real numbers, as the library carries them.
use vstd::prelude::*;

verus! {

/// A binary64 floating-point number, held by its bit pattern.
#[derive(Clone, Copy, Debug, PartialEq, Eq, Structural)]
pub struct Binary64 {
    pub bits: u64,
}

/// A real number of a Wannierization: one that was given, or the product of
/// two that were given, which is still to be computed.
#[derive(Clone, Copy, Debug, PartialEq, Eq, Structural)]
pub enum Real {
    Given(Binary64),
    /// The product of the two numbers, first factor first.
    Product(Binary64, Binary64),
}

impl Real {
    /// The number with the given bit pattern.
    pub fn from_bits(bits: u64) -> (r: Real)
        ensures
            r == Real::Given(Binary64 { bits }),
    {
        Real::Given(Binary64 { bits })
    }
}

/// `factor` times `x`, for each component `x` of `v`.
pub open spec fn scaled3(v: [Binary64; 3], factor: Binary64) -> [Real; 3] {
    [Real::Product(factor, v[0]), Real::Product(factor, v[1]), Real::Product(factor, v[2])]
}

/// The components of `v`, as they were given.
pub open spec fn given3(v: [Binary64; 3]) -> [Real; 3] {
    [Real::Given(v[0]), Real::Given(v[1]), Real::Given(v[2])]
}

/// Multiplies each component of `v` by `factor`.
pub fn scale3(v: &[Binary64; 3], factor: Binary64) -> (r: [Real; 3])
    ensures
        r == scaled3(*v, factor),
{
    let r = [Real::Product(factor, v[0]), Real::Product(factor, v[1]), Real::Product(factor, v[2])];
    assert(r =~= scaled3(*v, factor));
    r
}

/// Takes each component of `v` as it was given.
pub fn give3(v: &[Binary64; 3]) -> (r: [Real; 3])
    ensures
        r == given3(*v),
{
    let r = [Real::Given(v[0]), Real::Given(v[1]), Real::Given(v[2])];
    assert(r =~= given3(*v));
    r
}

} // verus!
