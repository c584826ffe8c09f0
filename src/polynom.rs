//! Second degree polynomials `a·t² + b·t + c`, and the choice of the root that
//! a ray meets first.

use vstd::prelude::*;

verus! {

/// The polynomial `a·t² + b·t + c`.
pub struct Polynom2<T> {
    pub a: T,
    pub b: T,
    pub c: T,
}

impl<T> Polynom2<T> {
    /// The polynomial with coefficients `a`, `b` and `c`.
    pub fn new(a: T, b: T, c: T) -> (p: Self)
        ensures
            p.a == a,
            p.b == b,
            p.c == c,
    {
        Self { a, b, c }
    }
}

/// The polynomial `a·t² + b·t + c`, filled in field by field.
#[derive(Default, Copy, Clone, Debug)]
pub struct Polynomial2<T> {
    pub a: T,
    pub b: T,
    pub c: T,
}

/// The IEEE-754 single precision number with these bits is positive and finite:
/// a root that lies strictly ahead of a ray's origin. NaN, zeros, negative numbers
/// and infinities do not.
pub open spec fn is_ahead(bits: u32) -> bool {
    0 < bits < 0x7F80_0000
}

/// Of two roots, given by their bits, the nearest one strictly ahead, or `None`
/// where neither is. On positive finite numbers the order of the bits is the
/// order of the numbers, so the least bits are the nearest root.
pub fn nearest_ahead(roots: [u32; 2]) -> (r: Option<u32>)
    ensures
        r is None <==> !is_ahead(roots[0]) && !is_ahead(roots[1]),
        r matches Some(b) ==> {
            &&& b == roots[0] || b == roots[1]
            &&& is_ahead(b)
            &&& is_ahead(roots[0]) ==> b <= roots[0]
            &&& is_ahead(roots[1]) ==> b <= roots[1]
        },
{
    let first = 0 < roots[0] && roots[0] < 0x7F80_0000;
    let second = 0 < roots[1] && roots[1] < 0x7F80_0000;
    if first && second {
        if roots[0] <= roots[1] {
            Some(roots[0])
        } else {
            Some(roots[1])
        }
    } else if first {
        Some(roots[0])
    } else if second {
        Some(roots[1])
    } else {
        None
    }
}

} // verus!
