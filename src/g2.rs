use vstd::prelude::*;

use crate::fields::{
    fq3_add, fq3_div, fq3_mul, fq3_neg, fq3_scale, fq3_square, fq3_sub, fq3_zero, Fq3, Fq3Value,
};
use crate::params::{
    coeff_a_value, cofactor_value, generator_x_value, generator_y_value, satisfies_curve_equation,
    Parameters,
};

verus! {

/// A point of G2 in affine coordinates; `infinity` marks the identity.
#[derive(Clone, Copy, Debug)]
pub struct G2Affine {
    pub x: Fq3,
    pub y: Fq3,
    pub infinity: bool,
}

/// The mathematical value of a point: (x, y, is the identity).
pub type PointValue = (Fq3Value, Fq3Value, bool);

pub open spec fn identity_value() -> PointValue {
    (fq3_zero(), fq3_zero(), true)
}

pub open spec fn generator_value() -> PointValue {
    (generator_x_value(), generator_y_value(), false)
}

/// Whether a point is the identity or satisfies the curve equation.
pub open spec fn is_on_curve(p: PointValue) -> bool {
    p.2 || satisfies_curve_equation(p.0, p.1)
}

/// The chord-and-tangent sum of two points of the curve.
pub open spec fn point_add(p: PointValue, q: PointValue) -> PointValue {
    if p.2 {
        q
    } else if q.2 {
        p
    } else if p.0 == q.0 && p.1 == fq3_neg(q.1) {
        identity_value()
    } else {
        let lambda = if p.0 == q.0 {
            fq3_div(
                fq3_add(fq3_scale(3, fq3_square(p.0)), coeff_a_value()),
                fq3_scale(2, p.1),
            )
        } else {
            fq3_div(fq3_sub(q.1, p.1), fq3_sub(q.0, p.0))
        };
        let x = fq3_sub(fq3_sub(fq3_square(lambda), p.0), q.0);
        let y = fq3_sub(fq3_mul(lambda, fq3_sub(p.0, x)), p.1);
        (x, y, false)
    }
}

/// The multiple n * p, as n - 1 additions of p.
pub open spec fn scalar_mul(n: nat, p: PointValue) -> PointValue
    decreases n,
{
    if n == 0 {
        identity_value()
    } else {
        point_add(p, scalar_mul((n - 1) as nat, p))
    }
}

/// Cofactor clearing: the multiple of a point by the cofactor.
pub open spec fn clear_cofactor(p: PointValue) -> PointValue {
    scalar_mul(cofactor_value(), p)
}

/// Any multiple of the identity is the identity.
pub proof fn lemma_scalar_mul_identity(n: nat)
    ensures
        scalar_mul(n, identity_value()) == identity_value(),
    decreases n,
{
    if n > 0 {
        lemma_scalar_mul_identity((n - 1) as nat);
    }
}

/// Cofactor clearing maps the identity to the identity.
pub proof fn lemma_clear_cofactor_identity()
    ensures
        clear_cofactor(identity_value()) == identity_value(),
{
    lemma_scalar_mul_identity(cofactor_value());
}

impl G2Affine {
    pub open spec fn value(self) -> PointValue {
        (self.x.value(), self.y.value(), self.infinity)
    }

    /// Equal limbs in every coordinate, and the same identity flag.
    pub open spec fn same_as(self, o: G2Affine) -> bool {
        self.x.c0.limbs@ == o.x.c0.limbs@ && self.x.c1.limbs@ == o.x.c1.limbs@
            && self.x.c2.limbs@ == o.x.c2.limbs@ && self.y.c0.limbs@ == o.y.c0.limbs@
            && self.y.c1.limbs@ == o.y.c1.limbs@ && self.y.c2.limbs@ == o.y.c2.limbs@
            && self.infinity == o.infinity
    }

    /// A point from its coordinates, taken as they are.
    pub fn new_unchecked(x: Fq3, y: Fq3) -> (r: G2Affine)
        ensures
            r.x == x,
            r.y == y,
            !r.infinity,
    {
        G2Affine { x, y, infinity: false }
    }

    /// The identity (point at infinity), with both coordinates zero.
    pub fn identity() -> (r: G2Affine)
        ensures
            r.value() == identity_value(),
            r.x.wf() && r.y.wf(),
    {
        G2Affine { x: Fq3::zero(), y: Fq3::zero(), infinity: true }
    }

    /// The generator of the subgroup.
    pub fn generator() -> (r: G2Affine)
        ensures
            r.value() == generator_value(),
            r.x.wf() && r.y.wf(),
    {
        G2Affine::new_unchecked(Parameters::generator_x(), Parameters::generator_y())
    }

    /// Whether the point is the identity.
    pub fn is_identity(&self) -> (r: bool)
        ensures
            r == self.infinity,
    {
        self.infinity
    }
}

impl PartialEq for G2Affine {
    fn eq(&self, o: &G2Affine) -> (r: bool) {
        self.x == o.x && self.y == o.y && self.infinity == o.infinity
    }
}

impl vstd::std_specs::cmp::PartialEqSpecImpl for G2Affine {
    open spec fn obeys_eq_spec() -> bool {
        true
    }

    open spec fn eq_spec(&self, o: &G2Affine) -> bool {
        self.same_as(*o)
    }
}

impl Eq for G2Affine {

}

/// A point in the form that pairing computations take: it wraps one affine
/// point.
#[derive(Clone, Copy, Debug)]
pub struct G2Prepared(pub G2Affine);

impl G2Prepared {
    /// Whether the wrapped point is the identity.
    pub fn is_zero(&self) -> (r: bool)
        ensures
            r == self.0.infinity,
    {
        self.0.is_identity()
    }

    /// A prepared point that copies the given affine point.
    pub fn from_ref(p: &G2Affine) -> (r: G2Prepared)
        ensures
            r.0 == *p,
    {
        G2Prepared(*p)
    }
}

impl From<G2Affine> for G2Prepared {
    fn from(p: G2Affine) -> (r: G2Prepared) {
        G2Prepared(p)
    }
}

impl vstd::std_specs::convert::FromSpecImpl<G2Affine> for G2Prepared {
    open spec fn obeys_from_spec() -> bool {
        true
    }

    open spec fn from_spec(p: G2Affine) -> G2Prepared {
        G2Prepared(p)
    }
}

impl Default for G2Prepared {
    /// The prepared form of the generator, not of the identity.
    fn default() -> (r: G2Prepared)
        ensures
            r.0.value() == generator_value(),
            !r.0.infinity,
    {
        G2Prepared(G2Affine::generator())
    }
}

impl PartialEq for G2Prepared {
    fn eq(&self, o: &G2Prepared) -> (r: bool) {
        self.0 == o.0
    }
}

impl vstd::std_specs::cmp::PartialEqSpecImpl for G2Prepared {
    open spec fn obeys_eq_spec() -> bool {
        true
    }

    open spec fn eq_spec(&self, o: &G2Prepared) -> bool {
        self.0.same_as(o.0)
    }
}

impl Eq for G2Prepared {

}

} // verus!
