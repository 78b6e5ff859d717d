use vstd::prelude::*;

use crate::limbs::{limbs_eq, limbs_value, limbs_value_from};

verus! {

/// The prime q of the base field Fq (782 bits).
#[verifier::inline]
pub open spec fn base_modulus() -> nat {
    22369874298875696930346742206501054934775599465297184582183496627646774052458024540232479018147881220178054575403841904557897715222633333372134756426301062487682326574958588001132586331462553235407484089304633076250782629492557320825577nat
}

/// The prime r of the scalar field Fr (377 bits): the order of the subgroup.
#[verifier::inline]
pub open spec fn scalar_modulus() -> nat {
    258664426012969094010652733694893533536393512754914660539884262666720468348340822774968888139573360124440321458177nat
}

/// The cubic non-residue that defines Fq3 = Fq[u] / (u^3 - 13).
#[verifier::inline]
pub open spec fn cubic_nonresidue() -> int {
    13
}

/// An element of Fq3 as its three coordinates (c0, c1, c2), read as
/// c0 + c1 * u + c2 * u^2.
pub type Fq3Value = (int, int, int);

pub open spec fn fq3(c0: int, c1: int, c2: int) -> Fq3Value {
    (c0 % base_modulus() as int, c1 % base_modulus() as int, c2 % base_modulus() as int)
}

pub open spec fn fq3_zero() -> Fq3Value {
    (0, 0, 0)
}

pub open spec fn fq3_add(a: Fq3Value, b: Fq3Value) -> Fq3Value {
    fq3(a.0 + b.0, a.1 + b.1, a.2 + b.2)
}

pub open spec fn fq3_sub(a: Fq3Value, b: Fq3Value) -> Fq3Value {
    fq3(a.0 - b.0, a.1 - b.1, a.2 - b.2)
}

pub open spec fn fq3_neg(a: Fq3Value) -> Fq3Value {
    fq3(-a.0, -a.1, -a.2)
}

/// Product in Fq3, with u^3 replaced by the non-residue.
pub open spec fn fq3_mul(a: Fq3Value, b: Fq3Value) -> Fq3Value {
    fq3(
        a.0 * b.0 + cubic_nonresidue() * (a.1 * b.2 + a.2 * b.1),
        a.0 * b.1 + a.1 * b.0 + cubic_nonresidue() * (a.2 * b.2),
        a.0 * b.2 + a.1 * b.1 + a.2 * b.0,
    )
}

pub open spec fn fq3_square(a: Fq3Value) -> Fq3Value {
    fq3_mul(a, a)
}

pub open spec fn fq3_scale(k: int, a: Fq3Value) -> Fq3Value {
    fq3_mul(fq3(k, 0, 0), a)
}

/// The quotient a / b in Fq3: the element whose product with b is a.
pub open spec fn fq3_div(a: Fq3Value, b: Fq3Value) -> Fq3Value {
    choose|c: Fq3Value| fq3_mul(b, c) == fq3(a.0, a.1, a.2)
}

/// An element of the base field Fq: the little-endian limbs of its
/// canonical value.
#[derive(Clone, Copy, Debug)]
pub struct Fq {
    pub limbs: [u64; 13],
}

impl Fq {
    pub open spec fn value(self) -> nat {
        limbs_value(self.limbs@)
    }

    /// The limbs hold a canonical value, below q.
    pub open spec fn wf(self) -> bool {
        self.value() < base_modulus()
    }

    pub fn zero() -> (r: Fq)
        ensures
            r.value() == 0,
            r.wf(),
    {
        Fq::from_u64(0)
    }

    pub fn from_u64(v: u64) -> (r: Fq)
        ensures
            r.value() == v,
            r.wf(),
    {
        let limbs: [u64; 13] = [v, 0, 0, 0, 0, 0, 0, 0, 0, 0, 0, 0, 0];
        proof {
            assert(limbs_value(limbs@) == v) by {
                reveal_with_fuel(limbs_value_from, 14);
            }
        }
        Fq { limbs }
    }
}


impl PartialEq for Fq {
    fn eq(&self, o: &Fq) -> (r: bool) {
        limbs_eq(&self.limbs, &o.limbs)
    }
}

impl vstd::std_specs::cmp::PartialEqSpecImpl for Fq {
    open spec fn obeys_eq_spec() -> bool {
        true
    }

    open spec fn eq_spec(&self, o: &Fq) -> bool {
        self.limbs@ == o.limbs@
    }
}

impl Eq for Fq {

}

/// An element of the scalar field Fr: the little-endian limbs of its
/// canonical value.
#[derive(Clone, Copy, Debug)]
pub struct Fr {
    pub limbs: [u64; 6],
}

impl Fr {
    pub open spec fn value(self) -> nat {
        limbs_value(self.limbs@)
    }

    /// The limbs hold a canonical value, below r.
    pub open spec fn wf(self) -> bool {
        self.value() < scalar_modulus()
    }
}


impl PartialEq for Fr {
    fn eq(&self, o: &Fr) -> (r: bool) {
        limbs_eq(&self.limbs, &o.limbs)
    }
}

impl vstd::std_specs::cmp::PartialEqSpecImpl for Fr {
    open spec fn obeys_eq_spec() -> bool {
        true
    }

    open spec fn eq_spec(&self, o: &Fr) -> bool {
        self.limbs@ == o.limbs@
    }
}

impl Eq for Fr {

}

/// An element of the cubic extension Fq3 = Fq[u] / (u^3 - 13).
#[derive(Clone, Copy, Debug)]
pub struct Fq3 {
    pub c0: Fq,
    pub c1: Fq,
    pub c2: Fq,
}

impl Fq3 {
    pub open spec fn value(self) -> Fq3Value {
        (self.c0.value() as int, self.c1.value() as int, self.c2.value() as int)
    }

    pub open spec fn wf(self) -> bool {
        self.c0.wf() && self.c1.wf() && self.c2.wf()
    }

    pub fn new(c0: Fq, c1: Fq, c2: Fq) -> (r: Fq3)
        ensures
            r.c0 == c0,
            r.c1 == c1,
            r.c2 == c2,
            r.value() == (c0.value() as int, c1.value() as int, c2.value() as int),
    {
        Fq3 { c0, c1, c2 }
    }

    pub fn zero() -> (r: Fq3)
        ensures
            r.value() == fq3_zero(),
            r.wf(),
    {
        Fq3::new(Fq::zero(), Fq::zero(), Fq::zero())
    }
}

impl PartialEq for Fq3 {
    fn eq(&self, o: &Fq3) -> (r: bool) {
        self.c0 == o.c0 && self.c1 == o.c1 && self.c2 == o.c2
    }
}

impl vstd::std_specs::cmp::PartialEqSpecImpl for Fq3 {
    open spec fn obeys_eq_spec() -> bool {
        true
    }

    open spec fn eq_spec(&self, o: &Fq3) -> bool {
        self.c0.limbs@ == o.c0.limbs@ && self.c1.limbs@ == o.c1.limbs@
            && self.c2.limbs@ == o.c2.limbs@
    }
}

impl Eq for Fq3 {

}

} // verus!
