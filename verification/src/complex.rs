//! Complex numbers over a generic component type, with the arithmetic
//! operators defined componentwise and by the product rule. Each operator
//! carries a specification stated over the component type's own operator
//! specifications.

use vstd::prelude::*;
use vstd::std_specs::cmp::PartialEqSpec;
use vstd::std_specs::cmp::PartialEqSpecImpl;
use vstd::std_specs::ops::AddSpec;
use vstd::std_specs::ops::AddSpecImpl;
use vstd::std_specs::ops::MulSpec;
use vstd::std_specs::ops::MulSpecImpl;
use vstd::std_specs::ops::NegSpec;
use vstd::std_specs::ops::NegSpecImpl;
use vstd::std_specs::ops::SubSpec;
use vstd::std_specs::ops::SubSpecImpl;
use std::ops::Add;
use std::ops::Mul;
use std::ops::Neg;
use std::ops::Sub;

verus! {

/// A complex number split into its real and imaginary portions.
#[derive(Clone, Copy, Debug)]
pub struct Complex<T> {
    /// Real portion of the complex number.
    pub re: T,
    /// Imaginary portion of the complex number.
    pub im: T,
}

impl<T: Add<Output = T>> Add for Complex<T> {
    type Output = Complex<T>;

    /// Componentwise sum.
    fn add(self, rhs: Complex<T>) -> (r: Complex<T>) {
        Complex { re: self.re.add(rhs.re), im: self.im.add(rhs.im) }
    }
}

impl<T: Add<Output = T>> AddSpecImpl for Complex<T> {
    open spec fn obeys_add_spec() -> bool {
        T::obeys_add_spec()
    }

    open spec fn add_req(self, rhs: Complex<T>) -> bool {
        self.re.add_req(rhs.re) && self.im.add_req(rhs.im)
    }

    open spec fn add_spec(self, rhs: Complex<T>) -> Complex<T> {
        Complex { re: self.re.add_spec(rhs.re), im: self.im.add_spec(rhs.im) }
    }
}

impl<T: Sub<Output = T>> Sub for Complex<T> {
    type Output = Complex<T>;

    /// Componentwise difference.
    fn sub(self, rhs: Complex<T>) -> (r: Complex<T>) {
        Complex { re: self.re.sub(rhs.re), im: self.im.sub(rhs.im) }
    }
}

impl<T: Sub<Output = T>> SubSpecImpl for Complex<T> {
    open spec fn obeys_sub_spec() -> bool {
        T::obeys_sub_spec()
    }

    open spec fn sub_req(self, rhs: Complex<T>) -> bool {
        self.re.sub_req(rhs.re) && self.im.sub_req(rhs.im)
    }

    open spec fn sub_spec(self, rhs: Complex<T>) -> Complex<T> {
        Complex { re: self.re.sub_spec(rhs.re), im: self.im.sub_spec(rhs.im) }
    }
}

impl<T: Copy + Add<Output = T> + Sub<Output = T> + Mul<Output = T>> Mul for Complex<T> {
    type Output = Complex<T>;

    /// The product rule: the real portion is the product of the real
    /// portions minus the product of the imaginary portions, and the
    /// imaginary portion is the two cross products added together.
    fn mul(self, rhs: Complex<T>) -> (r: Complex<T>) {
        Complex {
            re: self.re.mul(rhs.re).sub(self.im.mul(rhs.im)),
            im: self.im.mul(rhs.re).add(self.re.mul(rhs.im)),
        }
    }
}

impl<T: Copy + Add<Output = T> + Sub<Output = T> + Mul<Output = T>> MulSpecImpl for Complex<T> {
    open spec fn obeys_mul_spec() -> bool {
        T::obeys_add_spec() && T::obeys_sub_spec() && T::obeys_mul_spec()
    }

    open spec fn mul_req(self, rhs: Complex<T>) -> bool {
        &&& T::obeys_add_spec()
        &&& T::obeys_sub_spec()
        &&& T::obeys_mul_spec()
        &&& self.re.mul_req(rhs.re)
        &&& self.im.mul_req(rhs.im)
        &&& self.im.mul_req(rhs.re)
        &&& self.re.mul_req(rhs.im)
        &&& self.re.mul_spec(rhs.re).sub_req(self.im.mul_spec(rhs.im))
        &&& self.im.mul_spec(rhs.re).add_req(self.re.mul_spec(rhs.im))
    }

    open spec fn mul_spec(self, rhs: Complex<T>) -> Complex<T> {
        Complex {
            re: self.re.mul_spec(rhs.re).sub_spec(self.im.mul_spec(rhs.im)),
            im: self.im.mul_spec(rhs.re).add_spec(self.re.mul_spec(rhs.im)),
        }
    }
}

impl<T: Neg<Output = T>> Neg for Complex<T> {
    type Output = Complex<T>;

    /// Componentwise negation.
    fn neg(self) -> (r: Complex<T>) {
        Complex { re: self.re.neg(), im: self.im.neg() }
    }
}

impl<T: Neg<Output = T>> NegSpecImpl for Complex<T> {
    open spec fn obeys_neg_spec() -> bool {
        T::obeys_neg_spec()
    }

    open spec fn neg_req(self) -> bool {
        self.re.neg_req() && self.im.neg_req()
    }

    open spec fn neg_spec(self) -> Complex<T> {
        Complex { re: self.re.neg_spec(), im: self.im.neg_spec() }
    }
}

impl<T: PartialEq> PartialEq for Complex<T> {
    /// Two complex numbers are equal when both portions are.
    fn eq(&self, other: &Complex<T>) -> (r: bool) {
        self.re.eq(&other.re) && self.im.eq(&other.im)
    }
}

impl<T: PartialEq> PartialEqSpecImpl for Complex<T> {
    open spec fn obeys_eq_spec() -> bool {
        T::obeys_eq_spec()
    }

    open spec fn eq_spec(&self, other: &Complex<T>) -> bool {
        self.re.eq_spec(&other.re) && self.im.eq_spec(&other.im)
    }
}

impl<T: Eq> Eq for Complex<T> {

}

} // verus!
