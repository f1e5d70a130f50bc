//! What the simulation asks of its scalar type.

use core::ops::{Add, Mul, Sub};
use vstd::prelude::*;
use vstd::std_specs::ops::{AddSpec, MulSpec, SubSpec};

verus! {

/// The three operators accept every pair of operands: none of `a + b`,
/// `a - b`, `a * b` has a precondition. Floating-point types are of this
/// kind; overflow there yields an infinity or a NaN, not a panic.
pub open spec fn total_arithmetic<T>() -> bool where
    T: Add<Output = T> + Sub<Output = T> + Mul<Output = T>,
 {
    forall|a: T, b: T|
        #![trigger a.add_req(b)]
        #![trigger a.sub_req(b)]
        #![trigger a.mul_req(b)]
        a.add_req(b) && a.sub_req(b) && a.mul_req(b)
}

/// The three operators do what their specifications say: `a + b` is
/// `a.add_spec(b)`, `a - b` is `a.sub_spec(b)`, `a * b` is `a.mul_spec(b)`,
/// each a function of its operands. Of a scalar type without this the
/// contracts of this library state the number of states and no value.
pub open spec fn specified_arithmetic<T>() -> bool where
    T: Add<Output = T> + Sub<Output = T> + Mul<Output = T>,
 {
    T::obeys_add_spec() && T::obeys_sub_spec() && T::obeys_mul_spec()
}

} // verus!
