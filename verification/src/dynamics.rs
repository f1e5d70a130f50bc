//! The Lorenz equations and one explicit Euler step.

use crate::scalar::{specified_arithmetic, total_arithmetic};
use core::ops::{Add, Mul, Sub};
use vstd::prelude::*;
use vstd::std_specs::ops::{AddSpec, MulSpec, SubSpec};

verus! {

/// The physical parameters σ, ρ and β of the system.
#[derive(Debug, PartialEq)]
pub struct Parameters<T> {
    pub sigma: T,
    pub rho: T,
    pub beta: T,
}

impl<T: Copy> Clone for Parameters<T> {
    fn clone(&self) -> (copy: Self)
        ensures
            copy == *self,
    {
        *self
    }
}

impl<T: Copy> Copy for Parameters<T> {

}

/// A point (x, y, z) of the system.
#[derive(Debug, PartialEq)]
pub struct State<T> {
    pub x: T,
    pub y: T,
    pub z: T,
}

impl<T: Copy> Clone for State<T> {
    fn clone(&self) -> (copy: Self)
        ensures
            copy == *self,
    {
        *self
    }
}

impl<T: Copy> Copy for State<T> {

}

/// dx/dt = σ·(y − x).
pub open spec fn rate_x<T>(x: T, y: T, sigma: T) -> T where
    T: Sub<Output = T> + Mul<Output = T>,
 {
    sigma.mul_spec(y.sub_spec(x))
}

/// dy/dt = x·(ρ − z) − y.
pub open spec fn rate_y<T>(x: T, y: T, z: T, rho: T) -> T where
    T: Sub<Output = T> + Mul<Output = T>,
 {
    x.mul_spec(rho.sub_spec(z)).sub_spec(y)
}

/// dz/dt = x·y − β·z.
pub open spec fn rate_z<T>(x: T, y: T, z: T, beta: T) -> T where
    T: Sub<Output = T> + Mul<Output = T>,
 {
    x.mul_spec(y).sub_spec(beta.mul_spec(z))
}

/// The derivative (dx/dt, dy/dt, dz/dt) of the Lorenz system at (x, y, z).
pub open spec fn lorenz_rates<T>(x: T, y: T, z: T, sigma: T, rho: T, beta: T) -> Seq<T> where
    T: Sub<Output = T> + Mul<Output = T>,
 {
    seq![rate_x(x, y, sigma), rate_y(x, y, z, rho), rate_z(x, y, z, beta)]
}

/// The state one explicit Euler step of size `dt` after `state`: every
/// coordinate moves by its rate at `state` times `dt`.
pub open spec fn euler<T>(state: State<T>, params: Parameters<T>, dt: T) -> State<T> where
    T: Add<Output = T> + Sub<Output = T> + Mul<Output = T>,
 {
    State {
        x: state.x.add_spec(rate_x(state.x, state.y, params.sigma).mul_spec(dt)),
        y: state.y.add_spec(rate_y(state.x, state.y, state.z, params.rho).mul_spec(dt)),
        z: state.z.add_spec(rate_z(state.x, state.y, state.z, params.beta).mul_spec(dt)),
    }
}

/// Every operation that `lorenz_rates` applies accepts its operands.
pub open spec fn rates_defined<T>(x: T, y: T, z: T, sigma: T, rho: T, beta: T) -> bool where
    T: Sub<Output = T> + Mul<Output = T>,
 {
    &&& y.sub_req(x)
    &&& sigma.mul_req(y.sub_spec(x))
    &&& rho.sub_req(z)
    &&& x.mul_req(rho.sub_spec(z))
    &&& x.mul_spec(rho.sub_spec(z)).sub_req(y)
    &&& x.mul_req(y)
    &&& beta.mul_req(z)
    &&& x.mul_spec(y).sub_req(beta.mul_spec(z))
}

/// Every operation that `euler` applies accepts its operands.
pub open spec fn step_defined<T>(state: State<T>, params: Parameters<T>, dt: T) -> bool where
    T: Add<Output = T> + Sub<Output = T> + Mul<Output = T>,
 {
    let dx = rate_x(state.x, state.y, params.sigma);
    let dy = rate_y(state.x, state.y, state.z, params.rho);
    let dz = rate_z(state.x, state.y, state.z, params.beta);
    &&& rates_defined(state.x, state.y, state.z, params.sigma, params.rho, params.beta)
    &&& dx.mul_req(dt)
    &&& dy.mul_req(dt)
    &&& dz.mul_req(dt)
    &&& state.x.add_req(dx.mul_spec(dt))
    &&& state.y.add_req(dy.mul_spec(dt))
    &&& state.z.add_req(dz.mul_spec(dt))
}

/// Computes the derivative of the Lorenz system at (x, y, z), as
/// `[dx/dt, dy/dt, dz/dt]`.
///
/// The scalar's operators must accept the operands they get here: either
/// they accept every operand, or they are specified and accept these.
pub fn lorenz_derivatives<T>(x: T, y: T, z: T, sigma: T, rho: T, beta: T) -> (d: [T; 3]) where
    T: Copy + Add<Output = T> + Sub<Output = T> + Mul<Output = T>,

    requires
        total_arithmetic::<T>() || (specified_arithmetic::<T>() && rates_defined(
            x,
            y,
            z,
            sigma,
            rho,
            beta,
        )),
    ensures
        specified_arithmetic::<T>() ==> d@ == lorenz_rates(x, y, z, sigma, rho, beta),
{
    let dx = sigma * (y - x);
    let dy = x * (rho - z) - y;
    let dz = x * y - beta * z;
    [dx, dy, dz]
}

/// Advances `state` by one explicit Euler step of size `dt`.
///
/// The scalar's operators must accept the operands they get here: either
/// they accept every operand, or they are specified and accept these.
pub fn euler_step<T>(state: State<T>, params: &Parameters<T>, dt: T) -> (next: State<T>) where
    T: Copy + Add<Output = T> + Sub<Output = T> + Mul<Output = T>,

    requires
        total_arithmetic::<T>() || (specified_arithmetic::<T>() && step_defined(state, *params, dt)),
    ensures
        specified_arithmetic::<T>() ==> next == euler(state, *params, dt),
{
    let d = lorenz_derivatives(state.x, state.y, state.z, params.sigma, params.rho, params.beta);
    State { x: state.x + d[0] * dt, y: state.y + d[1] * dt, z: state.z + d[2] * dt }
}

} // verus!
