//! The simulator: a parameter block, an initial state, a step size and a
//! step count, and the trajectory that they determine.

use crate::dynamics::{euler, euler_step, step_defined, Parameters, State};
use crate::scalar::{specified_arithmetic, total_arithmetic};
use core::ops::{Add, Mul, Sub};
use vstd::prelude::*;
use vstd::std_specs::ops::{AddSpec, MulSpec, SubSpec};

verus! {

/// Everything that determines a run. Nothing in a run changes it.
#[derive(Debug, PartialEq)]
pub struct Simulator<T> {
    pub parameters: Parameters<T>,
    pub initial: State<T>,
    pub dt: T,
    pub steps: i32,
}

impl<T: Copy> Clone for Simulator<T> {
    fn clone(&self) -> (copy: Self)
        ensures
            copy == *self,
    {
        *self
    }
}

impl<T: Copy> Copy for Simulator<T> {

}

impl<T> Simulator<T> where T: Copy + Add<Output = T> + Sub<Output = T> + Mul<Output = T> {
    /// The number of Euler steps that a run takes: one less than the step
    /// count, and none where the step count is below two.
    pub open spec fn iterations(self) -> nat {
        if self.steps > 1 {
            (self.steps - 1) as nat
        } else {
            0
        }
    }

    /// The state after `n` Euler steps from the initial state.
    pub open spec fn state_after(self, n: nat) -> State<T>
        decreases n,
    {
        if n == 0 {
            self.initial
        } else {
            euler(self.state_after((n - 1) as nat), self.parameters, self.dt)
        }
    }

    /// The trajectory of a run: the states after 1, 2, ... steps, up to
    /// `iterations()` of them. The initial state is not part of it.
    pub open spec fn trajectory(self) -> Seq<State<T>> {
        Seq::new(self.iterations(), |i: int| self.state_after((i + 1) as nat))
    }

    /// Every operation of a run accepts its operands: each of its Euler
    /// steps is defined at the state it starts from.
    pub open spec fn run_defined(self) -> bool {
        forall|n: nat|
            n < self.iterations() ==> step_defined(
                #[trigger] self.state_after(n),
                self.parameters,
                self.dt,
            )
    }

    /// Sets up a simulation of the system with parameters `sigma`, `rho`
    /// and `beta`, started at (`x0`, `y0`, `z0`), with step size `dt` and
    /// step count `steps`. No value is rejected.
    pub fn initialize(sigma: T, rho: T, beta: T, x0: T, y0: T, z0: T, dt: T, steps: i32) -> (sim:
        Self)
        ensures
            sim.parameters == (Parameters { sigma, rho, beta }),
            sim.initial == (State { x: x0, y: y0, z: z0 }),
            sim.dt == dt,
            sim.steps == steps,
    {
        Simulator {
            parameters: Parameters { sigma, rho, beta },
            initial: State { x: x0, y: y0, z: z0 },
            dt,
            steps,
        }
    }

    /// Integrates the system and returns the trajectory: `steps - 1`
    /// states, each one Euler step after the one before it, the first one
    /// Euler step after the initial state. A step count of one, of zero or
    /// below zero gives the empty trajectory.
    ///
    /// Where a step is taken, the scalar's operators must accept the
    /// operands they get: either they accept every operand, or they are
    /// specified and accept those of this run. A run of no step asks nothing.
    pub fn run(&self) -> (trajectory: Vec<State<T>>)
        requires
            self.steps > 1 ==> (total_arithmetic::<T>() || (specified_arithmetic::<T>()
                && self.run_defined())),
        ensures
            self.steps <= 1 ==> trajectory@.len() == 0,
            self.steps > 1 ==> trajectory@.len() == self.steps - 1,
            specified_arithmetic::<T>() ==> trajectory@ == self.trajectory(),
    {
        let mut states: Vec<State<T>> = Vec::new();
        let mut current = self.initial;
        let mut step: i32 = 1;
        while step < self.steps
            invariant
                self.steps > 1 ==> (total_arithmetic::<T>() || (specified_arithmetic::<T>()
                    && self.run_defined())),
                1 <= step,
                step == 1 || step <= self.steps,
                states@.len() == step - 1,
                specified_arithmetic::<T>() ==> current == self.state_after((step - 1) as nat),
                specified_arithmetic::<T>() ==> forall|i: int|
                    0 <= i < states@.len() ==> states@[i] == self.state_after((i + 1) as nat),
            decreases self.steps - step,
        {
            current = euler_step(current, &self.parameters, self.dt);
            states.push(current);
            step = step + 1;
        }
        states
    }
}

/// A step size that moves nothing: adding any rate times `dt` to any value
/// gives that value back. Among the real numbers this is `dt = 0`.
pub open spec fn null_step<T>(dt: T) -> bool where
    T: Add<Output = T> + Mul<Output = T>,
 {
    forall|value: T, rate: T| #[trigger] value.add_spec(rate.mul_spec(dt)) == value
}

/// A run with a step count of one takes no step: its trajectory is empty.
pub proof fn lemma_single_step_is_empty<T>(sim: Simulator<T>) where
    T: Copy + Add<Output = T> + Sub<Output = T> + Mul<Output = T>,

    requires
        sim.steps == 1,
    ensures
        sim.iterations() == 0,
        sim.trajectory() == Seq::<State<T>>::empty(),
{
}

/// A run with a step count `n` above one has exactly `n - 1` states, and a
/// run with a step count of zero or less has none.
pub proof fn lemma_trajectory_length<T>(sim: Simulator<T>) where
    T: Copy + Add<Output = T> + Sub<Output = T> + Mul<Output = T>,

    ensures
        sim.trajectory().len() == sim.iterations(),
        sim.steps > 1 ==> sim.trajectory().len() == sim.steps - 1,
        sim.steps <= 0 ==> sim.trajectory().len() == 0,
{
}

/// Two simulators set up alike have the same trajectory: a run reads
/// nothing but the parameters, the initial state, the step size and the
/// step count.
pub proof fn lemma_run_is_deterministic<T>(first: Simulator<T>, second: Simulator<T>) where
    T: Copy + Add<Output = T> + Sub<Output = T> + Mul<Output = T>,

    requires
        first.parameters == second.parameters,
        first.initial == second.initial,
        first.dt == second.dt,
        first.steps == second.steps,
    ensures
        first.trajectory() == second.trajectory(),
{
}

/// The first state of a trajectory is one Euler step after the initial
/// state, and every later state is one Euler step after the state before it.
pub proof fn lemma_states_follow<T>(sim: Simulator<T>, i: int) where
    T: Copy + Add<Output = T> + Sub<Output = T> + Mul<Output = T>,

    requires
        0 <= i < sim.trajectory().len(),
    ensures
        i == 0 ==> sim.trajectory()[i] == euler(sim.initial, sim.parameters, sim.dt),
        i > 0 ==> sim.trajectory()[i] == euler(sim.trajectory()[i - 1], sim.parameters, sim.dt),
{
    reveal_with_fuel(Simulator::state_after, 2);
}

/// Where one Euler step leaves the initial state as it is, every state of
/// the trajectory is the initial state.
pub proof fn lemma_fixed_point_is_constant<T>(sim: Simulator<T>, i: int) where
    T: Copy + Add<Output = T> + Sub<Output = T> + Mul<Output = T>,

    requires
        euler(sim.initial, sim.parameters, sim.dt) == sim.initial,
        0 <= i < sim.trajectory().len(),
    ensures
        sim.trajectory()[i] == sim.initial,
    decreases i,
{
    lemma_states_follow(sim, i);
    if i > 0 {
        lemma_fixed_point_is_constant(sim, i - 1);
    }
}

/// With a step size that moves nothing, the trajectory is constant: every
/// state of it is the initial state.
pub proof fn lemma_null_step_is_constant<T>(sim: Simulator<T>, i: int) where
    T: Copy + Add<Output = T> + Sub<Output = T> + Mul<Output = T>,

    requires
        null_step(sim.dt),
        0 <= i < sim.trajectory().len(),
    ensures
        sim.trajectory()[i] == sim.initial,
{
    lemma_fixed_point_is_constant(sim, i);
}

} // verus!
