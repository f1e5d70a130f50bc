//! Fixed-step explicit Euler integration of the Lorenz system, and the CSV
//! text of the trajectory it produces.
//!
//! The numbers of a simulation are values of any scalar type `T` with `+`,
//! `-` and `*`; a program picks the type (double precision, say). Contracts
//! speak of the scalar's own operators through `add_spec`, `sub_spec` and
//! `mul_spec`, so what is proved is the shape of the computation: which
//! operator is applied to which operands, in which order, how many times.
//!
//! - `scalar`: what is asked of the scalar type.
//! - `dynamics`: the Lorenz equations and one Euler step.
//! - `simulator`: the run, and the laws of its trajectory.
//! - `format`: the text of a table, as a specification.
//! - `parse`: reading that text back, as a specification, and the proof
//!   that reading undoes writing.
//! - `writer`: printing a trajectory and encoding it with the `csv` crate.

pub mod scalar;
pub mod dynamics;
pub mod simulator;
pub mod format;
pub mod parse;
pub mod writer;
