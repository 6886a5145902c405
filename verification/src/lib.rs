//! Proof-carrying access to a growable sequence.
//!
//! A [`SandboxMut`] holds the exclusive reference to a `Vec` together with a
//! lower bound on its length. Every operation that changes the length hands
//! back a handle whose bound has changed with it, and every indexed access
//! names, as its precondition, the fact that makes it valid under that bound.
//! The verifier discharges those facts where the call is written, so no
//! operation of a handle has a failing path at run time.

pub mod constraints;
pub mod examples;
pub mod sandbox;
pub mod use_cases;

pub use constraints::{within_bounds, ConstIndex, ConstNum, NonZero, WithinBounds};
pub use sandbox::{GuaranteedLength, NonEmptyOps, SandboxMut, Sandboxed};
