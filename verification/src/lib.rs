//! A CHIP-8 virtual machine: an instruction decoder and execution engine over
//! a simulated register/memory/stack model, paced by an external clock and
//! publishing display updates over a one-way channel.

use vstd::prelude::*;

pub mod boot;
pub mod channel;
pub mod display;
pub mod gfx;
pub mod instructions;
pub mod keypad;
pub mod machine;
pub mod opcodes;
pub mod specs;
pub mod vm;

verus! {

/// Returns the version of this crate in the format `MAJOR.MINOR.PATCH`.
pub fn version() -> (r: &'static str)
    ensures
        r@ == "0.1.0"@,
{
    "0.1.0"
}

} // verus!

