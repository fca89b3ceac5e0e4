//! A verified model of the ARM7TDMI instruction layer and its system bus.
//!
//! The crate covers three things: the representation of decoded 32-bit ARM
//! instructions together with condition-code and barrel-shifter semantics,
//! a bit-exact textual rendering of each instruction format, and an
//! address-space multiplexer that routes every memory access to the owning
//! region and attributes its wait-state cost.

pub mod cond;
pub mod textnum;
pub mod shifter;
pub mod instruction;
pub mod render;
pub mod bus;
pub mod sysbus;
