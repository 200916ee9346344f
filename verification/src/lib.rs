//! Division of unsigned 32-bit integers, proved inside a `halo2_base` circuit.
//!
//! `relation` holds the arithmetic of the gadget and its laws, `circuit` the
//! circuit that witnesses and constraints go into, and `division` the gadget.

pub mod circuit;
pub mod division;
pub mod relation;
