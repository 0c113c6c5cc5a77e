//! A CHIP-8 virtual machine core.
//!
//! - [`machine`]: the machine as a mathematical value, and what each
//!   instruction, a timer tick and a key event do to it.
//! - [`chip_8`]: the executable machine and the instruction decoder.
//! - [`chip_8_variant`]: what a host needs of a machine of this family.
//! - [`draw_job`]: the display commands that a machine queues.
//! - [`display`]: the frame buffer that the commands are carried out on.
//! - [`console`]: machine and display together, and one turn of the host's
//!   loop.
//! - [`keypad`]: the keys of the host keyboard that stand for the keypad.
//! - [`laws`]: what holds of every execution.

pub mod chip_8;
pub mod chip_8_variant;
pub mod console;
pub mod display;
pub mod draw_job;
pub mod keypad;
pub mod laws;
pub mod machine;
mod random;
