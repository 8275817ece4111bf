//! Interrupt dispatch and device registration for a small ARM board.
//!
//! Every peripheral is driven through a register block held as plain
//! values, so that what a driver reads and writes can be stated exactly.

pub mod arm_timer;
pub mod bitfield;
pub mod board;
pub mod dmac;
pub mod exception;
pub mod gpio;
pub mod int_device;
pub mod interrupt;
pub mod interrupt_gic;
pub mod interrupt_legacy;
pub mod optional_cell;
pub mod raspi_bsp;
pub mod timer;
