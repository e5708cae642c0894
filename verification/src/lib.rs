//! A Sega Saturn core: the SH-2 interpreter with its bus and on-chip modules,
//! the SMPC command processor, the VDP1 rasteriser, the VDP2 pixel pipeline and
//! the cycle synchroniser between cores.
//!
//! Everything here is sequential and deterministic. Threads, clocks, windows
//! and files belong to the program that drives it.

pub mod arith;
pub mod bytes;
pub mod frontend;
pub mod interrupts;
pub mod peripheral;
pub mod sh2;
pub mod sh2_onchip;
pub mod shared_buffers;
pub mod smpc;
pub mod sync;
pub mod telemetry;
pub mod throttle;
pub mod vdp;
pub mod vdp2;
pub mod vdp2_regs;
