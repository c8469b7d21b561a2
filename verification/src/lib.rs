//! First-stage boot firmware logic for an Allwinner D1 RISC-V SoC, modelled
//! and verified on a register-accurate simulation of the hardware it drives.
//!
//! The stage consists of: a fixed-layout boot header consumed by the mask-ROM
//! loader, a two-instruction entry trampoline, a runtime-image initializer
//! (zero-fill and data copy), a strictly ordered hardware bring-up sequence
//! (GPIO, clock tree, UART), and a polling serial transmit primitive used by
//! a liveness loop.

pub mod boot;
pub mod bringup;
pub mod entry;
pub mod header;
pub mod image;
pub mod rmw;
pub mod soc;
