//! Typed access to the Core-Local Interrupt Controller (CLIC) of RISC-V targets.
//!
//! The register layout and every address the library touches are computed by
//! verified code. Register contents are held in a [`window::RegisterWindow`],
//! a byte-addressed model of the peripheral's memory-mapped window.

pub mod clic;
pub mod window;
