//! Text-mode display driver and boot harness of a small freestanding kernel.

pub mod console;
pub mod harness;
pub mod laws;
pub mod screen;
pub mod vga;
