//! Core logic of a menu-driven LCD panel firmware.
//!
//! The crate verifies the hardware-independent heart of the system: the
//! 16-bit pixel format and its wire encoding, the display transport's
//! windowed writes, the line-buffered partial redraw, the cyclic menu
//! selector advanced from interrupt context, the virtual-time timers, and
//! the cooperative frame scheduler that ties them together.  Peripheral
//! bring-up, the bus itself and the UI scene live outside, hand the
//! library plain values, and take plain values back.

pub mod display;
pub mod line_buffer;
pub mod menu;
pub mod pixel;
pub mod platform;
pub mod scene;
pub mod scheduler;
pub mod timers;
