//! Freestanding runtime primitives of an early-stage kernel: byte copy and
//! fill, NUL-terminated string length and comparison, a text-mode console
//! driver with wrap-around, and the image-size computation over link-time
//! boundary addresses.
pub mod memory;
pub mod string;
pub mod vga;
pub mod layout;
