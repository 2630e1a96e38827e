//! Driver core for the SSD1306 monochrome OLED controller on a two-wire bus.
//!
//! The crate performs no bus traffic itself. The driver decides which
//! transactions have to reach the controller and in which order; the embedding
//! program carries them out one at a time and reports how each one went.
pub mod commands;
pub mod framebuffer;
pub mod i2c_support;
pub mod ssd1306;
