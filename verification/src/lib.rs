//! Host-side display writer for an SSD1306 OLED panel.
//!
//! The library holds the logic of the writer: the fixed-length binary
//! `DisplayFrame` format shared through tmpfs, the text shown for a frame,
//! the configuration defaults, the command line, the interface and rotation
//! choices of the panel, and the decisions of the polling loop.

pub mod cli;
pub mod config;
pub mod display;
pub mod frame;
pub mod poll;
pub mod text;
