//! Window and display coordination for a small always-on-top launcher.

pub mod color;
pub mod display;
pub mod event_loop;
pub mod plan;
pub mod window;
