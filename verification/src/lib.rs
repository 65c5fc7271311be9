//! Rasterises one selectable shape in a cycling colour onto an RGBA canvas,
//! and decides, event by event, what the frame loop around it does next.

pub mod color;
pub mod demo;
pub mod draw;
pub mod fps;
pub mod init;
pub mod input;
pub mod scheduler;
pub mod shape;
