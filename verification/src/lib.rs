//! Frame lifecycle and resource-synchronization engine of a small real-time
//! GPU renderer, as a verified model.
//!
//! The library decides *what* is done to the device and in which order: which
//! barriers are recorded, which slot a frame uses, which resources are freed
//! and when. It never touches the device itself. Every decision comes out as
//! a plain value (a recorded command, a destruction action, a create info),
//! and the program around the library carries it to the graphics API.
//!
//! Handles are the raw 64-bit values of the graphics API, formats and flag
//! sets their raw integers.

pub mod app;
pub mod commands;
pub mod deletion_queue;
pub mod descriptors;
pub mod extent;
pub mod frame_laws;
pub mod framedata;
pub mod image;
pub mod layout;
pub mod renderer;
pub mod setup;
pub mod swapchain;
pub mod transitionable;
pub mod util;
