//! Core of a real-time 3D rendering engine: GPU resources, render targets,
//! shadow-casting lights and the forward and deferred render pipelines.
//!
//! The library issues no GPU call itself. Every operation brings the tracked
//! state of a [`context::Context`] up to date and queues the commands that a
//! driver executes in the order of submission.

pub mod command;
pub mod context;
pub mod error;
pub mod io;
pub mod light;
pub mod phong;
pub mod render_target;
pub mod scene;
pub mod texture;
