//! The logic of a Forgejo runner orchestrator for the Hetzner Cloud.
//!
//! A server that runs Forgejo Actions is created when tasks are waiting, and deleted again when
//! there are none, at a time that wastes little of a paid hour. The library decides what to do and
//! makes sense of what comes back; it performs no input or output itself.
pub mod base64_text;
pub mod cloud_init;
pub mod config;
pub mod csv_log;
pub mod csv_reading;
pub mod forgejo;
pub mod hetzner;
pub mod http;
pub mod laws;
pub mod orchestrator;
pub mod pass;
pub mod state;
pub mod text;
pub mod time;
