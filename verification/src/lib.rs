//! Provisions the private environment that the tool runs its own helpers
//! in: decides, step by step, what is to be done on disk, over the network
//! and through the helper binary, and leaves the doing to a driver.
//!
//! A run is begun with [`bootstrap::ensure_self_venv`] or one of its
//! siblings. It hands out one [`step::Action`] at a time and takes the
//! [`step::Event`] that came of it, until it ends. What holds of every run
//! is stated and proved in [`laws`].

pub mod archive;
pub mod bootstrap;
pub mod catalog;
pub mod checksum;
pub mod download;
pub mod error;
pub mod helper;
pub mod laws;
pub mod libraries;
pub mod marker;
pub mod output;
pub mod pip;
pub mod platform;
pub mod shims;
pub mod step;
pub mod text;
pub mod version;
