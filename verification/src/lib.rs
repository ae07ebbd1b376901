//! Provisioning of the Snyk language server binary for an editor host.
//!
//! The library decides; the host acts. A provisioning run is a small machine:
//! it names the request the host must carry out next, takes the host's reply,
//! and moves on, until it yields the path of a usable executable or a
//! description of what went wrong.
//!
//! * [`release`] and [`platform`] say where a release lives, remotely and
//!   locally.
//! * [`exchange`] is the vocabulary between a run and its host.
//! * [`provision`] holds the states of a run and where each reply leads.
//! * [`extension`] holds what is remembered between runs, and drives a run.
//! * [`cleanup`] finds the entries of the working directory that must go.
//! * [`model`] and [`laws`] describe a host and prove what holds of every
//!   run against it.

pub mod cleanup;
pub mod error;
pub mod exchange;
pub mod extension;
pub mod laws;
pub mod model;
pub mod platform;
pub mod provision;
pub mod release;
pub mod text;

pub use crate::extension::SnykExtension;
