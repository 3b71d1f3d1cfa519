//! The contract between a filesystem-watching frontend and interchangeable
//! watching backends.
//!
//! A backend is constructed over a fixed set of paths, reports the watching
//! features it supports, yields a stream of change events, and releases every
//! native resource it owns when dropped. This crate defines that boundary:
//! the [`backend::Backend`] trait, the capability model, the event and stream
//! item types, and the composite error model that attributes construction
//! failures to the subset of requested paths they affect.

pub mod backend;
pub mod capability;
pub mod event;
pub mod native;
pub mod paths;
pub mod stream;
