//! Semantic-normalization core for a C++ binding generator.
//!
//! Given a raw model of a C++ library's API (classes, methods, inheritance
//! edges, templates), the passes in this crate synthesize implicit
//! destructors, expand default-argument overloads, instantiate template
//! methods, propagate inherited methods through class hierarchies, and
//! classify methods as signals or slots by scanning the original header
//! text for access-section markers.

pub mod model;
pub mod typeops;
pub mod database;
pub mod destructors;
pub mod overloads;
pub mod instantiate;
pub mod inherit;
pub mod classify;
pub mod pipeline;
