//! Supervisor and protocol gateway for a line-oriented JSON routing backend.
//!
//! The crate models the two layers that bridge a map client to an external
//! routing/geocoding engine: a backend supervisor that owns at most one
//! engine connection and recovers it after failures, and a stateless
//! protocol gateway that classifies request paths, validates parameters,
//! builds backend commands and shapes responses.  All decision logic is
//! verified; process and network effects are carried out by a driver that
//! performs the actions these modules request.

pub mod assets;
pub mod commands;
pub mod dto;
pub mod errors;
pub mod jsonv;
pub mod gateway;
pub mod params;
pub mod routes;
pub mod spawn;
pub mod supervisor;
pub mod text;
