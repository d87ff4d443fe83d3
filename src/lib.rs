//! Decision core of a service-registry client: lifecycle status, registration
//! settings, the discovery cache and the steps of the background loops.

pub mod status;
pub mod error;
pub mod config;
pub mod cache;
pub mod discovery;
pub mod registrar;
pub mod loops;
