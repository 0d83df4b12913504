//! A resilient, verified core for driving an unstable virtual-desktop
//! service: failures are classified as recoverable or fatal, recoverable
//! ones trigger bounded recreation of the service handle, and a
//! process-lifetime event channel survives every recreation.

pub mod api;
pub mod error;
pub mod events;
pub mod host;
pub mod laws;
pub mod service;
