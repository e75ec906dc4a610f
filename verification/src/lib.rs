//! Core of the execution signal service: the signal payload and its default
//! inputs, the health report, the routes, and the process lifecycle, all as
//! plain values.

pub mod clock;
pub mod decimal;
pub mod health;
pub mod lifecycle;
pub mod routes;
pub mod signal;
