//! Sign-up core of a newsletter service: validated subscriber data, the
//! request/response protocol of the transactional-email provider, and the
//! state machine that sequences validation, persistence and notification.
//!
//! The library performs no I/O. Callers carry out the actions it asks for
//! and hand back what happened.

pub mod configuration;
pub mod domain;
pub mod email_client;
pub mod json;
pub mod routes;
pub mod text;
