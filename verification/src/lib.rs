//! Core of a newsletter subscription service: subscriber registration with
//! email confirmation, token-based activation, and authenticated broadcast
//! to the confirmed subscribers.

pub mod auth;
pub mod configuration;
pub mod domain;
pub mod email_client;
pub mod routes;
pub mod startup;
pub mod store;
mod strutil;

pub use configuration::Environment;
