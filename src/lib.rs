//! A double opt-in newsletter service: subscriber registration with
//! single-use confirmation tokens, operator credential checks and the
//! broadcast of an issue to every confirmed subscriber.

pub mod text;
pub mod subscriber;
pub mod store;
pub mod email;
pub mod confirmation;
pub mod newsletter;
pub mod auth;
pub mod config;
pub mod laws;
