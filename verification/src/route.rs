//! What the routes of the HTTP boundary answer.

pub mod auth;
