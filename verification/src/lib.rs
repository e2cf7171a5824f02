//! Session issuance and verification for a small authentication backend.
//!
//! The crate is the decision-making core of the backend: it checks a password
//! against a stored credential hash, mints signed access and refresh tokens,
//! validates a refresh token and mints a fresh access token from it, and
//! decides what each HTTP answer of the `/auth` resource looks like.
//!
//! Nothing here talks to the database or to a client: the caller runs the
//! queries and serves the requests, hands plain values in and takes plain
//! values back. The clock is the one thing that is read from the machine, and
//! every function that reads it has a twin that takes the time instead.
//!
//! Hashing is done by `argon2` and signing by `jsonwebtoken`. What they
//! return is not proved here; it is given a name, and every contract says
//! exactly how the outcome depends on it.

pub mod config;
pub mod domain;
pub mod model;
pub mod route;
pub mod service;
