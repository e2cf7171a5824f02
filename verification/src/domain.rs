//! The records of the credential store, as the backend reads them.

pub mod user;
