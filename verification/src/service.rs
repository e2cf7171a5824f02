//! The services behind the `/auth` resource.

pub mod authentication;
pub mod clock;
pub mod password;
pub mod registration;
pub mod token;
