//! Plain request and response values shared by the services and the routes.

pub mod request;
pub mod response;
