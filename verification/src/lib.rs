//! A greeting service: two text-producing handlers and the route table that
//! binds them to request paths.

pub mod greeting;
pub mod laws;
pub mod request;
pub mod route;
