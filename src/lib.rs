//! A tiny read-only question service: the record it serves, the check made on
//! that record's identifier, and the routing and failure mapping around it.

pub mod question;
pub mod routing;
