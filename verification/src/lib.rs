//! Verified core of the classroom service: the records it keeps, the queries it
//! answers over them, the access rules of its endpoints, and the values it hands
//! to its identity provider.

pub mod access;
pub mod auth;
pub mod error;
pub mod identity;
pub mod laws;
pub mod middleware;
pub mod model;
pub mod repos;
