//! Session-based authentication and role-based access control.

pub mod token;
pub mod session;
pub mod context;
pub mod rbac;
pub mod guards;
pub mod middleware;
pub mod subjects;
pub mod users;
pub mod jwks;
