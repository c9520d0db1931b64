//! Request handling for a small CRUD service over a `users(id, name, age)`
//! table: each request becomes one parameterized SQL statement, and what the
//! store hands back becomes an HTTP status and body. A model of the table says
//! what each statement does, and the laws of the service are proved over it.

pub mod laws;
pub mod request;
pub mod response;
pub mod store;
pub mod user;

pub use request::{Param, Request, Statement};
pub use response::{Body, Response};
pub use user::{UpdateRecord, User, UserSubmission};
