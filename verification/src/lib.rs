//! Client-side model of an authentication front end: the display-mode state
//! machine, field validation, submission requests, and the mapping of
//! server-reported error codes back onto form fields.

pub mod api;
pub mod form;
pub mod hashing;
pub mod routes;
pub mod wire;
