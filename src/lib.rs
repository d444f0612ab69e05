//! Two signup handlers over a JSON request body: one decodes the username as
//! an arbitrary JSON value and validates it only when it happens to be a
//! string, the other narrows it to a string at the decoding boundary.
pub mod value;
pub mod text;
pub mod render;
pub mod validate;
pub mod decode;
pub mod signup;
pub mod laws;
