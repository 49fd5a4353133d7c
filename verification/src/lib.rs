//! The payload of a socket.io message: raw bytes or a sequence of JSON values,
//! with an optional acknowledgment id that is kept apart from the content.

pub mod binary;
pub mod json;
pub mod payload;
pub mod convert;
pub mod equality;
pub mod laws;
