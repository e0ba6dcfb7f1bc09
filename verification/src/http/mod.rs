//! The HTTP side: requests in flight, their bodies and their responses.

pub mod body;
pub mod callback;
pub mod channels;
pub mod chunk;
pub mod error;
pub mod headers;
pub mod ops;
pub mod pair;
pub mod request;
pub mod response;
pub mod serve;
pub mod text;
