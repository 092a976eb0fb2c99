//! Requests and responses as the engine sees them.

pub mod headers;
pub mod request;
pub mod response;

pub use request::{HttpRequest, Method};
pub use response::{ContentEncoding, HttpResponse, ResponseType};
