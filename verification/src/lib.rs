//! A small builder for one HTTP POST with a JSON body, on top of libcurl.
//!
//! [`CurlSimpleHttp`] gathers a target URL, headers and a body, configures
//! the transfer engine, and starts an [`Exchange`]: the engine pulls the
//! request body from it and pushes the response into it, and at the end the
//! response is checked, decoded and read as JSON. The blocking transfer
//! itself is the caller's step; everything around it is verified here.

pub mod builder;
pub mod engine;
pub mod error;
pub mod exchange;
pub mod headers;
pub mod json;
pub mod plan;

pub use builder::CurlSimpleHttp;
pub use error::HttpError;
pub use exchange::Delivery;
pub use exchange::Exchange;
pub use exchange::RequestBody;
pub use exchange::Response;
pub use exchange::ResponseMode;
pub use exchange::ResponseSink;
pub use exchange::TransferOutcome;
pub use headers::HeaderMap;
pub use plan::RequestPlan;
