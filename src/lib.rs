//! A fluent builder for requests against a REST-style API.
//!
//! A `Domain` holds the base address and the query and headers shared by all
//! its requests; each `Path` made from it adds its own segments, query and
//! headers, and is turned into one `OutboundRequest` for a transport to send.
pub mod domain;
pub mod error;
pub mod headers;
pub mod method;
pub mod path;
pub mod query_builder;
pub mod request_information;
pub mod response;
pub mod text;

pub use domain::Domain;
pub use error::{Error, Result};
pub use method::Method;
pub use path::{string_or_error, OutboundRequest, Path};
pub use response::Response;
pub use text::UrlText;
