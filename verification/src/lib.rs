//! The core of a reverse proxy that fronts public domains for origins
//! behind it.
//!
//! A request for a public domain is pointed at the origin that the domain
//! table names for it. In the response, every mention of an origin gives way
//! to its public domain: in `location` and `referer`, in the body where it is
//! text, and cookies lose the attribute that ties them to the origin.
//!
//! The library does no input or output. [`forward::Forward`] holds the table;
//! its `forward` and `request` say, step by step, what is to be done outside
//! for one request, and take what came of it.

pub mod body;
pub mod coder;
pub mod cookie;
pub mod engine;
pub mod error;
pub mod forward;
pub mod message;
pub mod target;
pub mod text;

pub use coder::{Coder, Encoding};
pub use engine::{Action, Body, Event, Stage};
pub use error::{http_error, ForwardError, HttpError};
pub use forward::Forward;
pub use message::{RequestHead, ResponseHead};
pub use target::Target;
