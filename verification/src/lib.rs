//! A module that a host loads at run time: it lists its routes, serves the
//! requests that the host hands to it, and takes a shared secret once.
//!
//! What is returned to the host is an [`OwnedResponse`]; the host gives it
//! back through [`free`]. What the host lends for a call, the headers and the
//! body of a request, is only read.

pub mod codec;
pub mod gate;
pub mod handlers;
pub mod headers;
pub mod registry;
pub mod response;
pub mod status;
pub mod totals;

pub use gate::{key, KeyGate, KeyOutcome};
pub use handlers::{about, test_get, test_json, test_post, HandlerError};
pub use registry::routes;
pub use response::{free, OwnedResponse};
pub use totals::Totals;
