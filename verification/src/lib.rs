//! Request-identifier core.
//!
//! Assigns a stable identifier to each inbound request so that logging and
//! error reporting emitted while handling the request can be correlated.
//! The identifier is sourced from a trusted inbound header when one carries
//! a valid value, and generated otherwise; it is cached once per request so
//! repeated lookups return the same value, and the interceptor guarantees it
//! appears on both the request's and the response's header set.

pub mod context;
pub mod id;
pub mod interceptor;

pub use context::RequestContext;
pub use id::RequestID;
pub use interceptor::RequestIdMiddleware;
pub use interceptor::RequestIdService;
pub use interceptor::DEFAULT_ID_HEAD_NAME;
