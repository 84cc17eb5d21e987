//! Client-side adapter for the management API of an HTTP mock server, and a
//! handle that asks a locally started server to stop exactly once.

pub mod adapter;
pub mod decimal;
pub mod local;
pub mod method;

pub use adapter::{AdapterError, HttpRequest, HttpResponse, MockServerHttpAdapter};
pub use decimal::decimal_string;
pub use local::{LocalMockServerAdapter, ShutdownOutcome};
pub use method::Method;
