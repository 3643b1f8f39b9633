//! Distributed-tracing instrumentation for an HTTP server middleware and its
//! companion client.
//!
//! * [`propagation`] carries a [`TraceContext`] through HTTP headers in the
//!   W3C or B3 wire formats; reading never fails, malformed headers read as
//!   no context.
//! * [`server`] builds the span of each inbound request as a child of the
//!   context its headers carry, and ends it by how the handler finished.
//! * [`client`] builds the span of each outbound request as a child of the
//!   current context and writes the span's context into the request headers.
//! * [`metrics`] says what each request adds to the request metrics.
//! * [`route_formatter`] turns route patterns into low-cardinality labels.
pub mod attributes;
pub mod carrier;
pub mod client;
pub mod context;
pub mod hex;
pub mod metrics;
pub mod propagation;
pub mod route_formatter;
pub mod server;
pub mod span;
pub mod status;
pub mod text;

pub use carrier::HeaderCarrier;
pub use client::{ClientRequest, ClientTrace};
pub use context::TraceContext;
pub use metrics::PrometheusMetricsHandler;
pub use propagation::Propagator;
pub use route_formatter::{PassThroughFormatter, RouteFormatter, UuidWildcardFormatter};
pub use server::{Outcome, RequestTracing, ServerRequest};
pub use span::{Span, SpanIds, SpanKind, SpanPlan, SpanStatus};
