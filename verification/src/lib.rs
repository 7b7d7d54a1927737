//! Verified core of an AWS Lambda runtime: the decisions the runtime makes
//! around the Lambda Runtime API, free of the network and async plumbing that
//! carries them out.

pub mod concurrency;
pub mod snapstart;
pub mod workers;
pub mod api_call;
pub mod otel;
pub mod rate_limiter;
pub mod http_adapter;
pub mod origin;
pub mod built_uri;
pub mod runtime;
pub mod invocation;
pub mod kafka;
pub mod iot;
pub mod logging;
pub mod api_client;
