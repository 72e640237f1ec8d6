//! Request building, validation and retry policy for a client of a
//! transaction-bundling relay ("block engine").
//!
//! The crate does no input or output. It builds the JSON-RPC requests that a
//! transport sends, checks bundle parameters before anything is sent, reads
//! tip accounts out of responses, describes the channel of the binary
//! protocol and decides when a failed call is tried again. Each function
//! carries a machine-checked contract.

pub mod bundle;
pub mod error;
pub mod grpc;
pub mod json;
pub mod retry;
pub mod sdk;
pub mod tip;

pub use error::SdkError;
pub use grpc::GrpcClient;
pub use json::{JsonValue, PrettyJsonValue};
pub use sdk::JitoJsonRpcSDK;
