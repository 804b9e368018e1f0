//! Verified core of the fusen RPC runtime: configuration validation, error
//! classification, discovery and registry state machines, routing decisions
//! and metric vocabularies.

pub mod validation;

pub use validation::{ConfigValidationError, ConfigValidationErrorKind};
pub mod time;
pub use time::Duration;
pub mod config;
pub mod lifecycle;
pub use lifecycle::{ClientError, ClientErrorKind, ServerError, ServerErrorKind};
pub mod registry;
pub use registry::{RegistryError, RegistryErrorKind, RegistryOperation};
pub mod directory;
pub use directory::DirectoryState;
pub mod activation;
pub mod observability;
pub mod error;
pub mod text;
pub mod contract;
pub mod chars;
pub mod nacos;
pub mod subscription;
pub mod invocation;
pub mod attempt;
pub mod runtime;
pub mod transport;
pub mod membership;
pub mod interface;
pub mod builder;
pub mod registration;
pub mod ordering;
pub mod round_trip;
pub mod config_source;
pub mod call;
pub mod selection;
