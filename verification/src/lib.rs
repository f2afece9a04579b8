//! A configuration-driven property dispatcher for a home-automation
//! messaging convention.
//!
//! A configuration declares, per host, a set of logical devices, each
//! exposing typed properties; when a remote controller requests a property
//! change, the bridge resolves the target property, decides which configured
//! external command must run, and reports an acknowledgment value back over
//! the messaging layer.
//!
//! The library holds the verified core: the schema model, the registry
//! builder, the announcement planner, the update dispatcher's decision
//! logic, and the per-property serialization guard. The unverified binary
//! around it performs the I/O: reading the configuration file, talking to
//! the message broker, and spawning the configured commands.

pub mod announce;
pub mod broker;
pub mod dispatch;
pub mod inflight;
pub mod registry;
pub mod schema;
