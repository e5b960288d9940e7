//! Detection of the cloud service provider that hosts a machine.
//!
//! The library holds the decisions of a detection run: what each provider's
//! probe makes of the evidence found on the host, which probes are
//! registered, and how the race between the probes and the deadline is
//! resolved. Reading files, talking to metadata servers and running the
//! probes concurrently is left to the caller, who hands back what was found.

pub mod detection;
pub mod host;
pub mod probe;
pub mod provider_id;
pub mod providers;
pub mod race;
pub mod registry;
pub mod text;

pub use detection::{detection_timeout, Detection, Phase, DEFAULT_DETECTION_TIMEOUT};
pub use provider_id::ProviderId;
pub use providers::Probe;
pub use registry::{supported_providers, Registry};
