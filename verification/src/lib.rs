//! Typed access to a cloud instance-metadata service.
//!
//! Every operation of the service is one HTTP GET against a fixed relative
//! path, followed by plain string handling: the body is returned verbatim,
//! split on newlines into a list, or several bodies are combined into one
//! record.  This crate holds that logic, verified: which paths are fetched
//! and in what order, how bodies are parsed, and how transport failures
//! propagate.  The HTTP transport itself lives outside the crate; callers
//! perform the GETs and hand the outcomes to the functions here.

pub mod error;
pub mod lines;
pub mod metadata;
pub mod network_interface;

pub use error::TransportError;
pub use metadata::AWSInstanceMetadata;
pub use metadata::AvailabilityZoneInfo;
pub use metadata::InstanceInfo;
pub use network_interface::NetworkInterfaceInfo;
pub use network_interface::SecurityGroupInfo;
pub use network_interface::SubnetInfo;
pub use network_interface::VpcInfo;
