//! A content-distribution registry: content addressed by digest, a node
//! registry with capacity and usage accounting, and an index of which nodes
//! hold which content.

pub mod availability;
pub mod contract;
mod digest;
pub mod keyed;
pub mod laws;
pub mod service;
pub mod state;
pub mod transitions;
pub mod types;

pub use contract::DCDNContract;
pub use service::DCDNService;
pub use state::{AvailabilityEntry, ContentData, DCDNState, NodeInfo};
pub use types::{ContentMetadata, DCDNAbi, DCDNResponse, DcdnError, Operation};
