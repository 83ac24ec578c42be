//! Verified core of the renderer's ownership, identity and routing logic.

pub mod frame_ids;
pub mod reflector;
pub mod reflector_laws;
pub mod protocol;
pub mod inspector_outbound;
pub mod document_parser;
pub mod worker_host_bridge;
pub mod service_worker_lane;
pub mod mcp;
pub mod dedicated_workers;
pub mod webcrypto_tasks;
pub mod bridge_identity;
pub mod inspector_backend;
pub mod document_scripts;
pub mod layout_snapshot;
