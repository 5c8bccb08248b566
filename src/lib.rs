//! Node network manager for a four-role cluster: node identity and keys,
//! topology bookkeeping, the fixed channel table and the manager's state
//! machine, each with its contract.

pub mod text;
pub mod types;
pub mod topology;
pub mod wire;
pub mod identity;
pub mod error;
pub mod netutil;
pub mod manager;
pub mod orchestration;
pub mod shared;
pub mod roles;
