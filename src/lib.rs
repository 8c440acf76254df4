//! Segmented memory pool, fixed-size result messages and task dispatch
//! for a managed-runtime binding layer.

pub mod memory_pool;
pub mod memory_manager;
pub mod binary_protocol;
pub mod types;
pub mod error;
pub mod dispatch;
pub mod quic_command_handler;
