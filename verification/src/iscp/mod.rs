//! Stream logic of the protocol client.

pub mod connect;
pub mod down_flow;
pub mod down_order;
pub mod down_state;
pub mod downstream;
pub mod e2e;
pub mod flush_policy;
pub mod metadata;
pub mod misc;
pub mod storage;
pub mod types;
pub mod upstream;
