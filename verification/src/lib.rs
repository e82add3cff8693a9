//! A client library of the iSCP v2 protocol: its messages and their wire conversions, the
//! result codes and QoS, data ids, and the state of connections, upstreams and downstreams,
//! with their contracts proved.

pub mod autogen;
pub mod codes;
pub mod data_id;
pub mod duration;
pub mod encoding;
pub mod error;
pub mod iscp;
pub mod message;
pub mod text;
pub mod token_source;

