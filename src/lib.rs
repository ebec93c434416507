//! Network sensor of an endpoint security agent: frame decoding, per-source
//! detection state, the ordered detector pipeline, the bandwidth roll-up and
//! the anomaly sweep, together with the plain records that the agent's
//! registration and alert-delivery collaborators exchange.
pub mod alert;
pub mod communication;
pub mod decode;
pub mod monitor;
pub mod registration;
pub mod sensitive;
pub mod stats;
pub mod signatures;
pub mod table;
