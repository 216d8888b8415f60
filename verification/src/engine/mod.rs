//! Probe outcomes, trace scheduling and the decisions taken on probe replies.

pub mod hop;
pub mod schedule;
pub mod tcp;
pub mod udp;
