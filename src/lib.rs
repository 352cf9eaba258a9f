//! Per-block admission of availability bitfields and backed candidates.
//!
//! The library admits exactly one batch of inclusion work into each block,
//! bounds the admitted candidates by the block's remaining weight, and drives
//! the inclusion, scheduler and upward-message collaborators in a fixed order.
pub mod freed;
pub mod inclusion;
pub mod inherent;
pub mod weight_limit;
