//! Processing of axis values before they reach the consumer.
pub mod dual_axis;
