//! Occupancy-grid preparation and viewer decisions for a connected-component
//! labelling front end.
//!
//! The GPU, window and ROS plumbing live outside this crate; here stand the
//! conversions of occupancy data into labelling input, the random test grids,
//! the outgoing map message, and the decisions of the viewer's state machine.

pub mod grid;
pub mod upload;
pub mod sampling;
pub mod message;
pub mod viewer;
