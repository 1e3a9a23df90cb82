//! The map message that the publisher sends for a grid.

use vstd::prelude::*;
use crate::sampling::DataBundle;

verus! {

/// A point in time as ROS carries it: whole seconds and nanoseconds.
#[derive(Clone, Copy, Debug, PartialEq, Eq, Structural)]
pub struct Stamp {
    pub secs: i32,
    pub nsecs: i32,
}

/// The time stamp that every published map carries.
pub open spec fn publish_stamp() -> Stamp {
    Stamp { secs: 23, nsecs: 400 }
}

/// The integer and text fields of an occupancy-grid message. Its resolution is
/// one cell per unit and its origin the zero pose; those carry no decision and
/// are filled in where the message is sent.
#[derive(Clone, Debug)]
pub struct GridMessage {
    pub stamp: Stamp,
    pub frame_id: String,
    pub map_load_time: Stamp,
    pub width: u32,
    pub height: u32,
    pub data: Vec<i8>,
}

/// The message for a grid: the fixed stamp as both header and load time, the
/// frame `"abc"`, and the grid's dimensions and cells unchanged.
pub fn grid_message(bundle: DataBundle) -> (msg: GridMessage)
    ensures
        msg.stamp == publish_stamp(),
        msg.map_load_time == publish_stamp(),
        msg.frame_id@ == "abc"@,
        msg.width == bundle.width,
        msg.height == bundle.height,
        msg.data@ == bundle.data@,
{
    let stamp: Stamp = Stamp { secs: 23, nsecs: 400 };
    GridMessage {
        stamp,
        frame_id: "abc".to_owned(),
        map_load_time: stamp,
        width: bundle.width,
        height: bundle.height,
        data: bundle.data,
    }
}

} // verus!
