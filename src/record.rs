//! A stored sample row as read back from the project record.
use vstd::prelude::*;

verus! {

/// One row of the sample record: its id, its project, the angle and the
/// nine hall values.
#[derive(Clone, Copy, Debug, PartialEq, Eq, Structural)]
pub struct Data {
    pub id: i32,
    pub parent_id: i32,
    pub angle: i32,
    pub data1: i32,
    pub data2: i32,
    pub data3: i32,
    pub data4: i32,
    pub data5: i32,
    pub data6: i32,
    pub data7: i32,
    pub data8: i32,
    pub data9: i32,
}

} // verus!
