//! What the driver reports about attached cameras.
use vstd::prelude::*;

verus! {

/// Information about an attached camera.
#[derive(Clone, Debug)]
pub struct CameraInfo {
    pub port_id: u32,
    pub max_width: u32,
    pub max_height: u32,
    pub lens_present: bool,
    pub camera_name: String,
}

/// The attached cameras.
pub struct Info {
    pub cameras: Vec<CameraInfo>,
}

/// One camera entry as the driver's camera-info parameter holds it.
#[derive(Clone, Debug)]
pub struct RawCameraEntry {
    pub port_id: u32,
    pub max_width: u32,
    pub max_height: u32,
    /// 1 where a lens is present
    pub lens_present: u32,
    pub camera_name: String,
}

/// The camera a raw entry describes.
pub open spec fn camera_of(e: RawCameraEntry) -> (u32, u32, u32, bool, Seq<char>) {
    (e.port_id, e.max_width, e.max_height, e.lens_present == 1, e.camera_name@)
}

pub open spec fn info_fields(c: CameraInfo) -> (u32, u32, u32, bool, Seq<char>) {
    (c.port_id, c.max_width, c.max_height, c.lens_present, c.camera_name@)
}

impl Info {
    /// The cameras of the driver's answer: the first `num_cameras` entries of its
    /// fixed-size table (fewer where the table is shorter).
    pub fn from_entries(entries: &Vec<RawCameraEntry>, num_cameras: u32) -> (r: Info)
        ensures
            r.cameras@.len() == if (num_cameras as int) < entries@.len() {
                num_cameras as int
            } else {
                entries@.len() as int
            },
            forall|i: int|
                0 <= i < r.cameras@.len() ==> info_fields(#[trigger] r.cameras@[i]) == camera_of(
                    entries@[i],
                ),
    {
        let n: usize = if (num_cameras as usize) < entries.len() {
            num_cameras as usize
        } else {
            entries.len()
        };
        let mut cameras: Vec<CameraInfo> = Vec::new();
        let mut i: usize = 0;
        while i < n
            invariant
                n <= entries@.len(),
                i <= n,
                cameras@.len() == i,
                forall|j: int|
                    0 <= j < i ==> info_fields(#[trigger] cameras@[j]) == camera_of(entries@[j]),
            decreases n - i,
        {
            let e = &entries[i];
            cameras.push(
                CameraInfo {
                    port_id: e.port_id,
                    max_width: e.max_width,
                    max_height: e.max_height,
                    lens_present: e.lens_present == 1,
                    camera_name: e.camera_name.clone(),
                },
            );
            i = i + 1;
        }
        Info { cameras }
    }
}

} // verus!
