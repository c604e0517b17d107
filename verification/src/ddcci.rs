//! Physical monitors found over DDC/CI and what they support.
use vstd::prelude::*;

verus! {

/// Info about a detected physical monitor.
#[derive(Debug)]
pub struct MonitorInfo {
    /// Index in our internal list.
    pub index: usize,
    /// Description from the driver (may be empty).
    pub description: String,
    /// Whether DDC/CI brightness control is supported.
    pub supports_brightness: bool,
    /// Whether DDC/CI contrast control is supported.
    pub supports_contrast: bool,
    /// Min/max brightness range.
    pub brightness_min: u32,
    pub brightness_max: u32,
}

impl Clone for MonitorInfo {
    fn clone(&self) -> (r: Self)
        ensures
            r == *self,
    {
        MonitorInfo {
            index: self.index,
            description: self.description.clone(),
            supports_brightness: self.supports_brightness,
            supports_contrast: self.supports_contrast,
            brightness_min: self.brightness_min,
            brightness_max: self.brightness_max,
        }
    }
}

/// Copies of the monitors found by the last enumeration, in order; none if
/// no enumeration has run yet.
pub fn get_monitors(cache: Option<&Vec<MonitorInfo>>) -> (r: Vec<MonitorInfo>)
    ensures
        r@ == match cache {
            Some(found) => found@,
            None => Seq::<MonitorInfo>::empty(),
        },
{
    let mut out: Vec<MonitorInfo> = Vec::new();
    match cache {
        None => {},
        Some(found) => {
            let mut i: usize = 0;
            while i < found.len()
                invariant
                    i <= found@.len(),
                    out@ == found@.take(i as int),
                decreases found.len() - i,
            {
                out.push(found[i].clone());
                assert(out@ =~= found@.take(i + 1));
                i += 1;
            }
            assert(found@.take(found@.len() as int) =~= found@);
        },
    }
    out
}

} // verus!
