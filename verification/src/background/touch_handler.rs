//! Recognising the touch screen among the input devices.
use vstd::prelude::*;

verus! {

/// The Linux code of the multi-touch contact size axis (`ABS_MT_TOUCH_MAJOR`).
pub const ABS_MT_TOUCH_MAJOR: u16 = 0x30;

/// The Linux code of the multi-touch approach size axis (`ABS_MT_WIDTH_MAJOR`).
pub const ABS_MT_WIDTH_MAJOR: u16 = 0x32;

/// The Linux code of the multi-touch x axis (`ABS_MT_POSITION_X`).
pub const ABS_MT_POSITION_X: u16 = 0x35;

/// The Linux code of the multi-touch y axis (`ABS_MT_POSITION_Y`).
pub const ABS_MT_POSITION_Y: u16 = 0x36;

/// The touch screen watcher.
pub struct TouchHandler {}

/// How many of the four multi-touch axes (x, y, contact size, approach
/// size) are among `axes`.
pub open spec fn multi_touch_axis_count(axes: Seq<u16>) -> int {
    (if axes.contains(ABS_MT_POSITION_X) { 1int } else { 0 })
        + (if axes.contains(ABS_MT_POSITION_Y) { 1int } else { 0 })
        + (if axes.contains(ABS_MT_TOUCH_MAJOR) { 1int } else { 0 })
        + (if axes.contains(ABS_MT_WIDTH_MAJOR) { 1int } else { 0 })
}

/// Whether `axes` holds `axis`.
fn has_axis(axes: &Vec<u16>, axis: u16) -> (r: bool)
    ensures
        r == axes@.contains(axis),
{
    let mut i: usize = 0;
    while i < axes.len()
        invariant
            i <= axes@.len(),
            forall|j: int| 0 <= j < i ==> axes@[j] != axis,
        decreases axes@.len() - i,
    {
        if axes[i] == axis {
            assert(axes@[i as int] == axis);
            return true;
        }
        i = i + 1;
    }
    false
}

impl TouchHandler {
    pub fn new() -> (r: Self) {
        Self {}
    }

    /// Whether an input device with the absolute axes `supported_axes`
    /// (`None`: it declares none) is a touch screen: it has at least two of
    /// the four multi-touch axes.
    pub fn is_touch_device(&self, supported_axes: &Option<Vec<u16>>) -> (r: bool)
        ensures
            r == (match supported_axes {
                Some(axes) => multi_touch_axis_count(axes@) >= 2,
                None => false,
            }),
    {
        let required_axis_count: u32 = 2;
        let mut supported_axis_count: u32 = 0;
        if let Some(axes) = supported_axes {
            if has_axis(axes, ABS_MT_POSITION_X) {
                supported_axis_count += 1;
            }
            if has_axis(axes, ABS_MT_POSITION_Y) {
                supported_axis_count += 1;
            }
            if has_axis(axes, ABS_MT_TOUCH_MAJOR) {
                supported_axis_count += 1;
            }
            if has_axis(axes, ABS_MT_WIDTH_MAJOR) {
                supported_axis_count += 1;
            }
        }
        supported_axis_count >= required_axis_count
    }
}

} // verus!
