//! A plain Rust mirror of XCB's `xcb_visualtype_t` record, so that callers
//! interoperating with XCB-based drawing libraries can carry a visual's
//! description as one value. Built field by field from a server-advertised
//! visual.

use vstd::prelude::*;

verus! {

broadcast use vstd::array::group_array_axioms;

/// The fields of XCB's `xcb_visualtype_t`, as plain values.
#[allow(non_camel_case_types)]
#[derive(Clone, Copy, Debug)]
pub struct xcb_visualtype_t {
    pub visual_id: u32,
    pub class: u8,
    pub bits_per_rgb_value: u8,
    pub colormap_entries: u16,
    pub red_mask: u32,
    pub green_mask: u32,
    pub blue_mask: u32,
    pub pad0: [u8; 4],
}

impl xcb_visualtype_t {
    /// Build the record from a visual's advertised fields, with the trailing
    /// padding zeroed.
    pub fn new(
        visual_id: u32,
        class: u8,
        bits_per_rgb_value: u8,
        colormap_entries: u16,
        red_mask: u32,
        green_mask: u32,
        blue_mask: u32,
    ) -> (r: Self)
        ensures
            r.visual_id == visual_id,
            r.class == class,
            r.bits_per_rgb_value == bits_per_rgb_value,
            r.colormap_entries == colormap_entries,
            r.red_mask == red_mask,
            r.green_mask == green_mask,
            r.blue_mask == blue_mask,
            forall|k: int| 0 <= k < 4 ==> r.pad0[k] == 0,
    {
        xcb_visualtype_t {
            visual_id,
            class,
            bits_per_rgb_value,
            colormap_entries,
            red_mask,
            green_mask,
            blue_mask,
            pad0: [0; 4],
        }
    }
}

} // verus!
