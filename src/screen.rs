//! Screen, depth and visual records announced at connection setup.

use vstd::prelude::*;

use crate::codec::{spec_bytes16, spec_bytes32, Endianness};

verus! {

/// A screen: its root window, colormap, pixels, size and root visual.
#[derive(Clone, Copy, Debug, Default, PartialEq, Eq)]
pub struct Screen {
    pub root_window: u32,
    pub default_colormap: u32,
    pub white_pixel: u32,
    pub black_pixel: u32,
    pub current_input_masks: u32,
    pub width_px: u16,
    pub height_px: u16,
    pub width_mm: u16,
    pub height_mm: u16,
    pub min_installed_maps: u16,
    pub max_installed_maps: u16,
    pub root_visual: u32,
    pub backing_stores: u8,
    pub save_unders: u8,
    pub root_depth: u8,
    pub num_depths: u8,
}

/// A depth of a screen and the number of visuals that follow it.
#[derive(Clone, Copy, Debug, Default, PartialEq, Eq)]
pub struct Depth {
    pub depth: u8,
    pub pad0: u8,
    pub number_of_visuals: u16,
    pub pad1: u32,
}

/// A visual: its id, class and color masks.
#[derive(Clone, Copy, Debug, Default, PartialEq, Eq)]
pub struct Visual {
    pub visual_id: u32,
    pub class: u8,
    pub bits_per_rgb_val: u8,
    pub colormap_entries: u16,
    pub red_mask: u32,
    pub green_mask: u32,
    pub blue_mask: u32,
    pub pad0: u32,
}

/// The 40 wire bytes of a screen.
pub open spec fn screen_bytes(e: Endianness, s: Screen) -> Seq<u8> {
    spec_bytes32(e, s.root_window) + spec_bytes32(e, s.default_colormap) + spec_bytes32(e, s.white_pixel)
        + spec_bytes32(e, s.black_pixel) + spec_bytes32(e, s.current_input_masks) + spec_bytes16(e, s.width_px)
        + spec_bytes16(e, s.height_px) + spec_bytes16(e, s.width_mm) + spec_bytes16(e, s.height_mm)
        + spec_bytes16(e, s.min_installed_maps) + spec_bytes16(e, s.max_installed_maps) + spec_bytes32(
        e,
        s.root_visual,
    ) + seq![s.backing_stores, s.save_unders, s.root_depth, s.num_depths]
}

/// The eight wire bytes of a depth.
pub open spec fn depth_bytes(e: Endianness, d: Depth) -> Seq<u8> {
    seq![d.depth, d.pad0] + spec_bytes16(e, d.number_of_visuals) + spec_bytes32(e, d.pad1)
}

/// The 24 wire bytes of a visual.
pub open spec fn visual_bytes(e: Endianness, v: Visual) -> Seq<u8> {
    spec_bytes32(e, v.visual_id) + seq![v.class, v.bits_per_rgb_val] + spec_bytes16(e, v.colormap_entries)
        + spec_bytes32(e, v.red_mask) + spec_bytes32(e, v.green_mask) + spec_bytes32(e, v.blue_mask)
        + spec_bytes32(e, v.pad0)
}

impl Screen {
    /// Appends the wire bytes of this screen to `out`.
    pub(crate) fn push_bytes(&self, e: Endianness, out: &mut Vec<u8>)
        ensures
            final(out)@ == old(out)@ + screen_bytes(e, *self),
    {
        e.push32(out, self.root_window);
        e.push32(out, self.default_colormap);
        e.push32(out, self.white_pixel);
        e.push32(out, self.black_pixel);
        e.push32(out, self.current_input_masks);
        e.push16(out, self.width_px);
        e.push16(out, self.height_px);
        e.push16(out, self.width_mm);
        e.push16(out, self.height_mm);
        e.push16(out, self.min_installed_maps);
        e.push16(out, self.max_installed_maps);
        e.push32(out, self.root_visual);
        out.push(self.backing_stores);
        out.push(self.save_unders);
        out.push(self.root_depth);
        out.push(self.num_depths);
        assert(out@ =~= old(out)@ + screen_bytes(e, *self));
    }
}

impl Depth {
    /// Appends the wire bytes of this depth to `out`.
    pub(crate) fn push_bytes(&self, e: Endianness, out: &mut Vec<u8>)
        ensures
            final(out)@ == old(out)@ + depth_bytes(e, *self),
    {
        out.push(self.depth);
        out.push(self.pad0);
        e.push16(out, self.number_of_visuals);
        e.push32(out, self.pad1);
        assert(out@ =~= old(out)@ + depth_bytes(e, *self));
    }
}

impl Visual {
    /// Appends the wire bytes of this visual to `out`.
    pub(crate) fn push_bytes(&self, e: Endianness, out: &mut Vec<u8>)
        ensures
            final(out)@ == old(out)@ + visual_bytes(e, *self),
    {
        e.push32(out, self.visual_id);
        out.push(self.class);
        out.push(self.bits_per_rgb_val);
        e.push16(out, self.colormap_entries);
        e.push32(out, self.red_mask);
        e.push32(out, self.green_mask);
        e.push32(out, self.blue_mask);
        e.push32(out, self.pad0);
        assert(out@ =~= old(out)@ + visual_bytes(e, *self));
    }
}

} // verus!
