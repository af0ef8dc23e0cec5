//! Pixel-format records announced at connection setup.

use vstd::prelude::*;

use crate::codec::{spec_bytes32, Endianness};

verus! {

/// One pixel format: a depth, its bits per pixel and its scanline padding.
#[derive(Clone, Copy, Debug, Default, PartialEq, Eq)]
pub struct PixmapFormat {
    pub depth: u8,
    pub bpp: u8,
    pub scanline_pad: u8,
    pub pad0: u8,
    pub pad1: u32,
}

/// The eight wire bytes of a pixel format.
pub open spec fn format_bytes(e: Endianness, f: PixmapFormat) -> Seq<u8> {
    seq![f.depth, f.bpp, f.scanline_pad, f.pad0] + spec_bytes32(e, f.pad1)
}

/// The wire bytes of a list of pixel formats, in order.
pub open spec fn formats_bytes(e: Endianness, fs: Seq<PixmapFormat>) -> Seq<u8>
    decreases fs.len(),
{
    if fs.len() == 0 {
        Seq::empty()
    } else {
        formats_bytes(e, fs.drop_last()) + format_bytes(e, fs.last())
    }
}

/// The wire bytes of a list of pixel formats take eight bytes each.
pub proof fn lemma_formats_length(e: Endianness, fs: Seq<PixmapFormat>)
    ensures
        formats_bytes(e, fs).len() == 8 * fs.len(),
    decreases fs.len(),
{
    if fs.len() > 0 {
        lemma_formats_length(e, fs.drop_last());
    }
}

/// Appends the wire bytes of `formats` to `out`.
pub(crate) fn push_formats(e: Endianness, out: &mut Vec<u8>, formats: &Vec<PixmapFormat>)
    ensures
        final(out)@ == old(out)@ + formats_bytes(e, formats@),
{
    let mut i: usize = 0;
    while i < formats.len()
        invariant
            i <= formats@.len(),
            out@ == old(out)@ + formats_bytes(e, formats@.subrange(0, i as int)),
        decreases formats@.len() - i,
    {
        let f = formats[i];
        out.push(f.depth);
        out.push(f.bpp);
        out.push(f.scanline_pad);
        out.push(f.pad0);
        e.push32(out, f.pad1);
        proof {
            let done = formats@.subrange(0, i + 1);
            assert(done.drop_last() =~= formats@.subrange(0, i as int));
            assert(done.last() == f);
        }
        i = i + 1;
        assert(out@ =~= old(out)@ + formats_bytes(e, formats@.subrange(0, i as int)));
    }
    assert(formats@.subrange(0, formats@.len() as int) =~= formats@);
}

} // verus!
