//! The one rule in icon loading: a decoded RGBA buffer fits the icon's
//! dimensions exactly. Decoding the image and handing the window its icon
//! stay with the caller.

use vstd::prelude::*;

verus! {

/// Whether a raw RGBA pixel buffer of `rgba_len` bytes matches an icon of
/// `width` by `height` pixels: exactly four bytes per pixel.
pub fn icon_bytes_match(rgba_len: usize, width: u32, height: u32) -> (r: bool)
    ensures
        r == (rgba_len as int == 4 * (width as int) * (height as int)),
{
    proof {
        assert((width as int) * (height as int) <= 0xffff_ffff * 0xffff_ffff)
            by (nonlinear_arith)
            requires
                width as int <= 0xffff_ffff,
                height as int <= 0xffff_ffff,
        ;
    }
    let pixels: u64 = (width as u64) * (height as u64);
    proof {
        assert(pixels as int == (width as int) * (height as int));
        assert(4 * (width as int) * (height as int) == 4 * ((width as int) * (height as int)))
            by (nonlinear_arith);
        assert((4 * (pixels as u128)) as int == 4 * (pixels as int));
        assert((rgba_len as u128) as int == rgba_len as int);
    }
    (rgba_len as u128) == 4 * (pixels as u128)
}

} // verus!
