use vstd::prelude::*;

verus! {

/// Where an image goes on screen: its displayed size and the margins that
/// center it.
#[derive(Debug, Clone, Copy, PartialEq, Eq, Structural)]
pub struct Placement {
    pub display_w: usize,
    pub display_h: usize,
    pub margin_w: isize,
    pub margin_h: isize,
}

/// The largest 16.16 fixed-point factor that fits the image into the mode in
/// both directions, each ratio rounded down to 1/65536.
pub open spec fn fit_scale(mode_w: int, mode_h: int, img_w: int, img_h: int) -> int {
    let sh = (mode_h * 65536) / img_h;
    let sw = (mode_w * 65536) / img_w;
    if sh <= sw {
        sh
    } else {
        sw
    }
}

/// An image extent multiplied by a 16.16 fixed-point factor, rounded up to a
/// whole pixel.
pub open spec fn scaled_extent(img: int, scale: int) -> int {
    (img * scale + 65535) / 65536
}

proof fn lemma_scaled_fits(img: int, mode: int, scale: int)
    requires
        img > 0,
        0 <= mode <= 65535,
        0 <= scale <= (mode * 65536) / img,
    ensures
        img * scale <= mode * 65536,
        0 <= scaled_extent(img, scale) <= mode,
{
    assert(img * ((mode * 65536) / img) <= mode * 65536) by (nonlinear_arith)
        requires
            img > 0,
            mode >= 0,
    ;
    assert(img * scale <= img * ((mode * 65536) / img)) by (nonlinear_arith)
        requires
            img > 0,
            scale <= (mode * 65536) / img,
    ;
    assert(0 <= img * scale) by (nonlinear_arith)
        requires
            img > 0,
            scale >= 0,
    ;
}

/// Scales an image of `img_w` by `img_h` pixels as large as it fits into a
/// `mode_w` by `mode_h` mode, keeping its aspect, and centers it.
pub fn fit_to_mode(mode_w: usize, mode_h: usize, img_w: usize, img_h: usize) -> (r: Placement)
    requires
        0 < img_w,
        0 < img_h,
        mode_w <= 65535,
        mode_h <= 65535,
    ensures
        r.display_w == scaled_extent(img_w as int, fit_scale(mode_w as int, mode_h as int, img_w as int, img_h as int)),
        r.display_h == scaled_extent(img_h as int, fit_scale(mode_w as int, mode_h as int, img_w as int, img_h as int)),
        r.display_w <= mode_w,
        r.display_h <= mode_h,
        r.margin_w == (mode_w - r.display_w) / 2,
        r.margin_h == (mode_h - r.display_h) / 2,
{
    let scale_h: u64 = (mode_h as u64 * 65536) / img_h as u64;
    let scale_w: u64 = (mode_w as u64 * 65536) / img_w as u64;
    let scale: u64 = if scale_h <= scale_w {
        scale_h
    } else {
        scale_w
    };
    proof {
        lemma_scaled_fits(img_h as int, mode_h as int, scale as int);
        lemma_scaled_fits(img_w as int, mode_w as int, scale as int);
    }
    let display_h = ((img_h as u64 * scale + 65535) / 65536) as usize;
    let display_w = ((img_w as u64 * scale + 65535) / 65536) as usize;
    Placement {
        display_w,
        display_h,
        margin_w: ((mode_w - display_w) / 2) as isize,
        margin_h: ((mode_h - display_h) / 2) as isize,
    }
}

} // verus!
