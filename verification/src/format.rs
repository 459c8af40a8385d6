//! Surface-format negotiation.
//!
//! The surface reports a list of (pixel format, color space) pairs. The
//! negotiator prefers an 8-bit BGRA sRGB format in the non-linear sRGB color
//! space; when no such pair is offered it falls back deterministically to the
//! first pair the surface reports.

use vstd::prelude::*;

verus! {

/// Pixel-format code for 8-bit BGRA with sRGB encoding.
pub const FORMAT_B8G8R8A8_SRGB: u32 = 50;

/// Color-space code for non-linear sRGB.
pub const COLOR_SPACE_SRGB_NONLINEAR: u32 = 0;

/// One (pixel format, color space) pair offered by the surface, as the
/// platform's numeric codes.
#[derive(Clone, Copy, PartialEq, Eq, Structural, Debug)]
pub struct SurfaceFormat {
    pub format: u32,
    pub color_space: u32,
}

/// The preferred pair: BGRA sRGB pixels in the non-linear sRGB color space.
pub open spec fn is_preferred(f: SurfaceFormat) -> bool {
    f.format == FORMAT_B8G8R8A8_SRGB && f.color_space == COLOR_SPACE_SRGB_NONLINEAR
}

/// Whether the surface offers the preferred pair at all.
pub open spec fn has_preferred(s: Seq<SurfaceFormat>) -> bool {
    exists|i: int| 0 <= i < s.len() && is_preferred(s[i])
}

/// Index of the first preferred pair in the list (meaningful only when one
/// is present).
pub open spec fn first_preferred(s: Seq<SurfaceFormat>) -> int
    decreases s.len(),
{
    if s.len() == 0 {
        0
    } else if is_preferred(s[0]) {
        0
    } else {
        1 + first_preferred(s.skip(1))
    }
}

/// The negotiated format: the first preferred pair when the surface offers
/// one, otherwise the first pair the surface reports.
pub open spec fn spec_choose_format(s: Seq<SurfaceFormat>) -> SurfaceFormat
    recommends
        s.len() > 0,
{
    if has_preferred(s) {
        s[first_preferred(s)]
    } else {
        s[0]
    }
}

/// When the first `i` entries are not preferred and entry `i` is, entry `i`
/// is the first preferred entry.
proof fn lemma_first_preferred_at(s: Seq<SurfaceFormat>, i: int)
    requires
        0 <= i < s.len(),
        is_preferred(s[i]),
        forall|j: int| 0 <= j < i ==> !is_preferred(s[j]),
    ensures
        has_preferred(s),
        first_preferred(s) == i,
    decreases i,
{
    assert(has_preferred(s));
    if i > 0 {
        lemma_first_preferred_at(s.skip(1), i - 1);
    }
}

/// Selects the surface format, preferring BGRA sRGB with the non-linear sRGB
/// color space and otherwise falling back to the first reported pair.
/// Returns nothing exactly when the surface reports no formats.
pub fn choose_surface_format(formats: &Vec<SurfaceFormat>) -> (r: Option<SurfaceFormat>)
    ensures
        r is Some <==> formats@.len() > 0,
        formats@.len() > 0 ==> r == Some(spec_choose_format(formats@)),
{
    if formats.len() == 0 {
        return None;
    }
    let n: usize = formats.len();
    let mut i: usize = 0;
    while i < n
        invariant
            n == formats@.len(),
            i <= n,
            forall|j: int| 0 <= j < i ==> !is_preferred(formats@[j]),
        decreases n - i,
    {
        let f = formats[i];
        if f.format == FORMAT_B8G8R8A8_SRGB && f.color_space == COLOR_SPACE_SRGB_NONLINEAR {
            proof {
                lemma_first_preferred_at(formats@, i as int);
            }
            return Some(f);
        }
        i = i + 1;
    }
    assert(!has_preferred(formats@));
    Some(formats[0])
}

} // verus!
