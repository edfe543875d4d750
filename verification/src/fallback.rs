//! The fallback catalog: deterministic placeholder imagery, one raster per
//! failure category, plus the input-size precheck that short-circuits to the
//! `TooLarge` placeholder before the import backend is ever invoked.

use vstd::prelude::*;

verus! {

/// Why a real render was not delivered. Drives fallback selection; carries
/// no payload beyond the tag.
#[derive(Clone, Copy, Debug, PartialEq, Eq, Structural)]
pub enum FailureKind {
    Timeout,
    RenderError,
    TooLarge,
}

/// Side length of every fallback raster, in pixels.
pub const FALLBACK_SIDE: u32 = 256;

/// Declared inputs above this many bytes are never imported: they map
/// straight to the `TooLarge` placeholder.
pub const SIZE_LIMIT_BYTES: u64 = 300 * 1024 * 1024;

/// The solid fill of a fallback raster, as `(red, green, blue, alpha)`:
/// amber for a timeout, red for a render failure, grey for an oversized
/// input.
pub open spec fn fallback_color(kind: FailureKind) -> (u8, u8, u8, u8) {
    match kind {
        FailureKind::Timeout => (255u8, 193u8, 7u8, 255u8),
        FailureKind::RenderError => (211u8, 47u8, 47u8, 255u8),
        FailureKind::TooLarge => (96u8, 125u8, 139u8, 255u8),
    }
}

/// An RGBA8 byte sequence is a solid fill of the given color over
/// `pixel_count` pixels.
pub open spec fn is_solid_rgba(bytes: Seq<u8>, color: (u8, u8, u8, u8), pixel_count: int) -> bool {
    &&& bytes.len() == 4 * pixel_count
    &&& forall|k: int|
        0 <= k < pixel_count ==> {
            &&& #[trigger] bytes[4 * k] == color.0
            &&& bytes[4 * k + 1] == color.1
            &&& bytes[4 * k + 2] == color.2
            &&& bytes[4 * k + 3] == color.3
        }
}

/// The pre-decoded placeholder raster for a failure category: a 256 by 256
/// RGBA8 image, top row first, solidly filled with the category's color.
/// Selection is a pure lookup; the same kind always yields the same bytes.
pub fn fallback_rgba(kind: FailureKind) -> (out: Vec<u8>)
    ensures
        out@.len() == 4 * (FALLBACK_SIDE as int) * (FALLBACK_SIDE as int),
        is_solid_rgba(out@, fallback_color(kind), (FALLBACK_SIDE as int) * (FALLBACK_SIDE as int)),
{
    let (r, g, b, a): (u8, u8, u8, u8) = match kind {
        FailureKind::Timeout => (255, 193, 7, 255),
        FailureKind::RenderError => (211, 47, 47, 255),
        FailureKind::TooLarge => (96, 125, 139, 255),
    };
    let pixel_count: usize = (FALLBACK_SIDE as usize) * (FALLBACK_SIDE as usize);
    let mut out: Vec<u8> = Vec::new();
    let mut k: usize = 0;
    while k < pixel_count
        invariant
            k <= pixel_count,
            pixel_count == (FALLBACK_SIDE as int) * (FALLBACK_SIDE as int),
            (r, g, b, a) == fallback_color(kind),
            out@.len() == 4 * k,
            forall|j: int|
                0 <= j < k ==> {
                    &&& #[trigger] out@[4 * j] == r
                    &&& out@[4 * j + 1] == g
                    &&& out@[4 * j + 2] == b
                    &&& out@[4 * j + 3] == a
                },
        decreases pixel_count - k,
    {
        let ghost pre = out@;
        out.push(r);
        out.push(g);
        out.push(b);
        out.push(a);
        proof {
            assert forall|j: int| 0 <= j < k as int + 1 implies {
                &&& #[trigger] out@[4 * j] == r
                &&& out@[4 * j + 1] == g
                &&& out@[4 * j + 2] == b
                &&& out@[4 * j + 3] == a
            } by {
                if j < k as int {
                    assert(pre[4 * j] == r);
                    assert(pre[4 * j + 1] == g);
                    assert(pre[4 * j + 2] == b);
                    assert(pre[4 * j + 3] == a);
                }
            }
        }
        k = k + 1;
    }
    proof {
        let ghost color = fallback_color(kind);
        assert forall|j: int| 0 <= j < (FALLBACK_SIDE as int) * (FALLBACK_SIDE as int) implies {
            &&& #[trigger] out@[4 * j] == color.0
            &&& out@[4 * j + 1] == color.1
            &&& out@[4 * j + 2] == color.2
            &&& out@[4 * j + 3] == color.3
        } by {
            assert(out@[4 * j] == r);
            assert(out@[4 * j + 1] == g);
            assert(out@[4 * j + 2] == b);
            assert(out@[4 * j + 3] == a);
        }
        assert(is_solid_rgba(
            out@,
            fallback_color(kind),
            (FALLBACK_SIDE as int) * (FALLBACK_SIDE as int),
        ));
    }
    out
}

/// The packed ARGB pixel every pixel of a fallback raster holds.
pub open spec fn fallback_argb_pixel(kind: FailureKind) -> u32 {
    crate::pixels::pack_argb(
        fallback_color(kind).3,
        fallback_color(kind).0,
        fallback_color(kind).1,
        fallback_color(kind).2,
    )
}

/// The placeholder raster for a failure category, packed as one ARGB `u32`
/// per pixel, as bitmap surfaces store it.
pub fn fallback_argb(kind: FailureKind) -> (out: Vec<u32>)
    ensures
        out@.len() == (FALLBACK_SIDE as int) * (FALLBACK_SIDE as int),
        forall|k: int| 0 <= k < out@.len() ==> out@[k] == fallback_argb_pixel(kind),
{
    let rgba = fallback_rgba(kind);
    let out = crate::pixels::rgba_to_argb(&rgba);
    proof {
        assert forall|k: int| 0 <= k < out@.len() implies out@[k] == fallback_argb_pixel(kind) by {
            assert(rgba@[4 * k] == fallback_color(kind).0);
            assert(out@[k] == crate::pixels::argb_pixel_of(rgba@, k));
        }
    }
    out
}

/// Checks a declared input size against the fixed cutoff. `Some(TooLarge)`
/// exactly when the declared size exceeds the limit; `None` otherwise.
pub fn size_precheck(declared_size: u64) -> (r: Option<FailureKind>)
    ensures
        r == if declared_size > SIZE_LIMIT_BYTES {
            Some(FailureKind::TooLarge)
        } else {
            None::<FailureKind>
        },
{
    if declared_size > SIZE_LIMIT_BYTES {
        Some(FailureKind::TooLarge)
    } else {
        None
    }
}

} // verus!
