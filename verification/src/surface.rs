//! How the renderer configures the window surface out of what the adapter
//! offers: an sRGB format where there is one, else the adapter's first
//! (preferred) format; the first present mode and alpha mode; and the
//! window's size in pixels.

use vstd::prelude::*;
use wgpu::{CompositeAlphaMode, PresentMode, TextureFormat};

verus! {

#[verifier::external_type_specification]
#[verifier::external_body]
pub struct ExTextureFormat(TextureFormat);

#[verifier::external_type_specification]
#[verifier::external_body]
pub struct ExPresentMode(PresentMode);

#[verifier::external_type_specification]
#[verifier::external_body]
pub struct ExCompositeAlphaMode(CompositeAlphaMode);

/// Whether a texture format stores its colours sRGB-encoded.
pub uninterp spec fn format_is_srgb(format: TextureFormat) -> bool;

/// `TextureFormat::is_srgb` of `wgpu`: true for the sRGB formats, as told by
/// the format itself alone.
#[verifier::external_body]
fn is_srgb(format: &TextureFormat) -> (srgb: bool)
    ensures
        srgb == format_is_srgb(*format),
{
    format.is_srgb()
}

/// For each offered format, whether it is sRGB.
pub open spec fn srgb_flags(formats: Seq<TextureFormat>) -> Seq<bool> {
    formats.map_values(|f: TextureFormat| format_is_srgb(f))
}

/// `index` picks the first sRGB entry of `srgb`, or entry 0 where none is sRGB.
pub open spec fn is_preferred_index(srgb: Seq<bool>, index: int) -> bool {
    &&& 0 <= index < srgb.len()
    &&& forall|j: int| 0 <= j < index ==> !#[trigger] srgb[j]
    &&& (srgb[index] || (index == 0 && forall|j: int| 0 <= j < srgb.len() ==> !#[trigger] srgb[j]))
}

/// Each flag of `srgb_flags` is the sRGB-ness of the offered format at the same
/// position, and there is one flag per offered format.
pub proof fn lemma_srgb_flags_meaning(formats: Seq<TextureFormat>)
    ensures
        srgb_flags(formats).len() == formats.len(),
        forall|j: int| 0 <= j < formats.len() ==> #[trigger] srgb_flags(formats)[j] == format_is_srgb(formats[j]),
{
}

/// The preferred position is in range, every flag before it is off, and it is
/// on whenever any flag is on; with no flag on it is position 0.
pub proof fn lemma_preferred_index_meaning(srgb: Seq<bool>, index: int)
    requires
        is_preferred_index(srgb, index),
    ensures
        0 <= index < srgb.len(),
        forall|j: int| 0 <= j < index ==> !#[trigger] srgb[j],
        (exists|j: int| 0 <= j < srgb.len() && #[trigger] srgb[j]) ==> srgb[index],
        (forall|j: int| 0 <= j < srgb.len() ==> !#[trigger] srgb[j]) ==> index == 0,
{
}

/// The format picked out of the offered ones by the preferred position is the
/// least-positioned sRGB format where any offered format is sRGB, and the
/// first offered format where none is.
pub proof fn lemma_chosen_format_is_first_srgb(formats: Seq<TextureFormat>, index: int)
    requires
        is_preferred_index(srgb_flags(formats), index),
    ensures
        0 <= index < formats.len(),
        forall|j: int| 0 <= j < index ==> !format_is_srgb(#[trigger] formats[j]),
        (exists|j: int| 0 <= j < formats.len() && format_is_srgb(#[trigger] formats[j]))
            ==> format_is_srgb(formats[index]),
        (forall|j: int| 0 <= j < formats.len() ==> !format_is_srgb(#[trigger] formats[j])) ==> index == 0,
        is_first_srgb_or_first(formats, formats[index]),
{
    lemma_srgb_flags_meaning(formats);
    let srgb = srgb_flags(formats);
    assert forall|j: int| 0 <= j < index implies !format_is_srgb(#[trigger] formats[j]) by {
        assert(!srgb[j]);
    }
    if exists|j: int| 0 <= j < formats.len() && format_is_srgb(#[trigger] formats[j]) {
        let j = choose|j: int| 0 <= j < formats.len() && format_is_srgb(#[trigger] formats[j]);
        assert(srgb[j]);
    } else {
        assert forall|j: int| 0 <= j < srgb.len() implies !#[trigger] srgb[j] by {
            assert(!format_is_srgb(formats[j]));
        }
    }
    assert(srgb[index] == format_is_srgb(formats[index]));
}

/// Whenever the surface offers an sRGB format, the format picked is sRGB.
pub proof fn lemma_srgb_chosen_when_offered(srgb: Seq<bool>, index: int, offered: int)
    requires
        is_preferred_index(srgb, index),
        0 <= offered < srgb.len(),
        srgb[offered],
    ensures
        srgb[index],
{
}

/// The pick is determined by the flags alone: no two positions are both the
/// preferred one.
pub proof fn lemma_preferred_index_unique(srgb: Seq<bool>, a: int, b: int)
    requires
        is_preferred_index(srgb, a),
        is_preferred_index(srgb, b),
    ensures
        a == b,
{
    if a < b {
        assert(!srgb[a]);
    } else if b < a {
        assert(!srgb[b]);
    }
}

/// The position of the format to draw into, out of one flag per offered format
/// that tells whether it is sRGB: the first sRGB one, or the first one of all
/// where none is sRGB. The list must not be empty.
pub fn preferred_format_index(srgb: &Vec<bool>) -> (index: usize)
    requires
        srgb@.len() > 0,
    ensures
        is_preferred_index(srgb@, index as int),
        index < srgb@.len(),
        forall|j: int| 0 <= j < index ==> !#[trigger] srgb@[j],
        (exists|j: int| 0 <= j < srgb@.len() && #[trigger] srgb@[j]) ==> srgb@[index as int],
        (forall|j: int| 0 <= j < srgb@.len() ==> !#[trigger] srgb@[j]) ==> index == 0,
{
    let mut i: usize = 0;
    while i < srgb.len()
        invariant
            i <= srgb@.len(),
            forall|j: int| 0 <= j < i ==> !#[trigger] srgb@[j],
        decreases srgb@.len() - i,
    {
        if srgb[i] {
            return i;
        }
        i = i + 1;
    }
    0
}

/// `format` is the first offered format that is sRGB, or, where none is, the
/// first offered format; stated over `format_is_srgb` of each offered format.
pub open spec fn is_first_srgb_or_first(formats: Seq<TextureFormat>, format: TextureFormat) -> bool {
    exists|i: int|
        0 <= i < formats.len() && format == #[trigger] formats[i]
            && (forall|j: int| 0 <= j < i ==> !format_is_srgb(#[trigger] formats[j]))
            && (format_is_srgb(formats[i])
                || (i == 0 && forall|j: int| 0 <= j < formats.len() ==> !format_is_srgb(#[trigger] formats[j])))
}

/// The format to draw into, out of the formats that the surface offers: the
/// first sRGB one, else the first one. The list must not be empty.
pub fn select_surface_format(formats: &Vec<TextureFormat>) -> (format: TextureFormat)
    requires
        formats@.len() > 0,
    ensures
        exists|i: int|
            is_preferred_index(srgb_flags(formats@), i) && format == #[trigger] formats@[i],
        exists|i: int|
            0 <= i < formats@.len() && format == #[trigger] formats@[i]
                && (forall|j: int| 0 <= j < i ==> !format_is_srgb(#[trigger] formats@[j]))
                && (format_is_srgb(formats@[i])
                    || (i == 0 && forall|j: int| 0 <= j < formats@.len() ==> !format_is_srgb(#[trigger] formats@[j]))),
        (exists|j: int| 0 <= j < formats@.len() && format_is_srgb(#[trigger] formats@[j])) ==> format_is_srgb(format),
        (forall|j: int| 0 <= j < formats@.len() ==> !format_is_srgb(#[trigger] formats@[j])) ==> format == formats@[0],
{
    let mut srgb: Vec<bool> = Vec::new();
    let mut k: usize = 0;
    while k < formats.len()
        invariant
            k <= formats@.len(),
            srgb@.len() == k,
            forall|j: int| 0 <= j < k ==> #[trigger] srgb@[j] == format_is_srgb(formats@[j]),
        decreases formats@.len() - k,
    {
        let flag = is_srgb(&formats[k]);
        srgb.push(flag);
        k = k + 1;
    }
    let index = preferred_format_index(&srgb);
    let format = formats[index];
    proof {
        let i = index as int;
        assert(format == formats@[i]);
        lemma_srgb_flags_meaning(formats@);
        assert(srgb@ =~= srgb_flags(formats@));
        assert(forall|j: int| 0 <= j < i ==> !format_is_srgb(#[trigger] formats@[j])) by {
            assert forall|j: int| 0 <= j < i implies !format_is_srgb(#[trigger] formats@[j]) by {
                assert(!srgb@[j]);
            }
        }
        if exists|j: int| 0 <= j < formats@.len() && format_is_srgb(#[trigger] formats@[j]) {
            let j = choose|j: int| 0 <= j < formats@.len() && format_is_srgb(#[trigger] formats@[j]);
            assert(srgb@[j]);
            assert(srgb@[i]);
        } else {
            assert forall|j: int| 0 <= j < srgb@.len() implies !#[trigger] srgb@[j] by {
                assert(!format_is_srgb(formats@[j]));
            }
            assert(i == 0);
        }
        assert(srgb@[i] == format_is_srgb(formats@[i]));
    }
    format
}

/// The settings the surface is configured with.
pub struct SurfacePlan {
    pub format: TextureFormat,
    pub width: u32,
    pub height: u32,
    pub present_mode: PresentMode,
    pub alpha_mode: CompositeAlphaMode,
}

/// The surface settings for a window of `width` by `height` pixels, out of
/// what the adapter offers: the format that `select_surface_format` picks, and
/// the first present mode and alpha mode. None of the three lists may be
/// empty.
pub fn plan_surface(
    formats: &Vec<TextureFormat>,
    present_modes: &Vec<PresentMode>,
    alpha_modes: &Vec<CompositeAlphaMode>,
    width: u32,
    height: u32,
) -> (plan: SurfacePlan)
    requires
        formats@.len() > 0,
        present_modes@.len() > 0,
        alpha_modes@.len() > 0,
    ensures
        exists|i: int|
            is_preferred_index(srgb_flags(formats@), i) && plan.format == #[trigger] formats@[i],
        exists|i: int|
            0 <= i < formats@.len() && plan.format == #[trigger] formats@[i]
                && (forall|j: int| 0 <= j < i ==> !format_is_srgb(#[trigger] formats@[j]))
                && (format_is_srgb(formats@[i])
                    || (i == 0 && forall|j: int| 0 <= j < formats@.len() ==> !format_is_srgb(#[trigger] formats@[j]))),
        (exists|j: int| 0 <= j < formats@.len() && format_is_srgb(#[trigger] formats@[j])) ==> format_is_srgb(plan.format),
        (forall|j: int| 0 <= j < formats@.len() ==> !format_is_srgb(#[trigger] formats@[j])) ==> plan.format == formats@[0],
        plan.width == width,
        plan.height == height,
        plan.present_mode == present_modes@[0],
        plan.alpha_mode == alpha_modes@[0],
{
    SurfacePlan {
        format: select_surface_format(formats),
        width,
        height,
        present_mode: present_modes[0],
        alpha_mode: alpha_modes[0],
    }
}

} // verus!
