//! Swapchain negotiation: choosing the surface format, deriving extent and
//! image count from the surface capabilities, and the fixed default extent.

use vstd::prelude::*;

verus! {

/// Default window and swapchain extent requested at startup.
pub const DEFAULT_WIDTH: u32 = 1024;

/// Default window and swapchain extent requested at startup.
pub const DEFAULT_HEIGHT: u32 = 768;

/// Format code of 8-bit RGBA with sRGB encoding, the fallback when the
/// surface reports no format preference.
pub const FORMAT_RGBA8_SRGB: u32 = 43;

/// A two-dimensional extent in pixels.
#[derive(Clone, Copy, PartialEq, Eq, Structural, Debug)]
pub struct Extent2d {
    pub width: u32,
    pub height: u32,
}

/// A surface format as the renderer distinguishes them: an identifying code
/// and whether its channel type is sRGB-encoded.
#[derive(Clone, Copy, PartialEq, Eq, Structural, Debug)]
pub struct SurfaceFormat {
    /// Identifying code of the format.
    pub code: u32,
    /// Whether the format's channel type is sRGB.
    pub srgb: bool,
}

/// The fixed fallback format: RGBA8 sRGB.
pub open spec fn spec_default_format() -> SurfaceFormat {
    SurfaceFormat { code: FORMAT_RGBA8_SRGB, srgb: true }
}

/// The first sRGB format of a list, if any.
pub open spec fn first_srgb(s: Seq<SurfaceFormat>) -> Option<SurfaceFormat>
    decreases s.len(),
{
    if s.len() == 0 {
        None
    } else if s[0].srgb {
        Some(s[0])
    } else {
        first_srgb(s.skip(1))
    }
}

/// The format the renderer picks: the first sRGB-class format the surface
/// offers, else the first offered format, else the fixed RGBA8-sRGB default
/// when the surface reports no preference.
pub open spec fn spec_select_format(formats: Option<Seq<SurfaceFormat>>) -> SurfaceFormat {
    match formats {
        Option::None => spec_default_format(),
        Option::Some(fs) => match first_srgb(fs) {
            Option::Some(f) => f,
            Option::None => fs[0],
        },
    }
}

/// The sequence view of an optional format list.
pub open spec fn formats_view(formats: Option<Vec<SurfaceFormat>>) -> Option<Seq<SurfaceFormat>> {
    match formats {
        Option::Some(fs) => Option::Some(fs@),
        Option::None => Option::None,
    }
}

proof fn lemma_first_srgb_skip(s: Seq<SurfaceFormat>, i: int)
    requires
        0 <= i <= s.len(),
        forall|j: int| 0 <= j < i ==> !s[j].srgb,
    ensures
        first_srgb(s) == first_srgb(s.skip(i)),
    decreases i,
{
    if i > 0 {
        assert(forall|j: int| 0 <= j < i - 1 ==> !s.skip(1)[j].srgb);
        lemma_first_srgb_skip(s.skip(1), i - 1);
        assert(s.skip(1).skip(i - 1) =~= s.skip(i));
    } else {
        assert(s.skip(0) =~= s);
    }
}

/// Select the surface format, preferring sRGB encoding.
pub fn select_surface_format(formats: &Option<Vec<SurfaceFormat>>) -> (r: SurfaceFormat)
    requires
        formats matches Some(fs) ==> fs@.len() >= 1,
    ensures
        r == spec_select_format(formats_view(*formats)),
{
    match formats {
        Option::None => SurfaceFormat { code: FORMAT_RGBA8_SRGB, srgb: true },
        Option::Some(fs) => {
            let n = fs.len();
            let mut i: usize = 0;
            while i < n
                invariant
                    formats_view(*formats) == Some(fs@),
                    n == fs@.len(),
                    1 <= n,
                    i <= n,
                    forall|j: int| 0 <= j < i ==> !fs@[j].srgb,
                decreases n - i,
            {
                if fs[i].srgb {
                    proof {
                        lemma_first_srgb_skip(fs@, i as int);
                        assert(fs@.skip(i as int)[0] == fs@[i as int]);
                        assert(first_srgb(fs@.skip(i as int)) == Some(fs@[i as int]));
                        assert(formats_view(*formats) == Some(fs@));
                        assert(spec_select_format(formats_view(*formats)) == fs@[i as int]);
                    }
                    return fs[i];
                }
                i = i + 1;
            }
            proof {
                lemma_first_srgb_skip(fs@, n as int);
                assert(fs@.skip(n as int) =~= Seq::<SurfaceFormat>::empty());
                assert(first_srgb(Seq::<SurfaceFormat>::empty()) is None);
            }
            fs[0]
        },
    }
}

/// What the surface reports about swapchains it can back.
#[derive(Clone, Copy, PartialEq, Eq, Structural, Debug)]
pub struct SurfaceCaps {
    /// Fewest images a swapchain for this surface may have.
    pub min_image_count: u32,
    /// Most images a swapchain for this surface may have.
    pub max_image_count: u32,
    /// The surface's current extent, when the platform fixes one.
    pub current_extent: Option<Extent2d>,
    /// Smallest supported extent.
    pub min_extent: Extent2d,
    /// Largest supported extent.
    pub max_extent: Extent2d,
}

/// The data a swapchain is created from: format, extent, and image count.
/// Fixed for the swapchain's lifetime; any mismatch with the surface
/// demands full teardown and recreation.
#[derive(Clone, Copy, PartialEq, Eq, Structural, Debug)]
pub struct SwapchainProps {
    pub format: SurfaceFormat,
    pub extent: Extent2d,
    pub image_count: u32,
}

/// `v` clamped into `[lo, hi]` as the swapchain negotiation does it: raised
/// to `lo` first, then capped at `hi`.
pub open spec fn spec_clamp(v: u32, lo: u32, hi: u32) -> u32 {
    let raised = if v >= lo { v } else { lo };
    if raised <= hi { raised } else { hi }
}

/// The extent the swapchain gets: the surface's current extent when the
/// platform fixes one, else the requested default clamped into the
/// supported range, axis by axis.
pub open spec fn spec_swapchain_extent(caps: SurfaceCaps, default_extent: Extent2d) -> Extent2d {
    match caps.current_extent {
        Option::Some(e) => e,
        Option::None => Extent2d {
            width: spec_clamp(default_extent.width, caps.min_extent.width, caps.max_extent.width),
            height: spec_clamp(
                default_extent.height,
                caps.min_extent.height,
                caps.max_extent.height,
            ),
        },
    }
}

/// The full swapchain negotiation: the preferred format, the derived
/// extent, and the surface's minimal image count.
pub open spec fn spec_swapchain_config(
    caps: SurfaceCaps,
    formats: Option<Seq<SurfaceFormat>>,
    default_extent: Extent2d,
) -> SwapchainProps {
    SwapchainProps {
        format: spec_select_format(formats),
        extent: spec_swapchain_extent(caps, default_extent),
        image_count: caps.min_image_count,
    }
}

/// Derive the swapchain configuration from what the surface reports and the
/// requested default extent.
pub fn derive_swapchain_config(
    caps: &SurfaceCaps,
    formats: &Option<Vec<SurfaceFormat>>,
    default_extent: Extent2d,
) -> (r: SwapchainProps)
    requires
        formats matches Some(fs) ==> fs@.len() >= 1,
    ensures
        r == spec_swapchain_config(*caps, formats_view(*formats), default_extent),
{
    let format = select_surface_format(formats);
    let extent = match caps.current_extent {
        Option::Some(e) => e,
        Option::None => {
            let width = if default_extent.width >= caps.min_extent.width {
                default_extent.width
            } else {
                caps.min_extent.width
            };
            let width = if width <= caps.max_extent.width { width } else { caps.max_extent.width };
            let height = if default_extent.height >= caps.min_extent.height {
                default_extent.height
            } else {
                caps.min_extent.height
            };
            let height = if height <= caps.max_extent.height {
                height
            } else {
                caps.max_extent.height
            };
            Extent2d { width, height }
        },
    };
    SwapchainProps { format, extent, image_count: caps.min_image_count }
}

} // verus!
