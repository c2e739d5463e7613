//! Logical-device-level format queries: choosing a depth format and checking
//! that the texture format supports linear blitting for mip generation.

use vstd::prelude::*;

verus! {

/// Format feature flag: the format can back a depth-stencil attachment with
/// optimal tiling.
pub const FEATURE_DEPTH_STENCIL_ATTACHMENT: u32 = 0x200;

/// Format feature flag: the format can be sampled with linear filtering,
/// which blit-based mip generation requires.
pub const FEATURE_SAMPLED_LINEAR: u32 = 0x1000;

/// The depth formats the renderer considers, in preference order.
#[derive(Clone, Copy, PartialEq, Eq, Structural, Debug)]
pub enum DepthFormat {
    /// 32-bit float depth, no stencil.
    D32Sfloat,
    /// 32-bit float depth with an 8-bit stencil plane.
    D32SfloatS8Uint,
    /// 24-bit normalized depth with an 8-bit stencil plane.
    D24UnormS8Uint,
}

/// Whether a depth format carries a stencil plane, which decides the aspects
/// named in its layout-transition barrier.
pub open spec fn spec_has_stencil(f: DepthFormat) -> bool {
    match f {
        DepthFormat::D32Sfloat => false,
        DepthFormat::D32SfloatS8Uint => true,
        DepthFormat::D24UnormS8Uint => true,
    }
}

/// The `optimal_tiling` feature masks the device reports for each depth
/// format candidate.
pub struct DepthFormatSupport {
    pub d32_sfloat: u32,
    pub d32_sfloat_s8_uint: u32,
    pub d24_unorm_s8_uint: u32,
}

/// Whether a feature mask offers every feature in `required`.
pub open spec fn features_contain(features: u32, required: u32) -> bool {
    features & required == required
}

/// The first depth format, in preference order `D32Sfloat`,
/// `D32SfloatS8Uint`, `D24UnormS8Uint`, whose optimal-tiling features include
/// depth-stencil-attachment use; `None` when the device supports none of the
/// candidates (a fatal capability absence).
pub open spec fn spec_optimal_depth_format(support: DepthFormatSupport) -> Option<DepthFormat> {
    if features_contain(support.d32_sfloat, FEATURE_DEPTH_STENCIL_ATTACHMENT) {
        Some(DepthFormat::D32Sfloat)
    } else if features_contain(support.d32_sfloat_s8_uint, FEATURE_DEPTH_STENCIL_ATTACHMENT) {
        Some(DepthFormat::D32SfloatS8Uint)
    } else if features_contain(support.d24_unorm_s8_uint, FEATURE_DEPTH_STENCIL_ATTACHMENT) {
        Some(DepthFormat::D24UnormS8Uint)
    } else {
        None
    }
}

/// Select the depth-target format from the device's reported format features.
pub fn optimal_depth_format(support: &DepthFormatSupport) -> (r: Option<DepthFormat>)
    ensures
        r == spec_optimal_depth_format(*support),
{
    if support.d32_sfloat & FEATURE_DEPTH_STENCIL_ATTACHMENT == FEATURE_DEPTH_STENCIL_ATTACHMENT {
        Some(DepthFormat::D32Sfloat)
    } else if support.d32_sfloat_s8_uint & FEATURE_DEPTH_STENCIL_ATTACHMENT
        == FEATURE_DEPTH_STENCIL_ATTACHMENT {
        Some(DepthFormat::D32SfloatS8Uint)
    } else if support.d24_unorm_s8_uint & FEATURE_DEPTH_STENCIL_ATTACHMENT
        == FEATURE_DEPTH_STENCIL_ATTACHMENT {
        Some(DepthFormat::D24UnormS8Uint)
    } else {
        None
    }
}

/// Whether a depth format carries a stencil plane.
pub fn has_stencil(f: DepthFormat) -> (r: bool)
    ensures
        r == spec_has_stencil(f),
{
    match f {
        DepthFormat::D32Sfloat => false,
        DepthFormat::D32SfloatS8Uint => true,
        DepthFormat::D24UnormS8Uint => true,
    }
}

/// Whether the sampled-texture format supports linear-filtered blits under
/// optimal tiling. When it does not, mip generation by blitting is
/// impossible and texture building fails fatally.
pub fn supports_linear_blit(optimal_tiling_features: u32) -> (r: bool)
    ensures
        r == features_contain(optimal_tiling_features, FEATURE_SAMPLED_LINEAR),
{
    optimal_tiling_features & FEATURE_SAMPLED_LINEAR == FEATURE_SAMPLED_LINEAR
}

} // verus!
