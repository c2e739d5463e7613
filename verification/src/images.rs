//! Image builds: layout states, barrier-guarded transitions, the plans for
//! sampled textures (with full mip-chain generation by successive blits) and
//! for depth and multisampled color targets.

use vstd::prelude::*;
use crate::mip::{halved, mip_level_count};
use crate::memory::{
    IMAGE_USAGE_COLOR_ATTACHMENT, IMAGE_USAGE_DEPTH_STENCIL_ATTACHMENT, IMAGE_USAGE_SAMPLED,
    IMAGE_USAGE_TRANSFER_DST, IMAGE_USAGE_TRANSFER_SRC, IMAGE_USAGE_TRANSIENT_ATTACHMENT,
};
use crate::adapter::MEMORY_DEVICE_LOCAL;
use crate::device::{DepthFormat, spec_has_stencil, has_stencil};

verus! {

/// The layout states an image's mip levels pass through. Using a level in a
/// command without first transitioning it to the layout the command demands
/// is undefined behavior on the device.
#[derive(Clone, Copy, PartialEq, Eq, Structural, Debug)]
pub enum ImageLayout {
    /// Contents undefined; the state of a freshly created image.
    Undefined,
    /// Writable as a transfer destination.
    TransferDstOptimal,
    /// Readable as a transfer source.
    TransferSrcOptimal,
    /// Readable by shaders through a sampler.
    ShaderReadOnlyOptimal,
    /// Usable as a depth-stencil attachment.
    DepthStencilAttachmentOptimal,
    /// Usable as a color attachment.
    ColorAttachmentOptimal,
    /// Presentable to the surface.
    Present,
}

/// The pipeline stages barriers synchronize against. Scoping a barrier to
/// the wrong stages is undefined synchronization, not just a visible
/// artifact.
#[derive(Clone, Copy, PartialEq, Eq, Structural, Debug)]
pub enum PipelineStage {
    TopOfPipe,
    Transfer,
    FragmentShader,
    EarlyFragmentTests,
    ColorAttachmentOutput,
}

/// Access flag: reads by transfer commands.
pub const ACCESS_TRANSFER_READ: u32 = 0x800;

/// Access flag: writes by transfer commands.
pub const ACCESS_TRANSFER_WRITE: u32 = 0x1000;

/// Access flag: reads by shaders.
pub const ACCESS_SHADER_READ: u32 = 0x20;

/// Access flag: color-attachment reads.
pub const ACCESS_COLOR_ATTACHMENT_READ: u32 = 0x80;

/// Access flag: color-attachment writes.
pub const ACCESS_COLOR_ATTACHMENT_WRITE: u32 = 0x100;

/// Access flag: depth-stencil-attachment reads.
pub const ACCESS_DEPTH_STENCIL_ATTACHMENT_READ: u32 = 0x200;

/// Access flag: depth-stencil-attachment writes.
pub const ACCESS_DEPTH_STENCIL_ATTACHMENT_WRITE: u32 = 0x400;

/// Image aspect flag: color plane.
pub const ASPECT_COLOR: u32 = 0x1;

/// Image aspect flag: depth plane.
pub const ASPECT_DEPTH: u32 = 0x2;

/// Image aspect flag: stencil plane.
pub const ASPECT_STENCIL: u32 = 0x4;

/// One recorded image-memory barrier over a half-open range of mip levels.
#[derive(Clone, Copy, PartialEq, Eq, Structural, Debug)]
pub struct ImageBarrier {
    /// First mip level the barrier covers.
    pub level_start: u8,
    /// One past the last mip level the barrier covers.
    pub level_end: u8,
    /// Aspect mask of the covered planes.
    pub aspects: u32,
    /// Access mask the barrier waits on.
    pub from_access: u32,
    /// Access mask the barrier makes visible.
    pub to_access: u32,
    /// Layout the covered levels must currently be in.
    pub from_layout: ImageLayout,
    /// Layout the covered levels transition to.
    pub to_layout: ImageLayout,
    /// Pipeline stage the barrier waits for.
    pub src_stage: PipelineStage,
    /// Pipeline stage the barrier blocks.
    pub dst_stage: PipelineStage,
}

/// One recorded command of a sampled-texture build.
#[derive(Clone, Copy, PartialEq, Eq, Structural, Debug)]
pub enum TextureOp {
    /// A pipeline barrier transitioning mip levels between layouts.
    Barrier(ImageBarrier),
    /// Copy the staging buffer into mip level 0.
    CopyBufferToImage {
        /// Row length of the staging buffer, in texels (row pitch over
        /// bytes per pixel).
        buffer_row_length: u32,
        /// Image width in texels.
        width: u32,
        /// Image height in texels.
        height: u32,
    },
    /// Blit one mip level into the next with linear filtering.
    Blit {
        /// Source mip level.
        src_level: u8,
        /// Destination mip level (always `src_level + 1`).
        dst_level: u8,
        /// Source level extent.
        src_width: u32,
        /// Source level extent.
        src_height: u32,
        /// Destination level extent: the source halved, floored, at least 1.
        dst_width: u32,
        /// Destination level extent: the source halved, floored, at least 1.
        dst_height: u32,
    },
}

/// The extent of mip level `l` along an axis whose level-0 extent is `d`.
pub open spec fn mip_dim(d: nat, l: nat) -> nat
    decreases l,
{
    if l == 0 {
        d
    } else {
        halved(mip_dim(d, (l - 1) as nat))
    }
}

/// The barrier that moves every level of a fresh texture image into the
/// transfer-destination layout, before any data lands in it.
pub open spec fn texture_init_barrier(levels: nat) -> ImageBarrier {
    ImageBarrier {
        level_start: 0,
        level_end: levels as u8,
        aspects: ASPECT_COLOR,
        from_access: 0,
        to_access: ACCESS_TRANSFER_WRITE,
        from_layout: ImageLayout::Undefined,
        to_layout: ImageLayout::TransferDstOptimal,
        src_stage: PipelineStage::TopOfPipe,
        dst_stage: PipelineStage::Transfer,
    }
}

/// The barrier that turns blit source level `i - 1` from transfer
/// destination into transfer source.
pub open spec fn mip_src_barrier(i: nat) -> ImageBarrier {
    ImageBarrier {
        level_start: (i - 1) as u8,
        level_end: i as u8,
        aspects: ASPECT_COLOR,
        from_access: ACCESS_TRANSFER_WRITE,
        to_access: ACCESS_TRANSFER_READ,
        from_layout: ImageLayout::TransferDstOptimal,
        to_layout: ImageLayout::TransferSrcOptimal,
        src_stage: PipelineStage::Transfer,
        dst_stage: PipelineStage::Transfer,
    }
}

/// The blit that fills level `i` from level `i - 1`, halving both axes.
pub open spec fn mip_blit(w: nat, h: nat, i: nat) -> TextureOp {
    TextureOp::Blit {
        src_level: (i - 1) as u8,
        dst_level: i as u8,
        src_width: mip_dim(w, (i - 1) as nat) as u32,
        src_height: mip_dim(h, (i - 1) as nat) as u32,
        dst_width: mip_dim(w, i) as u32,
        dst_height: mip_dim(h, i) as u32,
    }
}

/// The barrier that retires blit source level `i - 1` into the
/// shader-readable layout once it has been read.
pub open spec fn mip_read_barrier(i: nat) -> ImageBarrier {
    ImageBarrier {
        level_start: (i - 1) as u8,
        level_end: i as u8,
        aspects: ASPECT_COLOR,
        from_access: ACCESS_TRANSFER_READ,
        to_access: ACCESS_SHADER_READ,
        from_layout: ImageLayout::TransferSrcOptimal,
        to_layout: ImageLayout::ShaderReadOnlyOptimal,
        src_stage: PipelineStage::Transfer,
        dst_stage: PipelineStage::FragmentShader,
    }
}

/// The barrier that retires the last mip level, which no blit reads, from
/// transfer destination straight into the shader-readable layout.
pub open spec fn texture_final_barrier(levels: nat) -> ImageBarrier {
    ImageBarrier {
        level_start: (levels - 1) as u8,
        level_end: levels as u8,
        aspects: ASPECT_COLOR,
        from_access: ACCESS_TRANSFER_WRITE,
        to_access: ACCESS_SHADER_READ,
        from_layout: ImageLayout::TransferDstOptimal,
        to_layout: ImageLayout::ShaderReadOnlyOptimal,
        src_stage: PipelineStage::Transfer,
        dst_stage: PipelineStage::FragmentShader,
    }
}

/// The per-level command triples generating mip levels `1 .. upto`
/// (exclusive), in order: source barrier, blit, read barrier for each level.
pub open spec fn mip_chain_ops(w: nat, h: nat, upto: nat) -> Seq<TextureOp>
    decreases upto,
{
    if upto <= 1 {
        Seq::empty()
    } else {
        mip_chain_ops(w, h, (upto - 1) as nat) + seq![
            TextureOp::Barrier(mip_src_barrier((upto - 1) as nat)),
            mip_blit(w, h, (upto - 1) as nat),
            TextureOp::Barrier(mip_read_barrier((upto - 1) as nat)),
        ]
    }
}

/// The whole recorded command stream of a sampled-texture build for a
/// `w x h` image with row pitch `row_pitch` bytes: transition everything to
/// transfer destination, copy the staging rows into level 0, generate each
/// further level by barrier-guarded blits, and leave every level
/// shader-readable.
pub open spec fn texture_ops(w: nat, h: nat, row_pitch: nat) -> Seq<TextureOp> {
    let levels = mip_level_count(w, h);
    seq![
        TextureOp::Barrier(texture_init_barrier(levels)),
        TextureOp::CopyBufferToImage {
            buffer_row_length: (row_pitch / 4) as u32,
            width: w as u32,
            height: h as u32,
        },
    ] + mip_chain_ops(w, h, levels) + seq![TextureOp::Barrier(texture_final_barrier(levels))]
}

/// Record the texture-build command stream for a `width x height` image.
pub fn build_texture_ops(width: u32, height: u32, row_pitch: u32) -> (r: Vec<TextureOp>)
    requires
        1 <= width,
        1 <= height,
    ensures
        r@ == texture_ops(width as nat, height as nat, row_pitch as nat),
        r@.len() == 3 * mip_level_count(width as nat, height as nat),
{
    let ghost wn = width as nat;
    let ghost hn = height as nat;
    let levels: u8 = crate::mip::mip_levels(width, height);
    let mut r: Vec<TextureOp> = Vec::new();
    r.push(TextureOp::Barrier(ImageBarrier {
        level_start: 0,
        level_end: levels,
        aspects: ASPECT_COLOR,
        from_access: 0,
        to_access: ACCESS_TRANSFER_WRITE,
        from_layout: ImageLayout::Undefined,
        to_layout: ImageLayout::TransferDstOptimal,
        src_stage: PipelineStage::TopOfPipe,
        dst_stage: PipelineStage::Transfer,
    }));
    r.push(TextureOp::CopyBufferToImage {
        buffer_row_length: row_pitch / 4,
        width,
        height,
    });
    let mut src_w: u32 = width;
    let mut src_h: u32 = height;
    let mut i: u8 = 1;
    proof {
        assert(r@ =~= seq![
            TextureOp::Barrier(texture_init_barrier(mip_level_count(wn, hn))),
            TextureOp::CopyBufferToImage {
                buffer_row_length: (row_pitch as nat / 4) as u32,
                width: wn as u32,
                height: hn as u32,
            },
        ] + mip_chain_ops(wn, hn, 1));
    }
    while i < levels
        invariant
            1 <= i <= levels,
            levels == mip_level_count(wn, hn),
            wn == width,
            hn == height,
            src_w == mip_dim(wn, (i - 1) as nat),
            src_h == mip_dim(hn, (i - 1) as nat),
            1 <= src_w,
            1 <= src_h,
            r@ == seq![
                TextureOp::Barrier(texture_init_barrier(mip_level_count(wn, hn))),
                TextureOp::CopyBufferToImage {
                    buffer_row_length: (row_pitch as nat / 4) as u32,
                    width: wn as u32,
                    height: hn as u32,
                },
            ] + mip_chain_ops(wn, hn, i as nat),
        decreases levels - i,
    {
        let dst_w = crate::mip::next_mip_dim(src_w);
        let dst_h = crate::mip::next_mip_dim(src_h);
        r.push(TextureOp::Barrier(ImageBarrier {
            level_start: i - 1,
            level_end: i,
            aspects: ASPECT_COLOR,
            from_access: ACCESS_TRANSFER_WRITE,
            to_access: ACCESS_TRANSFER_READ,
            from_layout: ImageLayout::TransferDstOptimal,
            to_layout: ImageLayout::TransferSrcOptimal,
            src_stage: PipelineStage::Transfer,
            dst_stage: PipelineStage::Transfer,
        }));
        r.push(TextureOp::Blit {
            src_level: i - 1,
            dst_level: i,
            src_width: src_w,
            src_height: src_h,
            dst_width: dst_w,
            dst_height: dst_h,
        });
        r.push(TextureOp::Barrier(ImageBarrier {
            level_start: i - 1,
            level_end: i,
            aspects: ASPECT_COLOR,
            from_access: ACCESS_TRANSFER_READ,
            to_access: ACCESS_SHADER_READ,
            from_layout: ImageLayout::TransferSrcOptimal,
            to_layout: ImageLayout::ShaderReadOnlyOptimal,
            src_stage: PipelineStage::Transfer,
            dst_stage: PipelineStage::FragmentShader,
        }));
        proof {
            assert(r@ =~= seq![
                TextureOp::Barrier(texture_init_barrier(mip_level_count(wn, hn))),
                TextureOp::CopyBufferToImage {
                    buffer_row_length: (row_pitch as nat / 4) as u32,
                    width: wn as u32,
                    height: hn as u32,
                },
            ] + mip_chain_ops(wn, hn, (i + 1) as nat));
        }
        src_w = dst_w;
        src_h = dst_h;
        i = i + 1;
    }
    r.push(TextureOp::Barrier(ImageBarrier {
        level_start: levels - 1,
        level_end: levels,
        aspects: ASPECT_COLOR,
        from_access: ACCESS_TRANSFER_WRITE,
        to_access: ACCESS_SHADER_READ,
        from_layout: ImageLayout::TransferDstOptimal,
        to_layout: ImageLayout::ShaderReadOnlyOptimal,
        src_stage: PipelineStage::Transfer,
        dst_stage: PipelineStage::FragmentShader,
    }));
    proof {
        assert(r@ =~= texture_ops(wn, hn, row_pitch as nat));
        lemma_mip_chain_ops_len(wn, hn, mip_level_count(wn, hn));
    }
    r
}

/// Length of the per-level command triples: three per generated level.
pub proof fn lemma_mip_chain_ops_len(w: nat, h: nat, upto: nat)
    ensures
        upto >= 1 ==> mip_chain_ops(w, h, upto).len() == 3 * (upto - 1),
        upto < 1 ==> mip_chain_ops(w, h, upto).len() == 0,
    decreases upto,
{
    if upto > 1 {
        lemma_mip_chain_ops_len(w, h, (upto - 1) as nat);
    }
}

/// The layout of every mip level after one recorded command, or `None` when
/// the command finds a level in a layout it does not demand — which is
/// undefined behavior on the device. Barriers require their covered levels
/// to be in the barrier's source layout and move them to its destination
/// layout; the level-0 copy requires transfer-destination; a blit requires
/// its source level readable and its destination level writable.
pub open spec fn apply_texture_op(st: Seq<ImageLayout>, op: TextureOp) -> Option<Seq<ImageLayout>> {
    match op {
        TextureOp::Barrier(b) => {
            if b.level_start <= b.level_end && b.level_end <= st.len()
                && (forall|l: int| b.level_start <= l < b.level_end ==> st[l] == b.from_layout) {
                Some(
                    Seq::new(
                        st.len(),
                        |l: int| if b.level_start <= l < b.level_end { b.to_layout } else { st[l] },
                    ),
                )
            } else {
                None
            }
        },
        TextureOp::CopyBufferToImage { .. } => {
            if st.len() >= 1 && st[0] == ImageLayout::TransferDstOptimal {
                Some(st)
            } else {
                None
            }
        },
        TextureOp::Blit { src_level, dst_level, .. } => {
            if src_level < st.len() && dst_level < st.len()
                && st[src_level as int] == ImageLayout::TransferSrcOptimal
                && st[dst_level as int] == ImageLayout::TransferDstOptimal {
                Some(st)
            } else {
                None
            }
        },
    }
}

/// The layout state after a whole command sequence, or `None` as soon as
/// one command breaks the layout discipline.
pub open spec fn apply_texture_ops(st: Seq<ImageLayout>, ops: Seq<TextureOp>) -> Option<
    Seq<ImageLayout>,
>
    decreases ops.len(),
{
    if ops.len() == 0 {
        Some(st)
    } else {
        match apply_texture_op(st, ops[0]) {
            Some(m) => apply_texture_ops(m, ops.skip(1)),
            None => None,
        }
    }
}

/// Every one of `levels` mip levels in the same layout.
pub open spec fn uniform_layouts(levels: nat, l: ImageLayout) -> Seq<ImageLayout> {
    Seq::new(levels, |i: int| l)
}

proof fn lemma_apply_texture_ops_append(st: Seq<ImageLayout>, a: Seq<TextureOp>, b: Seq<TextureOp>)
    ensures
        apply_texture_ops(st, a + b) == match apply_texture_ops(st, a) {
            Some(m) => apply_texture_ops(m, b),
            None => None,
        },
    decreases a.len(),
{
    if a.len() == 0 {
        assert(a + b =~= b);
    } else {
        assert((a + b)[0] == a[0]);
        assert((a + b).skip(1) =~= a.skip(1) + b);
        match apply_texture_op(st, a[0]) {
            Some(m) => {
                lemma_apply_texture_ops_append(m, a.skip(1), b);
            },
            None => {},
        }
    }
}

/// The layout state after the per-level triples for levels below `upto`:
/// retired blit sources are shader-readable, everything else still a
/// transfer destination.
spec fn chain_state(levels: nat, upto: nat) -> Seq<ImageLayout> {
    Seq::new(
        levels,
        |l: int| if l < upto - 1 {
            ImageLayout::ShaderReadOnlyOptimal
        } else {
            ImageLayout::TransferDstOptimal
        },
    )
}

proof fn lemma_mip_chain_ops_discipline(w: nat, h: nat, levels: nat, upto: nat)
    requires
        1 <= upto <= levels,
        levels <= 255,
    ensures
        apply_texture_ops(
            uniform_layouts(levels, ImageLayout::TransferDstOptimal),
            mip_chain_ops(w, h, upto),
        ) == Some(chain_state(levels, upto)),
    decreases upto,
{
    let start = uniform_layouts(levels, ImageLayout::TransferDstOptimal);
    if upto == 1 {
        assert(mip_chain_ops(w, h, 1) =~= Seq::<TextureOp>::empty());
        assert(chain_state(levels, 1) =~= start);
    } else {
        lemma_mip_chain_ops_discipline(w, h, levels, (upto - 1) as nat);
        let triple = seq![
            TextureOp::Barrier(mip_src_barrier((upto - 1) as nat)),
            mip_blit(w, h, (upto - 1) as nat),
            TextureOp::Barrier(mip_read_barrier((upto - 1) as nat)),
        ];
        lemma_apply_texture_ops_append(start, mip_chain_ops(w, h, (upto - 1) as nat), triple);
        let s0 = chain_state(levels, (upto - 1) as nat);
        let b1 = mip_src_barrier((upto - 1) as nat);
        let s1 = Seq::new(
            s0.len(),
            |l: int| if b1.level_start <= l < b1.level_end { b1.to_layout } else { s0[l] },
        );
        assert(apply_texture_op(s0, triple[0]) == Some(s1));
        assert(s1[upto - 2] == ImageLayout::TransferSrcOptimal);
        assert(s1[upto - 1] == ImageLayout::TransferDstOptimal);
        assert(apply_texture_op(s1, triple[1]) == Some(s1));
        let b3 = mip_read_barrier((upto - 1) as nat);
        let s2 = Seq::new(
            s1.len(),
            |l: int| if b3.level_start <= l < b3.level_end { b3.to_layout } else { s1[l] },
        );
        assert(apply_texture_op(s1, triple[2]) == Some(s2));
        let t2s = seq![triple[2]];
        let t12 = seq![triple[1], triple[2]];
        assert(t2s.skip(1) =~= Seq::<TextureOp>::empty());
        assert(apply_texture_ops(s2, Seq::<TextureOp>::empty()) == Some(s2));
        assert(apply_texture_ops(s1, t2s) == Some(s2));
        assert(t12.skip(1) =~= t2s);
        assert(apply_texture_ops(s1, t12) == Some(s2));
        assert(triple.skip(1) =~= t12);
        assert(apply_texture_ops(s0, triple) == Some(s2));
        assert(s2 =~= chain_state(levels, upto));
    }
}

/// Law: the recorded texture build respects the image layout discipline.
/// Starting from a fresh image whose levels are all undefined, every copy
/// and blit in the stream finds its levels in exactly the layout the
/// command demands, every barrier finds its levels in its source layout,
/// and when the stream ends every mip level is shader-readable.
pub proof fn lemma_texture_build_layout_discipline(w: nat, h: nat, row_pitch: nat)
    requires
        1 <= w <= u32::MAX,
        1 <= h <= u32::MAX,
    ensures
        apply_texture_ops(
            uniform_layouts(mip_level_count(w, h), ImageLayout::Undefined),
            texture_ops(w, h, row_pitch),
        ) == Some(uniform_layouts(mip_level_count(w, h), ImageLayout::ShaderReadOnlyOptimal)),
{
    let levels = mip_level_count(w, h);
    let m = if w >= h { w } else { h };
    assert(levels <= 32) by {
        vstd::arithmetic::power2::lemma2_to64();
        crate::mip::lemma_log2_floor_lt(m, 32);
    }
    let undef = uniform_layouts(levels, ImageLayout::Undefined);
    let all_dst = uniform_layouts(levels, ImageLayout::TransferDstOptimal);
    let prefix = seq![
        TextureOp::Barrier(texture_init_barrier(levels)),
        TextureOp::CopyBufferToImage {
            buffer_row_length: (row_pitch / 4) as u32,
            width: w as u32,
            height: h as u32,
        },
    ];
    let chain = mip_chain_ops(w, h, levels);
    let tail = seq![TextureOp::Barrier(texture_final_barrier(levels))];
    assert(texture_ops(w, h, row_pitch) == prefix + chain + tail);
    let b0 = texture_init_barrier(levels);
    let s1 = Seq::new(
        undef.len(),
        |l: int| if b0.level_start <= l < b0.level_end { b0.to_layout } else { undef[l] },
    );
    assert(apply_texture_op(undef, prefix[0]) == Some(s1));
    assert(s1 =~= all_dst);
    assert(apply_texture_op(all_dst, prefix[1]) == Some(all_dst));
    let p1s = seq![prefix[1]];
    assert(p1s.skip(1) =~= Seq::<TextureOp>::empty());
    assert(apply_texture_ops(all_dst, Seq::<TextureOp>::empty()) == Some(all_dst));
    assert(apply_texture_ops(all_dst, p1s) == Some(all_dst));
    assert(prefix.skip(1) =~= p1s);
    assert(apply_texture_ops(undef, prefix) == Some(all_dst));
    lemma_mip_chain_ops_discipline(w, h, levels, levels);
    lemma_apply_texture_ops_append(undef, prefix, chain);
    lemma_apply_texture_ops_append(undef, prefix + chain, tail);
    let sc = chain_state(levels, levels);
    let bf = texture_final_barrier(levels);
    let sf = Seq::new(
        sc.len(),
        |l: int| if bf.level_start <= l < bf.level_end { bf.to_layout } else { sc[l] },
    );
    assert(sc[levels - 1] == ImageLayout::TransferDstOptimal);
    assert(apply_texture_op(sc, tail[0]) == Some(sf));
    assert(tail.skip(1) =~= Seq::<TextureOp>::empty());
    assert(apply_texture_ops(sf, Seq::<TextureOp>::empty()) == Some(sf));
    assert(apply_texture_ops(sc, tail) == Some(sf));
    assert(sf =~= uniform_layouts(levels, ImageLayout::ShaderReadOnlyOptimal));
}


/// The image kinds the renderer creates.
#[derive(Clone, Copy, PartialEq, Eq, Structural, Debug)]
pub enum ImageKind {
    /// Sampled texture with a full mip chain.
    SampledTexture,
    /// Depth-stencil target.
    DepthTarget,
    /// Multisampled color target resolved into the swapchain image.
    MultisampleColorTarget,
}

/// The creation parameters of one GPU image, as handed to the device.
#[derive(Clone, Copy, PartialEq, Eq, Structural, Debug)]
pub struct ImagePlan {
    pub kind: ImageKind,
    /// Extent in texels.
    pub width: u32,
    /// Extent in texels.
    pub height: u32,
    /// Multisample count.
    pub samples: u8,
    /// Number of mip levels to allocate.
    pub mip_levels: u8,
    /// Bitmask of `IMAGE_USAGE_*` flags.
    pub usage: u32,
    /// Required `MEMORY_*` property flags of the backing block.
    pub memory_properties: u32,
}

/// The creation parameters of a sampled texture: full mip chain,
/// single-sampled, used as blit source and destination and sampled by
/// shaders, on device-local memory.
pub fn texture_image_plan(width: u32, height: u32) -> (r: ImagePlan)
    requires
        1 <= width,
        1 <= height,
    ensures
        r.kind == ImageKind::SampledTexture,
        r.width == width,
        r.height == height,
        r.samples == 1,
        r.mip_levels == mip_level_count(width as nat, height as nat),
        r.usage == IMAGE_USAGE_TRANSFER_SRC | IMAGE_USAGE_TRANSFER_DST | IMAGE_USAGE_SAMPLED,
        r.memory_properties == MEMORY_DEVICE_LOCAL,
{
    ImagePlan {
        kind: ImageKind::SampledTexture,
        width,
        height,
        samples: 1,
        mip_levels: crate::mip::mip_levels(width, height),
        usage: IMAGE_USAGE_TRANSFER_SRC | IMAGE_USAGE_TRANSFER_DST | IMAGE_USAGE_SAMPLED,
        memory_properties: MEMORY_DEVICE_LOCAL,
    }
}

/// The creation parameters of the depth target: single mip level, at the
/// adapter's maximal usable sample count, on device-local memory.
pub fn depth_image_plan(width: u32, height: u32, samples: u8) -> (r: ImagePlan)
    ensures
        r.kind == ImageKind::DepthTarget,
        r.width == width,
        r.height == height,
        r.samples == samples,
        r.mip_levels == 1,
        r.usage == IMAGE_USAGE_DEPTH_STENCIL_ATTACHMENT,
        r.memory_properties == MEMORY_DEVICE_LOCAL,
{
    ImagePlan {
        kind: ImageKind::DepthTarget,
        width,
        height,
        samples,
        mip_levels: 1,
        usage: IMAGE_USAGE_DEPTH_STENCIL_ATTACHMENT,
        memory_properties: MEMORY_DEVICE_LOCAL,
    }
}

/// The creation parameters of the multisampled color target: the swapchain
/// extent, the adapter's maximal usable sample count, transient plus
/// color-attachment usage, on device-local memory.
pub fn color_image_plan(width: u32, height: u32, samples: u8) -> (r: ImagePlan)
    ensures
        r.kind == ImageKind::MultisampleColorTarget,
        r.width == width,
        r.height == height,
        r.samples == samples,
        r.mip_levels == 1,
        r.usage == IMAGE_USAGE_TRANSIENT_ATTACHMENT | IMAGE_USAGE_COLOR_ATTACHMENT,
        r.memory_properties == MEMORY_DEVICE_LOCAL,
{
    ImagePlan {
        kind: ImageKind::MultisampleColorTarget,
        width,
        height,
        samples,
        mip_levels: 1,
        usage: IMAGE_USAGE_TRANSIENT_ATTACHMENT | IMAGE_USAGE_COLOR_ATTACHMENT,
        memory_properties: MEMORY_DEVICE_LOCAL,
    }
}

/// The single barrier a depth target needs: from undefined into the
/// depth-stencil-attachment layout, covering the stencil aspect exactly when
/// the chosen format has one, scoped from the top of the pipe to the early
/// fragment tests.
pub fn depth_target_barrier(format: DepthFormat) -> (r: ImageBarrier)
    ensures
        r.level_start == 0 && r.level_end == 1,
        r.aspects == if spec_has_stencil(format) { ASPECT_DEPTH | ASPECT_STENCIL } else { ASPECT_DEPTH },
        r.from_access == 0,
        r.to_access == ACCESS_DEPTH_STENCIL_ATTACHMENT_READ | ACCESS_DEPTH_STENCIL_ATTACHMENT_WRITE,
        r.from_layout == ImageLayout::Undefined,
        r.to_layout == ImageLayout::DepthStencilAttachmentOptimal,
        r.src_stage == PipelineStage::TopOfPipe,
        r.dst_stage == PipelineStage::EarlyFragmentTests,
{
    let aspects = if has_stencil(format) {
        ASPECT_DEPTH | ASPECT_STENCIL
    } else {
        ASPECT_DEPTH
    };
    ImageBarrier {
        level_start: 0,
        level_end: 1,
        aspects,
        from_access: 0,
        to_access: ACCESS_DEPTH_STENCIL_ATTACHMENT_READ | ACCESS_DEPTH_STENCIL_ATTACHMENT_WRITE,
        from_layout: ImageLayout::Undefined,
        to_layout: ImageLayout::DepthStencilAttachmentOptimal,
        src_stage: PipelineStage::TopOfPipe,
        dst_stage: PipelineStage::EarlyFragmentTests,
    }
}

/// The single barrier the multisampled color target needs: from undefined
/// into the color-attachment layout, scoped from the top of the pipe to
/// color-attachment output.
pub fn color_target_barrier() -> (r: ImageBarrier)
    ensures
        r.level_start == 0 && r.level_end == 1,
        r.aspects == ASPECT_COLOR,
        r.from_access == 0,
        r.to_access == ACCESS_COLOR_ATTACHMENT_READ | ACCESS_COLOR_ATTACHMENT_WRITE,
        r.from_layout == ImageLayout::Undefined,
        r.to_layout == ImageLayout::ColorAttachmentOptimal,
        r.src_stage == PipelineStage::TopOfPipe,
        r.dst_stage == PipelineStage::ColorAttachmentOutput,
{
    ImageBarrier {
        level_start: 0,
        level_end: 1,
        aspects: ASPECT_COLOR,
        from_access: 0,
        to_access: ACCESS_COLOR_ATTACHMENT_READ | ACCESS_COLOR_ATTACHMENT_WRITE,
        from_layout: ImageLayout::Undefined,
        to_layout: ImageLayout::ColorAttachmentOptimal,
        src_stage: PipelineStage::TopOfPipe,
        dst_stage: PipelineStage::ColorAttachmentOutput,
    }
}

} // verus!
