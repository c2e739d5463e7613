//! Descriptor-set layout, pool sizing, and the writes binding each
//! swapchain image's uniform buffer and the shared texture sampler.

use vstd::prelude::*;

verus! {

/// The descriptor kinds this renderer binds.
#[derive(Clone, Copy, PartialEq, Eq, Structural, Debug)]
pub enum DescriptorType {
    /// A uniform buffer read by shaders.
    UniformBuffer,
    /// A sampled image together with its sampler.
    CombinedImageSampler,
}

/// The shader stages a binding is visible to.
#[derive(Clone, Copy, PartialEq, Eq, Structural, Debug)]
pub enum ShaderStage {
    Vertex,
    Fragment,
}

/// One binding of the descriptor-set layout.
#[derive(Clone, Copy, PartialEq, Eq, Structural, Debug)]
pub struct DescriptorBinding {
    /// Binding slot number.
    pub binding: u32,
    pub ty: DescriptorType,
    /// Number of descriptors in the slot.
    pub count: u32,
    /// Stage the binding is visible to.
    pub stage: ShaderStage,
    /// Whether the binding carries immutable samplers.
    pub immutable_samplers: bool,
}

/// The renderer's descriptor-set layout: the per-frame uniform buffer at
/// binding 0 for the vertex stage, and the texture sampler at binding 1 for
/// the fragment stage.
pub open spec fn spec_descriptor_set_bindings() -> Seq<DescriptorBinding> {
    seq![
        DescriptorBinding {
            binding: 0,
            ty: DescriptorType::UniformBuffer,
            count: 1,
            stage: ShaderStage::Vertex,
            immutable_samplers: false,
        },
        DescriptorBinding {
            binding: 1,
            ty: DescriptorType::CombinedImageSampler,
            count: 1,
            stage: ShaderStage::Fragment,
            immutable_samplers: false,
        },
    ]
}

/// Build the descriptor-set layout bindings.
pub fn descriptor_set_bindings() -> (r: Vec<DescriptorBinding>)
    ensures
        r@ == spec_descriptor_set_bindings(),
{
    let mut r: Vec<DescriptorBinding> = Vec::new();
    r.push(DescriptorBinding {
        binding: 0,
        ty: DescriptorType::UniformBuffer,
        count: 1,
        stage: ShaderStage::Vertex,
        immutable_samplers: false,
    });
    r.push(DescriptorBinding {
        binding: 1,
        ty: DescriptorType::CombinedImageSampler,
        count: 1,
        stage: ShaderStage::Fragment,
        immutable_samplers: false,
    });
    proof {
        assert(r@ =~= spec_descriptor_set_bindings());
    }
    r
}

/// One range of the descriptor pool: how many descriptors of one kind it
/// can hand out.
#[derive(Clone, Copy, PartialEq, Eq, Structural, Debug)]
pub struct DescriptorRange {
    pub ty: DescriptorType,
    pub count: usize,
}

/// Size the uniform descriptor pool for `sets` descriptor sets, one per
/// swapchain image: `sets` uniform-buffer descriptors and `sets`
/// combined-image-sampler descriptors.
pub fn descriptor_pool_ranges(sets: usize) -> (r: Vec<DescriptorRange>)
    ensures
        r@ == seq![
            DescriptorRange { ty: DescriptorType::UniformBuffer, count: sets },
            DescriptorRange { ty: DescriptorType::CombinedImageSampler, count: sets },
        ],
{
    let mut r: Vec<DescriptorRange> = Vec::new();
    r.push(DescriptorRange { ty: DescriptorType::UniformBuffer, count: sets });
    r.push(DescriptorRange { ty: DescriptorType::CombinedImageSampler, count: sets });
    proof {
        assert(r@ =~= seq![
            DescriptorRange { ty: DescriptorType::UniformBuffer, count: sets },
            DescriptorRange { ty: DescriptorType::CombinedImageSampler, count: sets },
        ]);
    }
    r
}

/// One descriptor-set write, as recorded when a set is populated.
#[derive(Clone, Copy, PartialEq, Eq, Structural, Debug)]
pub struct DescriptorWrite {
    /// Binding slot written.
    pub binding: u32,
    /// Kind of descriptor written there.
    pub ty: DescriptorType,
    /// Offset within the binding's descriptor array.
    pub array_offset: usize,
}

/// The write that binds a uniform buffer into its set, at binding 0.
pub fn uniform_descriptor_write() -> (r: DescriptorWrite)
    ensures
        r.binding == 0,
        r.ty == DescriptorType::UniformBuffer,
        r.array_offset == 0,
{
    DescriptorWrite { binding: 0, ty: DescriptorType::UniformBuffer, array_offset: 0 }
}

/// The write that binds the texture's view and sampler into a set, at
/// binding 1.
pub fn texture_descriptor_write() -> (r: DescriptorWrite)
    ensures
        r.binding == 1,
        r.ty == DescriptorType::CombinedImageSampler,
        r.array_offset == 0,
{
    DescriptorWrite { binding: 1, ty: DescriptorType::CombinedImageSampler, array_offset: 0 }
}

/// Law: the recorded writes land on layout bindings of their own kind —
/// each write's slot exists in the layout and declares the same descriptor
/// type.
pub proof fn lemma_writes_match_layout(w: DescriptorWrite)
    requires
        w == (DescriptorWrite { binding: 0, ty: DescriptorType::UniformBuffer, array_offset: 0 })
            || w == (DescriptorWrite {
            binding: 1,
            ty: DescriptorType::CombinedImageSampler,
            array_offset: 0,
        }),
    ensures
        exists|i: int| 0 <= i < spec_descriptor_set_bindings().len()
            && (#[trigger] spec_descriptor_set_bindings()[i]).binding == w.binding
            && spec_descriptor_set_bindings()[i].ty == w.ty,
{
    if w.binding == 0 {
        assert(spec_descriptor_set_bindings()[0].binding == w.binding
            && spec_descriptor_set_bindings()[0].ty == w.ty);
    } else {
        assert(spec_descriptor_set_bindings()[1].binding == w.binding
            && spec_descriptor_set_bindings()[1].ty == w.ty);
    }
}

} // verus!
