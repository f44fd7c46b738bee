//! When a recorded command asks nothing impossible of a device: the bound resources match the
//! layouts of the pipeline, and nothing that a command writes is bound a second time.

use vstd::prelude::*;

use crate::pipeline::gpu::{
    Binding, BindingType, Buffer, GroupContents, LayoutEntry, Pipeline, Resource, SampleType,
    Sampler, SamplerKind, Step, TexView, TextureDesc, TextureFormat, ViewDimension,
};
use crate::pipeline::layouts::{entries_of, layouts_of, target_of, writes_depth};

verus! {

/// The format of a view. The surface has the format that the display asks for; every other view is
/// created by a pass with a fixed format.
pub open spec fn format_of(view: TexView) -> TextureFormat {
    match view {
        TexView::VisibilityId => TextureFormat::R32Uint,
        TexView::VisibilityDepth => TextureFormat::Depth32Float,
        TexView::ShadowArray => TextureFormat::Depth32Float,
        TexView::ShadowCascade(_) => TextureFormat::Depth32Float,
        TexView::VisibilityDepthFloat => TextureFormat::R32Float,
        TexView::Hzb(_) => TextureFormat::R32Float,
        TexView::HzbFull => TextureFormat::R32Float,
        TexView::CloudDepth => TextureFormat::R32Float,
        TexView::SsaoRaw => TextureFormat::R32Float,
        TexView::SsaoBlurred => TextureFormat::R32Float,
        TexView::GtaoRaw => TextureFormat::R32Float,
        TexView::GtaoBlurred => TextureFormat::R32Float,
        TexView::NoiseShape => TextureFormat::Rgba8Unorm,
        TexView::NoiseDetail => TextureFormat::Rgba8Unorm,
        TexView::NoiseWeather => TextureFormat::Rgba8Unorm,
        TexView::SunShaft => TextureFormat::Rgba8Unorm,
        TexView::MotionTileMax => TextureFormat::Rg16Float,
        TexView::BrdfLut => TextureFormat::Rg16Float,
        TexView::LtcMatrix => TextureFormat::Rgba32Float,
        TexView::LtcAmplitude => TextureFormat::Rgba32Float,
        _ => TextureFormat::Rgba16Float,
    }
}

pub open spec fn dimension_of(view: TexView) -> ViewDimension {
    match view {
        TexView::ShadowArray => ViewDimension::D2Array,
        TexView::NoiseShape => ViewDimension::D3,
        TexView::NoiseDetail => ViewDimension::D3,
        TexView::FogScatter(_) => ViewDimension::D3,
        TexView::FogIntegrated => ViewDimension::D3,
        TexView::EnvCube => ViewDimension::Cube,
        _ => ViewDimension::D2,
    }
}

/// Whether shaders may write the view.
pub open spec fn is_storage(view: TexView) -> bool {
    match view {
        TexView::SceneColor | TexView::VisibilityDepth | TexView::MaterialNormal => false,
        TexView::ShadowArray | TexView::ShadowCascade(_) => false,
        TexView::NoiseWeather | TexView::SunShaft => false,
        TexView::LtcMatrix | TexView::LtcAmplitude => false,
        TexView::Surface | TexView::Capture => false,
        _ => true,
    }
}

/// Whether shaders may sample the view.
pub open spec fn is_sampled(view: TexView) -> bool {
    match view {
        TexView::Surface | TexView::Capture => false,
        _ => true,
    }
}

/// Whether a render pass may draw to the view.
pub open spec fn is_attachment(view: TexView) -> bool {
    match view {
        TexView::SceneColor | TexView::VisibilityId | TexView::VisibilityDepth => true,
        TexView::MaterialNormal => true,
        TexView::ShadowArray | TexView::ShadowCascade(_) => true,
        TexView::CloudRaw | TexView::CloudColor(_) => true,
        TexView::SunShaft => true,
        TexView::Surface | TexView::Capture => true,
        _ => false,
    }
}

pub open spec fn is_uniform(buffer: Buffer) -> bool {
    match buffer {
        Buffer::FrameUniforms | Buffer::LightingUniforms | Buffer::BarkUniforms => true,
        Buffer::ArtDirectionUniforms | Buffer::ArtDirectionPalette => true,
        Buffer::BloomUniforms | Buffer::CloudUniforms | Buffer::TaaUniforms => true,
        Buffer::SsgiUniforms | Buffer::SsaoUniforms | Buffer::GtaoUniforms => true,
        Buffer::SsrUniforms | Buffer::FogInjectUniforms | Buffer::FogIntegrateUniforms => true,
        Buffer::FogCompositeUniforms | Buffer::MotionBlurUniforms => true,
        Buffer::SunShaftUniforms | Buffer::SkyLutUniforms | Buffer::PrefilterUniforms => true,
        Buffer::ShadowUniforms | Buffer::AreaLights | Buffer::RedwoodUniforms => true,
        Buffer::CharacterModel => true,
        _ => false,
    }
}

/// All buffers that hold no uniforms hold storage, other than the arguments of the indirect draw.
pub open spec fn is_storage_buffer(buffer: Buffer) -> bool {
    !is_uniform(buffer) && buffer != Buffer::HwIndirectDraw
}

pub open spec fn kind_of(sampler: Sampler) -> SamplerKind {
    if sampler == Sampler::ShadowCompare {
        SamplerKind::Comparison
    } else {
        SamplerKind::Filtering
    }
}

/// Which formats a slot for sampled textures takes. Depth can be read without filtering as well.
pub open spec fn samples(sample: SampleType, format: TextureFormat) -> bool {
    match sample {
        SampleType::Depth => format == TextureFormat::Depth32Float,
        SampleType::UnfilterableFloat => format != TextureFormat::R32Uint,
        SampleType::FilterableFloat => match format {
            TextureFormat::Rgba8Unorm
            | TextureFormat::Rgba8UnormSrgb
            | TextureFormat::Bgra8Unorm
            | TextureFormat::Bgra8UnormSrgb
            | TextureFormat::Rg16Float
            | TextureFormat::Rgba16Float => true,
            _ => false,
        },
    }
}

/// Whether a slot takes a resource.
pub open spec fn accepts(entry: LayoutEntry, binding: Binding) -> bool {
    &&& entry.binding == binding.slot
    &&& match (entry.ty, binding.resource) {
        (BindingType::Uniform { .. }, Resource::Buffer(b)) => is_uniform(b),
        (BindingType::Uniform { min_size, .. }, Resource::Slice { buffer, size, .. }) => is_uniform(
            buffer,
        ) && size >= min_size,
        (BindingType::Storage { .. }, Resource::Buffer(b)) => is_storage_buffer(b),
        (BindingType::Texture { sample, view }, Resource::View(v)) => is_sampled(v)
            && dimension_of(v) == view && samples(sample, format_of(v)),
        (BindingType::StorageTexture { format, view }, Resource::View(v)) => is_storage(v)
            && dimension_of(v) == view && format_of(v) == format,
        (BindingType::Sampler { kind }, Resource::Sampler(s)) => kind_of(s) == kind,
        _ => false,
    }
}

/// Every slot of a layout has its resource, in order.
pub open spec fn conforms(entries: Seq<LayoutEntry>, bindings: Seq<Binding>) -> bool {
    &&& entries.len() == bindings.len()
    &&& forall|i: int|
        #![trigger entries[i]]
        #![trigger bindings[i]]
        0 <= i < entries.len() ==> accepts(entries[i], bindings[i])
}

/// Whether a shader may write through a slot.
pub open spec fn is_written(entry: LayoutEntry) -> bool {
    match entry.ty {
        BindingType::Storage { read_only } => !read_only,
        BindingType::StorageTexture { .. } => true,
        _ => false,
    }
}

/// Whether two views share texels.
pub open spec fn overlap(a: TexView, b: TexView) -> bool {
    ||| a == b
    ||| a is HzbFull && b is Hzb
    ||| a is Hzb && b is HzbFull
    ||| a is ShadowArray && b is ShadowCascade
    ||| a is ShadowCascade && b is ShadowArray
    ||| a is EnvCube && b is EnvFace
    ||| a is EnvFace && b is EnvCube
}

/// Whether two resources share memory.
pub open spec fn aliases(a: Resource, b: Resource) -> bool {
    match (a, b) {
        (Resource::Buffer(x), Resource::Buffer(y)) => x == y,
        (Resource::Buffer(x), Resource::Slice { buffer, .. }) => x == buffer,
        (Resource::Slice { buffer, .. }, Resource::Buffer(y)) => buffer == y,
        (Resource::Slice { buffer: x, .. }, Resource::Slice { buffer: y, .. }) => x == y,
        (Resource::View(x), Resource::View(y)) => overlap(x, y),
        _ => false,
    }
}

/// Nothing that slot `i` of group `g` writes is bound to slot `j` of group `h`.
pub open spec fn apart(groups: Seq<GroupContents>, g: int, i: int, h: int, j: int) -> bool {
    is_written(entries_of(groups[g].layout)[i]) ==> !aliases(
        groups[g].bindings[i].resource,
        groups[h].bindings[j].resource,
    )
}

/// What any slot may write is bound to no other slot.
pub open spec fn exclusive(groups: Seq<GroupContents>) -> bool {
    forall|g: int, i: int, h: int, j: int|
        0 <= g < groups.len() && 0 <= i < groups[g].bindings.len() && 0 <= h < groups.len() && 0
            <= j < groups[h].bindings.len() && !(g == h && i == j) ==> #[trigger] apart(
            groups,
            g,
            i,
            h,
            j,
        )
}

/// The groups are those that a pipeline expects, and each fills its layout.
pub open spec fn bound_as(groups: Seq<GroupContents>, pipeline: Pipeline) -> bool {
    &&& groups.len() == layouts_of(pipeline).len()
    &&& forall|g: int|
        0 <= g < groups.len() ==> (#[trigger] groups[g]).layout == layouts_of(pipeline)[g]
            && conforms(entries_of(groups[g].layout), groups[g].bindings)
}

/// No group binds texels of a view.
pub open spec fn unbound(groups: Seq<GroupContents>, view: TexView) -> bool {
    forall|g: int, i: int|
        0 <= g < groups.len() && 0 <= i < (#[trigger] groups[g]).bindings.len() ==> !aliases(
            (#[trigger] groups[g].bindings[i]).resource,
            Resource::View(view),
        )
}

/// A command that a device can carry out.
pub open spec fn valid(step: Step) -> bool {
    match step {
        Step::Clear { .. } => true,
        Step::Copy { from, to, .. } => from != to,
        Step::Dispatch { pipeline, groups, .. } => bound_as(groups, pipeline) && exclusive(groups),
        Step::DispatchIndirect { pipeline, groups, args } => bound_as(groups, pipeline)
            && exclusive(groups) && args == Buffer::DagIndirectArgs,
        Step::Render { pipeline, groups, color, depth, .. } => {
            &&& bound_as(groups, pipeline)
            &&& exclusive(groups)
            &&& match color {
                Some(a) => is_attachment(a.view) && target_of(pipeline) == Some(format_of(a.view))
                    && unbound(groups, a.view),
                None => target_of(pipeline) is None,
            }
            &&& match depth {
                Some(a) => is_attachment(a.view) && format_of(a.view)
                    == TextureFormat::Depth32Float && writes_depth(pipeline) && unbound(
                    groups,
                    a.view,
                ),
                None => !writes_depth(pipeline),
            }
        },
    }
}

pub open spec fn all_valid(steps: Seq<Step>) -> bool {
    forall|i: int| 0 <= i < steps.len() ==> valid(#[trigger] steps[i])
}

/// A texture is created with the format and the usages that its view has.
pub open spec fn described(desc: TextureDesc) -> bool {
    &&& desc.format == format_of(desc.view)
    &&& is_storage(desc.view) ==> desc.usage.storage_binding
    &&& is_sampled(desc.view) ==> desc.usage.texture_binding
    &&& is_attachment(desc.view) ==> desc.usage.render_attachment
    &&& desc.width > 0
    &&& desc.height > 0
    &&& desc.layers > 0
    &&& desc.mip_levels > 0
}

/// A view that passes may read as colour: sampled, flat, of a float format that can be filtered.
pub open spec fn is_color_source(view: TexView) -> bool {
    &&& is_sampled(view)
    &&& dimension_of(view) == ViewDimension::D2
    &&& format_of(view) == TextureFormat::Rgba16Float
}

/// A view that passes may add HDR colour to.
pub open spec fn is_color_target(view: TexView) -> bool {
    is_attachment(view) && format_of(view) == TextureFormat::Rgba16Float
}

/// A native depth buffer that passes may read.
pub open spec fn is_depth_source(view: TexView) -> bool {
    &&& is_sampled(view)
    &&& dimension_of(view) == ViewDimension::D2
    &&& format_of(view) == TextureFormat::Depth32Float
}

} // verus!
