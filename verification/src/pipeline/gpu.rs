//! Plain-value descriptions of what passes ask of a graphics device: textures, buffers, binding
//! layouts, bound resources and recorded commands.

use vstd::prelude::*;

verus! {

// ---------------------------------------------------------------------------------------------
// Formats, dimensions and usages
// ---------------------------------------------------------------------------------------------

#[derive(Clone, Copy, Debug, PartialEq, Eq, Hash, Structural)]
pub enum TextureFormat {
    Rgba8Unorm,
    Rgba8UnormSrgb,
    Bgra8Unorm,
    Bgra8UnormSrgb,
    R32Uint,
    R32Float,
    Rg16Float,
    Rgba16Float,
    Rgba32Float,
    Depth32Float,
}

/// The format of colour before tone mapping.
pub const HDR_FORMAT: TextureFormat = TextureFormat::Rgba16Float;

/// The distance between slots of one uniform buffer that commands bind by themselves.
pub const UNIFORM_ALIGN: u64 = 256;

#[derive(Clone, Copy, Debug, PartialEq, Eq, Structural)]
pub enum TextureDimension {
    D2,
    D3,
}

#[derive(Clone, Copy, Debug, PartialEq, Eq, Structural)]
pub enum ViewDimension {
    D2,
    D2Array,
    Cube,
    D3,
}

#[derive(Clone, Copy, Debug, PartialEq, Eq, Structural)]
pub struct TextureUsages {
    pub copy_src: bool,
    pub copy_dst: bool,
    pub texture_binding: bool,
    pub storage_binding: bool,
    pub render_attachment: bool,
}

#[derive(Clone, Copy, Debug, PartialEq, Eq, Structural)]
pub struct BufferUsages {
    pub uniform: bool,
    pub storage: bool,
    pub indirect: bool,
    pub vertex: bool,
    pub index: bool,
    pub copy_src: bool,
    pub copy_dst: bool,
}

#[derive(Clone, Copy, Debug, PartialEq, Eq, Structural)]
pub struct ShaderStages {
    pub vertex: bool,
    pub fragment: bool,
    pub compute: bool,
}

// ---------------------------------------------------------------------------------------------
// Names of resources
// ---------------------------------------------------------------------------------------------

/// A view of a texture. A number tells levels, cascades or the halves of a swapped pair apart.
#[derive(Clone, Copy, Debug, PartialEq, Eq, Hash, Structural)]
pub enum TexView {
    /// The HDR colour of the scene.
    SceneColor,
    VisibilityId,
    VisibilityDepth,
    VisibilityDepthFloat,
    /// World-space normals, written by the material pass.
    MaterialNormal,
    /// All shadow cascades.
    ShadowArray,
    ShadowCascade(u32),
    /// One level of the depth pyramid.
    Hzb(u32),
    /// All levels of the depth pyramid.
    HzbFull,
    BloomLevel(u32),
    BloomAlt(u32),
    CloudRaw,
    CloudColor(bool),
    CloudDepth,
    NoiseShape,
    NoiseDetail,
    NoiseWeather,
    SkyTransmittance,
    SkyMultiscatter,
    SkyView,
    SkyDummy,
    TaaMotion,
    TaaHistory(bool),
    SsgiRaw,
    SsgiBlurred,
    SsaoRaw,
    SsaoBlurred,
    GtaoRaw,
    GtaoBlurred,
    GtaoBentRaw,
    GtaoBentBlurred,
    SsrReflection,
    FogScatter(bool),
    FogIntegrated,
    MotionTileMax,
    MotionBlurred,
    SunShaft,
    BrdfLut,
    /// All faces and levels of the environment map.
    EnvCube,
    EnvFace { mip: u32, face: u32 },
    LtcMatrix,
    LtcAmplitude,
    /// The image that is shown.
    Surface,
    /// The image that is read back.
    Capture,
}

#[derive(Clone, Copy, Debug, PartialEq, Eq, Hash, Structural)]
pub enum Buffer {
    FrameUniforms,
    LightingUniforms,
    BarkUniforms,
    ArtDirectionUniforms,
    ArtDirectionPalette,
    GroupQueue,
    GroupQueueCount,
    Phase2Queue,
    Phase2Count,
    Phase2ScratchList,
    Phase2ScratchCount,
    HwDispatchList,
    HwDispatchCount,
    SwDispatchList,
    SwDispatchCount,
    HwIndirectDraw,
    VisibilityStorage,
    MeshVertices,
    MeshletVertices,
    MeshletTriangles,
    MeshletDescs,
    MeshletBounds,
    MeshletGroups,
    DagWorkQueue,
    DagWorkCounters,
    DagOutputQueue,
    DagOutputCount,
    DagIndirectArgs,
    BloomUniforms,
    CloudUniforms,
    TaaUniforms,
    SsgiUniforms,
    SsaoUniforms,
    GtaoUniforms,
    SsrUniforms,
    FogInjectUniforms,
    FogIntegrateUniforms,
    FogCompositeUniforms,
    MotionBlurUniforms,
    SunShaftUniforms,
    SkyLutUniforms,
    PrefilterUniforms,
    ShadowUniforms,
    AreaLights,
    RedwoodUniforms,
    RigNodes,
    RigStates,
    RestVertices,
    ShadowRestVertices,
    ShadowVertices,
    CharacterModel,
}

#[derive(Clone, Copy, Debug, PartialEq, Eq, Hash, Structural)]
pub enum Sampler {
    Bloom,
    CloudComposite,
    CloudTemporal,
    NoiseRepeat,
    SkyLut,
    TaaHistory,
    FogComposite,
    FogPrevious,
    SunShaft,
    Cubemap,
    BrdfLut,
    ShadowCompare,
}

#[derive(Clone, Copy, Debug, PartialEq, Eq, Hash, Structural)]
pub enum Layout {
    Frame,
    Mesh,
    HwDispatch,
    SwDispatch,
    CullData,
    CullDispatch,
    DagTraverse,
    ArtDirection,
    HzbDepthCopy,
    HzbBuild,
    BloomThreshold,
    BloomDownsample,
    BloomUpsample,
    BloomComposite,
    CloudMarch,
    CloudTemporal,
    CloudComposite,
    NoiseGen,
    SkyLut,
    TaaMotion,
    TaaResolve,
    SsgiSample,
    SsgiBlur,
    SsgiComposite,
    SsaoSample,
    SsaoBlur,
    GtaoSample,
    GtaoBlur,
    SsrTrace,
    SsrComposite,
    FogInject,
    FogIntegrate,
    FogComposite,
    MotionTileMax,
    MotionBlur,
    SunShaftOcclusion,
    SunShaftComposite,
    Brdf,
    Prefilter,
    ShadowCascade,
    RedwoodCommon,
    RedwoodRest,
    RedwoodOutput,
    CharacterScene,
    CharacterModel,
}

#[derive(Clone, Copy, Debug, PartialEq, Eq, Hash, Structural)]
pub enum Pipeline {
    HwVisibility,
    SwRaster,
    MeshletCull,
    MeshletCullPhase2,
    DagTraverse,
    DagPrepareIndirect,
    HzbDepthCopy,
    HzbBuild,
    BloomThreshold,
    BloomDownsample,
    BloomUpsample,
    BloomComposite,
    CloudMarch,
    CloudTemporal,
    CloudComposite,
    NoiseShape,
    NoiseDetail,
    SkyTransmittance,
    SkyMultiscatter,
    SkyView,
    TaaMotion,
    TaaResolve,
    SsgiSample,
    SsgiBlur,
    SsgiComposite,
    SsaoSample,
    SsaoBlur,
    GtaoSample,
    GtaoBlur,
    SsrTrace,
    SsrComposite,
    FogInject,
    FogIntegrate,
    FogComposite,
    MotionTileMax,
    MotionBlur,
    SunShaftOcclusion,
    SunShaftComposite,
    BrdfLut,
    SkyToCubemap,
    PrefilterMip,
    Shadow,
    RedwoodSimulate,
    RedwoodDeform,
    ForwardCharacter,
}

// ---------------------------------------------------------------------------------------------
// Descriptions of resources
// ---------------------------------------------------------------------------------------------

/// A texture to create. `view` names the view of all of it.
#[derive(Clone, Copy, Debug, PartialEq, Eq, Structural)]
pub struct TextureDesc {
    pub view: TexView,
    pub width: u32,
    pub height: u32,
    pub layers: u32,
    pub mip_levels: u32,
    pub dimension: TextureDimension,
    pub format: TextureFormat,
    pub usage: TextureUsages,
}

#[derive(Clone, Copy, Debug, PartialEq, Eq, Structural)]
pub struct BufferDesc {
    pub buffer: Buffer,
    pub size: u64,
    pub usage: BufferUsages,
}

/// A sampler with linear filtering within a level. Axes that do not repeat clamp to the edge.
#[derive(Clone, Copy, Debug, PartialEq, Eq, Structural)]
pub struct SamplerDesc {
    pub sampler: Sampler,
    pub repeat_u: bool,
    pub repeat_v: bool,
    pub repeat_w: bool,
    pub linear_between_levels: bool,
    /// Compares with `less or equal` instead of sampling.
    pub compare: bool,
}

/// What may be read from a sampled texture.
#[derive(Clone, Copy, Debug, PartialEq, Eq, Structural)]
pub enum SampleType {
    FilterableFloat,
    UnfilterableFloat,
    Depth,
}

#[derive(Clone, Copy, Debug, PartialEq, Eq, Structural)]
pub enum SamplerKind {
    Filtering,
    Comparison,
}

/// What a slot of a layout takes. A storage texture is written, never read.
#[derive(Clone, Copy, Debug, PartialEq, Eq, Structural)]
pub enum BindingType {
    /// `min_size` is zero where the layout states no minimum.
    Uniform { dynamic_offset: bool, min_size: u64 },
    Storage { read_only: bool },
    Texture { sample: SampleType, view: ViewDimension },
    StorageTexture { format: TextureFormat, view: ViewDimension },
    Sampler { kind: SamplerKind },
}

#[derive(Clone, Copy, Debug, PartialEq, Eq, Structural)]
pub struct LayoutEntry {
    pub binding: u32,
    pub stages: ShaderStages,
    pub ty: BindingType,
}

#[derive(Clone, Copy, Debug, PartialEq, Eq, Structural)]
pub enum Resource {
    Buffer(Buffer),
    /// `size` bytes of a buffer from `offset`.
    Slice { buffer: Buffer, offset: u64, size: u64 },
    View(TexView),
    Sampler(Sampler),
}

#[derive(Clone, Copy, Debug, PartialEq, Eq, Structural)]
pub struct Binding {
    pub slot: u32,
    pub resource: Resource,
}

/// How a render pass begins with an attachment.
#[derive(Clone, Copy, Debug, PartialEq, Eq, Structural)]
pub enum Load {
    /// Keep what is there.
    Keep,
    /// Start from zero (for colour) or one (for depth).
    Clear,
}

#[derive(Clone, Copy, Debug, PartialEq, Eq, Structural)]
pub struct Attachment {
    pub view: TexView,
    pub load: Load,
}

#[derive(Clone, Copy, Debug, PartialEq, Eq, Structural)]
pub enum Draw {
    /// One triangle that covers the screen.
    Fullscreen,
    /// Arguments from a buffer.
    Indirect(Buffer),
    /// An indexed mesh of the scene, by its position in the list of shadow meshes.
    ShadowMesh(usize),
    /// The character's mesh.
    Character,
}

/// The resources bound for one layout.
#[derive(Debug)]
pub struct BindGroup {
    pub layout: Layout,
    pub bindings: Vec<Binding>,
}

/// The contents of a [`BindGroup`].
#[verifier::ext_equal]
pub struct GroupContents {
    pub layout: Layout,
    pub bindings: Seq<Binding>,
}

impl View for BindGroup {
    type V = GroupContents;

    open spec fn view(&self) -> GroupContents {
        GroupContents { layout: self.layout, bindings: self.bindings@ }
    }
}

/// One recorded command. The groups of a dispatch or render pass are bound to consecutive indices
/// from zero.
#[derive(Debug)]
pub enum Command {
    /// Fill a buffer with zeros.
    Clear { buffer: Buffer },
    Copy { from: Buffer, from_offset: u64, to: Buffer, to_offset: u64, size: u64 },
    Dispatch { pipeline: Pipeline, groups: Vec<BindGroup>, x: u32, y: u32, z: u32 },
    /// A dispatch whose size is read from a buffer.
    DispatchIndirect { pipeline: Pipeline, groups: Vec<BindGroup>, args: Buffer },
    Render {
        pipeline: Pipeline,
        groups: Vec<BindGroup>,
        /// The dynamic offset of group zero, where its layout has one.
        offset: u32,
        color: Option<Attachment>,
        depth: Option<Attachment>,
        draws: Vec<Draw>,
    },
}

/// The contents of a [`Command`].
#[verifier::ext_equal]
pub enum Step {
    Clear { buffer: Buffer },
    Copy { from: Buffer, from_offset: u64, to: Buffer, to_offset: u64, size: u64 },
    Dispatch { pipeline: Pipeline, groups: Seq<GroupContents>, x: u32, y: u32, z: u32 },
    DispatchIndirect { pipeline: Pipeline, groups: Seq<GroupContents>, args: Buffer },
    Render {
        pipeline: Pipeline,
        groups: Seq<GroupContents>,
        offset: u32,
        color: Option<Attachment>,
        depth: Option<Attachment>,
        draws: Seq<Draw>,
    },
}

/// The contents of a list of groups.
pub open spec fn group_contents(groups: Seq<BindGroup>) -> Seq<GroupContents> {
    groups.map_values(|g: BindGroup| g@)
}

impl View for Command {
    type V = Step;

    open spec fn view(&self) -> Step {
        match *self {
            Command::Clear { buffer } => Step::Clear { buffer },
            Command::Copy { from, from_offset, to, to_offset, size } => Step::Copy {
                from,
                from_offset,
                to,
                to_offset,
                size,
            },
            Command::Dispatch { pipeline, groups, x, y, z } => Step::Dispatch {
                pipeline,
                groups: group_contents(groups@),
                x,
                y,
                z,
            },
            Command::DispatchIndirect { pipeline, groups, args } => Step::DispatchIndirect {
                pipeline,
                groups: group_contents(groups@),
                args,
            },
            Command::Render { pipeline, groups, offset, color, depth, draws } => Step::Render {
                pipeline,
                groups: group_contents(groups@),
                offset,
                color,
                depth,
                draws: draws@,
            },
        }
    }
}

/// The contents of a list of commands.
pub open spec fn steps(commands: Seq<Command>) -> Seq<Step> {
    commands.map_values(|c: Command| c@)
}

// ---------------------------------------------------------------------------------------------
// Building blocks
// ---------------------------------------------------------------------------------------------

#[verifier::allow_in_spec]
pub fn compute_stage() -> ShaderStages
    returns
        (ShaderStages { vertex: false, fragment: false, compute: true }),
{
    ShaderStages { vertex: false, fragment: false, compute: true }
}

#[verifier::allow_in_spec]
pub fn fragment_stage() -> ShaderStages
    returns
        (ShaderStages { vertex: false, fragment: true, compute: false }),
{
    ShaderStages { vertex: false, fragment: true, compute: false }
}

#[verifier::allow_in_spec]
pub fn vertex_stage() -> ShaderStages
    returns
        (ShaderStages { vertex: true, fragment: false, compute: false }),
{
    ShaderStages { vertex: true, fragment: false, compute: false }
}

#[verifier::allow_in_spec]
pub fn vertex_fragment_stages() -> ShaderStages
    returns
        (ShaderStages { vertex: true, fragment: true, compute: false }),
{
    ShaderStages { vertex: true, fragment: true, compute: false }
}

#[verifier::allow_in_spec]
pub fn compute_fragment_stages() -> ShaderStages
    returns
        (ShaderStages { vertex: false, fragment: true, compute: true }),
{
    ShaderStages { vertex: false, fragment: true, compute: true }
}

#[verifier::allow_in_spec]
pub fn all_stages() -> ShaderStages
    returns
        (ShaderStages { vertex: true, fragment: true, compute: true }),
{
    ShaderStages { vertex: true, fragment: true, compute: true }
}

/// A slot for a uniform buffer of at least `min_size` bytes.
#[verifier::allow_in_spec]
pub fn uniform_entry(binding: u32, stages: ShaderStages, min_size: u64) -> LayoutEntry
    returns
        (LayoutEntry {
            binding,
            stages,
            ty: BindingType::Uniform { dynamic_offset: false, min_size },
        }),
{
    LayoutEntry {
        binding,
        stages,
        ty: BindingType::Uniform { dynamic_offset: false, min_size },
    }
}

/// A slot for a storage buffer.
#[verifier::allow_in_spec]
pub fn storage_entry(binding: u32, read_only: bool, stages: ShaderStages) -> LayoutEntry
    returns
        (LayoutEntry { binding, stages, ty: BindingType::Storage { read_only } }),
{
    LayoutEntry { binding, stages, ty: BindingType::Storage { read_only } }
}

/// A slot for a sampled texture.
#[verifier::allow_in_spec]
pub fn texture_entry(
    binding: u32,
    stages: ShaderStages,
    sample: SampleType,
    view: ViewDimension,
) -> LayoutEntry
    returns
        (LayoutEntry { binding, stages, ty: BindingType::Texture { sample, view } }),
{
    LayoutEntry { binding, stages, ty: BindingType::Texture { sample, view } }
}

/// A slot for a texture that a compute shader writes.
#[verifier::allow_in_spec]
pub fn storage_texture_entry(
    binding: u32,
    format: TextureFormat,
    view: ViewDimension,
) -> LayoutEntry
    returns
        (LayoutEntry {
            binding,
            stages: compute_stage(),
            ty: BindingType::StorageTexture { format, view },
        }),
{
    LayoutEntry {
        binding,
        stages: compute_stage(),
        ty: BindingType::StorageTexture { format, view },
    }
}

/// A slot for a sampler.
#[verifier::allow_in_spec]
pub fn sampler_entry(binding: u32, stages: ShaderStages, kind: SamplerKind) -> LayoutEntry
    returns
        (LayoutEntry { binding, stages, ty: BindingType::Sampler { kind } }),
{
    LayoutEntry { binding, stages, ty: BindingType::Sampler { kind } }
}

#[verifier::allow_in_spec]
pub fn bind_buffer(slot: u32, buffer: Buffer) -> Binding
    returns
        (Binding { slot, resource: Resource::Buffer(buffer) }),
{
    Binding { slot, resource: Resource::Buffer(buffer) }
}

#[verifier::allow_in_spec]
pub fn bind_slice(slot: u32, buffer: Buffer, offset: u64, size: u64) -> Binding
    returns
        (Binding { slot, resource: Resource::Slice { buffer, offset, size } }),
{
    Binding { slot, resource: Resource::Slice { buffer, offset, size } }
}

#[verifier::allow_in_spec]
pub fn bind_view(slot: u32, view: TexView) -> Binding
    returns
        (Binding { slot, resource: Resource::View(view) }),
{
    Binding { slot, resource: Resource::View(view) }
}

#[verifier::allow_in_spec]
pub fn bind_sampler(slot: u32, sampler: Sampler) -> Binding
    returns
        (Binding { slot, resource: Resource::Sampler(sampler) }),
{
    Binding { slot, resource: Resource::Sampler(sampler) }
}

/// A texture without layers or further levels, at least one texel wide and high, that shaders
/// write and sample.
#[verifier::allow_in_spec]
pub fn storage_target(view: TexView, width: u32, height: u32, format: TextureFormat) -> TextureDesc
    returns
        (TextureDesc {
            view,
            width: at_least_one(width),
            height: at_least_one(height),
            layers: 1,
            mip_levels: 1,
            dimension: TextureDimension::D2,
            format,
            usage: storage_and_sampled(),
        }),
{
    TextureDesc {
        view,
        width: at_least_one(width),
        height: at_least_one(height),
        layers: 1,
        mip_levels: 1,
        dimension: TextureDimension::D2,
        format,
        usage: storage_and_sampled(),
    }
}

#[verifier::allow_in_spec]
pub fn storage_and_sampled() -> TextureUsages
    returns
        (TextureUsages {
            copy_src: false,
            copy_dst: false,
            texture_binding: true,
            storage_binding: true,
            render_attachment: false,
        }),
{
    TextureUsages {
        copy_src: false,
        copy_dst: false,
        texture_binding: true,
        storage_binding: true,
        render_attachment: false,
    }
}

/// A buffer of uniforms that the host rewrites.
#[verifier::allow_in_spec]
pub fn uniform_buffer(buffer: Buffer, size: u64) -> BufferDesc
    returns
        (BufferDesc {
            buffer,
            size,
            usage: BufferUsages {
                uniform: true,
                storage: false,
                indirect: false,
                vertex: false,
                index: false,
                copy_src: false,
                copy_dst: true,
            },
        }),
{
    BufferDesc {
        buffer,
        size,
        usage: BufferUsages {
            uniform: true,
            storage: false,
            indirect: false,
            vertex: false,
            index: false,
            copy_src: false,
            copy_dst: true,
        },
    }
}

/// `n`, or one where `n` is zero.
#[verifier::allow_in_spec]
pub fn at_least_one(n: u32) -> u32
    returns
        (if n == 0 {
            1
        } else {
            n
        }),
{
    if n == 0 {
        1
    } else {
        n
    }
}

/// The number of groups of `per_group` that hold `items`: the quotient, rounded up.
#[verifier::allow_in_spec]
pub fn groups_for(items: u32, per_group: u32) -> u32
    requires
        per_group > 0,
    returns
        (((items + per_group - 1) / (per_group as int)) as u32),
{
    let whole: u32 = items / per_group;
    let rest: u32 = items % per_group;
    proof {
        lemma_round_up(items as int, per_group as int);
    }
    if rest == 0 {
        whole
    } else {
        whole + 1
    }
}

proof fn lemma_round_up(items: int, per_group: int)
    requires
        items >= 0,
        per_group > 0,
    ensures
        (items + per_group - 1) / per_group == items / per_group + (if items % per_group == 0 {
            0int
        } else {
            1int
        }),
        0 <= (items + per_group - 1) / per_group <= items,
{
    let q = items / per_group;
    let r = items % per_group;
    vstd::arithmetic::div_mod::lemma_fundamental_div_mod(items, per_group);
    vstd::arithmetic::div_mod::lemma_mod_bound(items, per_group);
    assert(q >= 0) by {
        vstd::arithmetic::div_mod::lemma_div_pos_is_pos(items, per_group);
    }
    if r == 0 {
        assert(items + per_group - 1 == q * per_group + (per_group - 1)) by (nonlinear_arith)
            requires
                items == per_group * q + r,
                r == 0,
        ;
        vstd::arithmetic::div_mod::lemma_fundamental_div_mod_converse(
            items + per_group - 1,
            per_group,
            q,
            per_group - 1,
        );
        assert(q <= items) by (nonlinear_arith)
            requires
                items == per_group * q + r,
                r == 0,
                per_group >= 1,
                q >= 0,
        ;
    } else {
        assert(items + per_group - 1 == (q + 1) * per_group + (r - 1)) by (nonlinear_arith)
            requires
                items == per_group * q + r,
        ;
        vstd::arithmetic::div_mod::lemma_fundamental_div_mod_converse(
            items + per_group - 1,
            per_group,
            q + 1,
            r - 1,
        );
        assert(q + 1 <= items) by (nonlinear_arith)
            requires
                items == per_group * q + r,
                r >= 1,
                per_group >= 1,
                q >= 0,
        ;
    }
}

/// A dispatch of so many groups covers every item, and one group fewer would not.
pub proof fn groups_cover_exactly(items: u32, per_group: u32)
    requires
        per_group > 0,
    ensures
        groups_for(items, per_group) * per_group >= items,
        items > 0 ==> (groups_for(items, per_group) - 1) * per_group < items,
        items == 0 ==> groups_for(items, per_group) == 0,
{
    lemma_round_up(items as int, per_group as int);
    let g = (items + per_group - 1) / (per_group as int);
    let x = items + per_group - 1;
    let p = per_group as int;
    vstd::arithmetic::div_mod::lemma_fundamental_div_mod(x, p);
    vstd::arithmetic::div_mod::lemma_mod_bound(x, p);
    assert(g * p >= items) by (nonlinear_arith)
        requires
            x == p * g + x % p,
            x % p <= p - 1,
            x == items + p - 1,
    ;
    assert((g - 1) * p < items) by (nonlinear_arith)
        requires
            x == p * g + x % p,
            x % p >= 0,
            x == items + p - 1,
    ;
}

pub fn group(layout: Layout, bindings: Vec<Binding>) -> (g: BindGroup)
    ensures
        g@ == (GroupContents { layout, bindings: bindings@ }),
{
    BindGroup { layout, bindings }
}

/// A dispatch with one group of resources.
pub fn dispatch(pipeline: Pipeline, bound: BindGroup, x: u32, y: u32, z: u32) -> (c: Command)
    ensures
        c@ == (Step::Dispatch { pipeline, groups: seq![bound@], x, y, z }),
{
    let ghost contents = bound@;
    let c = Command::Dispatch { pipeline, groups: vec![bound], x, y, z };
    assert(c@->Dispatch_groups =~= seq![contents]);
    c
}

/// A pass that draws one triangle over a colour target.
pub fn fullscreen(pipeline: Pipeline, bound: BindGroup, view: TexView, load: Load) -> (c: Command)
    ensures
        c@ == fullscreen_step(pipeline, bound@, view, load),
{
    let ghost contents = bound@;
    let c = Command::Render {
        pipeline,
        groups: vec![bound],
        offset: 0,
        color: Some(Attachment { view, load }),
        depth: None,
        draws: vec![Draw::Fullscreen],
    };
    assert(c@ =~~= fullscreen_step(pipeline, contents, view, load));
    c
}

pub open spec fn fullscreen_step(
    pipeline: Pipeline,
    bound: GroupContents,
    view: TexView,
    load: Load,
) -> Step {
    Step::Render {
        pipeline,
        groups: seq![bound],
        offset: 0,
        color: Some(Attachment { view, load }),
        depth: None,
        draws: seq![Draw::Fullscreen],
    }
}

pub open spec fn dispatch_step(
    pipeline: Pipeline,
    bound: GroupContents,
    x: u32,
    y: u32,
    z: u32,
) -> Step {
    Step::Dispatch { pipeline, groups: seq![bound], x, y, z }
}

pub open spec fn bound(layout: Layout, bindings: Seq<Binding>) -> GroupContents {
    GroupContents { layout, bindings }
}

/// So many groups of `per_group` threads have a thread for every item, and one group fewer has not.
pub open spec fn covers(groups: u32, per_group: int, items: int) -> bool {
    &&& groups * per_group >= items
    &&& items > 0 ==> (groups - 1) * per_group < items
    &&& items <= 0 ==> groups == 0
}

/// The group gives the shader these resources, in the slots from zero on.
pub open spec fn binds(g: GroupContents, layout: Layout, resources: Seq<Resource>) -> bool {
    &&& g.layout == layout
    &&& g.bindings.len() == resources.len()
    &&& forall|i: int|
        0 <= i < resources.len() ==> (#[trigger] g.bindings[i]).slot == i
            && g.bindings[i].resource == resources[i]
}

/// The step runs a shader on these resources, with a thread for every texel of an image.
pub open spec fn computes(
    step: Step,
    pipeline: Pipeline,
    layout: Layout,
    resources: Seq<Resource>,
    width: int,
    height: int,
) -> bool {
    match step {
        Step::Dispatch { pipeline: p, groups, x, y, z } => {
            &&& p == pipeline
            &&& groups.len() == 1
            &&& binds(groups[0], layout, resources)
            &&& covers(x, 8, width)
            &&& covers(y, 8, height)
            &&& z == 1
        },
        _ => false,
    }
}

/// The step draws over a whole image with these resources.
pub open spec fn overlays(
    step: Step,
    pipeline: Pipeline,
    layout: Layout,
    resources: Seq<Resource>,
    target: TexView,
    load: Load,
) -> bool {
    match step {
        Step::Render { pipeline: p, groups, offset, color, depth, draws } => {
            &&& p == pipeline
            &&& groups.len() == 1
            &&& binds(groups[0], layout, resources)
            &&& offset == 0
            &&& color == Some(Attachment { view: target, load })
            &&& depth is None
            &&& draws.len() == 1
            &&& draws[0] == Draw::Fullscreen
        },
        _ => false,
    }
}

/// The texture has so many texels, one where there would be none, in one layer and without smaller
/// levels; shaders write and sample it.
pub open spec fn has_texels(
    desc: TextureDesc,
    view: TexView,
    width: int,
    height: int,
    format: TextureFormat,
) -> bool {
    &&& desc.view == view
    &&& desc.width == if width == 0 {
        1
    } else {
        width
    }
    &&& desc.height == if height == 0 {
        1
    } else {
        height
    }
    &&& desc.layers == 1
    &&& desc.mip_levels == 1
    &&& desc.dimension == TextureDimension::D2
    &&& desc.format == format
    &&& desc.usage.storage_binding
    &&& desc.usage.texture_binding
}

} // verus!
