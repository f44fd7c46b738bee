//! The visibility buffer, the lists of meshlets to rasterize, and their rasterization by hardware.

use vstd::prelude::*;

use crate::pipeline::gpu::{
    all_stages, bind_buffer, binds, bound, dispatch, group, steps, storage_and_sampled,
    storage_entry, uniform_buffer, uniform_entry, vertex_stage, Attachment, BindGroup, Buffer,
    BufferDesc, BufferUsages, Command, Draw, GroupContents, Layout, LayoutEntry, Load, Pipeline,
    Resource, Step, TexView, TextureDesc, TextureDimension, TextureFormat, TextureUsages,
};
use crate::pipeline::upload::{words_to, Upload};
use crate::pipeline::validity::{all_valid, described, valid};
use crate::scalar::{Mat4, Vec4};
use crate::scene::lighting::{
    matrix_at, matrix_words, push_matrix, push_vector, vector_at, vector_words,
};

verus! {

/// The most triangles a meshlet has.
pub const MAX_MESHLET_TRIANGLES: u32 = 124;

/// The vertices of one instance, enough for any meshlet.
pub const MAX_VERTS_PER_MESHLET_DRAW: u32 = MAX_MESHLET_TRIANGLES * 3;

/// A matrix, four vectors and six planes.
pub const FRAME_UNIFORM_SIZE: u64 = 224;

pub open spec fn frame_entries() -> Seq<LayoutEntry> {
    seq![
        uniform_entry(0, all_stages(), 0),
    ]
}

/// What all passes over meshlets know of the frame.
pub fn frame_layout() -> (entries: Vec<LayoutEntry>)
    ensures
        entries@ == frame_entries(),
{
    vec![
        uniform_entry(0, all_stages(), 0),
    ]
}

pub open spec fn mesh_entries() -> Seq<LayoutEntry> {
    seq![
        storage_entry(0, true, all_stages()),
        storage_entry(1, true, all_stages()),
        storage_entry(2, true, all_stages()),
        storage_entry(3, true, all_stages()),
    ]
}

/// Vertices, the meshlets' vertex and triangle lists, and the meshlets.
pub fn mesh_layout() -> (entries: Vec<LayoutEntry>)
    ensures
        entries@ == mesh_entries(),
{
    vec![
        storage_entry(0, true, all_stages()),
        storage_entry(1, true, all_stages()),
        storage_entry(2, true, all_stages()),
        storage_entry(3, true, all_stages()),
    ]
}

pub open spec fn dispatch_entries() -> Seq<LayoutEntry> {
    seq![
        storage_entry(0, true, vertex_stage()),
    ]
}

/// The meshlets to draw.
pub fn dispatch_layout() -> (entries: Vec<LayoutEntry>)
    ensures
        entries@ == dispatch_entries(),
{
    vec![
        storage_entry(0, true, vertex_stage()),
    ]
}

/// The uniforms of the frame.
pub open spec fn frame_group() -> GroupContents {
    bound(
        Layout::Frame,
        seq![
            bind_buffer(0, Buffer::FrameUniforms),
        ],
    )
}

/// The geometry of the scene.
pub open spec fn mesh_group() -> GroupContents {
    bound(
        Layout::Mesh,
        seq![
            bind_buffer(0, Buffer::MeshVertices),
            bind_buffer(1, Buffer::MeshletVertices),
            bind_buffer(2, Buffer::MeshletTriangles),
            bind_buffer(3, Buffer::MeshletDescs),
        ],
    )
}

/// The list of meshlets that hardware draws.
pub open spec fn dispatch_group() -> GroupContents {
    bound(
        Layout::HwDispatch,
        seq![
            bind_buffer(0, Buffer::HwDispatchList),
        ],
    )
}

/// The lists of meshlets that culling fills for both rasterizers.
#[derive(Clone, Copy, Debug, PartialEq, Eq, Structural)]
pub struct DispatchLists {
    /// How many meshlets a list can hold.
    pub max_meshlets: u32,
}

/// The buffers of the lists, their counters, and the arguments of the indirect draw.
pub open spec fn dispatch_buffers(max_meshlets: u32) -> Seq<BufferDesc> {
    seq![
        list_buffer(Buffer::HwDispatchList, max_meshlets),
        counter_buffer(Buffer::HwDispatchCount),
        list_buffer(Buffer::SwDispatchList, max_meshlets),
        counter_buffer(Buffer::SwDispatchCount),
        draw_args_buffer(),
    ]
}

/// A list of words that shaders fill.
#[verifier::allow_in_spec]
pub fn list_buffer(buffer: Buffer, words: u32) -> BufferDesc
    returns
        (BufferDesc {
            buffer,
            size: (words * 4) as u64,
            usage: BufferUsages {
                uniform: false,
                storage: true,
                indirect: false,
                vertex: false,
                index: false,
                copy_src: false,
                copy_dst: true,
            },
        }),
{
    BufferDesc {
        buffer,
        size: words as u64 * 4,
        usage: BufferUsages {
            uniform: false,
            storage: true,
            indirect: false,
            vertex: false,
            index: false,
            copy_src: false,
            copy_dst: true,
        },
    }
}

/// One word that shaders count with, and that is copied from.
#[verifier::allow_in_spec]
pub fn counter_buffer(buffer: Buffer) -> BufferDesc
    returns
        (BufferDesc {
            buffer,
            size: 4,
            usage: BufferUsages {
                uniform: false,
                storage: true,
                indirect: false,
                vertex: false,
                index: false,
                copy_src: true,
                copy_dst: true,
            },
        }),
{
    BufferDesc {
        buffer,
        size: 4,
        usage: BufferUsages {
            uniform: false,
            storage: true,
            indirect: false,
            vertex: false,
            index: false,
            copy_src: true,
            copy_dst: true,
        },
    }
}

/// The arguments of the indirect draw: vertex count, instance count, first vertex, first instance.
#[verifier::allow_in_spec]
pub fn draw_args_buffer() -> BufferDesc
    returns
        (BufferDesc {
            buffer: Buffer::HwIndirectDraw,
            size: 16,
            usage: BufferUsages {
                uniform: false,
                storage: false,
                indirect: true,
                vertex: false,
                index: false,
                copy_src: false,
                copy_dst: true,
            },
        }),
{
    BufferDesc {
        buffer: Buffer::HwIndirectDraw,
        size: 16,
        usage: BufferUsages {
            uniform: false,
            storage: false,
            indirect: true,
            vertex: false,
            index: false,
            copy_src: false,
            copy_dst: true,
        },
    }
}

/// Where the instance count stands among the arguments of the indirect draw.
pub const INSTANCE_COUNT_OFFSET: u64 = 4;

/// The counters go to zero, and so does the instance count of the draw, which is copied from one.
pub open spec fn clear_lists_steps() -> Seq<Step> {
    seq![
        Step::Clear { buffer: Buffer::HwDispatchCount },
        Step::Clear { buffer: Buffer::SwDispatchCount },
        prepare_indirect_step(),
    ]
}

/// The number of meshlets that culling kept becomes the instance count of the draw.
pub open spec fn prepare_indirect_step() -> Step {
    Step::Copy {
        from: Buffer::HwDispatchCount,
        from_offset: 0,
        to: Buffer::HwIndirectDraw,
        to_offset: INSTANCE_COUNT_OFFSET,
        size: 4,
    }
}

impl DispatchLists {
    pub fn new(max_meshlets: u32) -> (lists: DispatchLists)
        ensures
            lists.max_meshlets == max_meshlets,
    {
        DispatchLists { max_meshlets }
    }

    pub fn buffers(&self) -> (descs: Vec<BufferDesc>)
        ensures
            descs@ == dispatch_buffers(self.max_meshlets),
    {
        vec![
            list_buffer(Buffer::HwDispatchList, self.max_meshlets),
            counter_buffer(Buffer::HwDispatchCount),
            list_buffer(Buffer::SwDispatchList, self.max_meshlets),
            counter_buffer(Buffer::SwDispatchCount),
            draw_args_buffer(),
        ]
    }

    /// What the arguments of the indirect draw start with: no instances.
    pub fn initial_draw_args(&self) -> (upload: Upload)
        ensures
            upload.puts(Buffer::HwIndirectDraw, 0, seq![MAX_VERTS_PER_MESHLET_DRAW, 0, 0, 0]),
    {
        let words: Vec<u32> = vec![MAX_VERTS_PER_MESHLET_DRAW, 0, 0, 0];
        assert(words@ =~= seq![MAX_VERTS_PER_MESHLET_DRAW, 0, 0, 0]);
        words_to(Buffer::HwIndirectDraw, words.as_slice())
    }

    /// Empties both lists, so that the indirect draw has no instances.
    pub fn clear(&self) -> (commands: Vec<Command>)
        ensures
            steps(commands@) == clear_lists_steps(),
    {
        let commands = vec![
            Command::Clear { buffer: Buffer::HwDispatchCount },
            Command::Clear { buffer: Buffer::SwDispatchCount },
            self.prepare_indirect(),
        ];
        assert(steps(commands@) =~= clear_lists_steps());
        commands
    }

    /// Empties the list of the hardware rasterizer.
    pub fn clear_hw_count(&self) -> (c: Command)
        ensures
            c@ == (Step::Clear { buffer: Buffer::HwDispatchCount }),
    {
        Command::Clear { buffer: Buffer::HwDispatchCount }
    }

    /// To be recorded after culling.
    pub fn prepare_indirect(&self) -> (c: Command)
        ensures
            c@ == prepare_indirect_step(),
    {
        Command::Copy {
            from: Buffer::HwDispatchCount,
            from_offset: 0,
            to: Buffer::HwIndirectDraw,
            to_offset: INSTANCE_COUNT_OFFSET,
            size: 4,
        }
    }
}

/// The buffer of visible triangles: their ids, depth, and a buffer for software rasterization.
#[derive(Clone, Copy, Debug, PartialEq, Eq, Structural)]
pub struct VisibilityBuffer {
    pub width: u32,
    pub height: u32,
}

/// A texture of the visibility buffer.
#[verifier::allow_in_spec]
pub fn visibility_texture(
    view: TexView,
    width: u32,
    height: u32,
    format: TextureFormat,
    usage: TextureUsages,
) -> TextureDesc
    returns
        (TextureDesc {
            view,
            width,
            height,
            layers: 1,
            mip_levels: 1,
            dimension: TextureDimension::D2,
            format,
            usage,
        }),
{
    TextureDesc {
        view,
        width,
        height,
        layers: 1,
        mip_levels: 1,
        dimension: TextureDimension::D2,
        format,
        usage,
    }
}

#[verifier::allow_in_spec]
pub fn id_usage() -> TextureUsages
    returns
        (TextureUsages {
            copy_src: false,
            copy_dst: true,
            texture_binding: true,
            storage_binding: true,
            render_attachment: true,
        }),
{
    TextureUsages {
        copy_src: false,
        copy_dst: true,
        texture_binding: true,
        storage_binding: true,
        render_attachment: true,
    }
}

#[verifier::allow_in_spec]
pub fn depth_usage() -> TextureUsages
    returns
        (TextureUsages {
            copy_src: true,
            copy_dst: false,
            texture_binding: true,
            storage_binding: false,
            render_attachment: true,
        }),
{
    TextureUsages {
        copy_src: true,
        copy_dst: false,
        texture_binding: true,
        storage_binding: false,
        render_attachment: true,
    }
}

/// Ids, native depth, and depth as floats for passes that sample it.
pub open spec fn visibility_textures(width: u32, height: u32) -> Seq<TextureDesc> {
    seq![
        visibility_texture(
            TexView::VisibilityId,
            width,
            height,
            TextureFormat::R32Uint,
            id_usage(),
        ),
        visibility_texture(
            TexView::VisibilityDepth,
            width,
            height,
            TextureFormat::Depth32Float,
            depth_usage(),
        ),
        visibility_texture(
            TexView::VisibilityDepthFloat,
            width,
            height,
            TextureFormat::R32Float,
            storage_and_sampled(),
        ),
    ]
}

impl VisibilityBuffer {
    pub fn new(width: u32, height: u32) -> (vis: VisibilityBuffer)
        ensures
            vis == (VisibilityBuffer { width, height }),
    {
        VisibilityBuffer { width, height }
    }

    pub fn textures(&self) -> (descs: Vec<TextureDesc>)
        ensures
            descs@ == visibility_textures(self.width, self.height),
    {
        vec![
            visibility_texture(
                TexView::VisibilityId,
                self.width,
                self.height,
                TextureFormat::R32Uint,
                id_usage(),
            ),
            visibility_texture(
                TexView::VisibilityDepth,
                self.width,
                self.height,
                TextureFormat::Depth32Float,
                depth_usage(),
            ),
            visibility_texture(
                TexView::VisibilityDepthFloat,
                self.width,
                self.height,
                TextureFormat::R32Float,
                storage_and_sampled(),
            ),
        ]
    }

    /// Four bytes for every pixel, or `None` where they are more than 64 bits can count.
    pub fn storage_buffer(&self) -> (desc: Option<BufferDesc>)
        ensures
            self.width * self.height * 4 > u64::MAX <==> desc is None,
            desc matches Some(d) ==> d.buffer == Buffer::VisibilityStorage && d.size == self.width
                * self.height * 4 && d.usage == list_buffer(Buffer::VisibilityStorage, 0).usage,
    {
        proof {
            lemma_pixels_fit(self.width, self.height);
        }
        let pixels: u64 = self.width as u64 * self.height as u64;
        match pixels.checked_mul(4) {
            Some(size) => Some(
                BufferDesc {
                    buffer: Buffer::VisibilityStorage,
                    size,
                    usage: list_buffer(Buffer::VisibilityStorage, 0).usage,
                },
            ),
            None => None,
        }
    }

    /// Empties the buffer of the software rasterizer.
    pub fn clear(&self) -> (c: Command)
        ensures
            c@ == (Step::Clear { buffer: Buffer::VisibilityStorage }),
    {
        Command::Clear { buffer: Buffer::VisibilityStorage }
    }
}

proof fn lemma_pixels_fit(width: u32, height: u32)
    ensures
        0 <= width * height <= u64::MAX,
{
    assert(0 <= width * height <= 0xFFFF_FFFF * 0xFFFF_FFFF) by (nonlinear_arith)
        requires
            0 <= width <= 0xFFFF_FFFF,
            0 <= height <= 0xFFFF_FFFF,
    ;
}

/// Draws the listed meshlets into the visibility buffer.
pub open spec fn raster_step(
    frame: GroupContents,
    mesh: GroupContents,
    dispatch: GroupContents,
    load: Load,
) -> Step {
    Step::Render {
        pipeline: Pipeline::HwVisibility,
        groups: seq![frame, mesh, dispatch],
        offset: 0,
        color: Some(Attachment { view: TexView::VisibilityId, load }),
        depth: Some(Attachment { view: TexView::VisibilityDepth, load }),
        draws: seq![Draw::Indirect(Buffer::HwIndirectDraw)],
    }
}

fn raster_command(frame: BindGroup, mesh: BindGroup, dispatch: BindGroup, load: Load) -> (c: Command)
    ensures
        c@ == raster_step(frame@, mesh@, dispatch@, load),
{
    let ghost expected = raster_step(frame@, mesh@, dispatch@, load);
    let c = Command::Render {
        pipeline: Pipeline::HwVisibility,
        groups: vec![frame, mesh, dispatch],
        offset: 0,
        color: Some(Attachment { view: TexView::VisibilityId, load }),
        depth: Some(Attachment { view: TexView::VisibilityDepth, load }),
        draws: vec![Draw::Indirect(Buffer::HwIndirectDraw)],
    };
    assert(c@ =~~= expected);
    c
}

/// What passes over meshlets know of the frame, in the order in which shaders read it.
#[derive(Clone, Copy, Debug)]
pub struct VisbufFrameUniforms {
    pub view_proj: Mat4,
    pub camera_position: Vec4,
    /// Width, height and their reciprocals.
    pub screen_size: Vec4,
    /// The error in pixels below which a group is drawn, and the factor of the field of view.
    pub error_threshold: Vec4,
    pub frustum_planes: [Vec4; 6],
    /// Whether the depth pyramid can be used, its levels, and its width and height.
    pub hzb_params: Vec4,
}

impl VisbufFrameUniforms {
    /// The words of all uniforms, field after field.
    pub open spec fn word_list(self) -> Seq<u32> {
        matrix_words(self.view_proj) + vector_words(self.camera_position) + vector_words(
            self.screen_size,
        ) + vector_words(self.error_threshold) + vector_words(self.frustum_planes@[0])
            + vector_words(self.frustum_planes@[1]) + vector_words(self.frustum_planes@[2])
            + vector_words(self.frustum_planes@[3]) + vector_words(self.frustum_planes@[4])
            + vector_words(self.frustum_planes@[5]) + vector_words(self.hzb_params)
    }
}

/// The uniforms fill their buffer exactly.
pub proof fn frame_uniforms_fill_their_buffer(u: VisbufFrameUniforms)
    ensures
        4 * u.word_list().len() == FRAME_UNIFORM_SIZE,
{
}

/// Rasterization of meshlets by hardware. Each instance is one meshlet.
#[derive(Clone, Copy, Debug, PartialEq, Eq, Structural)]
pub struct HwRasterPass;

impl HwRasterPass {
    pub fn new() -> (pass: HwRasterPass)
        ensures
            pass == HwRasterPass,
    {
        HwRasterPass
    }

    pub fn uniforms() -> (desc: BufferDesc)
        ensures
            desc == uniform_buffer(Buffer::FrameUniforms, FRAME_UNIFORM_SIZE),
    {
        uniform_buffer(Buffer::FrameUniforms, FRAME_UNIFORM_SIZE)
    }

    /// The uniforms of the frame, for every pass over meshlets.
    pub fn create_frame_bind_group(&self) -> (g: BindGroup)
        ensures
            g@ == frame_group(),
    {
        let g = group(
            Layout::Frame,
            vec![
                bind_buffer(0, Buffer::FrameUniforms),
            ],
        );
        assert(g@ =~= frame_group());
        g
    }

    /// The geometry of the scene.
    pub fn create_mesh_bind_group(&self) -> (g: BindGroup)
        ensures
            g@ == mesh_group(),
    {
        let g = group(
            Layout::Mesh,
            vec![
                bind_buffer(0, Buffer::MeshVertices),
                bind_buffer(1, Buffer::MeshletVertices),
                bind_buffer(2, Buffer::MeshletTriangles),
                bind_buffer(3, Buffer::MeshletDescs),
            ],
        );
        assert(g@ =~= mesh_group());
        g
    }

    /// The list of meshlets to draw.
    pub fn create_dispatch_bind_group(&self) -> (g: BindGroup)
        ensures
            g@ == dispatch_group(),
    {
        let g = group(
            Layout::HwDispatch,
            vec![
                bind_buffer(0, Buffer::HwDispatchList),
            ],
        );
        assert(g@ =~= dispatch_group());
        g
    }

    /// The layout of the frame's uniforms, which other passes share.
    pub fn frame_bind_group_layout(&self) -> (layout: Layout)
        ensures
            layout == Layout::Frame,
    {
        Layout::Frame
    }

    /// The layout of the scene's geometry, which other passes share.
    pub fn mesh_bind_group_layout(&self) -> (layout: Layout)
        ensures
            layout == Layout::Mesh,
    {
        Layout::Mesh
    }

    /// What the host writes before a frame.
    pub fn write_uniforms(&self, uniforms: &VisbufFrameUniforms) -> (upload: Upload)
        ensures
            upload.puts(Buffer::FrameUniforms, 0, uniforms.word_list()),
    {
        let mut words: Vec<u32> = Vec::new();
        push_matrix(&mut words, uniforms.view_proj);
        push_vector(&mut words, uniforms.camera_position);
        push_vector(&mut words, uniforms.screen_size);
        push_vector(&mut words, uniforms.error_threshold);
        push_vector(&mut words, uniforms.frustum_planes[0]);
        push_vector(&mut words, uniforms.frustum_planes[1]);
        push_vector(&mut words, uniforms.frustum_planes[2]);
        push_vector(&mut words, uniforms.frustum_planes[3]);
        push_vector(&mut words, uniforms.frustum_planes[4]);
        push_vector(&mut words, uniforms.frustum_planes[5]);
        push_vector(&mut words, uniforms.hzb_params);
        assert(words@ =~= uniforms.word_list());
        words_to(Buffer::FrameUniforms, words.as_slice())
    }

    /// Records the first fill of the visibility buffer, which starts it afresh.
    pub fn encode(&self, frame_bg: BindGroup, mesh_bg: BindGroup, dispatch_bg: BindGroup) -> (c:
        Command)
        ensures
            c@ == raster_step(frame_bg@, mesh_bg@, dispatch_bg@, Load::Clear),
    {
        raster_command(frame_bg, mesh_bg, dispatch_bg, Load::Clear)
    }

    /// Records the second fill of a frame, which keeps what the first one drew.
    pub fn encode_phase2(
        &self,
        frame_bg: BindGroup,
        mesh_bg: BindGroup,
        dispatch_bg: BindGroup,
    ) -> (c: Command)
        ensures
            c@ == raster_step(frame_bg@, mesh_bg@, dispatch_bg@, Load::Keep),
    {
        raster_command(frame_bg, mesh_bg, dispatch_bg, Load::Keep)
    }
}

/// With the groups that the pass creates, both fills can be carried out, and so can the commands on
/// the lists.
pub proof fn raster_commands_are_valid(load: Load)
    ensures
        valid(raster_step(frame_group(), mesh_group(), dispatch_group(), load)),
        all_valid(clear_lists_steps()),
        valid(prepare_indirect_step()),
{
}

/// The textures are created as their views need them, where the screen has any pixels.
pub proof fn visibility_textures_fit_their_views(width: u32, height: u32)
    requires
        width > 0,
        height > 0,
    ensures
        forall|i: int| 0 <= i < 3 ==> described(#[trigger] visibility_textures(width, height)[i]),
{
}

/// The instance count that is copied lies inside the arguments of the draw and inside the counter.
pub proof fn indirect_copy_is_in_bounds(max_meshlets: u32)
    ensures
        prepare_indirect_step()->Copy_from_offset + prepare_indirect_step()->Copy_size
            <= dispatch_buffers(max_meshlets)[1].size,
        prepare_indirect_step()->Copy_to_offset + prepare_indirect_step()->Copy_size
            <= dispatch_buffers(max_meshlets)[4].size,
        dispatch_buffers(max_meshlets)[1].buffer == prepare_indirect_step()->Copy_from,
        dispatch_buffers(max_meshlets)[4].buffer == prepare_indirect_step()->Copy_to,
{
}

/// The step draws the listed meshlets into the visibility buffer, one instance for each.
pub open spec fn rasterizes(step: Step, load: Load) -> bool {
    match step {
        Step::Render { pipeline, groups, offset, color, depth, draws } => {
            &&& pipeline == Pipeline::HwVisibility
            &&& groups.len() == 3
            &&& binds(groups[0], Layout::Frame, seq![Resource::Buffer(Buffer::FrameUniforms)])
            &&& binds(
                groups[1],
                Layout::Mesh,
                seq![
                    Resource::Buffer(Buffer::MeshVertices),
                    Resource::Buffer(Buffer::MeshletVertices),
                    Resource::Buffer(Buffer::MeshletTriangles),
                    Resource::Buffer(Buffer::MeshletDescs),
                ],
            )
            &&& binds(groups[2], Layout::HwDispatch, seq![Resource::Buffer(Buffer::HwDispatchList)])
            &&& offset == 0
            &&& color == Some(Attachment { view: TexView::VisibilityId, load })
            &&& depth == Some(Attachment { view: TexView::VisibilityDepth, load })
            &&& draws.len() == 1
            &&& draws[0] == Draw::Indirect(Buffer::HwIndirectDraw)
        },
        _ => false,
    }
}

/// The step makes the number of meshlets that culling kept the instance count of the draw, which
/// stands second among its arguments.
pub open spec fn counts_instances(step: Step) -> bool {
    step == (Step::Copy {
        from: Buffer::HwDispatchCount,
        from_offset: 0,
        to: Buffer::HwIndirectDraw,
        to_offset: 4,
        size: 4,
    })
}

/// Kept meshlets are drawn, after the first clearing or over what is there; to clear the lists is to
/// set both counters to zero, and after them the instance count.
pub proof fn kept_meshlets_are_rasterized(load: Load)
    ensures
        rasterizes(raster_step(frame_group(), mesh_group(), dispatch_group(), load), load),
        counts_instances(prepare_indirect_step()),
        clear_lists_steps().len() == 3,
        clear_lists_steps()[0] == (Step::Clear { buffer: Buffer::HwDispatchCount }),
        clear_lists_steps()[1] == (Step::Clear { buffer: Buffer::SwDispatchCount }),
        counts_instances(clear_lists_steps()[2]),
{
}

/// An instance has three vertices for each of the 124 triangles that a meshlet can have.
pub proof fn instances_hold_any_meshlet()
    ensures
        MAX_VERTS_PER_MESHLET_DRAW == 372,
{
}

/// Where each uniform of a frame stands among the words that shaders read.
#[verifier::rlimit(60)]
pub proof fn frame_words_stand_in_order(u: VisbufFrameUniforms)
    ensures
        u.word_list().len() == 56,
        matrix_at(u.word_list(), 0, u.view_proj),
        vector_at(u.word_list(), 16, u.camera_position),
        vector_at(u.word_list(), 20, u.screen_size),
        vector_at(u.word_list(), 24, u.error_threshold),
        vector_at(u.word_list(), 28, u.frustum_planes@[0]),
        vector_at(u.word_list(), 32, u.frustum_planes@[1]),
        vector_at(u.word_list(), 36, u.frustum_planes@[2]),
        vector_at(u.word_list(), 40, u.frustum_planes@[3]),
        vector_at(u.word_list(), 44, u.frustum_planes@[4]),
        vector_at(u.word_list(), 48, u.frustum_planes@[5]),
        vector_at(u.word_list(), 52, u.hzb_params),
{
}

/// Each list holds as many words as there can be meshlets; counters are one word, and can be copied.
pub proof fn dispatch_buffers_hold_their_lists(max_meshlets: u32)
    ensures
        dispatch_buffers(max_meshlets).len() == 5,
        dispatch_buffers(max_meshlets)[0].buffer == Buffer::HwDispatchList,
        dispatch_buffers(max_meshlets)[0].size == 4 * max_meshlets,
        dispatch_buffers(max_meshlets)[1].buffer == Buffer::HwDispatchCount,
        dispatch_buffers(max_meshlets)[1].size == 4,
        dispatch_buffers(max_meshlets)[1].usage.copy_src,
        dispatch_buffers(max_meshlets)[2].buffer == Buffer::SwDispatchList,
        dispatch_buffers(max_meshlets)[2].size == 4 * max_meshlets,
        dispatch_buffers(max_meshlets)[3].buffer == Buffer::SwDispatchCount,
        dispatch_buffers(max_meshlets)[3].size == 4,
        dispatch_buffers(max_meshlets)[3].usage.copy_src,
        dispatch_buffers(max_meshlets)[4].buffer == Buffer::HwIndirectDraw,
        dispatch_buffers(max_meshlets)[4].size == 16,
        dispatch_buffers(max_meshlets)[4].usage.indirect,
        forall|i: int|
            0 <= i < 5 ==> (#[trigger] dispatch_buffers(max_meshlets)[i]).usage.copy_dst,
        forall|i: int|
            0 <= i < 4 ==> (#[trigger] dispatch_buffers(max_meshlets)[i]).usage.storage,
{
}

/// The visibility buffer has the size of the screen: ids as whole numbers, depth to test against, and
/// depth as numbers that shaders write.
pub proof fn visibility_textures_cover_the_screen(width: u32, height: u32)
    ensures
        visibility_textures(width, height).len() == 3,
        visibility_textures(width, height)[0].view == TexView::VisibilityId,
        visibility_textures(width, height)[0].format == TextureFormat::R32Uint,
        visibility_textures(width, height)[1].view == TexView::VisibilityDepth,
        visibility_textures(width, height)[1].format == TextureFormat::Depth32Float,
        visibility_textures(width, height)[2].view == TexView::VisibilityDepthFloat,
        visibility_textures(width, height)[2].format == TextureFormat::R32Float,
        forall|i: int|
            0 <= i < 3 ==> (#[trigger] visibility_textures(width, height)[i]).width == width
                && visibility_textures(width, height)[i].height == height
                && visibility_textures(width, height)[i].layers == 1
                && visibility_textures(width, height)[i].mip_levels == 1
                && visibility_textures(width, height)[i].usage.texture_binding,
        visibility_textures(width, height)[0].usage.render_attachment,
        visibility_textures(width, height)[1].usage.render_attachment,
        visibility_textures(width, height)[0].usage.storage_binding,
        visibility_textures(width, height)[2].usage.storage_binding,
{
}

} // verus!
