//! The character, drawn into the lit scene.

use vstd::prelude::*;

use crate::pipeline::gpu::{
    bind_buffer, binds, bound, group, uniform_buffer, uniform_entry, vertex_fragment_stages,
    vertex_stage, Attachment, BindGroup, Buffer, BufferDesc, Command, Draw, GroupContents, Layout,
    LayoutEntry, Load, Pipeline, Resource, Step, TexView,
};
use crate::pipeline::upload::{words_to, Upload};
use crate::pipeline::validity::valid;
use crate::scalar::Mat4;
use crate::scene::lighting::{matrix_words, push_matrix};
use crate::scene::vertex::Vertex;

verus! {

/// The bytes of the character's transform.
pub const MODEL_UNIFORM_SIZE: u64 = 64;

/// The bytes from one vertex of the character to the next: a position and a normal.
pub const CHARACTER_VERTEX_STRIDE: u64 = 24;

pub open spec fn scene_entries() -> Seq<LayoutEntry> {
    seq![
        uniform_entry(0, vertex_fragment_stages(), 0),
    ]
}

/// Light and camera.
pub fn scene_layout() -> (entries: Vec<LayoutEntry>)
    ensures
        entries@ == scene_entries(),
{
    vec![
        uniform_entry(0, vertex_fragment_stages(), 0),
    ]
}

pub open spec fn model_entries() -> Seq<LayoutEntry> {
    seq![
        uniform_entry(0, vertex_stage(), 0),
    ]
}

/// The character's transform.
pub fn model_layout() -> (entries: Vec<LayoutEntry>)
    ensures
        entries@ == model_entries(),
{
    vec![
        uniform_entry(0, vertex_stage(), 0),
    ]
}

/// Light and camera.
pub open spec fn scene_group(lighting: Buffer) -> GroupContents {
    bound(
        Layout::CharacterScene,
        seq![
            bind_buffer(0, lighting),
        ],
    )
}

/// The character's transform.
pub open spec fn model_group() -> GroupContents {
    bound(
        Layout::CharacterModel,
        seq![
            bind_buffer(0, Buffer::CharacterModel),
        ],
    )
}

/// The character is drawn over the scene and its depth.
pub open spec fn character_step(scene: GroupContents, color: TexView, depth: TexView) -> Step {
    Step::Render {
        pipeline: Pipeline::ForwardCharacter,
        groups: seq![scene, model_group()],
        offset: 0,
        color: Some(Attachment { view: color, load: Load::Keep }),
        depth: Some(Attachment { view: depth, load: Load::Keep }),
        draws: seq![Draw::Character],
    }
}

/// Position and normal of a vertex, one after the other.
pub open spec fn position_and_normal(v: Vertex) -> Seq<u32> {
    seq![
        v.position.x.bits,
        v.position.y.bits,
        v.position.z.bits,
        v.normal.x.bits,
        v.normal.y.bits,
        v.normal.z.bits,
    ]
}

/// The positions and normals of all vertices.
pub open spec fn flattened(vertices: Seq<Vertex>) -> Seq<u32>
    decreases vertices.len(),
{
    if vertices.len() == 0 {
        Seq::empty()
    } else {
        flattened(vertices.drop_last()) + position_and_normal(vertices.last())
    }
}

/// The words of the character's vertex buffer.
pub fn flatten_vertices(vertices: &[Vertex]) -> (words: Vec<u32>)
    ensures
        words@ == flattened(vertices@),
{
    let mut words: Vec<u32> = Vec::new();
    let mut i: usize = 0;
    while i < vertices.len()
        invariant
            i <= vertices@.len(),
            words@ == flattened(vertices@.take(i as int)),
        decreases vertices@.len() - i,
    {
        let v = vertices[i];
        let ghost before = words@;
        words.push(v.position.x.to_bits());
        words.push(v.position.y.to_bits());
        words.push(v.position.z.to_bits());
        words.push(v.normal.x.to_bits());
        words.push(v.normal.y.to_bits());
        words.push(v.normal.z.to_bits());
        assert(words@ =~= before + position_and_normal(v));
        i = i + 1;
        assert(vertices@.take(i as int).drop_last() =~= vertices@.take(i as int - 1));
    }
    assert(vertices@.take(i as int) =~= vertices@);
    words
}

/// The character, drawn with a depth test after the scene.
#[derive(Clone, Copy, Debug, PartialEq, Eq, Structural)]
pub struct ForwardCharacterPass;

impl ForwardCharacterPass {
    pub fn new() -> (pass: ForwardCharacterPass)
        ensures
            pass == ForwardCharacterPass,
    {
        ForwardCharacterPass
    }

    pub fn uniforms() -> (desc: BufferDesc)
        ensures
            desc == uniform_buffer(Buffer::CharacterModel, MODEL_UNIFORM_SIZE),
    {
        uniform_buffer(Buffer::CharacterModel, MODEL_UNIFORM_SIZE)
    }

    /// Light and camera, from the given buffer.
    pub fn create_scene_bind_group(&self, lighting_buffer: Buffer) -> (g: BindGroup)
        ensures
            g@ == scene_group(lighting_buffer),
    {
        let g = group(
            Layout::CharacterScene,
            vec![
                bind_buffer(0, lighting_buffer),
            ],
        );
        assert(g@ =~= scene_group(lighting_buffer));
        g
    }

    /// The character's transform.
    pub fn create_model_bind_group(&self) -> (g: BindGroup)
        ensures
            g@ == model_group(),
    {
        let g = group(
            Layout::CharacterModel,
            vec![
                bind_buffer(0, Buffer::CharacterModel),
            ],
        );
        assert(g@ =~= model_group());
        g
    }

    /// What the host writes where the character moves.
    pub fn write_model(&self, model: Mat4) -> (upload: Upload)
        ensures
            upload.puts(Buffer::CharacterModel, 0, matrix_words(model)),
    {
        let mut words: Vec<u32> = Vec::new();
        push_matrix(&mut words, model);
        assert(words@ =~= matrix_words(model));
        words_to(Buffer::CharacterModel, words.as_slice())
    }

    /// Records the drawing of the character.
    pub fn encode(&self, scene_bg: BindGroup, color_view: TexView, depth_view: TexView) -> (c:
        Command)
        ensures
            c@ == character_step(scene_bg@, color_view, depth_view),
    {
        let ghost expected = character_step(scene_bg@, color_view, depth_view);
        let c = Command::Render {
            pipeline: Pipeline::ForwardCharacter,
            groups: vec![scene_bg, self.create_model_bind_group()],
            offset: 0,
            color: Some(Attachment { view: color_view, load: Load::Keep }),
            depth: Some(Attachment { view: depth_view, load: Load::Keep }),
            draws: vec![Draw::Character],
        };
        assert(c@ =~~= expected);
        c
    }
}

/// The command can be carried out.
pub proof fn character_command_is_valid()
    ensures
        valid(
            character_step(
                scene_group(Buffer::LightingUniforms),
                TexView::SceneColor,
                TexView::VisibilityDepth,
            ),
        ),
{
}

/// The vertex buffer has six words for each vertex, which is the stride.
pub proof fn flattened_vertices_have_the_stride(vertices: Seq<Vertex>)
    ensures
        4 * flattened(vertices).len() == CHARACTER_VERTEX_STRIDE * vertices.len(),
    decreases vertices.len(),
{
    if vertices.len() > 0 {
        flattened_vertices_have_the_stride(vertices.drop_last());
    }
}

/// The character is drawn with its own transform, over the colour and the depth that are there.
pub proof fn character_is_drawn_over_the_scene(lighting: Buffer, color: TexView, depth: TexView)
    ensures
        character_step(scene_group(lighting), color, depth) matches Step::Render {
            pipeline,
            groups,
            offset,
            color: c,
            depth: d,
            draws,
        } && pipeline == Pipeline::ForwardCharacter && groups.len() == 2 && binds(
            groups[0],
            Layout::CharacterScene,
            seq![Resource::Buffer(lighting)],
        ) && binds(
            groups[1],
            Layout::CharacterModel,
            seq![Resource::Buffer(Buffer::CharacterModel)],
        ) && c == Some(Attachment { view: color, load: Load::Keep }) && d == Some(
            Attachment { view: depth, load: Load::Keep },
        ) && draws == seq![Draw::Character] && offset == 0,
{
}

/// Six words stand for each vertex, in order: its position, then its normal.
pub proof fn vertices_are_flattened_in_order(vertices: Seq<Vertex>, i: int)
    requires
        0 <= i < vertices.len(),
    ensures
        flattened(vertices).len() == 6 * vertices.len(),
        flattened(vertices)[6 * i] == vertices[i].position.x.bits,
        flattened(vertices)[6 * i + 1] == vertices[i].position.y.bits,
        flattened(vertices)[6 * i + 2] == vertices[i].position.z.bits,
        flattened(vertices)[6 * i + 3] == vertices[i].normal.x.bits,
        flattened(vertices)[6 * i + 4] == vertices[i].normal.y.bits,
        flattened(vertices)[6 * i + 5] == vertices[i].normal.z.bits,
    decreases vertices.len(),
{
    let rest = vertices.drop_last();
    if i < rest.len() {
        vertices_are_flattened_in_order(rest, i);
        assert(rest[i] == vertices[i]);
    } else if rest.len() > 0 {
        vertices_are_flattened_in_order(rest, 0);
    }
}

} // verus!
