//! Motion blur: the largest motion of each tile, then a blur along it.

use vstd::prelude::*;

use crate::pipeline::gpu::{
    bind_buffer, bind_view, bound, compute_stage, computes, covers, dispatch, dispatch_step, group,
    groups_cover_exactly, groups_for, has_texels, steps, storage_target, storage_texture_entry,
    texture_entry, uniform_buffer, uniform_entry, Buffer, BufferDesc, Command, Layout, LayoutEntry,
    Pipeline, Resource, SampleType, Step, TexView, TextureDesc, TextureFormat, ViewDimension,
};
use crate::pipeline::validity::{all_valid, described, is_color_source, valid};

verus! {

/// Two vectors.
pub const MOTION_BLUR_UNIFORM_SIZE: u64 = 32;

/// The width and height of a tile.
pub const TILE_SIZE: u32 = 20;

pub open spec fn tile_max_entries() -> Seq<LayoutEntry> {
    seq![
        uniform_entry(0, compute_stage(), 0),
        texture_entry(1, compute_stage(), SampleType::UnfilterableFloat, ViewDimension::D2),
        storage_texture_entry(2, TextureFormat::Rg16Float, ViewDimension::D2),
    ]
}

/// Uniforms, motion vectors, and the largest of each tile to write.
pub fn tile_max_layout() -> (entries: Vec<LayoutEntry>)
    ensures
        entries@ == tile_max_entries(),
{
    vec![
        uniform_entry(0, compute_stage(), 0),
        texture_entry(1, compute_stage(), SampleType::UnfilterableFloat, ViewDimension::D2),
        storage_texture_entry(2, TextureFormat::Rg16Float, ViewDimension::D2),
    ]
}

pub open spec fn blur_entries() -> Seq<LayoutEntry> {
    seq![
        uniform_entry(0, compute_stage(), 0),
        texture_entry(1, compute_stage(), SampleType::UnfilterableFloat, ViewDimension::D2),
        texture_entry(2, compute_stage(), SampleType::UnfilterableFloat, ViewDimension::D2),
        storage_texture_entry(3, TextureFormat::Rgba16Float, ViewDimension::D2),
    ]
}

/// Uniforms, the tiles, the scene's colour, and the blurred colour to write.
pub fn blur_layout() -> (entries: Vec<LayoutEntry>)
    ensures
        entries@ == blur_entries(),
{
    vec![
        uniform_entry(0, compute_stage(), 0),
        texture_entry(1, compute_stage(), SampleType::UnfilterableFloat, ViewDimension::D2),
        texture_entry(2, compute_stage(), SampleType::UnfilterableFloat, ViewDimension::D2),
        storage_texture_entry(3, TextureFormat::Rgba16Float, ViewDimension::D2),
    ]
}

/// The largest motion of every tile is found.
pub open spec fn tile_max_step(motion: TexView, w: u32, h: u32) -> Step {
    dispatch_step(
        Pipeline::MotionTileMax,
        bound(
            Layout::MotionTileMax,
            seq![
                bind_buffer(0, Buffer::MotionBlurUniforms),
                bind_view(1, motion),
                bind_view(2, TexView::MotionTileMax),
            ],
        ),
        groups_for(groups_for(w, TILE_SIZE), 8),
        groups_for(groups_for(h, TILE_SIZE), 8),
        1,
    )
}

fn tile_max_command(motion: TexView, w: u32, h: u32) -> (c: Command)
    ensures
        c@ == tile_max_step(motion, w, h),
{
    let c = dispatch(
        Pipeline::MotionTileMax,
        group(
            Layout::MotionTileMax,
            vec![
                bind_buffer(0, Buffer::MotionBlurUniforms),
                bind_view(1, motion),
                bind_view(2, TexView::MotionTileMax),
            ],
        ),
        groups_for(groups_for(w, TILE_SIZE), 8),
        groups_for(groups_for(h, TILE_SIZE), 8),
        1,
    );
    assert(c@ =~~= tile_max_step(motion, w, h));
    c
}

/// Every pixel is blurred along the motion of its tile.
pub open spec fn blur_step(hdr: TexView, w: u32, h: u32) -> Step {
    dispatch_step(
        Pipeline::MotionBlur,
        bound(
            Layout::MotionBlur,
            seq![
                bind_buffer(0, Buffer::MotionBlurUniforms),
                bind_view(1, TexView::MotionTileMax),
                bind_view(2, hdr),
                bind_view(3, TexView::MotionBlurred),
            ],
        ),
        groups_for(w, 8),
        groups_for(h, 8),
        1,
    )
}

fn blur_command(hdr: TexView, w: u32, h: u32) -> (c: Command)
    ensures
        c@ == blur_step(hdr, w, h),
{
    let c = dispatch(
        Pipeline::MotionBlur,
        group(
            Layout::MotionBlur,
            vec![
                bind_buffer(0, Buffer::MotionBlurUniforms),
                bind_view(1, TexView::MotionTileMax),
                bind_view(2, hdr),
                bind_view(3, TexView::MotionBlurred),
            ],
        ),
        groups_for(w, 8),
        groups_for(h, 8),
        1,
    );
    assert(c@ =~~= blur_step(hdr, w, h));
    c
}

/// Motion blur at the size of the screen.
#[derive(Clone, Copy, Debug, PartialEq, Eq, Structural)]
pub struct MotionBlurPass {
    pub width: u32,
    pub height: u32,
}

pub open spec fn motion_blur_textures(width: u32, height: u32) -> Seq<TextureDesc> {
    seq![
        storage_target(
            TexView::MotionTileMax,
            groups_for(width, TILE_SIZE),
            groups_for(height, TILE_SIZE),
            TextureFormat::Rg16Float,
        ),
        storage_target(TexView::MotionBlurred, width, height, TextureFormat::Rgba16Float),
    ]
}

impl MotionBlurPass {
    pub fn new(width: u32, height: u32) -> (pass: MotionBlurPass)
        ensures
            pass == (MotionBlurPass { width, height }),
    {
        MotionBlurPass { width, height }
    }

    /// Fits the pass to a screen; its textures are to be created anew.
    pub fn resize(&mut self, width: u32, height: u32)
        ensures
            *final(self) == (MotionBlurPass { width, height }),
    {
        self.width = width;
        self.height = height;
    }

    /// The textures of the pass at its present size: one texel for each tile, and the result.
    pub fn textures(&self) -> (descs: Vec<TextureDesc>)
        ensures
            descs@ == motion_blur_textures(self.width, self.height),
    {
        vec![
            storage_target(
                TexView::MotionTileMax,
                groups_for(self.width, TILE_SIZE),
                groups_for(self.height, TILE_SIZE),
                TextureFormat::Rg16Float,
            ),
            storage_target(
                TexView::MotionBlurred,
                self.width,
                self.height,
                TextureFormat::Rgba16Float,
            ),
        ]
    }

    pub fn uniforms() -> (desc: BufferDesc)
        ensures
            desc == uniform_buffer(Buffer::MotionBlurUniforms, MOTION_BLUR_UNIFORM_SIZE),
    {
        uniform_buffer(Buffer::MotionBlurUniforms, MOTION_BLUR_UNIFORM_SIZE)
    }

    /// What a frame records.
    pub open spec fn frame_steps(self, motion: TexView, hdr: TexView) -> Seq<Step> {
        seq![
            tile_max_step(motion, self.width, self.height),
            blur_step(hdr, self.width, self.height),
        ]
    }

    /// Records the pass from motion vectors and HDR colour.
    pub fn encode(&self, motion: TexView, hdr: TexView) -> (commands: Vec<Command>)
        ensures
            steps(commands@) == self.frame_steps(motion, hdr),
    {
        let commands = vec![
            tile_max_command(motion, self.width, self.height),
            blur_command(hdr, self.width, self.height),
        ];
        assert(steps(commands@) =~= self.frame_steps(motion, hdr));
        commands
    }

    /// The blurred colour.
    pub fn output_view(&self) -> (view: TexView)
        ensures
            view == TexView::MotionBlurred,
    {
        TexView::MotionBlurred
    }
}

/// Every command of the pass can be carried out, for colour other than the pass's own output.
pub proof fn motion_blur_commands_are_valid(pass: MotionBlurPass, motion: TexView, hdr: TexView)
    requires
        is_color_source(motion),
        is_color_source(hdr),
        hdr != TexView::MotionBlurred,
    ensures
        all_valid(pass.frame_steps(motion, hdr)),
{
    assert(valid(tile_max_step(motion, pass.width, pass.height)));
    assert(valid(blur_step(hdr, pass.width, pass.height)));
}

/// The textures are created as their views need them.
pub proof fn motion_blur_textures_fit_their_views(width: u32, height: u32)
    ensures
        forall|i: int|
            0 <= i < 2 ==> described(#[trigger] motion_blur_textures(width, height)[i]),
{
}

/// The fastest motion of every tile of 20 pixels is found, with a thread for each tile; then the colour
/// is blurred along it.
pub proof fn motion_blur_follows_the_tiles(pass: MotionBlurPass, motion: TexView, hdr: TexView)
    ensures
        ({
            let all = pass.frame_steps(motion, hdr);
            &&& all.len() == 2
            &&& computes(
                all[0],
                Pipeline::MotionTileMax,
                Layout::MotionTileMax,
                seq![
                    Resource::Buffer(Buffer::MotionBlurUniforms),
                    Resource::View(motion),
                    Resource::View(TexView::MotionTileMax),
                ],
                (pass.width + 19) / 20,
                (pass.height + 19) / 20,
            )
            &&& computes(
                all[1],
                Pipeline::MotionBlur,
                Layout::MotionBlur,
                seq![
                    Resource::Buffer(Buffer::MotionBlurUniforms),
                    Resource::View(TexView::MotionTileMax),
                    Resource::View(hdr),
                    Resource::View(TexView::MotionBlurred),
                ],
                pass.width as int,
                pass.height as int,
            )
        }),
{
}

/// Blurred colour is held for every pixel, and the fastest motion for every tile of 20 by 20.
pub proof fn motion_blur_textures_cover_the_screen(width: u32, height: u32)
    ensures
        motion_blur_textures(width, height).len() == 2,
        motion_blur_textures(width, height)[0].view == TexView::MotionTileMax,
        motion_blur_textures(width, height)[0].format == TextureFormat::Rg16Float,
        width > 0 ==> covers(motion_blur_textures(width, height)[0].width, 20, width as int),
        height > 0 ==> covers(motion_blur_textures(width, height)[0].height, 20, height as int),
        has_texels(
            motion_blur_textures(width, height)[1],
            TexView::MotionBlurred,
            width as int,
            height as int,
            TextureFormat::Rgba16Float,
        ),
{
    groups_cover_exactly(width, 20);
    groups_cover_exactly(height, 20);
}

} // verus!
