//! Rasterization of meshlets in compute shaders.

use vstd::prelude::*;

use crate::pipeline::gpu::{
    at_least_one, bind_buffer, binds, bound, compute_stage, dispatch, group, storage_entry,
    BindGroup, Buffer, Command, GroupContents, Layout, LayoutEntry, Pipeline, Resource, Step,
};
use crate::pipeline::hw_raster_pass::{frame_group, mesh_group};
use crate::pipeline::validity::valid;

verus! {

pub open spec fn dispatch_entries() -> Seq<LayoutEntry> {
    seq![
        storage_entry(0, true, compute_stage()),
        storage_entry(1, false, compute_stage()),
    ]
}

/// The meshlets to rasterize, and the pixels to write.
pub fn dispatch_layout() -> (entries: Vec<LayoutEntry>)
    ensures
        entries@ == dispatch_entries(),
{
    vec![
        storage_entry(0, true, compute_stage()),
        storage_entry(1, false, compute_stage()),
    ]
}

/// The list of meshlets that compute shaders rasterize, and the pixels.
pub open spec fn dispatch_group() -> GroupContents {
    bound(
        Layout::SwDispatch,
        seq![
            bind_buffer(0, Buffer::SwDispatchList),
            bind_buffer(1, Buffer::VisibilityStorage),
        ],
    )
}

/// One group of threads for each meshlet, and at least one.
pub open spec fn raster_step(
    frame: GroupContents,
    mesh: GroupContents,
    dispatch: GroupContents,
    meshlet_count: u32,
) -> Step {
    Step::Dispatch {
        pipeline: Pipeline::SwRaster,
        groups: seq![frame, mesh, dispatch],
        x: at_least_one(meshlet_count),
        y: 1,
        z: 1,
    }
}

/// Rasterization of small meshlets in compute shaders.
#[derive(Clone, Copy, Debug, PartialEq, Eq, Structural)]
pub struct SwRasterPass;

impl SwRasterPass {
    pub fn new() -> (pass: SwRasterPass)
        ensures
            pass == SwRasterPass,
    {
        SwRasterPass
    }

    /// The list of meshlets and the pixels of the visibility buffer.
    pub fn create_dispatch_bind_group(&self) -> (g: BindGroup)
        ensures
            g@ == dispatch_group(),
    {
        let g = group(
            Layout::SwDispatch,
            vec![
                bind_buffer(0, Buffer::SwDispatchList),
                bind_buffer(1, Buffer::VisibilityStorage),
            ],
        );
        assert(g@ =~= dispatch_group());
        g
    }

    /// Records the rasterization of `meshlet_count` meshlets.
    pub fn encode(
        &self,
        frame_bg: BindGroup,
        mesh_bg: BindGroup,
        dispatch_bg: BindGroup,
        meshlet_count: u32,
    ) -> (c: Command)
        ensures
            c@ == raster_step(frame_bg@, mesh_bg@, dispatch_bg@, meshlet_count),
    {
        let ghost expected = raster_step(frame_bg@, mesh_bg@, dispatch_bg@, meshlet_count);
        let c = Command::Dispatch {
            pipeline: Pipeline::SwRaster,
            groups: vec![frame_bg, mesh_bg, dispatch_bg],
            x: at_least_one(meshlet_count),
            y: 1,
            z: 1,
        };
        assert(c@ =~~= expected);
        c
    }
}

/// The command can be carried out.
pub proof fn sw_raster_command_is_valid(meshlet_count: u32)
    ensures
        valid(raster_step(frame_group(), mesh_group(), dispatch_group(), meshlet_count)),
{
}

/// One group of threads for each meshlet of the list, and one where there is none, with the frame, the
/// geometry, the list and the pixels.
pub proof fn small_meshlets_are_rasterized(
    frame: GroupContents,
    mesh: GroupContents,
    dispatch: GroupContents,
    meshlet_count: u32,
)
    ensures
        raster_step(frame, mesh, dispatch, meshlet_count) matches Step::Dispatch {
            pipeline,
            groups,
            x,
            y,
            z,
        } && pipeline == Pipeline::SwRaster && groups == seq![frame, mesh, dispatch] && y == 1 && z
            == 1 && x >= 1 && x >= meshlet_count && (meshlet_count > 0 ==> x == meshlet_count),
        binds(
            dispatch_group(),
            Layout::SwDispatch,
            seq![
                Resource::Buffer(Buffer::SwDispatchList),
                Resource::Buffer(Buffer::VisibilityStorage),
            ],
        ),
{
}

} // verus!
