//! Scene data.

pub mod bounds;
pub mod foliage;
pub mod graph;
pub mod lighting;
pub mod settings;
pub mod shadow;
pub mod vertex;

pub use self::foliage::{pack_foliage_channels, unpack_alpha, unpack_emissive};
pub use self::graph::{
    GeometryDef, ParametricDef, ParametricKind, SceneGraph, SceneHandle, SceneNode, SdfPrimitive,
    SdfTree,
};
pub use self::lighting::LightingUniforms;
pub use self::settings::{
    AreaLight, CloudProfile, CloudResolution, SceneSettings, WindSettings,
};
pub use self::shadow::NUM_CASCADES;
pub use self::vertex::{
    MATERIAL_EMISSIVE, MATERIAL_FOLIAGE, MATERIAL_GROUND, MATERIAL_SKIN, MATERIAL_TRUNK, Vec2,
    Vertex, compute_mesh_bounds,
};
