//! The rules of the prism renderer, kept apart from the device that carries them out.
//!
//! Scene data, level-of-detail selection and the passes of a frame are described here with plain
//! values: identifiers, sizes, layouts and recorded commands. A host owns the graphics device and
//! performs what the library records.

pub mod dag_cut;
pub mod dag_merge;
pub mod material;
pub mod meshlet;
pub mod pipeline;
pub mod renderer;
pub mod runtime_scene;
pub mod scalar;
pub mod scene;
pub mod scene_data;
pub mod scene_upload;
pub mod solver;
pub mod soundstage;
pub mod source_scene;
