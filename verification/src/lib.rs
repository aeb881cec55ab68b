use vstd::prelude::*;

pub mod indices;
pub mod blend;
pub mod command;
pub mod prepare;
pub mod plan;
pub mod plan_laws;
pub mod rule_laws;
pub mod choice_laws;
pub mod block_laws;
pub mod vertex_laws;
pub mod states;
pub mod pipeline;
pub mod pipeline_cache;
pub mod pipeline_laws;
pub mod bind_group;
pub mod geometry;
pub mod texture;
pub mod stencil_texture;
pub mod swap_chain;
pub mod buffer;
