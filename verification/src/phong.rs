pub mod material;
pub use crate::phong::material::Material;

pub mod forward_pipeline;
pub use crate::phong::forward_pipeline::ForwardPipeline;

pub mod deferred_pipeline;
pub use crate::phong::deferred_pipeline::DeferredPipeline;

pub mod agreement;
