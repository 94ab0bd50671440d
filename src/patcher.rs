//! Text patches applied to a build's scripts and stylesheets, in a fixed order.
pub mod branding;
pub mod experiments;
pub mod features;
pub mod infrastructure;
pub mod pipeline;

pub use pipeline::{Patch, PatchPipeline};
