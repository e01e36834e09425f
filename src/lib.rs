//! A software triangle rasterizer: the integer and combinatorial parts of its
//! pipeline, each stated by a contract and proved.

pub mod clipping;
pub mod framebuffer;
pub mod input;
pub mod mathi;
pub mod numerics;
pub mod raster;
pub mod render_target;
pub mod resource_helper;
pub mod scan;
