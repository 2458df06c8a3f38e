//! Reading rendered frames back from the GPU.

pub mod gl_strings;
pub mod pbo;
pub mod pixel_order;
pub mod pooled_mapping;
pub mod readback_damage;
pub mod staging;
pub mod transfer;
