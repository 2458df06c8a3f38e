//! Sharing rendered frames with a media server.

pub mod cast;
pub mod cast_inner;
pub mod cast_state;
pub mod cursor;
pub mod delivery;
pub mod dmabuf_layout;
pub mod fence_export;
pub mod formats;
pub mod negotiation;
pub mod params;
pub mod passes;
pub mod queue_result;
pub mod shm_buffer;
pub mod shm_layout;
pub mod shm_mapping;
pub mod shm_readback;
pub mod spa;
pub mod timing;
