//! Screen capture for a compositor: incremental readback of rendered frames, shared-memory and
//! DMA-BUF buffer layouts, format negotiation, and ordered delivery of finished frames.

pub mod drm;
pub mod geometry;
pub mod incremental;
pub mod pipeline;
pub mod render_helpers;
pub mod screencasting;
