//! Frame-level bookkeeping for a 2D camera: the ordered draw queues that
//! game logic fills and the renderer drains once per frame, and the
//! per-axis decision of the camera-follow clamp.

pub mod batches;
pub mod follow;
pub mod queue;
