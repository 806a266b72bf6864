//! A verified core for a single-ball paddle game: a rasterizer that
//! draws only by plotting single pixels, the ball-and-paddle physics in
//! exact fixed-point arithmetic, and the per-frame bookkeeping that
//! ties both together.
//!
//! Nothing here touches a window, a clock or a keyboard. The caller
//! feeds in what it sampled (the tick counter, the pending events, the
//! held controls) and receives a [`surface::Surface`] holding the
//! pixels to put on screen.

pub mod frame;
pub mod raster;
pub mod root;
pub mod scene;
pub mod shapes;
pub mod simulation;
pub mod surface;
pub mod world;
