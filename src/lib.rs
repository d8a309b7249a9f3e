//! Terminal media previews: half-block rendering of raster images, the
//! line protocol spoken by the frame-generating process, and the state
//! machine that drives a preview session.

pub mod escape;
pub mod raster;
pub mod renderer;
pub mod protocol;
pub mod session;
pub mod playback;
pub mod imgview;
pub mod cli;
