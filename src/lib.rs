//! A fixed-length rendering benchmark: the frame counter that bounds its
//! duration, and the layout of the scene it draws.
pub mod driver;
pub mod scene;

pub use driver::{DriverState, FrameAction, FrameCounter, BENCHMARK_FRAMES, EXIT_SUCCESS};
pub use scene::{cube_columns, CUBES_PER_SIDE};
