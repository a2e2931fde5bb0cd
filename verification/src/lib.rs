//! The integer core of a terminal renderer that draws a rotating cube in
//! ASCII art: depth-tested rasterization into a character grid, the layout
//! of a presented frame, and the cycle of the frame loop.
//!
//! Everything here works on whole numbers. Double-precision values (inverse
//! depths, screen coordinates before truncation) are carried as their IEEE
//! 754 bit patterns, and rotation angles as whole milliradians.

pub mod frame_loop;
pub mod ieee;
pub mod occlusion;
pub mod present;
pub mod raster;
pub mod sampler;
