//! Escape-time rendering of zoom frames into the Mandelbrot set: the colour ramp,
//! the partition of a frame into horizontal bands, the parsing of pair arguments and
//! the names of the frame files.
pub mod palette;
pub mod bands;
pub mod pairs;
pub mod frames;
pub mod writer;
