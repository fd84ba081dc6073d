//! Perturbation-theory engine for deep-zoom Mandelbrot rendering.
//!
//! One arbitrary-precision reference trajectory is computed per viewport, and
//! every pixel trajectory is expressed as a low-precision delta from it.  This
//! crate holds the numeric core: the reference-orbit engine, the series
//! approximation engine, the precision-selection discipline, and the packing
//! of the results into the byte layout that the GPU kernel consumes.  Window,
//! surface and GPU plumbing are external collaborators and live outside it.

pub mod model;
pub mod bigfloat;
pub mod orbit;
pub mod series;
pub mod gpu;
pub mod editor;
pub mod recompute;
