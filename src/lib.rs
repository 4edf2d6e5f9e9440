//! Growable, windowed views over a `Vec` (or over another window).
//!
//! A [`VecSlice`] exclusively borrows a backing value and exposes the
//! contiguous part `[start, end)` of it as a collection of its own: every
//! insertion or removal through the window is performed on the backing value,
//! and the window keeps its bounds in step.  Windows nest: a window can serve
//! as the backing value of another one.

pub mod bounds;
pub mod drain;
pub mod laws;
pub mod sliceable;
pub mod sort;
pub mod window;

pub use bounds::{Bound, Bounds};
pub use drain::Drain;
pub use sliceable::{Slice, Sliceable};
pub use window::VecSlice;
