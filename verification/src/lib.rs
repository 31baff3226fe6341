//! Stacks of jittered squares on a fixed grid.
//!
//! A scene is a grid of seven by nine stacks. Each stack holds eight closed
//! outlines of a rectangle whose corners are displaced at random, the more so
//! the higher the outline lies in its stack and the further the stack's cell
//! is from the grid's diagonal. Mouse events regenerate the outlines, change
//! how many of them are shown, and number the frames that are written out.
//!
//! Every length is a whole number of units, 110,000 to the pixel, and every
//! jitter factor a whole number of millionths: with these two scales each
//! coordinate that the scene can hold is an integer, and the contracts are
//! exact.

pub mod frame;
pub mod geometry;
pub mod model;
pub mod palette;
pub mod random;
pub mod square;
pub mod structure;
