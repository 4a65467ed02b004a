//! The cell grid of a three-dimensional maze and the rules for moving through it.
//!
//! A map is written as text, one box-drawing glyph per cell. [`map_parser`] reads
//! the text, and [`cells::Cells`] holds the grid of direction flags ([`cell`])
//! that it describes. [`ibounds3::IBounds3`] says where the grid lies in the
//! world, and [`coordinates`] converts between the coordinate spaces.
//! [`navigation`] decides whether an agent may step from one cell to the next,
//! [`bots`] which way an agent turns, and [`scene`] what stands for each cell in
//! the world.
pub mod bots;
pub mod cell;
pub mod cells;
pub mod coordinates;
pub mod ibounds3;
pub mod ivec3;
pub mod map_parser;
pub mod navigation;
pub mod scene;
