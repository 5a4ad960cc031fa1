//! Tile-level editor core: a linear undo/redo history of edit batches, a tile
//! grid that edits are committed to, and the resolver that picks each wall
//! tile's sprite from its four neighbours.
pub mod action_stack;
pub mod board;
pub mod components;
pub mod editor;
pub mod laws;
