pub mod fault;
pub mod geometry;
pub mod state;
