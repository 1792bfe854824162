pub mod counter;
pub mod global;
pub mod keyed;
