pub mod math;
pub mod spectrum;

pub use math::{One, SquareRoot, Vec2, Vec3};
