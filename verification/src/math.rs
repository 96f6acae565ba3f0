pub mod adjugate;
pub mod matrix;
pub mod number_traits;
pub mod vector;
