pub mod matrix_2x2;
pub mod matrix_3x3;
pub mod matrix_4x4;
