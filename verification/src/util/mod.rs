pub mod bytes;
pub mod frc;
