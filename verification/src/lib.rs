pub mod error;
pub mod mover;
pub mod rng;
pub mod time_format;
