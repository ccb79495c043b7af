pub mod configuration;
pub mod geometry;
pub mod main_state;
pub mod random;
pub mod subdivision;
pub mod triangle;
pub mod vertex;
