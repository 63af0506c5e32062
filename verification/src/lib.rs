pub mod decoder;
pub mod nibbles;
pub mod tables;
