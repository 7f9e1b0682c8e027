
pub mod acquire;
pub mod laws;
pub mod metadata;
pub mod point;
pub mod service;
pub mod unpack;

