pub mod attribute;
pub mod band;
pub mod engine;
pub mod event;
