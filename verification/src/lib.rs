pub mod entity;
pub mod flags;
pub mod scene;
