pub mod gridable;
pub mod mesh;
pub mod models;
pub mod texture;
