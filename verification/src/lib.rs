pub mod asset;
pub mod assets;
pub mod ecs;
pub mod gltf;
pub mod graph;
pub mod graphics;
pub mod input;
pub mod math;
pub mod obj;
pub mod picture;
pub mod renderer;
pub mod text;
pub mod type_key;
pub mod world;
