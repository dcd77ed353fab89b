//! Development support: what a file change means, how the project and its
//! shaders are rebuilt, and the state kept across a reload.
pub mod builder;
pub mod shader_loader;
pub mod state;
pub mod watcher;
