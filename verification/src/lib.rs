pub mod demo_core;
pub mod retained;
pub mod text_util;
pub mod todomvc_retained;
pub mod todomvc_common;
pub mod ui_physical_theme;
pub mod ui2d_runtime;
pub mod ui_physical_runtime;
pub mod retained_ui_shared;
pub mod retained_ui_runtime_shared;
pub mod frame_graph;
pub mod mixed_ui_world;
pub mod input;
pub mod overlay;
pub mod hot_reload;
pub mod screenshot;
pub mod control;
pub mod runner;
