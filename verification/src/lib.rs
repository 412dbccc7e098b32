pub mod alerts;
pub mod config;
pub mod diagram;
pub mod escape;
pub mod events;
pub mod geometry;
pub mod history;
pub mod lines;
pub mod links;
pub mod menu;
pub mod paths;
pub mod render;
pub mod rewrite;
pub mod tabs;
pub mod text;
pub mod theme;
pub mod transforms;
pub mod watcher;
pub mod window_helpers;
pub mod window_index;
pub mod window_settings;
