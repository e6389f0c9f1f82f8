pub mod backend;
pub mod button;
pub mod collection;
pub mod drag;
pub mod drag_source;
pub mod drop_session;
pub mod file_picker;
pub mod font;
pub mod keys;
pub mod material;
pub mod menu;
pub mod navigation;
pub mod registry;
pub mod select;
pub mod sidebar;
pub mod strings;
pub mod toolbar;
pub mod tray;
pub mod tree;
pub mod web_view;
pub mod window;
