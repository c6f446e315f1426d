//! Sandboxed image loading and editing: the host-side rules.

pub mod api_common;
pub mod api_creator;
pub mod api_loader;
pub mod change_memory_format;
pub mod color;
pub mod config;
pub mod dbus_editor_api;
pub mod dbus_loader_api;
pub mod editing;
pub mod editor_output;
pub mod error;
pub mod frame;
pub mod grid;
pub mod icc;
pub mod instruction_handler;
pub mod jpeg;
pub mod memory_format;
pub mod message_pack;
pub mod operations;
pub mod order;
pub mod orientation;
pub mod pipeline;
pub mod pixel;
pub mod png;
pub mod pool;
pub mod premultiplied;
pub mod sandbox;
pub mod seccomp;
pub mod text;
