//! Host for a single window that shows content drawn by an embedded web
//! engine and is driven remotely by a controller.
//!
//! The crate holds the decisions of that host: which command a controller
//! call becomes, how commands queue up for the UI loop, what the loop does on
//! each window event, and in which order a frame is drawn. Windowing, GPU and
//! engine calls are left to the caller, which performs the [`ui::Action`]s and
//! [`render::RenderStep`]s that the functions here hand out.

pub mod console;
pub mod host;
pub mod input;
pub mod mailbox;
pub mod page;
pub mod render;
pub mod text;
pub mod ui;

pub use host::{
    pw_execute_javascript, pw_resize_window, pw_set_title, pw_start_app, pw_version, InitParams,
};
