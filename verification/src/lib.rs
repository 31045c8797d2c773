//! Glue between an Android native application loop and a Rust entry function.
//!
//! The platform hands its events to two callbacks on the thread that polls the
//! native looper; the user's code runs on another thread and learns of pointer
//! input through channels it has subscribed. This crate holds the decisions of
//! that bridge: which events a native input action stands for and who is
//! offered them, which lifecycle commands are recognised, when the native window
//! can be handed out, in which order an asset is opened, read and released, and
//! in which order the bridge itself comes up. The calls into the platform are
//! made by the embedding code, which feeds their answers back as plain values.

pub mod asset;
pub mod bridge;
pub mod c_str;
pub mod command;
pub mod event;
pub mod input;
pub mod log;
pub mod registry;
pub mod window;

pub use crate::asset::AssetError;
pub use crate::command::commands_callback;
pub use crate::event::Event;
pub use crate::input::inputs_callback;
pub use crate::registry::add_sender;
pub use crate::registry::Context;
