//! The decision logic of the browser daemon's request router.
//!
//! Everything in this crate is a function on plain values: the daemon's
//! input and output (browser calls, files, sockets, timers) happen around it.

pub mod text;
pub mod json;
pub mod json_text;
pub mod error;
pub mod diagnostics;
pub mod dispatch;
pub mod model;
pub mod paths;
pub mod readiness;
pub mod web;
pub mod downloads;
pub mod history;
pub mod extract_postprocess;
pub mod extract;
pub mod interaction;
pub mod locator;
pub mod find;
pub mod frame_scope;
pub mod frames;
pub mod dialogs;
pub mod interference;
pub mod inspect;
pub mod automation_fence;
pub mod artifacts;
pub mod element_semantics;
pub mod orchestration;
pub mod addressing;
