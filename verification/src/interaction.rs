//! Acting on an element: the requests, their replay, and why they fail.

pub mod args;
pub mod explain;
pub mod plan;
pub mod recovery;
pub mod replay;
