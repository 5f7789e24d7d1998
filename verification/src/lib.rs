//! The state and the decisions of an OpenHarmony ability: what an app knows, which events
//! it receives, how it talks to the script side, and how its surface is set up.
//!
//! What only the platform can do (calling into the script side, native components,
//! locks, waiting) is left to the user of the library, who performs it step by step and
//! hands back what came of it.
use vstd::prelude::*;

pub mod app;
pub mod avoid_area;
pub mod context;
pub mod error;
pub mod event;
pub mod geometry;
pub mod helper;
pub mod identity;
pub mod inner;
pub mod mouse_event;
pub mod object;
pub mod permission;
pub mod platform;
pub mod process;
pub mod restart;
pub mod settlement;
pub mod shared;
pub mod text;
pub mod tsfn;
pub mod xcomponent;
