//! A DirectX 11 renderer for the draw data of [imgui](https://docs.rs/imgui/*/imgui/): which objects
//! it creates, which calls it makes on the device context, and what they do.
//!
//! The device is not called from this crate. [`Renderer::new`] and [`Renderer::render`] take what
//! happened since their last call and return the action that is next, until an action tells the
//! result. Objects of the device are handles of type `u64` that the caller chooses.

use vstd::prelude::*;

pub mod backup;
pub mod buffer;
pub mod command;
pub mod d3d11;
pub mod draw_data;
pub mod drawing;
pub mod f32_bits;
pub mod frame;
pub mod frames;
pub mod geometry;
pub mod pipeline;
pub mod renderer;
pub mod setup;
mod steps;
pub mod textures;

pub use crate::backup::{Answer, Query, StateBackup};
pub use crate::buffer::Buffer;
pub use crate::command::{Command, ContextCall};
pub use crate::draw_data::{DrawCmd, DrawCmdParams, DrawData, DrawList, Projection};
pub use crate::frame::{Action, Event, Frame, FrameStep};
pub use crate::renderer::{DeviceObjects, Renderer, FONT_TEX_ID};
pub use crate::setup::{Setup, SetupAction, SetupEvent, SetupStep};

verus! {

} // verus!
