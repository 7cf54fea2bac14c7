//! What the renderer reads of the draw data of a frame.

use imgui::{DrawIdx, DrawVert};
use vstd::prelude::*;

use crate::d3d11::Rect;

verus! {

/// A vertex of `imgui`. The renderer moves vertices without looking inside.
#[verifier::external_type_specification]
#[verifier::external_body]
pub struct ExDrawVert(imgui::DrawVert);

/// The parameters of a draw command
#[derive(Clone, Copy, Debug, PartialEq, Eq)]
pub struct DrawCmdParams {
    /// The rectangle outside which the command draws nothing, in pixels of the frame buffer
    pub clip_rect: Rect,
    /// The texture to draw with
    pub texture_id: usize,
    /// What is to be added to each index, in vertices of the draw list
    pub vtx_offset: usize,
    /// Where the indices of the command begin in the index buffer of the draw list
    pub idx_offset: usize,
}

/// A draw command
#[derive(Clone, Copy, Debug, PartialEq, Eq)]
pub enum DrawCmd {
    /// Draws triangles.
    Elements {
        /// The number of indices of the command
        count: usize,
        cmd_params: DrawCmdParams,
    },
    /// Sets the render state again.
    ResetRenderState,
    /// Runs a callback of the application.
    RawCallback,
}

/// A draw list: commands and the vertices and indices that they refer to
#[derive(Debug)]
pub struct DrawList<'a> {
    pub commands: Vec<DrawCmd>,
    pub vtx_buffer: &'a [DrawVert],
    pub idx_buffer: &'a [DrawIdx],
}

/// The four entries of the projection matrix that depend on the display, in bits: the factors that
/// scale the two axes, and the two translations
#[derive(Clone, Copy, Debug, PartialEq, Eq)]
pub struct Projection {
    pub scale_x: u32,
    pub scale_y: u32,
    pub translate_x: u32,
    pub translate_y: u32,
}

/// The draw data of a frame
#[derive(Debug)]
pub struct DrawData<'a> {
    /// The sum of the lengths of all index buffers
    pub total_idx_count: i32,
    /// The sum of the lengths of all vertex buffers
    pub total_vtx_count: i32,
    /// The width and the height of the display, in bits
    pub display_size: [u32; 2],
    pub projection: Projection,
    pub draw_lists: Vec<DrawList<'a>>,
}

/// The vertices of all draw lists, one list after the other.
pub open spec fn vertices(lists: Seq<DrawList<'_>>) -> Seq<DrawVert>
    decreases lists.len(),
{
    if lists.len() == 0 {
        Seq::empty()
    } else {
        vertices(lists.drop_last()) + lists.last().vtx_buffer@
    }
}

/// The indices of all draw lists, one list after the other.
pub open spec fn indices(lists: Seq<DrawList<'_>>) -> Seq<DrawIdx>
    decreases lists.len(),
{
    if lists.len() == 0 {
        Seq::empty()
    } else {
        indices(lists.drop_last()) + lists.last().idx_buffer@
    }
}

/// The number of vertices in the draw lists before the given one.
pub open spec fn vertex_base(lists: Seq<DrawList<'_>>, list: int) -> nat {
    vertices(lists.take(list)).len()
}

/// The number of indices in the draw lists before the given one.
pub open spec fn index_base(lists: Seq<DrawList<'_>>, list: int) -> nat {
    indices(lists.take(list)).len()
}

/// Where a command stands: the position of its draw list, and its position in that list.
pub type Place = (int, int);

/// The first `count` places of a draw list.
pub open spec fn list_places(list: int, count: nat) -> Seq<Place> {
    Seq::new(count, |command: int| (list, command))
}

/// The places of all commands, in the order in which they are carried out.
pub open spec fn places(lists: Seq<DrawList<'_>>) -> Seq<Place>
    decreases lists.len(),
{
    if lists.len() == 0 {
        Seq::empty()
    } else {
        places(lists.drop_last()) + list_places(lists.len() - 1, lists.last().commands@.len())
    }
}

/// The command at a place.
pub open spec fn command_at(lists: Seq<DrawList<'_>>, place: Place) -> DrawCmd {
    lists[place.0].commands@[place.1]
}

/// The number of indices that a command draws.
pub open spec fn elements_of(command: DrawCmd) -> nat {
    match command {
        DrawCmd::Elements { count, .. } => count as nat,
        _ => 0,
    }
}

/// The number of indices that the commands at the given places draw together.
pub open spec fn element_count(lists: Seq<DrawList<'_>>, done: Seq<Place>) -> nat
    decreases done.len(),
{
    if done.len() == 0 {
        0
    } else {
        element_count(lists, done.drop_last()) + elements_of(command_at(lists, done.last()))
    }
}

impl<'a> DrawData<'a> {
    /// Whether the display has no area, so that there is nothing to render.
    pub open spec fn is_empty_display(&self) -> bool {
        crate::f32_bits::at_most_zero(self.display_size@[0]) || crate::f32_bits::at_most_zero(
            self.display_size@[1],
        )
    }

    /// Whether the draw data are consistent: the totals are no negative numbers and cover the
    /// buffers of the draw lists, and the number of all drawn indices is a machine number.
    pub open spec fn consistent(&self) -> bool {
        &&& 0 <= self.total_vtx_count
        &&& 0 <= self.total_idx_count
        &&& vertices(self.draw_lists@).len() <= self.total_vtx_count
        &&& indices(self.draw_lists@).len() <= self.total_idx_count
        &&& element_count(self.draw_lists@, places(self.draw_lists@)) <= usize::MAX
    }
}

} // verus!
