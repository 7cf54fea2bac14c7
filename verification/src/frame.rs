//! Rendering a frame, step by step.
//!
//! The device is not called from here. Each step takes what the device answered to the last action
//! and says which action is next; the frame ends with the action `Finish`.

use vstd::pervasive::unreached;
use vstd::prelude::*;

use crate::backup::{
    backup_queries, is_blank, is_restorable, restore_commands, Query, StateBackup,
};
use crate::buffer::{
    fits, index_buffer_fits, index_buffer_plan, index_size, vertex_buffer_fits, vertex_buffer_plan,
    vertex_size, Buffer, BufferView, INDEX_BUF_ADD_CAPACITY, VERTEX_BUF_ADD_CAPACITY,
};
use crate::command::{append_commands, push_command, views, Command, CommandView, ContextCall};
use crate::d3d11::{
    BufferDesc, VertexConstantBuffer, D3D11_MAP_WRITE_DISCARD, DXGI_ERROR_INVALID_CALL, F32_HALF,
    F32_ONE, F32_ZERO,
};
use crate::draw_data::{DrawData, Projection};
use crate::drawing::{
    all_drawable, countable, draw_commands, drawn_places, is_texture, lemma_countable,
    setup_commands, view_of,
};
use crate::f32_bits::is_at_most_zero;
use crate::renderer::{with_texture, without_texture, Renderer, RendererView};
use crate::steps::{lemma_fold_add, lemma_fold_first, lemma_fold_three};
use crate::textures::entry;

verus! {

/// What is to be done next for a frame, over the types of its lists: `Q` of questions and `C` of
/// calls on the device context.
#[derive(Debug, PartialEq, Eq)]
pub enum FrameStep<Q, C> {
    /// Create a buffer. The event is `Created`.
    CreateBuffer { desc: BufferDesc },
    /// Ask the device context for its state. The event is `Saved`.
    Save { queries: Q },
    /// Map a buffer. The event is `Mapped`.
    MapBuffer { buffer: u64, map_type: i32 },
    /// Write the vertices and the indices with `Renderer::write_buffers` to the memory of the two
    /// mapped buffers, of which so many items are used. The event is `Done`.
    WriteGeometry { vtx_count: usize, idx_count: usize },
    /// Write to the memory of the mapped constant buffer. The event is `Done`.
    WriteConstants { constants: VertexConstantBuffer },
    /// Make calls on the device context, in this order. The event is `Done`.
    Issue { commands: C },
    /// Return the result of the frame.
    Finish { result: Result<(), i32> },
}

/// An action as the renderer hands it out
pub type Action = FrameStep<Vec<Query>, Vec<Command>>;

/// An action as contracts speak of it
pub type ActionView = FrameStep<Seq<Query>, Seq<CommandView>>;

impl View for FrameStep<Vec<Query>, Vec<Command>> {
    type V = ActionView;

    open spec fn view(&self) -> ActionView {
        match *self {
            FrameStep::CreateBuffer { desc } => FrameStep::CreateBuffer { desc },
            FrameStep::Save { queries } => FrameStep::Save { queries: queries@ },
            FrameStep::MapBuffer { buffer, map_type } => FrameStep::MapBuffer { buffer, map_type },
            FrameStep::WriteGeometry { vtx_count, idx_count } => FrameStep::WriteGeometry {
                vtx_count,
                idx_count,
            },
            FrameStep::WriteConstants { constants } => FrameStep::WriteConstants { constants },
            FrameStep::Issue { commands } => FrameStep::Issue { commands: views(commands@) },
            FrameStep::Finish { result } => FrameStep::Finish { result },
        }
    }
}

/// What happened since the last step
#[derive(Debug, PartialEq, Eq)]
pub enum Event {
    /// The frame begins.
    Begin,
    /// A buffer was created, or its creation failed with an error.
    Created { object: Result<u64, i32> },
    /// The state of the device context was saved.
    Saved { backup: StateBackup },
    /// A buffer was mapped, or the mapping failed with an error.
    Mapped { result: Result<(), i32> },
    /// What the last action asked for was done.
    Done,
}

/// How far a frame is
#[derive(Clone, Copy, Debug, PartialEq, Eq)]
pub enum Phase {
    Ready,
    GrowingVertices { len: usize },
    GrowingIndices { len: usize },
    Saving,
    MappingVertices,
    MappingIndices,
    WritingGeometry,
    UnmappingGeometry,
    MappingConstants,
    WritingConstants,
    Drawing { result: Result<(), i32> },
    Restoring,
    Finished,
}

/// A frame that is being rendered
#[derive(Debug)]
pub struct Frame {
    phase: Phase,
    backup: StateBackup,
}

/// What a frame is: how far it is, and the state that was saved
pub struct FrameView {
    pub phase: Phase,
    pub backup: StateBackup,
}

impl View for Frame {
    type V = FrameView;

    closed spec fn view(&self) -> FrameView {
        FrameView { phase: self.phase, backup: self.backup }
    }
}

impl FrameView {
    /// Whether an event can follow the last action of a frame.
    pub open spec fn expects(self, event: Event) -> bool {
        match self.phase {
            Phase::Ready => event is Begin,
            Phase::GrowingVertices { .. } => event is Created,
            Phase::GrowingIndices { .. } => event is Created,
            Phase::Saving => event is Saved,
            Phase::MappingVertices => event is Mapped,
            Phase::MappingIndices => event is Mapped,
            Phase::WritingGeometry => event is Done,
            Phase::UnmappingGeometry => event is Done,
            Phase::MappingConstants => event is Mapped,
            Phase::WritingConstants => event is Done,
            Phase::Drawing { .. } => event is Done,
            Phase::Restoring => event is Done,
            Phase::Finished => false,
        }
    }
}

impl Frame {
    /// A frame that has not begun.
    pub fn new() -> (frame: Self)
        ensures
            frame@.phase is Ready,
            is_blank(frame@.backup),
    {
        Frame { phase: Phase::Ready, backup: StateBackup::default() }
    }
}

/// Whether the vertex buffer can be given enough room: the total is no negative number, and where a
/// new buffer is needed, its size is a machine number.
pub open spec fn vertices_fit(renderer: RendererView, draw_data: DrawData<'_>) -> bool {
    &&& 0 <= draw_data.total_vtx_count
    &&& renderer.vertex_buffer.len < draw_data.total_vtx_count ==> vertex_buffer_fits(
        draw_data.total_vtx_count as nat,
    )
}

/// Whether the index buffer can be given enough room: the total is no negative number, and where a
/// new buffer is needed, its size is a machine number.
pub open spec fn indices_fit(renderer: RendererView, draw_data: DrawData<'_>) -> bool {
    &&& 0 <= draw_data.total_idx_count
    &&& renderer.index_buffer.len < draw_data.total_idx_count ==> index_buffer_fits(
        draw_data.total_idx_count as nat,
    )
}

/// Whether the next step of a frame can be computed: each step asks of the draw data and of the
/// backup only what it reads itself.
pub open spec fn can_go_on(
    renderer: RendererView,
    draw_data: DrawData<'_>,
    frame: FrameView,
    event: Event,
) -> bool {
    match (frame.phase, event) {
        (Phase::Ready, _) => {
            ||| draw_data.is_empty_display()
            ||| {
                &&& vertices_fit(renderer, draw_data)
                &&& renderer.vertex_buffer.len < draw_data.total_vtx_count || indices_fit(
                    renderer,
                    draw_data,
                )
            }
        },
        (Phase::GrowingVertices { .. }, Event::Created { object: Ok(_) }) => indices_fit(
            renderer,
            draw_data,
        ),
        (Phase::MappingIndices, Event::Mapped { result: Ok(_) }) => {
            0 <= draw_data.total_vtx_count && 0 <= draw_data.total_idx_count
        },
        (Phase::WritingConstants, _) => countable(renderer, draw_data.draw_lists@),
        (Phase::Drawing { result: Ok(_) }, _) => is_restorable(frame.backup),
        (_, _) => true,
    }
}

/// The constants of the vertex shader: a matrix that scales and translates to the display, and maps
/// depths to the middle of their range.
pub open spec fn projection_constants(projection: Projection) -> VertexConstantBuffer {
    VertexConstantBuffer {
        mvp: [
            [projection.scale_x, F32_ZERO, F32_ZERO, F32_ZERO],
            [F32_ZERO, projection.scale_y, F32_ZERO, F32_ZERO],
            [F32_ZERO, F32_ZERO, F32_HALF, F32_ZERO],
            [projection.translate_x, projection.translate_y, F32_HALF, F32_ONE],
        ],
    }
}

/// The action that maps a buffer, and lets the device forget what was in it.
pub open spec fn map_action(buffer: u64) -> ActionView {
    FrameStep::MapBuffer { buffer, map_type: D3D11_MAP_WRITE_DISCARD }
}

/// The calls that unmap the vertex buffer and the index buffer.
pub open spec fn unmap_geometry(renderer: RendererView) -> Seq<CommandView> {
    seq![
        ContextCall::Unmap { resource: renderer.vertex_buffer.object },
        ContextCall::Unmap { resource: renderer.index_buffer.object },
    ]
}

/// The calls that unmap the constant buffer, set up the pipeline, and draw.
pub open spec fn frame_commands(renderer: RendererView, draw_data: DrawData<'_>) -> Seq<
    CommandView,
> {
    seq![ContextCall::Unmap { resource: renderer.objects.constant_buffer }] + setup_commands(
        renderer,
        draw_data.display_size,
    ) + draw_commands(
        renderer,
        draw_data.display_size,
        draw_data.draw_lists@,
        drawn_places(renderer, draw_data.draw_lists@),
    )
}

/// The result of drawing: an error where a texture does not exist.
pub open spec fn drawing_result(renderer: RendererView, draw_data: DrawData<'_>) -> Result<
    (),
    i32,
> {
    if all_drawable(renderer, draw_data.draw_lists@) {
        Ok(())
    } else {
        Err(DXGI_ERROR_INVALID_CALL)
    }
}

/// A step: the renderer and the frame after it, and the action that it asks for.
pub struct Step {
    pub renderer: RendererView,
    pub frame: FrameView,
    pub action: ActionView,
}

/// The step that goes on with a phase and an action and changes nothing else.
pub open spec fn go_on(
    renderer: RendererView,
    frame: FrameView,
    phase: Phase,
    action: ActionView,
) -> Step {
    Step { renderer, frame: FrameView { phase, ..frame }, action }
}

/// The step that ends a frame.
pub open spec fn finish(
    renderer: RendererView,
    frame: FrameView,
    result: Result<(), i32>,
) -> Step {
    go_on(renderer, frame, Phase::Finished, FrameStep::Finish { result })
}

/// The step after the index buffer is large enough.
pub open spec fn after_indices(renderer: RendererView, frame: FrameView) -> Step {
    go_on(renderer, frame, Phase::Saving, FrameStep::Save { queries: backup_queries() })
}

/// The step after the vertex buffer is large enough.
pub open spec fn after_vertices(
    renderer: RendererView,
    draw_data: DrawData<'_>,
    frame: FrameView,
) -> Step {
    if renderer.index_buffer.len < draw_data.total_idx_count {
        let plan = index_buffer_plan(draw_data.total_idx_count as nat);
        go_on(
            renderer,
            frame,
            Phase::GrowingIndices { len: plan.len },
            FrameStep::CreateBuffer { desc: plan.desc },
        )
    } else {
        after_indices(renderer, frame)
    }
}

/// The first step of a frame.
pub open spec fn begin(
    renderer: RendererView,
    draw_data: DrawData<'_>,
    frame: FrameView,
) -> Step {
    if draw_data.is_empty_display() {
        finish(renderer, frame, Ok(()))
    } else if renderer.vertex_buffer.len < draw_data.total_vtx_count {
        let plan = vertex_buffer_plan(draw_data.total_vtx_count as nat);
        go_on(
            renderer,
            frame,
            Phase::GrowingVertices { len: plan.len },
            FrameStep::CreateBuffer { desc: plan.desc },
        )
    } else {
        after_vertices(renderer, draw_data, frame)
    }
}

/// The step that follows an event.
pub open spec fn render_step(
    renderer: RendererView,
    draw_data: DrawData<'_>,
    frame: FrameView,
    event: Event,
) -> Step {
    match (frame.phase, event) {
        (Phase::Ready, _) => begin(renderer, draw_data, frame),
        (_, Event::Created { object: Err(code) }) => finish(renderer, frame, Err(code)),
        (_, Event::Mapped { result: Err(code) }) => finish(renderer, frame, Err(code)),
        (Phase::GrowingVertices { len }, Event::Created { object: Ok(object) }) => {
            after_vertices(
                RendererView { vertex_buffer: BufferView { object, len }, ..renderer },
                draw_data,
                frame,
            )
        },
        (Phase::GrowingIndices { len }, Event::Created { object: Ok(object) }) => {
            after_indices(
                RendererView { index_buffer: BufferView { object, len }, ..renderer },
                frame,
            )
        },
        (Phase::Saving, Event::Saved { backup }) => go_on(
            renderer,
            FrameView { backup, ..frame },
            Phase::MappingVertices,
            map_action(renderer.vertex_buffer.object),
        ),
        (Phase::MappingVertices, _) => go_on(
            renderer,
            frame,
            Phase::MappingIndices,
            map_action(renderer.index_buffer.object),
        ),
        (Phase::MappingIndices, _) => go_on(
            renderer,
            frame,
            Phase::WritingGeometry,
            FrameStep::WriteGeometry {
                vtx_count: draw_data.total_vtx_count as usize,
                idx_count: draw_data.total_idx_count as usize,
            },
        ),
        (Phase::WritingGeometry, _) => go_on(
            renderer,
            frame,
            Phase::UnmappingGeometry,
            FrameStep::Issue { commands: unmap_geometry(renderer) },
        ),
        (Phase::UnmappingGeometry, _) => go_on(
            renderer,
            frame,
            Phase::MappingConstants,
            map_action(renderer.objects.constant_buffer),
        ),
        (Phase::MappingConstants, _) => go_on(
            renderer,
            frame,
            Phase::WritingConstants,
            FrameStep::WriteConstants { constants: projection_constants(draw_data.projection) },
        ),
        (Phase::WritingConstants, _) => go_on(
            renderer,
            frame,
            Phase::Drawing { result: drawing_result(renderer, draw_data) },
            FrameStep::Issue { commands: frame_commands(renderer, draw_data) },
        ),
        (Phase::Drawing { result: Ok(_) }, _) => go_on(
            renderer,
            frame,
            Phase::Restoring,
            FrameStep::Issue { commands: restore_commands(frame.backup) },
        ),
        (Phase::Drawing { result: Err(code) }, _) => finish(renderer, frame, Err(code)),
        (_, _) => finish(renderer, frame, Ok(())),
    }
}

impl Renderer {
    /// Renders a frame step by step.
    ///
    /// Should the draw data contain an invalid texture index, the frame ends with the error
    /// `DXGI_ERROR_INVALID_CALL`, and the calls that draw end before the command with that index.
    /// Where the creation or the mapping of a buffer fails, the frame ends with its error at once.
    /// In both cases the saved state is not brought back.
    pub fn render(
        &mut self,
        draw_data: &DrawData<'_>,
        frame: &mut Frame,
        event: Event,
    ) -> (action: Action)
        requires
            old(frame)@.expects(event),
            can_go_on(old(self)@, *draw_data, old(frame)@, event),
        ensures
            render_step(old(self)@, *draw_data, old(frame)@, event) == (Step {
                renderer: final(self)@,
                frame: final(frame)@,
                action: action@,
            }),
            final(self).registry() == old(self).registry(),
            action matches FrameStep::WriteConstants { constants } ==> {
                &&& constants.mvp@[0]@[0] == draw_data.projection.scale_x
                &&& constants.mvp@[1]@[1] == draw_data.projection.scale_y
                &&& constants.mvp@[3]@[0] == draw_data.projection.translate_x
                &&& constants.mvp@[3]@[1] == draw_data.projection.translate_y
            },
    {
        match event {
            Event::Created { object: Err(code) } => {
                return frame.finish(Err(code));
            },
            Event::Mapped { result: Err(code) } => {
                return frame.finish(Err(code));
            },
            _ => {},
        }
        match (frame.phase, event) {
            (Phase::Ready, _) => {
                if is_at_most_zero(draw_data.display_size[0]) || is_at_most_zero(
                    draw_data.display_size[1],
                ) {
                    return frame.finish(Ok(()));
                }
                if self.vertex_buffer().len() < draw_data.total_vtx_count as usize {
                    let plan = Renderer::create_vertex_buffer(draw_data.total_vtx_count as usize);
                    frame.phase = Phase::GrowingVertices { len: plan.len };
                    return FrameStep::CreateBuffer { desc: plan.desc };
                }
                self.grow_indices(draw_data, frame)
            },
            (Phase::GrowingVertices { len }, Event::Created { object: Ok(object) }) => {
                self.replace_vertex_buffer(Buffer::new(object, len));
                self.grow_indices(draw_data, frame)
            },
            (Phase::GrowingIndices { len }, Event::Created { object: Ok(object) }) => {
                self.replace_index_buffer(Buffer::new(object, len));
                frame.save()
            },
            (Phase::Saving, Event::Saved { backup }) => {
                frame.backup = backup;
                frame.phase = Phase::MappingVertices;
                FrameStep::MapBuffer {
                    buffer: self.vertex_buffer().get_buf(),
                    map_type: D3D11_MAP_WRITE_DISCARD,
                }
            },
            (Phase::MappingVertices, _) => {
                frame.phase = Phase::MappingIndices;
                FrameStep::MapBuffer {
                    buffer: self.index_buffer().get_buf(),
                    map_type: D3D11_MAP_WRITE_DISCARD,
                }
            },
            (Phase::MappingIndices, _) => {
                frame.phase = Phase::WritingGeometry;
                FrameStep::WriteGeometry {
                    vtx_count: draw_data.total_vtx_count as usize,
                    idx_count: draw_data.total_idx_count as usize,
                }
            },
            (Phase::WritingGeometry, _) => {
                frame.phase = Phase::UnmappingGeometry;
                let mut commands: Vec<Command> = Vec::new();
                push_command(
                    &mut commands,
                    ContextCall::Unmap { resource: self.vertex_buffer().get_buf() },
                );
                push_command(
                    &mut commands,
                    ContextCall::Unmap { resource: self.index_buffer().get_buf() },
                );
                assert(views(commands@) =~= unmap_geometry(self@));
                FrameStep::Issue { commands }
            },
            (Phase::UnmappingGeometry, _) => {
                frame.phase = Phase::MappingConstants;
                FrameStep::MapBuffer {
                    buffer: self.objects().constant_buffer,
                    map_type: D3D11_MAP_WRITE_DISCARD,
                }
            },
            (Phase::MappingConstants, _) => {
                frame.phase = Phase::WritingConstants;
                let projection: Projection = draw_data.projection;
                let mvp = [
                    [projection.scale_x, F32_ZERO, F32_ZERO, F32_ZERO],
                    [F32_ZERO, projection.scale_y, F32_ZERO, F32_ZERO],
                    [F32_ZERO, F32_ZERO, F32_HALF, F32_ZERO],
                    [projection.translate_x, projection.translate_y, F32_HALF, F32_ONE],
                ];
                FrameStep::WriteConstants { constants: VertexConstantBuffer { mvp } }
            },
            (Phase::WritingConstants, _) => {
                let mut commands: Vec<Command> = Vec::new();
                push_command(
                    &mut commands,
                    ContextCall::Unmap { resource: self.objects().constant_buffer },
                );
                append_commands(&mut commands, self.setup_render_state(draw_data));
                let (drawn, result) = self.render_impl(draw_data);
                append_commands(&mut commands, drawn);
                frame.phase = Phase::Drawing { result };
                assert(views(commands@) =~= frame_commands(self@, *draw_data));
                FrameStep::Issue { commands }
            },
            (Phase::Drawing { result: Ok(_) }, _) => {
                frame.phase = Phase::Restoring;
                FrameStep::Issue { commands: frame.backup.restore() }
            },
            (Phase::Drawing { result: Err(code) }, _) => frame.finish(Err(code)),
            (Phase::Restoring, _) => frame.finish(Ok(())),
            (_, _) => unreached(),
        }
    }

    /// Whether the next step of a frame can be computed.
    pub fn accepts(&self, draw_data: &DrawData<'_>, frame: &Frame, event: &Event) -> (result: bool)
        ensures
            result == can_go_on(self@, *draw_data, frame@, *event),
    {
        match (frame.phase, event) {
            (Phase::Ready, _) => is_at_most_zero(draw_data.display_size[0]) || is_at_most_zero(
                draw_data.display_size[1],
            ) || (0 <= draw_data.total_vtx_count && (if self.vertex_buffer().len()
                < draw_data.total_vtx_count as usize {
                fits(
                    draw_data.total_vtx_count as usize,
                    VERTEX_BUF_ADD_CAPACITY,
                    vertex_size(),
                )
            } else {
                self.has_index_room(draw_data)
            })),
            (Phase::GrowingVertices { .. }, Event::Created { object: Ok(_) }) => {
                self.has_index_room(draw_data)
            },
            (Phase::MappingIndices, Event::Mapped { result: Ok(_) }) => {
                0 <= draw_data.total_vtx_count && 0 <= draw_data.total_idx_count
            },
            (Phase::WritingConstants, _) => self.can_draw(draw_data),
            (Phase::Drawing { result: Ok(_) }, _) => frame.backup.can_restore(),
            (_, _) => true,
        }
    }

    /// Whether the index buffer has enough room or can be given it.
    fn has_index_room(&self, draw_data: &DrawData<'_>) -> (result: bool)
        ensures
            result == indices_fit(self@, *draw_data),
    {
        0 <= draw_data.total_idx_count && (self.index_buffer().len()
            >= draw_data.total_idx_count as usize || fits(
            draw_data.total_idx_count as usize,
            INDEX_BUF_ADD_CAPACITY,
            index_size(),
        ))
    }

    /// Goes on with a frame whose vertex buffer is large enough.
    fn grow_indices(&mut self, draw_data: &DrawData<'_>, frame: &mut Frame) -> (action: Action)
        requires
            indices_fit(old(self)@, *draw_data),
        ensures
            after_vertices(old(self)@, *draw_data, old(frame)@) == (Step {
                renderer: final(self)@,
                frame: final(frame)@,
                action: action@,
            }),
            final(self).registry() == old(self).registry(),
    {
        if self.index_buffer().len() < draw_data.total_idx_count as usize {
            let plan = Renderer::create_index_buffer(draw_data.total_idx_count as usize);
            frame.phase = Phase::GrowingIndices { len: plan.len };
            FrameStep::CreateBuffer { desc: plan.desc }
        } else {
            frame.save()
        }
    }
}

impl Frame {
    /// Goes on with the questions for a backup.
    fn save(&mut self) -> (action: Action)
        ensures
            final(self)@ == (FrameView { phase: Phase::Saving, ..old(self)@ }),
            action@ == (FrameStep::<Seq<Query>, Seq<CommandView>>::Save {
                queries: backup_queries(),
            }),
    {
        self.phase = Phase::Saving;
        FrameStep::Save { queries: StateBackup::queries() }
    }

    /// Ends the frame.
    fn finish(&mut self, result: Result<(), i32>) -> (action: Action)
        ensures
            final(self)@ == (FrameView { phase: Phase::Finished, ..old(self)@ }),
            action@ == (FrameStep::<Seq<Query>, Seq<CommandView>>::Finish { result }),
    {
        self.phase = Phase::Finished;
        FrameStep::Finish { result }
    }
}

/// With consistent draw data whose buffers have sizes that are machine numbers, every step of a frame
/// can be computed, once the backup that the frame was given can be brought back.
pub proof fn consistent_frames_go_on(
    renderer: RendererView,
    draw_data: DrawData<'_>,
    frame: FrameView,
    event: Event,
)
    requires
        draw_data.consistent(),
        vertex_buffer_fits(draw_data.total_vtx_count as nat),
        index_buffer_fits(draw_data.total_idx_count as nat),
        is_restorable(frame.backup),
    ensures
        can_go_on(renderer, draw_data, frame, event),
{
    lemma_countable(renderer, draw_data.draw_lists@);
}

/// A frame with an empty display ends well at once, and nothing is done for it.
pub proof fn an_empty_display_renders_nothing(
    renderer: RendererView,
    draw_data: DrawData<'_>,
    frame: FrameView,
)
    requires
        frame.phase is Ready,
        draw_data.is_empty_display(),
    ensures
        render_step(renderer, draw_data, frame, Event::Begin) == finish(renderer, frame, Ok(())),
{
}

/// Where the creation or the mapping of a buffer fails, the frame ends with that error, the renderer
/// stays as it is, and no event can follow.
pub proof fn a_failure_ends_the_frame(
    renderer: RendererView,
    draw_data: DrawData<'_>,
    frame: FrameView,
    event: Event,
    code: i32,
)
    requires
        frame.expects(event),
        event == (Event::Created { object: Err(code) }) || event == (Event::Mapped {
            result: Err(code),
        }),
    ensures
        render_step(renderer, draw_data, frame, event) == finish(renderer, frame, Err(code)),
        forall|next: Event|
            !(#[trigger] render_step(renderer, draw_data, frame, event).frame.expects(next)),
{
}

/// No step changes anything of a renderer but its two buffers, whatever the event is.
pub proof fn steps_keep_objects_and_textures(
    renderer: RendererView,
    draw_data: DrawData<'_>,
    frame: FrameView,
    event: Event,
)
    ensures
        render_step(renderer, draw_data, frame, event).renderer.objects == renderer.objects,
        render_step(renderer, draw_data, frame, event).renderer.textures == renderer.textures,
        render_step(renderer, draw_data, frame, event).renderer.next_texture
            == renderer.next_texture,
{
}

/// Whether a buffer that is being created for a frame has more room than the one that it replaces.
pub open spec fn is_growing(renderer: RendererView, frame: FrameView) -> bool {
    match frame.phase {
        Phase::GrowingVertices { len } => renderer.vertex_buffer.len < len,
        Phase::GrowingIndices { len } => renderer.index_buffer.len < len,
        _ => true,
    }
}

/// No step gives a renderer a buffer with less room than it had, and what a frame creates has more.
pub proof fn buffers_never_shrink(
    renderer: RendererView,
    draw_data: DrawData<'_>,
    frame: FrameView,
    event: Event,
)
    requires
        frame.expects(event),
        can_go_on(renderer, draw_data, frame, event),
        is_growing(renderer, frame),
    ensures
        ({
            let step = render_step(renderer, draw_data, frame, event);
            &&& step.renderer.vertex_buffer.len >= renderer.vertex_buffer.len
            &&& step.renderer.index_buffer.len >= renderer.index_buffer.len
            &&& is_growing(step.renderer, step.frame)
        }),
{
}

/// A frame that is under way: the renderer and the frame, and the actions so far
#[verifier::ext_equal]
pub struct Run {
    pub renderer: RendererView,
    pub frame: FrameView,
    pub actions: Seq<ActionView>,
}

/// A frame after one more event.
pub open spec fn advance(before: Run, draw_data: DrawData<'_>, event: Event) -> Run {
    let step = render_step(before.renderer, draw_data, before.frame, event);
    Run {
        renderer: step.renderer,
        frame: step.frame,
        actions: before.actions.push(step.action),
    }
}

/// The step function of a frame with the given draw data.
pub open spec fn frame_step(draw_data: DrawData<'_>) -> spec_fn(Run, Event) -> Run {
    |before: Run, event: Event| advance(before, draw_data, event)
}

/// A frame after a sequence of events.
pub open spec fn run(start: Run, draw_data: DrawData<'_>, events: Seq<Event>) -> Run {
    events.fold_left(start, frame_step(draw_data))
}

/// A frame that was begun: its draw data, the frame before its first event, and its events
pub struct Course<'a> {
    pub draw_data: DrawData<'a>,
    pub frame: FrameView,
    pub events: Seq<Event>,
}

/// A renderer after one frame, which may have ended well, with an error, or not at all.
pub open spec fn after_frame(renderer: RendererView, course: Course<'_>) -> RendererView {
    run(
        Run { renderer, frame: course.frame, actions: Seq::empty() },
        course.draw_data,
        course.events,
    ).renderer
}

/// A renderer after a sequence of frames.
pub open spec fn after_frames(renderer: RendererView, courses: Seq<Course<'_>>) -> RendererView
    decreases courses.len(),
{
    if courses.len() == 0 {
        renderer
    } else {
        after_frame(after_frames(renderer, courses.drop_last()), courses.last())
    }
}

/// A frame keeps the textures, however it ends.
proof fn lemma_run_keeps_textures(start: Run, draw_data: DrawData<'_>, events: Seq<Event>)
    ensures
        run(start, draw_data, events).renderer.objects == start.renderer.objects,
        run(start, draw_data, events).renderer.textures == start.renderer.textures,
        run(start, draw_data, events).renderer.next_texture == start.renderer.next_texture,
    decreases events.len(),
{
    if events.len() > 0 {
        let before = run(start, draw_data, events.drop_last());
        lemma_run_keeps_textures(start, draw_data, events.drop_last());
        steps_keep_objects_and_textures(
            before.renderer,
            draw_data,
            before.frame,
            events.last(),
        );
    }
}

/// Frames keep the objects and the texture registry of a renderer, however they end.
pub proof fn frames_keep_objects_and_textures(
    renderer: RendererView,
    courses: Seq<Course<'_>>,
)
    ensures
        after_frames(renderer, courses).objects == renderer.objects,
        after_frames(renderer, courses).textures == renderer.textures,
        after_frames(renderer, courses).next_texture == renderer.next_texture,
    decreases courses.len(),
{
    if courses.len() > 0 {
        let before = after_frames(renderer, courses.drop_last());
        let course = courses.last();
        frames_keep_objects_and_textures(renderer, courses.drop_last());
        lemma_run_keeps_textures(
            Run { renderer: before, frame: course.frame, actions: Seq::empty() },
            course.draw_data,
            course.events,
        );
    }
}

/// A texture that was inserted is found under its id, after any number of frames, however they end;
/// and after it was removed, nothing is found there. No other entry is touched, and the id is not
/// the one that is given next, even after the removal.
pub proof fn a_texture_stays_until_it_is_removed(
    renderer: RendererView,
    view: u64,
    courses: Seq<Course<'_>>,
)
    requires
        renderer.next_texture < usize::MAX,
    ensures
        ({
            let id = renderer.next_texture;
            let later = after_frames(with_texture(renderer, view), courses);
            let removed = without_texture(later, id);
            &&& entry(later.textures, id) == Some(view)
            &&& is_texture(later, id)
            &&& view_of(later, id) == view
            &&& entry(removed.textures, id) is None
            &&& !is_texture(removed, id)
            &&& forall|other: usize|
                other != id ==> #[trigger] entry(later.textures, other) == entry(
                    renderer.textures,
                    other,
                ) && entry(removed.textures, other) == entry(renderer.textures, other)
            &&& removed.next_texture == id + 1
        }),
{
    frames_keep_objects_and_textures(with_texture(renderer, view), courses);
}

/// A renderer whose vertex buffer is replaced where it is too small.
pub open spec fn with_vertices(
    renderer: RendererView,
    draw_data: DrawData<'_>,
    object: u64,
) -> RendererView {
    if renderer.vertex_buffer.len < draw_data.total_vtx_count {
        RendererView {
            vertex_buffer: BufferView {
                object,
                len: vertex_buffer_plan(draw_data.total_vtx_count as nat).len,
            },
            ..renderer
        }
    } else {
        renderer
    }
}

/// A renderer whose index buffer is replaced where it is too small.
pub open spec fn with_indices(
    renderer: RendererView,
    draw_data: DrawData<'_>,
    object: u64,
) -> RendererView {
    if renderer.index_buffer.len < draw_data.total_idx_count {
        RendererView {
            index_buffer: BufferView {
                object,
                len: index_buffer_plan(draw_data.total_idx_count as nat).len,
            },
            ..renderer
        }
    } else {
        renderer
    }
}

/// A renderer whose buffers are replaced where they are too small.
pub open spec fn grown(
    renderer: RendererView,
    draw_data: DrawData<'_>,
    vertices: u64,
    indices: u64,
) -> RendererView {
    with_indices(with_vertices(renderer, draw_data, vertices), draw_data, indices)
}

/// The events of a frame up to the question for its state, where no creation fails.
pub open spec fn growth_events(
    renderer: RendererView,
    draw_data: DrawData<'_>,
    vertices: u64,
    indices: u64,
) -> Seq<Event> {
    let first = seq![Event::Begin];
    let second = if renderer.vertex_buffer.len < draw_data.total_vtx_count {
        first.push(Event::Created { object: Ok(vertices) })
    } else {
        first
    };
    if renderer.index_buffer.len < draw_data.total_idx_count {
        second.push(Event::Created { object: Ok(indices) })
    } else {
        second
    }
}

/// The actions of a frame up to the question for its state: a buffer is created where the one that
/// there is has too little room.
pub open spec fn growth_actions(renderer: RendererView, draw_data: DrawData<'_>) -> Seq<
    ActionView,
> {
    let first = if renderer.vertex_buffer.len < draw_data.total_vtx_count {
        Seq::<ActionView>::empty().push(
            FrameStep::CreateBuffer {
                desc: vertex_buffer_plan(draw_data.total_vtx_count as nat).desc,
            },
        )
    } else {
        Seq::<ActionView>::empty()
    };
    let second = if renderer.index_buffer.len < draw_data.total_idx_count {
        first.push(
            FrameStep::CreateBuffer {
                desc: index_buffer_plan(draw_data.total_idx_count as nat).desc,
            },
        )
    } else {
        first
    };
    second.push(FrameStep::Save { queries: backup_queries() })
}

/// The events from the question for the state on to the drawing, where no mapping fails.
pub open spec fn writing_events(backup: StateBackup) -> Seq<Event> {
    seq![
        Event::Saved { backup },
        Event::Mapped { result: Ok(()) },
        Event::Mapped { result: Ok(()) },
        Event::Done,
        Event::Done,
        Event::Mapped { result: Ok(()) },
        Event::Done,
    ]
}

/// The actions that write the geometry and the constants, and draw.
pub open spec fn writing_actions(renderer: RendererView, draw_data: DrawData<'_>) -> Seq<
    ActionView,
> {
    seq![
        map_action(renderer.vertex_buffer.object),
        map_action(renderer.index_buffer.object),
        FrameStep::WriteGeometry {
            vtx_count: draw_data.total_vtx_count as usize,
            idx_count: draw_data.total_idx_count as usize,
        },
        FrameStep::Issue { commands: unmap_geometry(renderer) },
        map_action(renderer.objects.constant_buffer),
        FrameStep::WriteConstants { constants: projection_constants(draw_data.projection) },
        FrameStep::Issue { commands: frame_commands(renderer, draw_data) },
    ]
}

/// The events after the drawing.
pub open spec fn ending_events(renderer: RendererView, draw_data: DrawData<'_>) -> Seq<Event> {
    if all_drawable(renderer, draw_data.draw_lists@) {
        seq![Event::Done, Event::Done]
    } else {
        seq![Event::Done]
    }
}

/// The actions after the drawing. Where every texture exists, the saved state is brought back and
/// the frame ends well; otherwise it ends with an error at once.
pub open spec fn ending_actions(
    renderer: RendererView,
    draw_data: DrawData<'_>,
    backup: StateBackup,
) -> Seq<ActionView> {
    if all_drawable(renderer, draw_data.draw_lists@) {
        seq![
            FrameStep::Issue { commands: restore_commands(backup) },
            FrameStep::Finish { result: Ok(()) },
        ]
    } else {
        seq![FrameStep::Finish { result: Err(DXGI_ERROR_INVALID_CALL) }]
    }
}

/// The first part of a frame: the buffers are given enough room.
proof fn lemma_growth(
    renderer: RendererView,
    draw_data: DrawData<'_>,
    frame: FrameView,
    vertices: u64,
    indices: u64,
)
    requires
        frame.phase is Ready,
        !draw_data.is_empty_display(),
    ensures
        run(
            Run { renderer, frame, actions: Seq::empty() },
            draw_data,
            growth_events(renderer, draw_data, vertices, indices),
        ) == (Run {
            renderer: grown(renderer, draw_data, vertices, indices),
            frame: FrameView { phase: Phase::Saving, ..frame },
            actions: growth_actions(renderer, draw_data),
        }),
{
    let start = Run { renderer, frame, actions: Seq::empty() };
    let events = growth_events(renderer, draw_data, vertices, indices);
    lemma_fold_first(start, frame_step(draw_data), events);
    let r1 = advance(start, draw_data, events[0]);
    if events.len() > 1 {
        lemma_fold_first(r1, frame_step(draw_data), events.skip(1));
    }
    let r2 = advance(r1, draw_data, events[1]);
    if events.len() > 2 {
        lemma_fold_first(r2, frame_step(draw_data), events.skip(1).skip(1));
    }
}

/// The state is saved and the geometry is written.
proof fn lemma_geometry(start: Run, draw_data: DrawData<'_>, backup: StateBackup)
    requires
        start.frame.phase is Saving,
    ensures
        ({
            let r1 = advance(start, draw_data, Event::Saved { backup });
            let r2 = advance(r1, draw_data, Event::Mapped { result: Ok(()) });
            let r3 = advance(r2, draw_data, Event::Mapped { result: Ok(()) });
            &&& r3.renderer == start.renderer
            &&& r3.frame == (FrameView { phase: Phase::WritingGeometry, backup })
            &&& r3.actions == start.actions.push(
                map_action(start.renderer.vertex_buffer.object),
            ).push(map_action(start.renderer.index_buffer.object)).push(
                FrameStep::WriteGeometry {
                    vtx_count: draw_data.total_vtx_count as usize,
                    idx_count: draw_data.total_idx_count as usize,
                },
            )
        }),
{
}

/// The constants are written.
proof fn lemma_constants(start: Run, draw_data: DrawData<'_>)
    requires
        start.frame.phase is WritingGeometry,
    ensures
        ({
            let r1 = advance(start, draw_data, Event::Done);
            let r2 = advance(r1, draw_data, Event::Done);
            let r3 = advance(r2, draw_data, Event::Mapped { result: Ok(()) });
            &&& r3.renderer == start.renderer
            &&& r3.frame == (FrameView { phase: Phase::WritingConstants, ..start.frame })
            &&& r3.actions == start.actions.push(
                FrameStep::Issue { commands: unmap_geometry(start.renderer) },
            ).push(map_action(start.renderer.objects.constant_buffer)).push(
                FrameStep::WriteConstants {
                    constants: projection_constants(draw_data.projection),
                },
            )
        }),
{
}

/// Seven items, one after the other, are the same as all of them at once.
proof fn lemma_seven_pushes<A>(items: Seq<A>, a: A, b: A, c: A, d: A, e: A, f: A, g: A)
    ensures
        items.push(a).push(b).push(c).push(d).push(e).push(f).push(g) == items + seq![
            a,
            b,
            c,
            d,
            e,
            f,
            g,
        ],
{
    assert(items.push(a).push(b).push(c).push(d).push(e).push(f).push(g) =~= items + seq![
        a,
        b,
        c,
        d,
        e,
        f,
        g,
    ]);
}

/// The second part of a frame: the state is saved, the geometry and the constants are written, and
/// the frame is drawn.
proof fn lemma_writing(start: Run, draw_data: DrawData<'_>, backup: StateBackup)
    requires
        start.frame.phase is Saving,
    ensures
        run(start, draw_data, writing_events(backup)) == (Run {
            renderer: start.renderer,
            frame: FrameView {
                phase: Phase::Drawing { result: drawing_result(start.renderer, draw_data) },
                backup,
            },
            actions: start.actions + writing_actions(start.renderer, draw_data),
        }),
{
    let renderer = start.renderer;
    let events = writing_events(backup);
    lemma_fold_three(start, frame_step(draw_data), events);
    lemma_geometry(start, draw_data, backup);
    let r1 = advance(start, draw_data, events[0]);
    let r2 = advance(r1, draw_data, events[1]);
    let r3 = advance(r2, draw_data, events[2]);
    lemma_fold_three(r3, frame_step(draw_data), events.skip(3));
    lemma_constants(r3, draw_data);
    let r4 = advance(r3, draw_data, events[3]);
    let r5 = advance(r4, draw_data, events[4]);
    let r6 = advance(r5, draw_data, events[5]);
    lemma_fold_first(r6, frame_step(draw_data), events.skip(3).skip(3));
    let actions = writing_actions(renderer, draw_data);
    lemma_seven_pushes(
        start.actions,
        actions[0],
        actions[1],
        actions[2],
        actions[3],
        actions[4],
        actions[5],
        actions[6],
    );
}

/// The third part of a frame: it ends.
proof fn lemma_ending(start: Run, draw_data: DrawData<'_>)
    requires
        start.frame.phase == (Phase::Drawing {
            result: drawing_result(start.renderer, draw_data),
        }),
    ensures
        run(start, draw_data, ending_events(start.renderer, draw_data)) == (Run {
            renderer: start.renderer,
            frame: FrameView { phase: Phase::Finished, ..start.frame },
            actions: start.actions + ending_actions(
                start.renderer,
                draw_data,
                start.frame.backup,
            ),
        }),
{
    let renderer = start.renderer;
    let events = ending_events(renderer, draw_data);
    let actions = ending_actions(renderer, draw_data, start.frame.backup);
    lemma_fold_first(start, frame_step(draw_data), events);
    if all_drawable(renderer, draw_data.draw_lists@) {
        let r1 = advance(start, draw_data, events[0]);
        lemma_fold_first(r1, frame_step(draw_data), events.skip(1));
        assert(start.actions.push(actions[0]).push(actions[1]) =~= start.actions + actions);
    } else {
        assert(start.actions.push(actions[0]) =~= start.actions + actions);
    }
}

/// A frame in which nothing fails on the way does this: it creates the buffers that are too small,
/// saves the state of the pipeline, writes the geometry and the constants, and draws. Then it brings
/// the saved state back and ends well if every texture exists; if not, it ends with the error
/// `DXGI_ERROR_INVALID_CALL` at once. The renderer keeps the buffers that were created.
pub proof fn a_frame_from_beginning_to_end(
    renderer: RendererView,
    draw_data: DrawData<'_>,
    frame: FrameView,
    vertices: u64,
    indices: u64,
    backup: StateBackup,
)
    requires
        frame.phase is Ready,
        !draw_data.is_empty_display(),
    ensures
        ({
            let used = grown(renderer, draw_data, vertices, indices);
            run(
                Run { renderer, frame, actions: Seq::empty() },
                draw_data,
                growth_events(renderer, draw_data, vertices, indices) + writing_events(backup)
                    + ending_events(used, draw_data),
            ) == (Run {
                renderer: used,
                frame: FrameView { phase: Phase::Finished, backup },
                actions: growth_actions(renderer, draw_data) + writing_actions(used, draw_data)
                    + ending_actions(used, draw_data, backup),
            })
        }),
{
    let used = grown(renderer, draw_data, vertices, indices);
    let start = Run { renderer, frame, actions: Seq::empty() };
    let first = growth_events(renderer, draw_data, vertices, indices);
    let second = writing_events(backup);
    let third = ending_events(used, draw_data);
    lemma_growth(renderer, draw_data, frame, vertices, indices);
    lemma_fold_add(start, frame_step(draw_data), first, second);
    lemma_writing(run(start, draw_data, first), draw_data, backup);
    lemma_fold_add(start, frame_step(draw_data), first + second, third);
    lemma_ending(run(start, draw_data, first + second), draw_data);
}

/// A frame draws from buffers that have room for all of its vertices and indices.
pub proof fn grown_buffers_suffice(
    renderer: RendererView,
    draw_data: DrawData<'_>,
    vertices: u64,
    indices: u64,
)
    requires
        draw_data.consistent(),
        vertices_fit(renderer, draw_data),
        indices_fit(renderer, draw_data),
    ensures
        ({
            let used = grown(renderer, draw_data, vertices, indices);
            &&& crate::draw_data::vertices(draw_data.draw_lists@).len() <= used.vertex_buffer.len
            &&& crate::draw_data::indices(draw_data.draw_lists@).len() <= used.index_buffer.len
            &&& draw_data.total_vtx_count <= used.vertex_buffer.len
            &&& draw_data.total_idx_count <= used.index_buffer.len
        }),
{
}

/// The calls on the device context that a sequence of actions asks for.
pub open spec fn issued(actions: Seq<ActionView>) -> Seq<CommandView>
    decreases actions.len(),
{
    if actions.len() == 0 {
        Seq::empty()
    } else {
        let before = issued(actions.drop_last());
        match actions.last() {
            FrameStep::Issue { commands } => before + commands,
            _ => before,
        }
    }
}

/// The calls of a frame that ends well: those before the drawing, the drawing, and those that bring
/// the saved state back.
pub open spec fn whole_frame(
    renderer: RendererView,
    draw_data: DrawData<'_>,
    backup: StateBackup,
) -> Seq<CommandView> {
    unmap_geometry(renderer) + frame_commands(renderer, draw_data) + restore_commands(backup)
}

/// The calls of two sequences of actions follow each other.
proof fn lemma_issued_add(first: Seq<ActionView>, second: Seq<ActionView>)
    ensures
        issued(first + second) == issued(first) + issued(second),
    decreases second.len(),
{
    if second.len() == 0 {
        assert(first + second =~= first);
        assert(issued(first) + issued(second) =~= issued(first));
    } else {
        lemma_issued_add(first, second.drop_last());
        assert((first + second).drop_last() =~= first + second.drop_last());
        assert(issued(first + second) =~= issued(first) + issued(second));
    }
}

/// The calls that one action asks for.
proof fn lemma_issued_one(action: ActionView)
    ensures
        issued(seq![action]) == (match action {
            FrameStep::Issue { commands } => commands,
            _ => Seq::empty(),
        }),
{
    assert(seq![action].drop_last() =~= Seq::empty());
    assert(issued(seq![action].drop_last()) =~= Seq::empty());
    assert(issued(seq![action]) =~= (match action {
        FrameStep::Issue { commands } => commands,
        _ => Seq::empty(),
    }));
}

/// The calls that a sequence of actions and one more ask for.
proof fn lemma_issued_push(actions: Seq<ActionView>, action: ActionView)
    ensures
        issued(actions.push(action)) == issued(actions) + (match action {
            FrameStep::Issue { commands } => commands,
            _ => Seq::empty(),
        }),
{
    assert(actions.push(action).drop_last() =~= actions);
    assert(issued(actions) + Seq::<CommandView>::empty() =~= issued(actions));
}

/// Creating buffers and asking for the state makes no calls that change the pipeline.
proof fn lemma_growth_issues_nothing(renderer: RendererView, draw_data: DrawData<'_>)
    ensures
        issued(growth_actions(renderer, draw_data)) == Seq::<CommandView>::empty(),
{
    let none = Seq::<ActionView>::empty();
    let save: ActionView = FrameStep::Save { queries: backup_queries() };
    let vertices: ActionView = FrameStep::CreateBuffer {
        desc: vertex_buffer_plan(draw_data.total_vtx_count as nat).desc,
    };
    let indices: ActionView = FrameStep::CreateBuffer {
        desc: index_buffer_plan(draw_data.total_idx_count as nat).desc,
    };
    lemma_issued_push(none, vertices);
    lemma_issued_push(none, indices);
    lemma_issued_push(none, save);
    lemma_issued_push(none.push(vertices), indices);
    lemma_issued_push(none.push(vertices), save);
    lemma_issued_push(none.push(indices), save);
    lemma_issued_push(none.push(vertices).push(indices), save);
    assert(issued(growth_actions(renderer, draw_data)) =~= Seq::empty());
}

/// Writing and drawing makes the calls that unmap the buffers, set up the pipeline and draw.
proof fn lemma_writing_issues(renderer: RendererView, draw_data: DrawData<'_>)
    ensures
        issued(writing_actions(renderer, draw_data)) == unmap_geometry(renderer) + frame_commands(
            renderer,
            draw_data,
        ),
{
    let actions = writing_actions(renderer, draw_data);
    let none = Seq::<ActionView>::empty();
    let a1 = none.push(actions[0]);
    let a2 = a1.push(actions[1]);
    let a3 = a2.push(actions[2]);
    let a4 = a3.push(actions[3]);
    let a5 = a4.push(actions[4]);
    let a6 = a5.push(actions[5]);
    let a7 = a6.push(actions[6]);
    lemma_issued_push(none, actions[0]);
    lemma_issued_push(a1, actions[1]);
    lemma_issued_push(a2, actions[2]);
    lemma_issued_push(a3, actions[3]);
    lemma_issued_push(a4, actions[4]);
    lemma_issued_push(a5, actions[5]);
    lemma_issued_push(a6, actions[6]);
    assert(a7 =~= actions);
    assert(issued(a7) =~= unmap_geometry(renderer) + frame_commands(renderer, draw_data));
}

/// A frame makes these calls on the device context and no others: those that unmap the buffers, set
/// up the pipeline and draw; and, if every texture exists, those that bring the saved state back.
pub proof fn a_frame_makes_these_calls(
    renderer: RendererView,
    draw_data: DrawData<'_>,
    vertices: u64,
    indices: u64,
    backup: StateBackup,
)
    ensures
        ({
            let used = grown(renderer, draw_data, vertices, indices);
            issued(
                growth_actions(renderer, draw_data) + writing_actions(used, draw_data)
                    + ending_actions(used, draw_data, backup),
            ) == (if all_drawable(used, draw_data.draw_lists@) {
                whole_frame(used, draw_data, backup)
            } else {
                unmap_geometry(used) + frame_commands(used, draw_data)
            })
        }),
{
    let used = grown(renderer, draw_data, vertices, indices);
    let first = growth_actions(renderer, draw_data);
    let second = writing_actions(used, draw_data);
    let third = ending_actions(used, draw_data, backup);
    lemma_issued_add(first, second);
    lemma_issued_add(first + second, third);
    lemma_growth_issues_nothing(renderer, draw_data);
    lemma_writing_issues(used, draw_data);
    let drawn = unmap_geometry(used) + frame_commands(used, draw_data);
    assert(issued(first + second) =~= drawn);
    if all_drawable(used, draw_data.draw_lists@) {
        lemma_issued_push(seq![third[0]], third[1]);
        lemma_issued_one(third[0]);
        assert(third =~= seq![third[0]].push(third[1]));
        assert(issued(third) =~= restore_commands(backup));
    } else {
        lemma_issued_one(third[0]);
        assert(third =~= seq![third[0]]);
        assert(drawn + issued(third) =~= drawn);
    }
}

} // verus!
