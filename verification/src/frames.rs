//! What holds of the steps of a frame, of whole frames, and of frames that follow each other.

use vstd::prelude::*;

use crate::backup::{
    backup_queries, few_instances_can_be_restored, restore_commands, StateBackup,
};
use crate::buffer::buffers_fit_in_machine_numbers;
use crate::d3d11::{
    D3D11_BIND_INDEX_BUFFER, D3D11_BIND_VERTEX_BUFFER, D3D11_CPU_ACCESS_WRITE,
    D3D11_MAP_WRITE_DISCARD, D3D11_USAGE_DYNAMIC, DXGI_ERROR_INVALID_CALL, F32_HALF, F32_ONE,
    F32_ZERO,
};
use crate::draw_data::{command_at, places, vertex_base, DrawCmd, DrawData, DrawList, Place};
use crate::drawing::{
    draw_commands, drawing_places, drawn_places, is_drawable, is_place, lemma_drawable_count,
    lemma_sum_of_counts, same_but_for_the_font_slot, setup_commands,
    sum_of_counts, the_font_slot_is_ignored,
};
use crate::f32_bits::at_most_zero_by_parts;
use crate::frame::{
    after_frame, after_frames, buffers_never_shrink, can_go_on, indices_fit, is_growing,
    render_step, run, vertices_fit, Action, ActionView, Course, Event, FrameStep, FrameView, Phase,
    Run, Step,
};
use crate::renderer::RendererView;

verus! {

/// Whether a frame can take these events, one after the other: each one can follow the action
/// before it, and its step can be computed.
pub open spec fn is_run(start: Run, draw_data: DrawData<'_>, events: Seq<Event>) -> bool
    decreases events.len(),
{
    events.len() == 0 || {
        let before = run(start, draw_data, events.drop_last());
        &&& is_run(start, draw_data, events.drop_last())
        &&& before.frame.expects(events.last())
        &&& can_go_on(before.renderer, draw_data, before.frame, events.last())
    }
}

/// The beginning of a frame.
pub open spec fn begun(renderer: RendererView, frame: FrameView) -> Run {
    Run { renderer, frame, actions: Seq::empty() }
}

/// Whether a frame begins at its beginning and can take its events.
pub open spec fn is_course(renderer: RendererView, course: Course<'_>) -> bool {
    &&& course.frame.phase is Ready
    &&& is_run(begun(renderer, course.frame), course.draw_data, course.events)
}

/// Whether each of a sequence of frames can take its events.
pub open spec fn are_courses(renderer: RendererView, courses: Seq<Course<'_>>) -> bool
    decreases courses.len(),
{
    courses.len() == 0 || {
        &&& are_courses(renderer, courses.drop_last())
        &&& is_course(after_frames(renderer, courses.drop_last()), courses.last())
    }
}

/// Buffers never shrink from one point of a frame to a later one.
proof fn lemma_run_grows(start: Run, draw_data: DrawData<'_>, events: Seq<Event>)
    requires
        is_run(start, draw_data, events),
        is_growing(start.renderer, start.frame),
    ensures
        ({
            let end = run(start, draw_data, events);
            &&& start.renderer.vertex_buffer.len <= end.renderer.vertex_buffer.len
            &&& start.renderer.index_buffer.len <= end.renderer.index_buffer.len
            &&& is_growing(end.renderer, end.frame)
        }),
    decreases events.len(),
{
    if events.len() > 0 {
        let before = run(start, draw_data, events.drop_last());
        lemma_run_grows(start, draw_data, events.drop_last());
        buffers_never_shrink(before.renderer, draw_data, before.frame, events.last());
    }
}

/// No frame leaves a renderer with less room in its buffers, however it ends.
pub proof fn a_frame_never_shrinks_buffers(renderer: RendererView, course: Course<'_>)
    requires
        is_course(renderer, course),
    ensures
        renderer.vertex_buffer.len <= after_frame(renderer, course).vertex_buffer.len,
        renderer.index_buffer.len <= after_frame(renderer, course).index_buffer.len,
{
    lemma_run_grows(begun(renderer, course.frame), course.draw_data, course.events);
}

/// Frames that follow each other never leave a renderer with less room in its buffers.
pub proof fn frames_never_shrink_buffers(renderer: RendererView, courses: Seq<Course<'_>>)
    requires
        are_courses(renderer, courses),
    ensures
        renderer.vertex_buffer.len <= after_frames(renderer, courses).vertex_buffer.len,
        renderer.index_buffer.len <= after_frames(renderer, courses).index_buffer.len,
    decreases courses.len(),
{
    if courses.len() > 0 {
        let before = after_frames(renderer, courses.drop_last());
        frames_never_shrink_buffers(renderer, courses.drop_last());
        a_frame_never_shrinks_buffers(before, courses.last());
    }
}

/// Whether the buffers of a renderer have room for the totals of the draw data.
pub open spec fn has_room(renderer: RendererView, draw_data: DrawData<'_>) -> bool {
    &&& draw_data.total_vtx_count <= renderer.vertex_buffer.len
    &&& draw_data.total_idx_count <= renderer.index_buffer.len
}

/// Whether one of the actions of a frame asks for the state of the device context, so that the frame
/// came past the creation of buffers.
pub open spec fn asks_for_state(actions: Seq<ActionView>) -> bool {
    exists|i: int| 0 <= i < actions.len() && #[trigger] actions[i] is Save
}

/// Whether one of the actions of a frame creates a buffer.
pub open spec fn creates_a_buffer(actions: Seq<ActionView>) -> bool {
    exists|i: int| 0 <= i < actions.len() && #[trigger] actions[i] is CreateBuffer
}

/// What one more action adds.
proof fn lemma_one_more(actions: Seq<ActionView>, action: ActionView)
    ensures
        asks_for_state(actions.push(action)) == (asks_for_state(actions) || action is Save),
        creates_a_buffer(actions.push(action)) == (creates_a_buffer(actions)
            || action is CreateBuffer),
{
    let more = actions.push(action);
    assert(more[actions.len() as int] == action);
    if asks_for_state(actions) {
        let i = choose|i: int| 0 <= i < actions.len() && #[trigger] actions[i] is Save;
        assert(more[i] is Save);
    }
    if asks_for_state(more) {
        let i = choose|i: int| 0 <= i < more.len() && #[trigger] more[i] is Save;
        assert(i < actions.len() ==> actions[i] is Save);
    }
    if creates_a_buffer(actions) {
        let i = choose|i: int| 0 <= i < actions.len() && #[trigger] actions[i] is CreateBuffer;
        assert(more[i] is CreateBuffer);
    }
    if creates_a_buffer(more) {
        let i = choose|i: int| 0 <= i < more.len() && #[trigger] more[i] is CreateBuffer;
        assert(i < actions.len() ==> actions[i] is CreateBuffer);
    }
}

/// How much room there is at each point of a frame.
spec fn makes_room(at: Run, draw_data: DrawData<'_>) -> bool {
    match at.frame.phase {
        Phase::Ready => !asks_for_state(at.actions),
        Phase::GrowingVertices { len } => {
            &&& !asks_for_state(at.actions)
            &&& draw_data.total_vtx_count <= len
        },
        Phase::GrowingIndices { len } => {
            &&& !asks_for_state(at.actions)
            &&& draw_data.total_vtx_count <= at.renderer.vertex_buffer.len
            &&& draw_data.total_idx_count <= len
        },
        _ => asks_for_state(at.actions) ==> has_room(at.renderer, draw_data),
    }
}

/// A frame makes room step by step.
proof fn lemma_makes_room(start: Run, draw_data: DrawData<'_>, events: Seq<Event>)
    requires
        is_run(start, draw_data, events),
        makes_room(start, draw_data),
    ensures
        makes_room(run(start, draw_data, events), draw_data),
    decreases events.len(),
{
    if events.len() > 0 {
        let before = run(start, draw_data, events.drop_last());
        let event = events.last();
        let step = render_step(before.renderer, draw_data, before.frame, event);
        lemma_makes_room(start, draw_data, events.drop_last());
        lemma_one_more(before.actions, step.action);
    }
}

/// A frame that came past the creation of buffers leaves a renderer with room for its vertices and
/// indices, whether it ends well or with an error.
pub proof fn a_frame_leaves_room(renderer: RendererView, course: Course<'_>)
    requires
        is_course(renderer, course),
        asks_for_state(
            run(begun(renderer, course.frame), course.draw_data, course.events).actions,
        ),
    ensures
        has_room(after_frame(renderer, course), course.draw_data),
{
    lemma_makes_room(begun(renderer, course.frame), course.draw_data, course.events);
}

/// Where the buffers have room, no step creates a buffer.
proof fn lemma_room_suffices(start: Run, draw_data: DrawData<'_>, events: Seq<Event>)
    requires
        has_room(start.renderer, draw_data),
        !(start.frame.phase is GrowingVertices),
        !(start.frame.phase is GrowingIndices),
        !creates_a_buffer(start.actions),
    ensures
        ({
            let end = run(start, draw_data, events);
            &&& end.renderer == start.renderer
            &&& !(end.frame.phase is GrowingVertices)
            &&& !(end.frame.phase is GrowingIndices)
            &&& !creates_a_buffer(end.actions)
        }),
    decreases events.len(),
{
    if events.len() > 0 {
        let before = run(start, draw_data, events.drop_last());
        let event = events.last();
        let step = render_step(before.renderer, draw_data, before.frame, event);
        lemma_room_suffices(start, draw_data, events.drop_last());
        lemma_one_more(before.actions, step.action);
    }
}

/// After a frame that came past the creation of buffers, a frame with no larger totals creates no
/// buffer and leaves the renderer as it is.
pub proof fn a_second_frame_creates_no_buffer(
    renderer: RendererView,
    first: Course<'_>,
    second: Course<'_>,
)
    requires
        is_course(renderer, first),
        asks_for_state(run(begun(renderer, first.frame), first.draw_data, first.events).actions),
        second.frame.phase is Ready,
        second.draw_data.total_vtx_count <= first.draw_data.total_vtx_count,
        second.draw_data.total_idx_count <= first.draw_data.total_idx_count,
    ensures
        ({
            let between = after_frame(renderer, first);
            let end = run(begun(between, second.frame), second.draw_data, second.events);
            &&& !creates_a_buffer(end.actions)
            &&& end.renderer == between
        }),
{
    let between = after_frame(renderer, first);
    a_frame_leaves_room(renderer, first);
    lemma_room_suffices(begun(between, second.frame), second.draw_data, second.events);
}

/// A step does the same for renderers that differ only in the slot of the font texture.
proof fn lemma_font_slot_step(
    a: RendererView,
    b: RendererView,
    draw_data: DrawData<'_>,
    frame: FrameView,
    event: Event,
)
    requires
        same_but_for_the_font_slot(a, b),
    ensures
        ({
            let x = render_step(a, draw_data, frame, event);
            let y = render_step(b, draw_data, frame, event);
            &&& x.action == y.action
            &&& x.frame == y.frame
            &&& same_but_for_the_font_slot(x.renderer, y.renderer)
        }),
{
    the_font_slot_is_ignored(a, b, draw_data.display_size, draw_data.draw_lists@);
}

/// What is in the slot of the font texture changes no action of a frame.
pub proof fn the_font_slot_changes_no_frame(
    a: RendererView,
    b: RendererView,
    frame: FrameView,
    draw_data: DrawData<'_>,
    events: Seq<Event>,
)
    requires
        same_but_for_the_font_slot(a, b),
    ensures
        ({
            let x = run(begun(a, frame), draw_data, events);
            let y = run(begun(b, frame), draw_data, events);
            &&& x.actions == y.actions
            &&& x.frame == y.frame
            &&& same_but_for_the_font_slot(x.renderer, y.renderer)
        }),
    decreases events.len(),
{
    if events.len() > 0 {
        let x = run(begun(a, frame), draw_data, events.drop_last());
        let y = run(begun(b, frame), draw_data, events.drop_last());
        the_font_slot_changes_no_frame(a, b, frame, draw_data, events.drop_last());
        lemma_font_slot_step(x.renderer, y.renderer, draw_data, x.frame, events.last());
    }
}

/// An action is seen as it is: contracts speak of the same action, with the contents of its lists.
pub proof fn an_action_is_seen_as_it_is(action: Action)
    ensures
        action matches FrameStep::CreateBuffer { desc } ==> action@ is CreateBuffer && action@->desc
            == desc,
        action matches FrameStep::Save { queries } ==> action@ is Save && action@->queries
            == queries@,
        action matches FrameStep::MapBuffer { buffer, map_type } ==> {
            &&& action@ is MapBuffer
            &&& action@->buffer == buffer
            &&& action@->map_type == map_type
        },
        action matches FrameStep::WriteGeometry { vtx_count, idx_count } ==> {
            &&& action@ is WriteGeometry
            &&& action@->vtx_count == vtx_count
            &&& action@->idx_count == idx_count
        },
        action matches FrameStep::WriteConstants { constants } ==> action@ is WriteConstants
            && action@->constants == constants,
        action matches FrameStep::Issue { commands } ==> {
            &&& action@ is Issue
            &&& action@->commands.len() == commands@.len()
            &&& forall|i: int|
                0 <= i < commands@.len() ==> #[trigger] action@->commands[i] == commands@[i]@
        },
        action matches FrameStep::Finish { result } ==> action@ is Finish && action@->result
            == result,
{
}

/// Whether the bits of a width or a height are those of zero or of a number below zero, by their
/// sign, exponent and fraction.
pub open spec fn has_no_extent(bits: u32) -> bool {
    let exponent = bits as int / 0x80_0000 % 0x100;
    let fraction = bits as int % 0x80_0000;
    !(exponent == 0xFF && fraction != 0) && (bits >= 0x8000_0000 || (exponent == 0 && fraction
        == 0))
}

/// Whether a step asks for a buffer with room for so many items, of so many bytes each, that is
/// dynamic, written by the processor and bound with the given flags.
pub open spec fn asks_for_buffer(action: ActionView, len: int, size: int, bind_flags: u32) -> bool {
    &&& action is CreateBuffer
    &&& action->desc.byte_width == len * size % 0x1_0000_0000
    &&& action->desc.usage == D3D11_USAGE_DYNAMIC
    &&& action->desc.bind_flags == bind_flags
    &&& action->desc.cpu_access_flags == D3D11_CPU_ACCESS_WRITE
    &&& action->desc.misc_flags == 0
    &&& action->desc.structure_byte_stride == 0
}

/// Whether a step asks for a larger index buffer where the one that there is has too little room, and
/// otherwise for the state of the device context.
pub open spec fn goes_on_with_indices(step: Step, draw_data: DrawData<'_>) -> bool {
    let room = step.renderer.index_buffer.len;
    let needed = draw_data.total_idx_count;
    &&& room < needed ==> {
        &&& asks_for_buffer(step.action, needed + 10000, 2, D3D11_BIND_INDEX_BUFFER)
        &&& step.frame.phase is GrowingIndices
        &&& step.frame.phase->GrowingIndices_len == needed + 10000
    }
    &&& room >= needed ==> {
        &&& step.action is Save
        &&& step.action->queries == backup_queries()
        &&& step.frame.phase is Saving
    }
}

/// A frame of a display without extent ends well at once. Any other frame begins with a larger vertex
/// buffer where the one that there is has too little room, with five thousand vertices to spare; then
/// it goes on with the indices. The renderer and the saved state stay as they are.
pub proof fn how_a_frame_begins(
    renderer: RendererView,
    draw_data: DrawData<'_>,
    frame: FrameView,
)
    requires
        frame.phase is Ready,
        vertices_fit(renderer, draw_data),
        indices_fit(renderer, draw_data),
    ensures
        ({
            let step = render_step(renderer, draw_data, frame, Event::Begin);
            let empty = has_no_extent(draw_data.display_size@[0]) || has_no_extent(
                draw_data.display_size@[1],
            );
            let grows = renderer.vertex_buffer.len < draw_data.total_vtx_count;
            &&& step.renderer == renderer
            &&& step.frame.backup == frame.backup
            &&& empty ==> {
                &&& step.action is Finish
                &&& step.action->result == Ok::<(), i32>(())
                &&& step.frame.phase is Finished
            }
            &&& !empty && grows ==> {
                &&& asks_for_buffer(
                    step.action,
                    draw_data.total_vtx_count + 5000,
                    20,
                    D3D11_BIND_VERTEX_BUFFER,
                )
                &&& step.frame.phase is GrowingVertices
                &&& step.frame.phase->GrowingVertices_len == draw_data.total_vtx_count + 5000
            }
            &&& !empty && !grows ==> goes_on_with_indices(step, draw_data)
        }),
{
    at_most_zero_by_parts(draw_data.display_size@[0]);
    at_most_zero_by_parts(draw_data.display_size@[1]);
}

/// A vertex buffer that was created takes the place of the old one, with the room that it was created
/// for; nothing else of the renderer changes, and the frame goes on with the indices.
pub proof fn a_new_vertex_buffer_is_taken_into_use(
    renderer: RendererView,
    draw_data: DrawData<'_>,
    frame: FrameView,
    object: u64,
)
    requires
        frame.phase is GrowingVertices,
        indices_fit(renderer, draw_data),
    ensures
        ({
            let step = render_step(
                renderer,
                draw_data,
                frame,
                Event::Created { object: Ok(object) },
            );
            &&& step.renderer.vertex_buffer.object == object
            &&& step.renderer.vertex_buffer.len == frame.phase->GrowingVertices_len
            &&& step.renderer.index_buffer == renderer.index_buffer
            &&& step.renderer.objects == renderer.objects
            &&& step.renderer.textures == renderer.textures
            &&& step.renderer.next_texture == renderer.next_texture
            &&& step.frame.backup == frame.backup
            &&& goes_on_with_indices(step, draw_data)
        }),
{
}

/// An index buffer that was created takes the place of the old one, with the room that it was created
/// for; nothing else of the renderer changes, and the frame asks for the state of the device context.
pub proof fn a_new_index_buffer_is_taken_into_use(
    renderer: RendererView,
    draw_data: DrawData<'_>,
    frame: FrameView,
    object: u64,
)
    requires
        frame.phase is GrowingIndices,
    ensures
        ({
            let step = render_step(
                renderer,
                draw_data,
                frame,
                Event::Created { object: Ok(object) },
            );
            &&& step.renderer.index_buffer.object == object
            &&& step.renderer.index_buffer.len == frame.phase->GrowingIndices_len
            &&& step.renderer.vertex_buffer == renderer.vertex_buffer
            &&& step.renderer.objects == renderer.objects
            &&& step.renderer.textures == renderer.textures
            &&& step.renderer.next_texture == renderer.next_texture
            &&& step.frame.backup == frame.backup
            &&& step.action is Save
            &&& step.action->queries == backup_queries()
            &&& step.frame.phase is Saving
        }),
{
}

/// Once the state is saved, the frame keeps it, and maps the vertex buffer and the index buffer, of
/// which the old contents may be forgotten. It writes as many vertices and indices as the totals say,
/// unmaps both buffers in this order, and maps the constant buffer.
pub proof fn how_geometry_is_written(
    renderer: RendererView,
    draw_data: DrawData<'_>,
    frame: FrameView,
    backup: StateBackup,
)
    requires
        0 <= draw_data.total_vtx_count,
        0 <= draw_data.total_idx_count,
    ensures
        ({
            let step = render_step(renderer, draw_data, frame, Event::Saved { backup });
            frame.phase is Saving ==> {
                &&& step.renderer == renderer
                &&& step.frame.backup == backup
                &&& step.frame.phase is MappingVertices
                &&& step.action is MapBuffer
                &&& step.action->buffer == renderer.vertex_buffer.object
                &&& step.action->map_type == D3D11_MAP_WRITE_DISCARD
            }
        }),
        ({
            let step = render_step(renderer, draw_data, frame, Event::Mapped { result: Ok(()) });
            &&& frame.phase is MappingVertices ==> {
                &&& step.renderer == renderer
                &&& step.frame.backup == frame.backup
                &&& step.frame.phase is MappingIndices
                &&& step.action is MapBuffer
                &&& step.action->buffer == renderer.index_buffer.object
                &&& step.action->map_type == D3D11_MAP_WRITE_DISCARD
            }
            &&& frame.phase is MappingIndices ==> {
                &&& step.renderer == renderer
                &&& step.frame.backup == frame.backup
                &&& step.frame.phase is WritingGeometry
                &&& step.action is WriteGeometry
                &&& step.action->vtx_count == draw_data.total_vtx_count
                &&& step.action->idx_count == draw_data.total_idx_count
            }
        }),
        ({
            let step = render_step(renderer, draw_data, frame, Event::Done);
            &&& frame.phase is WritingGeometry ==> {
                &&& step.renderer == renderer
                &&& step.frame.backup == frame.backup
                &&& step.frame.phase is UnmappingGeometry
                &&& step.action is Issue
                &&& step.action->commands.len() == 2
                &&& step.action->commands[0] is Unmap
                &&& step.action->commands[0]->resource == renderer.vertex_buffer.object
                &&& step.action->commands[1] is Unmap
                &&& step.action->commands[1]->resource == renderer.index_buffer.object
            }
            &&& frame.phase is UnmappingGeometry ==> {
                &&& step.renderer == renderer
                &&& step.frame.backup == frame.backup
                &&& step.frame.phase is MappingConstants
                &&& step.action is MapBuffer
                &&& step.action->buffer == renderer.objects.constant_buffer
                &&& step.action->map_type == D3D11_MAP_WRITE_DISCARD
            }
        }),
{
}

/// The constants that a frame writes are the four numbers of the projection in their places, with
/// one half for the depth, twice, one in the last place, and zeros elsewhere.
pub proof fn the_projection_is_written_unchanged(
    renderer: RendererView,
    draw_data: DrawData<'_>,
    frame: FrameView,
)
    requires
        frame.phase is MappingConstants,
    ensures
        ({
            let step = render_step(renderer, draw_data, frame, Event::Mapped { result: Ok(()) });
            let mvp = step.action->constants.mvp;
            &&& step.renderer == renderer
            &&& step.frame.backup == frame.backup
            &&& step.frame.phase is WritingConstants
            &&& step.action is WriteConstants
            &&& mvp@[0]@[0] == draw_data.projection.scale_x
            &&& mvp@[1]@[1] == draw_data.projection.scale_y
            &&& mvp@[3]@[0] == draw_data.projection.translate_x
            &&& mvp@[3]@[1] == draw_data.projection.translate_y
            &&& mvp@[2]@[2] == F32_HALF
            &&& mvp@[3]@[2] == F32_HALF
            &&& mvp@[3]@[3] == F32_ONE
            &&& mvp@[0]@[1] == F32_ZERO
            &&& mvp@[0]@[2] == F32_ZERO
            &&& mvp@[0]@[3] == F32_ZERO
            &&& mvp@[1]@[0] == F32_ZERO
            &&& mvp@[1]@[2] == F32_ZERO
            &&& mvp@[1]@[3] == F32_ZERO
            &&& mvp@[2]@[0] == F32_ZERO
            &&& mvp@[2]@[1] == F32_ZERO
            &&& mvp@[2]@[3] == F32_ZERO
        }),
{
}

/// Whether every command that draws has a texture id that is the largest number or in the registry.
pub open spec fn every_texture_exists(renderer: RendererView, lists: Seq<DrawList<'_>>) -> bool {
    forall|list: int, command: int|
        0 <= list < lists.len() && 0 <= command < lists[list].commands@.len() ==> (
        #[trigger] lists[list].commands@[command] matches DrawCmd::Elements { cmd_params, .. }
            ==> cmd_params.texture_id == usize::MAX || renderer.textures.dom().contains(
            cmd_params.texture_id,
        ))
}

/// Drawing unmaps the constant buffer, sets up the pipeline, and then carries out the commands up to
/// the first one whose texture does not exist. It ends well just where every texture exists, and
/// otherwise with the error `DXGI_ERROR_INVALID_CALL`.
pub proof fn how_a_frame_draws(
    renderer: RendererView,
    draw_data: DrawData<'_>,
    frame: FrameView,
)
    requires
        frame.phase is WritingConstants,
    ensures
        ({
            let step = render_step(renderer, draw_data, frame, Event::Done);
            let calls = step.action->commands;
            let lists = draw_data.draw_lists@;
            &&& step.renderer == renderer
            &&& step.frame.backup == frame.backup
            &&& step.action is Issue
            &&& calls[0] is Unmap
            &&& calls[0]->resource == renderer.objects.constant_buffer
            &&& calls.len() > 17
            &&& calls.subrange(1, 17) == setup_commands(renderer, draw_data.display_size)
            &&& calls.skip(17) == draw_commands(
                renderer,
                draw_data.display_size,
                lists,
                drawn_places(renderer, lists),
            )
            &&& step.frame.phase is Drawing
            &&& every_texture_exists(renderer, lists) ==> step.frame.phase->result == Ok::<
                (),
                i32,
            >(())
            &&& !every_texture_exists(renderer, lists) ==> step.frame.phase->result == Err::<
                (),
                i32,
            >(DXGI_ERROR_INVALID_CALL)
        }),
{
    let step = render_step(renderer, draw_data, frame, Event::Done);
    let calls = step.action->commands;
    let lists = draw_data.draw_lists@;
    let setup = setup_commands(renderer, draw_data.display_size);
    let drawing = draw_commands(
        renderer,
        draw_data.display_size,
        lists,
        drawn_places(renderer, lists),
    );
    lemma_drawing_makes_a_call(
        renderer,
        draw_data.display_size,
        lists,
        drawn_places(renderer, lists),
    );
    assert(setup.len() == 16);
    assert(calls.subrange(1, 17) =~= setup);
    assert(calls.skip(17) =~= drawing);
    if every_texture_exists(renderer, lists) {
        assert forall|place: Place| is_place(lists, place) implies is_drawable(
            renderer,
            #[trigger] command_at(lists, place),
        ) by {
            assert(lists[place.0].commands@[place.1] == command_at(lists, place));
        }
    } else {
        let (list, command) = choose|list: int, command: int|
            0 <= list < lists.len() && 0 <= command < lists[list].commands@.len() && !(
            #[trigger] lists[list].commands@[command] matches DrawCmd::Elements {
                cmd_params,
                ..
            } ==> cmd_params.texture_id == usize::MAX || renderer.textures.dom().contains(
                cmd_params.texture_id,
            ));
        assert(is_place(lists, (list, command)));
        assert(!is_drawable(renderer, command_at(lists, (list, command))));
    }
}

/// Drawing makes at least one call.
proof fn lemma_drawing_makes_a_call(
    renderer: RendererView,
    display_size: [u32; 2],
    lists: Seq<DrawList<'_>>,
    done: Seq<Place>,
)
    ensures
        draw_commands(renderer, display_size, lists, done).len() > 0,
    decreases done.len(),
{
    if done.len() > 0 {
        lemma_drawing_makes_a_call(renderer, display_size, lists, done.drop_last());
    }
}

/// A frame that drew everything brings the saved state back and ends well; one that did not ends with
/// the error of its drawing at once.
pub proof fn how_a_frame_ends(
    renderer: RendererView,
    draw_data: DrawData<'_>,
    frame: FrameView,
)
    ensures
        ({
            let step = render_step(renderer, draw_data, frame, Event::Done);
            &&& frame.phase matches Phase::Drawing { result: Ok(_) } ==> {
                &&& step.renderer == renderer
                &&& step.frame.backup == frame.backup
                &&& step.frame.phase is Restoring
                &&& step.action is Issue
                &&& step.action->commands == restore_commands(frame.backup)
            }
            &&& frame.phase matches Phase::Drawing { result: Err(code) } ==> {
                &&& step.renderer == renderer
                &&& step.frame.phase is Finished
                &&& step.action is Finish
                &&& step.action->result == Err::<(), i32>(code)
            }
            &&& frame.phase is Restoring ==> {
                &&& step.renderer == renderer
                &&& step.frame.phase is Finished
                &&& step.action is Finish
                &&& step.action->result == Ok::<(), i32>(())
            }
        }),
{
}

/// Where a buffer cannot be created or mapped, the frame ends with the code of that failure, and the
/// renderer stays as it is.
pub proof fn how_a_frame_fails(
    renderer: RendererView,
    draw_data: DrawData<'_>,
    frame: FrameView,
    code: i32,
)
    ensures
        ({
            let step = render_step(
                renderer,
                draw_data,
                frame,
                Event::Created { object: Err(code) },
            );
            frame.phase is GrowingVertices || frame.phase is GrowingIndices ==> {
                &&& step.renderer == renderer
                &&& step.frame.phase is Finished
                &&& step.action is Finish
                &&& step.action->result == Err::<(), i32>(code)
            }
        }),
        ({
            let step = render_step(
                renderer,
                draw_data,
                frame,
                Event::Mapped { result: Err(code) },
            );
            frame.phase is MappingVertices || frame.phase is MappingIndices || frame.phase
                is MappingConstants ==> {
                &&& step.renderer == renderer
                &&& step.frame.phase is Finished
                &&& step.action is Finish
                &&& step.action->result == Err::<(), i32>(code)
            }
        }),
{
}

/// A step can be computed just where the numbers that it computes are machine numbers, and the totals
/// that it reads are not negative.
pub proof fn when_a_step_can_be_computed(
    renderer: RendererView,
    draw_data: DrawData<'_>,
    frame: FrameView,
    event: Event,
)
    ensures
        ({
            let vtx = draw_data.total_vtx_count as int;
            let idx = draw_data.total_idx_count as int;
            let empty = has_no_extent(draw_data.display_size@[0]) || has_no_extent(
                draw_data.display_size@[1],
            );
            let vtx_fits = 0 <= vtx && (renderer.vertex_buffer.len < vtx ==> vtx * 20 + 100000
                <= usize::MAX);
            let idx_fits = 0 <= idx && (renderer.index_buffer.len < idx ==> idx * 2 + 20000
                <= usize::MAX);
            let lists = draw_data.draw_lists@;
            let drawn = drawn_places(renderer, lists);
            let accepted = can_go_on(renderer, draw_data, frame, event);
            &&& frame.phase is Ready ==> (accepted <==> empty || (vtx_fits && (
            renderer.vertex_buffer.len < vtx || idx_fits)))
            &&& frame.phase is GrowingVertices && (event matches Event::Created { object: Ok(_) })
                ==> (accepted <==> idx_fits)
            &&& frame.phase is MappingIndices && (event matches Event::Mapped { result: Ok(_) })
                ==> (accepted <==> 0 <= vtx && 0 <= idx)
            &&& frame.phase is WritingConstants ==> (accepted <==> {
                &&& sum_of_counts(lists, drawing_places(lists, drawn)) <= usize::MAX
                &&& drawn.len() == places(lists).len() ==> vertex_base(lists, lists.len() as int)
                    <= usize::MAX
                &&& drawn.len() < places(lists).len() ==> vertex_base(
                    lists,
                    places(lists)[drawn.len() as int].0,
                ) <= usize::MAX
            })
            &&& (frame.phase matches Phase::Drawing { result: Ok(_) }) ==> (accepted <==> {
                &&& frame.backup.ps_shader is None || frame.backup.ps_instances_count <= 256
                &&& frame.backup.vs_shader is None || frame.backup.vs_instances_count <= 256
                &&& frame.backup.gs_shader is None || frame.backup.gs_instances_count <= 256
            })
        }),
{
    let lists = draw_data.draw_lists@;
    at_most_zero_by_parts(draw_data.display_size@[0]);
    at_most_zero_by_parts(draw_data.display_size@[1]);
    few_instances_can_be_restored(frame.backup);
    lemma_sum_of_counts(lists, drawn_places(renderer, lists));
    lemma_drawable_count(renderer, lists, places(lists));
    buffers_fit_in_machine_numbers(
        draw_data.total_vtx_count as nat,
        draw_data.total_idx_count as nat,
    );
}

} // verus!
