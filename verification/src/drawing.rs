//! Which calls on the device context draw a frame.

use vstd::prelude::*;

use crate::buffer::{low_word, INDEX_SIZE, VERTEX_SIZE};
use crate::command::{CommandView, ContextCall};
use crate::d3d11::{
    Viewport, D3D11_PRIMITIVE_TOPOLOGY_TRIANGLELIST, DXGI_FORMAT_R16_UINT, DXGI_FORMAT_R32_UINT,
    F32_ONE, F32_ZERO, SAMPLE_MASK_ALL,
};
use crate::draw_data::{
    command_at, element_count, list_places, places, vertex_base, vertices, DrawCmd, DrawData,
    DrawList, Place,
};
use crate::geometry::lemma_base_le;
use crate::renderer::{RendererView, FONT_TEX_ID};
use crate::textures::entry;

verus! {

/// The viewport that covers a display of the given width and height.
pub open spec fn display_viewport(display_size: [u32; 2]) -> Viewport {
    Viewport {
        top_left_x: F32_ZERO,
        top_left_y: F32_ZERO,
        width: display_size@[0],
        height: display_size@[1],
        min_depth: F32_ZERO,
        max_depth: F32_ONE,
    }
}

/// The format of the indices in the index buffer.
pub open spec fn index_format() -> i32 {
    if INDEX_SIZE == 2 {
        DXGI_FORMAT_R16_UINT
    } else {
        DXGI_FORMAT_R32_UINT
    }
}

/// The calls that set up the pipeline for drawing.
pub open spec fn setup_commands(renderer: RendererView, display_size: [u32; 2]) -> Seq<
    CommandView,
> {
    let objects = renderer.objects;
    seq![
        ContextCall::RsSetViewports { viewports: seq![display_viewport(display_size)] },
        ContextCall::IaSetInputLayout { layout: Some(objects.input_layout) },
        ContextCall::IaSetVertexBuffers {
            slot: 0,
            buffer: Some(renderer.vertex_buffer.object),
            stride: VERTEX_SIZE as u32,
            offset: 0,
        },
        ContextCall::IaSetIndexBuffer {
            buffer: Some(renderer.index_buffer.object),
            format: index_format(),
            offset: 0,
        },
        ContextCall::IaSetPrimitiveTopology { topology: D3D11_PRIMITIVE_TOPOLOGY_TRIANGLELIST },
        ContextCall::VsSetShader { shader: Some(objects.vertex_shader), class_instances: None },
        ContextCall::VsSetConstantBuffers {
            slot: 0,
            buffers: seq![Some(objects.constant_buffer)],
        },
        ContextCall::PsSetShader { shader: Some(objects.pixel_shader), class_instances: None },
        ContextCall::PsSetSamplers { slot: 0, samplers: seq![Some(objects.font_sampler)] },
        ContextCall::GsSetShader { shader: None, class_instances: None },
        ContextCall::HsSetShader { shader: None },
        ContextCall::DsSetShader { shader: None },
        ContextCall::CsSetShader { shader: None },
        ContextCall::OmSetBlendState {
            state: Some(objects.blend_state),
            factor: [F32_ZERO, F32_ZERO, F32_ZERO, F32_ZERO],
            sample_mask: SAMPLE_MASK_ALL,
        },
        ContextCall::OmSetDepthStencilState {
            state: Some(objects.depth_stencil_state),
            stencil_ref: 0,
        },
        ContextCall::RsSetState { state: Some(objects.rasterizer_state) },
    ]
}

/// The view that a texture id stands for: that of the font texture, or else an entry of the
/// registry. No entry of the registry stands for the id of the font texture.
pub open spec fn view_of(renderer: RendererView, texture_id: usize) -> u64 {
    if texture_id == FONT_TEX_ID {
        renderer.objects.font_resource_view
    } else {
        renderer.textures[texture_id]
    }
}

/// Whether there is a command at a place.
pub open spec fn is_place(lists: Seq<DrawList<'_>>, place: Place) -> bool {
    0 <= place.0 < lists.len() && 0 <= place.1 < lists[place.0].commands@.len()
}

/// Whether a texture id stands for a view.
pub open spec fn is_texture(renderer: RendererView, texture_id: usize) -> bool {
    texture_id == FONT_TEX_ID || renderer.textures.dom().contains(texture_id)
}

/// Whether a command can be carried out: if it draws, its texture exists.
pub open spec fn is_drawable(renderer: RendererView, command: DrawCmd) -> bool {
    match command {
        DrawCmd::Elements { cmd_params, .. } => is_texture(renderer, cmd_params.texture_id),
        _ => true,
    }
}

/// How many of the commands at the given places come before the first one that cannot be carried
/// out.
pub open spec fn drawable_count(
    renderer: RendererView,
    lists: Seq<DrawList<'_>>,
    all: Seq<Place>,
) -> nat
    decreases all.len(),
{
    if all.len() == 0 {
        0
    } else {
        let before = drawable_count(renderer, lists, all.drop_last());
        if before == all.len() - 1 && is_drawable(renderer, command_at(lists, all.last())) {
            all.len()
        } else {
            before
        }
    }
}

/// The texture that is bound once the commands at the given places are carried out: that of the
/// last of them that draws, or else the font texture.
pub open spec fn bound_texture(lists: Seq<DrawList<'_>>, done: Seq<Place>) -> usize
    decreases done.len(),
{
    if done.len() == 0 {
        FONT_TEX_ID
    } else {
        match command_at(lists, done.last()) {
            DrawCmd::Elements { cmd_params, .. } => cmd_params.texture_id,
            _ => bound_texture(lists, done.drop_last()),
        }
    }
}

/// The call that makes a view the texture to draw with.
pub open spec fn bind_view(view: u64) -> CommandView {
    ContextCall::PsSetShaderResources { slot: 0, views: seq![Some(view)] }
}

/// The call that draws the indices of a command, which follow those of all commands before it, with
/// the vertices of its own draw list.
pub open spec fn draw_call(
    lists: Seq<DrawList<'_>>,
    done: Seq<Place>,
    place: Place,
) -> CommandView {
    ContextCall::DrawIndexed {
        index_count: low_word(crate::draw_data::elements_of(command_at(lists, place))),
        start_index: low_word(element_count(lists, done)),
        base_vertex: vertex_base(lists, place.0) as i32,
    }
}

/// The calls that carry out the command at a place, after those at the places `done`: drawing binds
/// the texture unless it is bound already, and sets the clip rectangle.
pub open spec fn command_calls(
    renderer: RendererView,
    display_size: [u32; 2],
    lists: Seq<DrawList<'_>>,
    done: Seq<Place>,
    place: Place,
) -> Seq<CommandView> {
    match command_at(lists, place) {
        DrawCmd::Elements { cmd_params, .. } => {
            let binding = if cmd_params.texture_id == bound_texture(lists, done) {
                Seq::<CommandView>::empty()
            } else {
                seq![bind_view(view_of(renderer, cmd_params.texture_id))]
            };
            binding + seq![
                ContextCall::RsSetScissorRects { rects: seq![cmd_params.clip_rect] },
                draw_call(lists, done, place),
            ]
        },
        DrawCmd::ResetRenderState => setup_commands(renderer, display_size),
        DrawCmd::RawCallback => seq![
            ContextCall::RawCallback { list: place.0 as usize, command: place.1 as usize },
        ],
    }
}

/// The calls that bind the font texture and then carry out the commands at the given places.
pub open spec fn draw_commands(
    renderer: RendererView,
    display_size: [u32; 2],
    lists: Seq<DrawList<'_>>,
    done: Seq<Place>,
) -> Seq<CommandView>
    decreases done.len(),
{
    if done.len() == 0 {
        seq![bind_view(renderer.objects.font_resource_view)]
    } else {
        draw_commands(renderer, display_size, lists, done.drop_last()) + command_calls(
            renderer,
            display_size,
            lists,
            done.drop_last(),
            done.last(),
        )
    }
}

/// The places of the commands of a frame that are carried out: all of them, or those before the
/// first one whose texture does not exist.
pub open spec fn drawn_places(renderer: RendererView, lists: Seq<DrawList<'_>>) -> Seq<Place> {
    places(lists).take(drawable_count(renderer, lists, places(lists)) as int)
}

/// Whether every command of a frame can be carried out.
pub open spec fn all_drawable(renderer: RendererView, lists: Seq<DrawList<'_>>) -> bool {
    forall|place: Place|
        is_place(lists, place) ==> is_drawable(renderer, #[trigger] command_at(lists, place))
}

/// How many draw lists are carried out to their end: all of them, or those before the one with the
/// first command whose texture does not exist.
pub open spec fn lists_drawn(renderer: RendererView, lists: Seq<DrawList<'_>>) -> int {
    let all = places(lists);
    let count = drawable_count(renderer, lists, all);
    if count == all.len() {
        lists.len() as int
    } else {
        all[count as int].0
    }
}

/// Whether drawing counts in machine numbers: the vertices of the draw lists that are carried out to
/// their end, and the indices of the commands that are carried out.
pub open spec fn countable(renderer: RendererView, lists: Seq<DrawList<'_>>) -> bool {
    &&& vertex_base(lists, lists_drawn(renderer, lists)) <= usize::MAX
    &&& element_count(lists, drawn_places(renderer, lists)) <= usize::MAX
}

/// The places of the commands that come before those of the given draw list, and of the first
/// commands of that list.
pub open spec fn places_before(
    lists: Seq<DrawList<'_>>,
    list: int,
    command: nat,
) -> Seq<Place> {
    places(lists.take(list)) + list_places(list, command)
}

/// The commands are carried out in the order of their places.
pub(crate) proof fn lemma_places_before(lists: Seq<DrawList<'_>>, list: int, command: nat)
    requires
        0 <= list < lists.len(),
        command <= lists[list].commands@.len(),
    ensures
        places_before(lists, list, command).len() <= places(lists).len(),
        places_before(lists, list, command) == places(lists).take(
            places_before(lists, list, command).len() as int,
        ),
    decreases lists.len(),
{
    let done = places_before(lists, list, command);
    let rest = lists.drop_last();
    if list == lists.len() - 1 {
        assert(lists.take(list) =~= rest);
    } else {
        lemma_places_before(rest, list, command);
        assert(rest.take(list) =~= lists.take(list));
    }
    assert(done =~= places(lists).take(done.len() as int));
}

/// The places of all commands are exactly those at which there is a command.
pub(crate) proof fn lemma_places(lists: Seq<DrawList<'_>>)
    ensures
        forall|i: int| 0 <= i < places(lists).len() ==> is_place(lists, #[trigger] places(lists)[i]),
        forall|place: Place| #[trigger]
            is_place(lists, place) ==> places(lists).contains(place),
    decreases lists.len(),
{
    if lists.len() > 0 {
        let rest = lists.drop_last();
        let last = list_places(lists.len() - 1, lists.last().commands@.len());
        lemma_places(rest);
        assert forall|i: int| 0 <= i < places(lists).len() implies is_place(
            lists,
            #[trigger] places(lists)[i],
        ) by {
            if i < places(rest).len() {
                assert(is_place(rest, places(rest)[i]));
            }
        }
        assert forall|place: Place| #[trigger] is_place(lists, place) implies places(
            lists,
        ).contains(place) by {
            if place.0 < lists.len() - 1 {
                assert(is_place(rest, place));
                let i = choose|i: int| 0 <= i < places(rest).len() && places(rest)[i] == place;
                assert(places(lists)[i] == place);
            } else {
                assert(last[place.1] == place);
                assert(places(lists)[places(rest).len() + place.1] == place);
            }
        }
    }
}

/// The places behind those of the first draw lists are in the other lists.
pub(crate) proof fn lemma_later_places(lists: Seq<DrawList<'_>>, list: int, i: int)
    requires
        0 <= list <= lists.len(),
        places(lists.take(list)).len() <= i < places(lists).len(),
    ensures
        list <= places(lists)[i].0 < lists.len(),
    decreases lists.len(),
{
    let rest = lists.drop_last();
    if list == lists.len() {
        assert(lists.take(list) =~= lists);
    } else if i < places(rest).len() {
        assert(rest.take(list) =~= lists.take(list));
        lemma_later_places(rest, list, i);
    }
}

/// Drawing counts what the commands up to any point of it draw.
pub(crate) proof fn lemma_countable_elements(
    renderer: RendererView,
    lists: Seq<DrawList<'_>>,
    done: Seq<Place>,
)
    requires
        done.len() <= drawable_count(renderer, lists, places(lists)),
        done == places(lists).take(done.len() as int),
    ensures
        element_count(lists, done) <= element_count(lists, drawn_places(renderer, lists)),
{
    let drawn = drawn_places(renderer, lists);
    lemma_drawable_count(renderer, lists, places(lists));
    lemma_element_count_le(lists, drawn, done.len() as int);
    assert(drawn.take(done.len() as int) =~= done);
}

/// Drawing counts the vertices of the draw lists that are carried out to their end.
pub(crate) proof fn lemma_countable_vertices(
    renderer: RendererView,
    lists: Seq<DrawList<'_>>,
    list: int,
)
    requires
        0 <= list <= lists.len(),
        places(lists.take(list)).len() <= drawable_count(renderer, lists, places(lists)),
    ensures
        list <= lists_drawn(renderer, lists) <= lists.len(),
        vertex_base(lists, list) <= vertex_base(lists, lists_drawn(renderer, lists)),
{
    let all = places(lists);
    let count = drawable_count(renderer, lists, all);
    let end = lists_drawn(renderer, lists);
    lemma_drawable_count(renderer, lists, all);
    if count < all.len() {
        lemma_later_places(lists, list, count as int);
    }
    lemma_base_le(lists.take(end), list);
    assert(lists.take(end).take(list) =~= lists.take(list));
}

/// Where a command of a draw list stops the drawing, the lists before it are those that are carried
/// out to their end.
pub(crate) proof fn lemma_drawing_stops(
    renderer: RendererView,
    lists: Seq<DrawList<'_>>,
    done: Seq<Place>,
    place: Place,
)
    requires
        done.len() <= drawable_count(renderer, lists, places(lists)),
        done.len() < places(lists).len(),
        done == places(lists).take(done.len() as int),
        places(lists)[done.len() as int] == place,
        !is_drawable(renderer, command_at(lists, place)),
    ensures
        drawn_places(renderer, lists) == done,
        lists_drawn(renderer, lists) == place.0,
{
    let all = places(lists);
    lemma_drawable_count(renderer, lists, all);
    if done.len() < drawable_count(renderer, lists, all) {
        assert(is_drawable(renderer, command_at(lists, all[done.len() as int])));
    }
}

/// The draw data of which all vertices and all drawn indices count in machine numbers are countable,
/// whatever stops the drawing.
pub(crate) proof fn lemma_countable(renderer: RendererView, lists: Seq<DrawList<'_>>)
    requires
        vertices(lists).len() <= usize::MAX,
        element_count(lists, places(lists)) <= usize::MAX,
    ensures
        countable(renderer, lists),
{
    let all = places(lists);
    let count = drawable_count(renderer, lists, all);
    lemma_drawable_count(renderer, lists, all);
    lemma_element_count_le(lists, all, count as int);
    assert(lists.take(0) =~= Seq::empty());
    lemma_countable_vertices(renderer, lists, 0);
    lemma_base_le(lists, lists_drawn(renderer, lists));
}

/// A part of the commands draws no more than all of them.
pub(crate) proof fn lemma_element_count_le(lists: Seq<DrawList<'_>>, all: Seq<Place>, count: int)
    requires
        0 <= count <= all.len(),
    ensures
        element_count(lists, all.take(count)) <= element_count(lists, all),
    decreases all.len(),
{
    if count == all.len() {
        assert(all.take(count) =~= all);
    } else {
        lemma_element_count_le(lists, all.drop_last(), count);
        assert(all.drop_last().take(count) =~= all.take(count));
    }
}

/// The commands that can be carried out are those before the first one that cannot.
pub(crate) proof fn lemma_drawable_count(
    renderer: RendererView,
    lists: Seq<DrawList<'_>>,
    all: Seq<Place>,
)
    ensures
        drawable_count(renderer, lists, all) <= all.len(),
        forall|i: int|
            0 <= i < drawable_count(renderer, lists, all) ==> is_drawable(
                renderer,
                command_at(lists, #[trigger] all[i]),
            ),
        drawable_count(renderer, lists, all) < all.len() ==> !is_drawable(
            renderer,
            command_at(lists, all[drawable_count(renderer, lists, all) as int]),
        ),
    decreases all.len(),
{
    if all.len() > 0 {
        let rest = all.drop_last();
        lemma_drawable_count(renderer, lists, rest);
        let count = drawable_count(renderer, lists, all);
        assert forall|i: int| 0 <= i < count implies is_drawable(
            renderer,
            command_at(lists, #[trigger] all[i]),
        ) by {
            if i < rest.len() {
                assert(all[i] == rest[i]);
            }
        }
    }
}

/// Every command of a frame can be carried out just where none of them stops the drawing.
pub(crate) proof fn lemma_all_drawable(renderer: RendererView, lists: Seq<DrawList<'_>>)
    ensures
        all_drawable(renderer, lists) <==> drawable_count(renderer, lists, places(lists)) == places(
            lists,
        ).len(),
{
    let all = places(lists);
    lemma_places(lists);
    lemma_drawable_count(renderer, lists, all);
    let count = drawable_count(renderer, lists, all);
    if count < all.len() {
        assert(is_place(lists, all[count as int]));
    } else {
        assert forall|place: Place| is_place(lists, place) implies is_drawable(
            renderer,
            #[trigger] command_at(lists, place),
        ) by {
            let i = choose|i: int| 0 <= i < all.len() && all[i] == place;
            assert(is_drawable(renderer, command_at(lists, all[i])));
        }
    }
}

/// Drawing stops at the first command whose texture does not exist: exactly the commands before it
/// are carried out.
pub proof fn drawing_stops_at_an_invalid_texture(
    renderer: RendererView,
    lists: Seq<DrawList<'_>>,
    k: int,
)
    requires
        0 <= k < places(lists).len(),
        !is_drawable(renderer, command_at(lists, places(lists)[k])),
        forall|i: int|
            0 <= i < k ==> is_drawable(renderer, command_at(lists, #[trigger] places(lists)[i])),
    ensures
        drawn_places(renderer, lists) == places(lists).take(k),
        !all_drawable(renderer, lists),
{
    let all = places(lists);
    lemma_drawable_count(renderer, lists, all);
    lemma_all_drawable(renderer, lists);
    let count = drawable_count(renderer, lists, all) as int;
    if count < k {
        assert(is_drawable(renderer, command_at(lists, all[count])));
    } else if k < count {
        assert(is_drawable(renderer, command_at(lists, all[k])));
    }
}

/// Where every texture exists, every command is carried out.
pub proof fn drawing_is_complete(renderer: RendererView, lists: Seq<DrawList<'_>>)
    requires
        all_drawable(renderer, lists),
    ensures
        drawn_places(renderer, lists) == places(lists),
{
    lemma_all_drawable(renderer, lists);
    assert(places(lists).take(places(lists).len() as int) =~= places(lists));
}

/// Whether two renderers differ at most in the texture in the slot of the font texture.
pub open spec fn same_but_for_the_font_slot(a: RendererView, b: RendererView) -> bool {
    &&& a.objects == b.objects
    &&& a.vertex_buffer == b.vertex_buffer
    &&& a.index_buffer == b.index_buffer
    &&& forall|id: usize|
        id != FONT_TEX_ID ==> #[trigger] entry(a.textures, id) == entry(b.textures, id)
}

/// Renderers that differ only in the slot of the font texture carry out the same commands.
proof fn lemma_font_slot_places(
    a: RendererView,
    b: RendererView,
    lists: Seq<DrawList<'_>>,
    all: Seq<Place>,
)
    requires
        same_but_for_the_font_slot(a, b),
    ensures
        drawable_count(a, lists, all) == drawable_count(b, lists, all),
    decreases all.len(),
{
    if all.len() > 0 {
        lemma_font_slot_places(a, b, lists, all.drop_last());
        lemma_font_slot_command(a, b, command_at(lists, all.last()));
    }
}

/// Renderers that differ only in the slot of the font texture find the same textures.
proof fn lemma_font_slot_command(a: RendererView, b: RendererView, command: DrawCmd)
    requires
        same_but_for_the_font_slot(a, b),
    ensures
        is_drawable(a, command) == is_drawable(b, command),
        is_drawable(a, command) && command is Elements ==> view_of(
            a,
            command->cmd_params.texture_id,
        ) == view_of(b, command->cmd_params.texture_id),
{
    if command is Elements {
        let id = command->cmd_params.texture_id;
        if id != FONT_TEX_ID {
            assert(entry(a.textures, id) == entry(b.textures, id));
        }
    }
}

/// Renderers that differ only in the slot of the font texture make the same calls.
proof fn lemma_font_slot_calls(
    a: RendererView,
    b: RendererView,
    display_size: [u32; 2],
    lists: Seq<DrawList<'_>>,
    done: Seq<Place>,
)
    requires
        same_but_for_the_font_slot(a, b),
        forall|i: int|
            0 <= i < done.len() ==> is_drawable(a, command_at(lists, #[trigger] done[i])),
    ensures
        draw_commands(a, display_size, lists, done) == draw_commands(b, display_size, lists, done),
    decreases done.len(),
{
    if done.len() > 0 {
        let rest = done.drop_last();
        assert forall|i: int| 0 <= i < rest.len() implies is_drawable(
            a,
            command_at(lists, #[trigger] rest[i]),
        ) by {
            assert(rest[i] == done[i]);
        }
        lemma_font_slot_calls(a, b, display_size, lists, rest);
        assert(is_drawable(a, command_at(lists, done[done.len() - 1])));
        lemma_font_slot_command(a, b, command_at(lists, done.last()));
    }
}

/// The renderer ignores any texture inserted into the slot of the font texture: it makes the same
/// calls and comes to the same result, whatever is in that slot.
pub proof fn the_font_slot_is_ignored(
    a: RendererView,
    b: RendererView,
    display_size: [u32; 2],
    lists: Seq<DrawList<'_>>,
)
    requires
        same_but_for_the_font_slot(a, b),
    ensures
        setup_commands(a, display_size) == setup_commands(b, display_size),
        drawn_places(a, lists) == drawn_places(b, lists),
        draw_commands(a, display_size, lists, drawn_places(a, lists)) == draw_commands(
            b,
            display_size,
            lists,
            drawn_places(b, lists),
        ),
        all_drawable(a, lists) == all_drawable(b, lists),
{
    let all = places(lists);
    let done = drawn_places(a, lists);
    lemma_font_slot_places(a, b, lists, all);
    lemma_all_drawable(a, lists);
    lemma_all_drawable(b, lists);
    lemma_drawable_count(a, lists, all);
    assert forall|i: int| 0 <= i < done.len() implies is_drawable(
        a,
        command_at(lists, #[trigger] done[i]),
    ) by {
        assert(done[i] == all[i]);
    }
    lemma_font_slot_calls(a, b, display_size, lists, done);
}

/// The commands of a frame are carried out in the order of their lists, and in each list in the
/// order of the list: every command has its place, and has it once.
pub proof fn commands_come_in_order(lists: Seq<DrawList<'_>>)
    ensures
        forall|i: int|
            0 <= i < places(lists).len() ==> {
                let place = #[trigger] places(lists)[i];
                &&& 0 <= place.0 < lists.len()
                &&& 0 <= place.1 < lists[place.0].commands@.len()
            },
        forall|i: int, j: int|
            0 <= i < j < places(lists).len() ==> {
                let first = #[trigger] places(lists)[i];
                let second = #[trigger] places(lists)[j];
                first.0 < second.0 || (first.0 == second.0 && first.1 < second.1)
            },
        forall|list: int, command: int|
            0 <= list < lists.len() && 0 <= command < lists[list].commands@.len()
                ==> #[trigger] places(lists).contains((list, command)),
    decreases lists.len(),
{
    lemma_places(lists);
    assert forall|i: int| 0 <= i < places(lists).len() implies {
        let place = #[trigger] places(lists)[i];
        &&& 0 <= place.0 < lists.len()
        &&& 0 <= place.1 < lists[place.0].commands@.len()
    } by {
        assert(is_place(lists, places(lists)[i]));
    }
    assert forall|list: int, command: int|
        0 <= list < lists.len() && 0 <= command < lists[list].commands@.len()
        implies #[trigger] places(lists).contains((list, command)) by {
        assert(is_place(lists, (list, command)));
    }
    if lists.len() > 0 {
        let rest = lists.drop_last();
        commands_come_in_order(rest);
        assert forall|i: int, j: int| 0 <= i < j < places(lists).len() implies {
            let first = #[trigger] places(lists)[i];
            let second = #[trigger] places(lists)[j];
            first.0 < second.0 || (first.0 == second.0 && first.1 < second.1)
        } by {
            if i < places(rest).len() {
                assert(places(lists)[i] == places(rest)[i]);
            }
            if j < places(rest).len() {
                assert(places(lists)[j] == places(rest)[j]);
            }
        }
    }
}

/// The commands of a frame that are carried out are those before the first one that draws with a
/// texture id that is neither the largest number nor in the registry. Where there is no such command,
/// all of them are.
pub proof fn commands_are_drawn_while_their_textures_exist(
    renderer: RendererView,
    lists: Seq<DrawList<'_>>,
)
    ensures
        ({
            let all = places(lists);
            let drawn = drawn_places(renderer, lists);
            &&& drawn.len() <= all.len()
            &&& drawn == all.take(drawn.len() as int)
            &&& forall|i: int|
                0 <= i < drawn.len() ==> (lists[(#[trigger] all[i]).0].commands@[all[i].1] matches
                    DrawCmd::Elements { cmd_params, .. } ==> cmd_params.texture_id == usize::MAX
                    || renderer.textures.dom().contains(cmd_params.texture_id))
            &&& drawn.len() < all.len() ==> {
                let place = all[drawn.len() as int];
                let command = lists[place.0].commands@[place.1];
                &&& command matches DrawCmd::Elements { cmd_params, .. }
                &&& cmd_params.texture_id != usize::MAX
                &&& !renderer.textures.dom().contains(cmd_params.texture_id)
            }
            &&& all_drawable(renderer, lists) <==> drawn == all
        }),
{
    let all = places(lists);
    let drawn = drawn_places(renderer, lists);
    lemma_drawable_count(renderer, lists, all);
    lemma_all_drawable(renderer, lists);
    assert(all.take(all.len() as int) =~= all);
    assert forall|i: int| 0 <= i < drawn.len() implies (
    lists[(#[trigger] all[i]).0].commands@[all[i].1] matches DrawCmd::Elements { cmd_params, .. }
        ==> cmd_params.texture_id == usize::MAX || renderer.textures.dom().contains(
        cmd_params.texture_id,
    )) by {
        assert(is_drawable(renderer, command_at(lists, all[i])));
    }
}

/// Those of the given places at which a command draws.
pub open spec fn drawing_places(lists: Seq<DrawList<'_>>, done: Seq<Place>) -> Seq<Place> {
    done.filter(|place: Place| lists[place.0].commands@[place.1] is Elements)
}

/// Those of the given places at which a command runs a callback.
pub open spec fn callback_places(lists: Seq<DrawList<'_>>, done: Seq<Place>) -> Seq<Place> {
    done.filter(|place: Place| lists[place.0].commands@[place.1] is RawCallback)
}

/// Those of a sequence of calls that draw.
pub open spec fn drawing_calls(calls: Seq<CommandView>) -> Seq<CommandView> {
    calls.filter(|call: CommandView| call is DrawIndexed)
}

/// Those of a sequence of calls that run callbacks.
pub open spec fn callback_calls(calls: Seq<CommandView>) -> Seq<CommandView> {
    calls.filter(|call: CommandView| call is RawCallback)
}

/// The sum of the counts of the commands at places at which a command draws.
pub open spec fn sum_of_counts(lists: Seq<DrawList<'_>>, drawing: Seq<Place>) -> nat {
    drawing.fold_left(
        0nat,
        |sum: nat, place: Place| sum + lists[place.0].commands@[place.1]->count as nat,
    )
}

/// Nothing is kept of a sequence in which nothing is looked for.
proof fn lemma_filter_none<A>(items: Seq<A>, pred: spec_fn(A) -> bool)
    requires
        forall|i: int| 0 <= i < items.len() ==> !pred(#[trigger] items[i]),
    ensures
        items.filter(pred) == Seq::<A>::empty(),
    decreases items.len(),
{
    reveal(Seq::filter);
    if items.len() > 0 {
        assert forall|i: int| 0 <= i < items.drop_last().len() implies !pred(
            #[trigger] items.drop_last()[i],
        ) by {
            assert(items.drop_last()[i] == items[i]);
        }
        assert(!pred(items[items.len() - 1]));
        lemma_filter_none(items.drop_last(), pred);
    } else {
        assert(items =~= Seq::empty());
    }
}

/// Only the last item of a sequence is kept where only that one is looked for.
proof fn lemma_filter_last<A>(items: Seq<A>, pred: spec_fn(A) -> bool)
    requires
        items.len() > 0,
        forall|i: int| 0 <= i < items.len() - 1 ==> !pred(#[trigger] items[i]),
        pred(items.last()),
    ensures
        items.filter(pred) == seq![items.last()],
{
    reveal(Seq::filter);
    assert forall|i: int| 0 <= i < items.drop_last().len() implies !pred(
        #[trigger] items.drop_last()[i],
    ) by {
        assert(items.drop_last()[i] == items[i]);
    }
    lemma_filter_none(items.drop_last(), pred);
    assert(items.filter(pred) =~= seq![items.last()]);
}

/// What the calls of one command draw, and which callbacks they run.
proof fn lemma_one_command(
    renderer: RendererView,
    display_size: [u32; 2],
    lists: Seq<DrawList<'_>>,
    done: Seq<Place>,
    place: Place,
)
    ensures
        ({
            let calls = command_calls(renderer, display_size, lists, done, place);
            let command = lists[place.0].commands@[place.1];
            &&& drawing_calls(calls) == (if command is Elements {
                seq![draw_call(lists, done, place)]
            } else {
                Seq::empty()
            })
            &&& callback_calls(calls) == (if command is RawCallback {
                calls
            } else {
                Seq::empty()
            })
            &&& command is RawCallback ==> calls.len() == 1
        }),
{
    let calls = command_calls(renderer, display_size, lists, done, place);
    let draws = |call: CommandView| call is DrawIndexed;
    let callbacks = |call: CommandView| call is RawCallback;
    match lists[place.0].commands@[place.1] {
        DrawCmd::Elements { .. } => {
            lemma_filter_last(calls, draws);
            lemma_filter_none(calls, callbacks);
        },
        DrawCmd::ResetRenderState => {
            lemma_filter_none(calls, draws);
            lemma_filter_none(calls, callbacks);
        },
        DrawCmd::RawCallback => {
            lemma_filter_none(calls, draws);
            lemma_filter_last(calls, callbacks);
            assert(calls =~= seq![calls.last()]);
        },
    }
}

/// The calls that draw, one for each command that draws.
proof fn lemma_drawing_calls(
    renderer: RendererView,
    display_size: [u32; 2],
    lists: Seq<DrawList<'_>>,
    done: Seq<Place>,
)
    ensures
        ({
            let draws = drawing_calls(draw_commands(renderer, display_size, lists, done));
            let drawing = drawing_places(lists, done);
            &&& draws.len() == drawing.len()
            &&& sum_of_counts(lists, drawing) == element_count(lists, done)
            &&& forall|i: int|
                0 <= i < draws.len() ==> #[trigger] draws[i] == (ContextCall::<
                    Seq<crate::d3d11::Rect>,
                    Seq<Viewport>,
                    Seq<Option<u64>>,
                >::DrawIndexed {
                    index_count: low_word(
                        lists[drawing[i].0].commands@[drawing[i].1]->count as nat,
                    ),
                    start_index: low_word(sum_of_counts(lists, drawing.take(i))),
                    base_vertex: vertex_base(lists, drawing[i].0) as i32,
                })
        }),
    decreases done.len(),
{
    reveal(Seq::filter);
    let calls = draw_commands(renderer, display_size, lists, done);
    let is_draw = |call: CommandView| call is DrawIndexed;
    if done.len() == 0 {
        lemma_filter_none(calls, is_draw);
    } else {
        let rest = done.drop_last();
        let place = done.last();
        let before = draw_commands(renderer, display_size, lists, rest);
        let own = command_calls(renderer, display_size, lists, rest, place);
        let drawing = drawing_places(lists, done);
        let drawn = drawing_places(lists, rest);
        lemma_drawing_calls(renderer, display_size, lists, rest);
        lemma_one_command(renderer, display_size, lists, rest, place);
        Seq::filter_distributes_over_add(before, own, is_draw);
        if lists[place.0].commands@[place.1] is Elements {
            assert(drawing == drawn.push(place));
            assert(drawing.drop_last() =~= drawn);
            let draws = drawing_calls(calls);
            assert(draws =~= drawing_calls(before).push(draw_call(lists, rest, place)));
            assert forall|i: int| 0 <= i < draws.len() implies #[trigger] draws[i] == (
            ContextCall::<
                Seq<crate::d3d11::Rect>,
                Seq<Viewport>,
                Seq<Option<u64>>,
            >::DrawIndexed {
                index_count: low_word(lists[drawing[i].0].commands@[drawing[i].1]->count as nat),
                start_index: low_word(sum_of_counts(lists, drawing.take(i))),
                base_vertex: vertex_base(lists, drawing[i].0) as i32,
            }) by {
                if i < drawn.len() {
                    assert(drawing.take(i) =~= drawn.take(i));
                    assert(draws[i] == drawing_calls(before)[i]);
                } else {
                    assert(drawing.take(i) =~= drawn);
                }
            }
        } else {
            assert(drawing == drawn);
            assert(drawing_calls(calls) =~= drawing_calls(before));
        }
    }
}

/// The counts of the commands that draw add up to the number of indices that are drawn.
pub(crate) proof fn lemma_sum_of_counts(lists: Seq<DrawList<'_>>, done: Seq<Place>)
    ensures
        sum_of_counts(lists, drawing_places(lists, done)) == element_count(lists, done),
    decreases done.len(),
{
    reveal(Seq::filter);
    if done.len() > 0 {
        let rest = drawing_places(lists, done.drop_last());
        lemma_sum_of_counts(lists, done.drop_last());
        if lists[done.last().0].commands@[done.last().1] is Elements {
            assert(drawing_places(lists, done) == rest.push(done.last()));
            assert(rest.push(done.last()).drop_last() =~= rest);
        }
    }
}

/// Where one of the places at which a command draws stands among all places.
pub(crate) proof fn lemma_drawing_place(
    lists: Seq<DrawList<'_>>,
    done: Seq<Place>,
    i: int,
) -> (m: int)
    requires
        0 <= i < drawing_places(lists, done).len(),
    ensures
        0 <= m < done.len(),
        done[m] == drawing_places(lists, done)[i],
        lists[done[m].0].commands@[done[m].1] is Elements,
        drawing_places(lists, done).take(i) == drawing_places(lists, done.take(m)),
    decreases done.len(),
{
    reveal(Seq::filter);
    let rest = done.drop_last();
    let drawing = drawing_places(lists, done);
    let drawn = drawing_places(lists, rest);
    if i < drawn.len() {
        let m = lemma_drawing_place(lists, rest, i);
        assert(rest.take(m) =~= done.take(m));
        assert(drawing.take(i) =~= drawn.take(i));
        m
    } else {
        assert(done.take(done.len() - 1) =~= rest);
        assert(drawing.take(i) =~= drawn);
        done.len() - 1
    }
}

/// There is one call that draws for each command that draws, in their order. It draws as many indices
/// as the count of its command says, and begins behind the indices of all commands before it, which
/// are as many as their counts add up to; of both numbers a 32-bit word is kept. Its base vertex is
/// the number of vertices in the lists before that of its command.
pub proof fn every_command_draws_its_count(
    renderer: RendererView,
    display_size: [u32; 2],
    lists: Seq<DrawList<'_>>,
    done: Seq<Place>,
)
    ensures
        ({
            let draws = drawing_calls(draw_commands(renderer, display_size, lists, done));
            let drawing = drawing_places(lists, done);
            &&& draws.len() == drawing.len()
            &&& forall|i: int|
                0 <= i < draws.len() ==> {
                    let call = #[trigger] draws[i];
                    let place = drawing[i];
                    let count = lists[place.0].commands@[place.1]->count;
                    let before = sum_of_counts(lists, drawing.take(i));
                    &&& call is DrawIndexed
                    &&& call->index_count == count as int % 0x1_0000_0000
                    &&& count <= u32::MAX ==> call->index_count == count
                    &&& call->start_index == before as int % 0x1_0000_0000
                    &&& before <= u32::MAX ==> call->start_index == before
                    &&& vertex_base(lists, place.0) <= i32::MAX ==> call->base_vertex
                        == vertex_base(lists, place.0)
                }
        }),
{
    lemma_drawing_calls(renderer, display_size, lists, done);
}

/// Two calls that draw and follow each other read indices that follow each other: the second begins
/// where the first, which draws the count of its command, ends. The first one of a frame begins at
/// zero.
pub proof fn draws_follow_each_other(
    renderer: RendererView,
    display_size: [u32; 2],
    lists: Seq<DrawList<'_>>,
    done: Seq<Place>,
    i: int,
)
    requires
        0 <= i < drawing_places(lists, done).len(),
    ensures
        ({
            let draws = drawing_calls(draw_commands(renderer, display_size, lists, done));
            let place = drawing_places(lists, done)[i];
            let count = lists[place.0].commands@[place.1]->count;
            &&& draws.len() == drawing_places(lists, done).len()
            &&& draws[0]->start_index == 0
            &&& i + 1 < draws.len() ==> draws[i + 1]->start_index == (draws[i]->start_index
                + count) % 0x1_0000_0000
        }),
{
    let drawing = drawing_places(lists, done);
    lemma_drawing_calls(renderer, display_size, lists, done);
    let draws = drawing_calls(draw_commands(renderer, display_size, lists, done));
    assert(draws[0] is DrawIndexed && draws[i] is DrawIndexed);
    assert(drawing.take(0) =~= Seq::empty());
    if i + 1 < drawing.len() {
        assert(draws[i + 1] is DrawIndexed);
        let next = drawing.take(i + 1);
        assert(next.drop_last() =~= drawing.take(i));
        assert(next.last() == drawing[i]);
        lemma_word_of_sum(
            sum_of_counts(lists, drawing.take(i)),
            lists[drawing[i].0].commands@[drawing[i].1]->count as nat,
        );
    }
}

/// A 32-bit word keeps the same of a sum as of the sum with what it keeps of the first number.
proof fn lemma_word_of_sum(first: nat, second: nat)
    ensures
        low_word(first + second) == (low_word(first) + second) % 0x1_0000_0000,
{
    let word = 0x1_0000_0000int;
    vstd::arithmetic::div_mod::lemma_add_mod_noop(first as int, second as int, word);
    vstd::arithmetic::div_mod::lemma_add_mod_noop(first as int % word, second as int, word);
    vstd::arithmetic::div_mod::lemma_mod_twice(first as int, word);
}

/// The callbacks that drawing runs are those of the commands that ask for one, each once and in their
/// order: each call names the list of its command, and the place of the command in that list.
pub proof fn callbacks_run_once_and_in_order(
    renderer: RendererView,
    draw_data: DrawData<'_>,
    k: int,
)
    requires
        0 <= k <= places(draw_data.draw_lists@).len(),
    ensures
        ({
            let lists = draw_data.draw_lists@;
            let done = places(lists).take(k);
            let calls = callback_calls(
                draw_commands(renderer, draw_data.display_size, lists, done),
            );
            let callbacks = callback_places(lists, done);
            &&& calls.len() == callbacks.len()
            &&& forall|i: int|
                0 <= i < calls.len() ==> {
                    &&& #[trigger] calls[i] is RawCallback
                    &&& calls[i]->list == callbacks[i].0
                    &&& calls[i]->command == callbacks[i].1
                }
        }),
    decreases k,
{
    reveal(Seq::filter);
    let lists = draw_data.draw_lists@;
    let size = draw_data.display_size;
    let done = places(lists).take(k);
    let calls = draw_commands(renderer, size, lists, done);
    let is_callback = |call: CommandView| call is RawCallback;
    if k == 0 {
        lemma_filter_none(calls, is_callback);
    } else {
        let rest = places(lists).take(k - 1);
        let place = places(lists)[k - 1];
        let before = draw_commands(renderer, size, lists, rest);
        let own = command_calls(renderer, size, lists, rest, place);
        assert(done.drop_last() =~= rest);
        assert(done.last() == place);
        callbacks_run_once_and_in_order(renderer, draw_data, k - 1);
        lemma_one_command(renderer, size, lists, rest, place);
        lemma_machine_places(draw_data, k - 1);
        Seq::filter_distributes_over_add(before, own, is_callback);
        if lists[place.0].commands@[place.1] is RawCallback {
            assert(callback_places(lists, done) == callback_places(lists, rest).push(place));
            assert(callback_calls(calls) =~= callback_calls(before).push(own[0]));
        } else {
            assert(callback_places(lists, done) == callback_places(lists, rest));
            assert(callback_calls(calls) =~= callback_calls(before));
        }
    }
}

/// The places of commands are machine numbers.
proof fn lemma_machine_places(draw_data: DrawData<'_>, k: int)
    requires
        0 <= k < places(draw_data.draw_lists@).len(),
    ensures
        ({
            let place = places(draw_data.draw_lists@)[k];
            &&& 0 <= place.0 <= usize::MAX
            &&& 0 <= place.1 <= usize::MAX
        }),
{
    let lists = draw_data.draw_lists@;
    lemma_places(lists);
    let place = places(lists)[k];
    assert(is_place(lists, place));
    assert(draw_data.draw_lists.len() == lists.len());
    assert(lists[place.0].commands.len() == lists[place.0].commands@.len());
}

/// Whether the command at one of the given places draws, and none of those after it does.
pub open spec fn draws_last(lists: Seq<DrawList<'_>>, done: Seq<Place>, i: int) -> bool {
    &&& 0 <= i < done.len()
    &&& lists[done[i].0].commands@[done[i].1] is Elements
    &&& forall|j: int|
        i < j < done.len() ==> !(lists[(#[trigger] done[j]).0].commands@[done[j].1] is Elements)
}

/// Whether the texture id is that of the last of the given places at which a command draws, or else
/// the largest number.
pub open spec fn is_last_texture(
    lists: Seq<DrawList<'_>>,
    done: Seq<Place>,
    texture_id: usize,
) -> bool {
    ||| {
        &&& texture_id == usize::MAX
        &&& forall|i: int|
            0 <= i < done.len() ==> !(lists[(#[trigger] done[i]).0].commands@[done[i].1]
                is Elements)
    }
    ||| exists|i: int| #[trigger]
        draws_last(lists, done, i) && lists[done[i].0].commands@[done[i].1]->cmd_params.texture_id
            == texture_id
}

/// The texture that is bound is that of the last command that drew.
proof fn lemma_bound_by_the_last(lists: Seq<DrawList<'_>>, done: Seq<Place>, i: int)
    requires
        draws_last(lists, done, i),
    ensures
        bound_texture(lists, done)
            == lists[done[i].0].commands@[done[i].1]->cmd_params.texture_id,
    decreases done.len(),
{
    let rest = done.drop_last();
    let last = done.len() - 1;
    if i < last {
        assert(!(lists[done[last].0].commands@[done[last].1] is Elements));
        assert forall|j: int| i < j < rest.len() implies !(
        lists[(#[trigger] rest[j]).0].commands@[rest[j].1] is Elements) by {
            assert(rest[j] == done[j]);
        }
        assert(rest[i] == done[i]);
        lemma_bound_by_the_last(lists, rest, i);
    }
}

/// Where no command drew, the font texture is bound.
proof fn lemma_bound_by_none(lists: Seq<DrawList<'_>>, done: Seq<Place>)
    requires
        forall|i: int|
            0 <= i < done.len() ==> !(lists[(#[trigger] done[i]).0].commands@[done[i].1]
                is Elements),
    ensures
        bound_texture(lists, done) == usize::MAX,
    decreases done.len(),
{
    if done.len() > 0 {
        let rest = done.drop_last();
        assert forall|i: int| 0 <= i < rest.len() implies !(
        lists[(#[trigger] rest[i]).0].commands@[rest[i].1] is Elements) by {
            assert(rest[i] == done[i]);
        }
        assert(!(lists[done[done.len() - 1].0].commands@[done[done.len() - 1].1] is Elements));
        lemma_bound_by_none(lists, rest);
    }
}

/// Some command drew last, or none did.
proof fn lemma_one_drew_last(lists: Seq<DrawList<'_>>, done: Seq<Place>)
    ensures
        ({
            ||| forall|i: int|
                0 <= i < done.len() ==> !(lists[(#[trigger] done[i]).0].commands@[done[i].1]
                    is Elements)
            ||| exists|i: int| draws_last(lists, done, i)
        }),
    decreases done.len(),
{
    if done.len() > 0 {
        let rest = done.drop_last();
        let last = done.len() - 1;
        if lists[done[last].0].commands@[done[last].1] is Elements {
            assert(draws_last(lists, done, last));
        } else {
            lemma_one_drew_last(lists, rest);
            if exists|i: int| draws_last(lists, rest, i) {
                let i = choose|i: int| draws_last(lists, rest, i);
                assert forall|j: int| i < j < done.len() implies !(
                lists[(#[trigger] done[j]).0].commands@[done[j].1] is Elements) by {
                    if j < last {
                        assert(rest[j] == done[j]);
                    }
                }
                assert(rest[i] == done[i]);
                assert(draws_last(lists, done, i));
            } else {
                assert forall|i: int| 0 <= i < done.len() implies !(
                lists[(#[trigger] done[i]).0].commands@[done[i].1] is Elements) by {
                    if i < last {
                        assert(rest[i] == done[i]);
                    }
                }
            }
        }
    }
}

/// The texture that is bound is that of the last command that drew, or else the font texture.
pub proof fn the_last_texture_is_bound(
    lists: Seq<DrawList<'_>>,
    done: Seq<Place>,
    texture_id: usize,
)
    ensures
        bound_texture(lists, done) == texture_id <==> is_last_texture(lists, done, texture_id),
{
    lemma_one_drew_last(lists, done);
    if exists|i: int| draws_last(lists, done, i) {
        let i = choose|i: int| draws_last(lists, done, i);
        lemma_bound_by_the_last(lists, done, i);
        if is_last_texture(lists, done, texture_id) {
            assert(lists[done[i].0].commands@[done[i].1] is Elements);
            let j = choose|j: int| #[trigger]
                draws_last(lists, done, j)
                    && lists[done[j].0].commands@[done[j].1]->cmd_params.texture_id == texture_id;
            lemma_bound_by_the_last(lists, done, j);
        }
    } else {
        lemma_bound_by_none(lists, done);
    }
}

/// Drawing begins with the font texture. After that each command adds its own calls and no others: a
/// command that draws binds its texture, unless the last command that drew had the same, sets its
/// clip rectangle and draws; one that resets the render state sets up the pipeline; and one that
/// asks for a callback runs it.
pub proof fn every_command_makes_its_own_calls(
    renderer: RendererView,
    draw_data: DrawData<'_>,
    k: int,
)
    requires
        0 <= k < places(draw_data.draw_lists@).len(),
    ensures
        ({
            let lists = draw_data.draw_lists@;
            let size = draw_data.display_size;
            let all = places(lists);
            let begun = draw_commands(renderer, size, lists, all.take(0));
            let before = draw_commands(renderer, size, lists, all.take(k));
            let after = draw_commands(renderer, size, lists, all.take(k + 1));
            let own = after.skip(before.len() as int);
            let place = all[k];
            &&& begun.len() == 1
            &&& begun[0] is PsSetShaderResources
            &&& begun[0]->PsSetShaderResources_slot == 0
            &&& begun[0]->views == seq![Some(renderer.objects.font_resource_view)]
            &&& after == before + own
            &&& match lists[place.0].commands@[place.1] {
                DrawCmd::Elements { count, cmd_params } => {
                    let id = cmd_params.texture_id;
                    let n = own.len() as int;
                    &&& n == (if is_last_texture(lists, all.take(k), id) {
                        2int
                    } else {
                        3int
                    })
                    &&& n == 3 ==> {
                        &&& own[0] is PsSetShaderResources
                        &&& own[0]->PsSetShaderResources_slot == 0
                        &&& own[0]->views.len() == 1
                        &&& id == usize::MAX ==> own[0]->views[0] == Some(
                            renderer.objects.font_resource_view,
                        )
                        &&& id != usize::MAX ==> own[0]->views[0] == Some(renderer.textures[id])
                    }
                    &&& own[n - 2] is RsSetScissorRects
                    &&& own[n - 2]->rects == seq![cmd_params.clip_rect]
                    &&& own[n - 1] is DrawIndexed
                    &&& own[n - 1]->index_count == count as int % 0x1_0000_0000
                },
                DrawCmd::ResetRenderState => own == setup_commands(renderer, size),
                DrawCmd::RawCallback => {
                    &&& own.len() == 1
                    &&& own[0] is RawCallback
                    &&& own[0]->list == place.0
                    &&& own[0]->command == place.1
                },
            }
        }),
{
    let lists = draw_data.draw_lists@;
    let size = draw_data.display_size;
    let all = places(lists);
    let place = all[k];
    let before = draw_commands(renderer, size, lists, all.take(k));
    let own = command_calls(renderer, size, lists, all.take(k), place);
    assert(all.take(k + 1).drop_last() =~= all.take(k));
    assert(all.take(k + 1).last() == place);
    assert((before + own).skip(before.len() as int) =~= own);
    lemma_machine_places(draw_data, k);
    if lists[place.0].commands@[place.1] is Elements {
        the_last_texture_is_bound(
            lists,
            all.take(k),
            lists[place.0].commands@[place.1]->cmd_params.texture_id,
        );
    }
}

/// Setting up the pipeline makes these sixteen calls.
pub proof fn setting_up_makes_these_calls(renderer: RendererView, display_size: [u32; 2])
    ensures
        ({
            let calls = setup_commands(renderer, display_size);
            let objects = renderer.objects;
            &&& calls.len() == 16
            &&& calls[0] is RsSetViewports
            &&& calls[0]->viewports.len() == 1
            &&& calls[0]->viewports[0].top_left_x == F32_ZERO
            &&& calls[0]->viewports[0].top_left_y == F32_ZERO
            &&& calls[0]->viewports[0].width == display_size@[0]
            &&& calls[0]->viewports[0].height == display_size@[1]
            &&& calls[0]->viewports[0].min_depth == F32_ZERO
            &&& calls[0]->viewports[0].max_depth == F32_ONE
            &&& calls[1] is IaSetInputLayout
            &&& calls[1]->layout == Some(objects.input_layout)
            &&& calls[2] is IaSetVertexBuffers
            &&& calls[2]->IaSetVertexBuffers_slot == 0
            &&& calls[2]->IaSetVertexBuffers_buffer == Some(renderer.vertex_buffer.object)
            &&& calls[2]->stride == 20
            &&& calls[2]->IaSetVertexBuffers_offset == 0
            &&& calls[3] is IaSetIndexBuffer
            &&& calls[3]->IaSetIndexBuffer_buffer == Some(renderer.index_buffer.object)
            &&& calls[3]->format == DXGI_FORMAT_R16_UINT
            &&& calls[3]->IaSetIndexBuffer_offset == 0
            &&& calls[4] is IaSetPrimitiveTopology
            &&& calls[4]->topology == D3D11_PRIMITIVE_TOPOLOGY_TRIANGLELIST
            &&& calls[5] is VsSetShader
            &&& calls[5]->VsSetShader_shader == Some(objects.vertex_shader)
            &&& calls[5]->VsSetShader_class_instances is None
            &&& calls[6] is VsSetConstantBuffers
            &&& calls[6]->VsSetConstantBuffers_slot == 0
            &&& calls[6]->buffers == seq![Some(objects.constant_buffer)]
            &&& calls[7] is PsSetShader
            &&& calls[7]->PsSetShader_shader == Some(objects.pixel_shader)
            &&& calls[7]->PsSetShader_class_instances is None
            &&& calls[8] is PsSetSamplers
            &&& calls[8]->PsSetSamplers_slot == 0
            &&& calls[8]->samplers == seq![Some(objects.font_sampler)]
            &&& calls[9] is GsSetShader
            &&& calls[9]->GsSetShader_shader is None
            &&& calls[9]->GsSetShader_class_instances is None
            &&& calls[10] is HsSetShader
            &&& calls[10]->HsSetShader_shader is None
            &&& calls[11] is DsSetShader
            &&& calls[11]->DsSetShader_shader is None
            &&& calls[12] is CsSetShader
            &&& calls[12]->CsSetShader_shader is None
            &&& calls[13] is OmSetBlendState
            &&& calls[13]->OmSetBlendState_state == Some(objects.blend_state)
            &&& forall|i: int| 0 <= i < 4 ==> #[trigger] calls[13]->factor@[i] == F32_ZERO
            &&& calls[13]->sample_mask == u32::MAX
            &&& calls[14] is OmSetDepthStencilState
            &&& calls[14]->OmSetDepthStencilState_state == Some(objects.depth_stencil_state)
            &&& calls[14]->stencil_ref == 0
            &&& calls[15] is RsSetState
            &&& calls[15]->RsSetState_state == Some(objects.rasterizer_state)
        }),
{
}

} // verus!
