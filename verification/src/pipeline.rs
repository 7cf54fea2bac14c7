//! What the calls of the renderer do to the state of the pipeline.

use vstd::prelude::*;

use crate::backup::{
    backup_queries, if_some, instances_fit, is_backup_of, is_blank, is_restorable,
    restore_buffers, restore_commands, restore_constants, restore_gs,
    restore_layout, restore_ps, restore_states, restore_vs, with_answer, with_answers, Answer,
    Query, StateBackup,
};
use crate::buffer::VERTEX_SIZE;
use crate::command::{CommandView, ContextCall};
use crate::d3d11::{
    Rect, Viewport, D3D11_PRIMITIVE_TOPOLOGY_TRIANGLELIST, DXGI_FORMAT_R16_UINT, F32_ONE, F32_ZERO,
    SAMPLE_MASK_ALL,
};
use crate::draw_data::{command_at, places, DrawCmd, DrawData, DrawList, Place};
use crate::drawing::{
    bound_texture, command_calls, display_viewport, draw_call, draw_commands, drawn_places,
    index_format, setup_commands, view_of,
};
use crate::frame::{frame_commands, unmap_geometry, whole_frame};
use crate::renderer::RendererView;

verus! {

/// A shader and its class instances
pub struct ShaderStage {
    pub shader: Option<u64>,
    pub class_instances: Seq<Option<u64>>,
}

/// A bound vertex buffer
pub struct VertexBinding {
    pub buffer: Option<u64>,
    pub stride: u32,
    pub offset: u32,
}

/// A bound index buffer
pub struct IndexBinding {
    pub buffer: Option<u64>,
    pub format: i32,
    pub offset: u32,
}

/// What is bound to each slot
pub type Slots = spec_fn(int) -> Option<u64>;

/// The state of the pipeline
#[verifier::ext_equal]
pub struct Pipeline {
    pub viewports: Seq<Viewport>,
    pub scissor_rects: Seq<Rect>,
    pub rasterizer_state: Option<u64>,
    pub input_layout: Option<u64>,
    pub vertex_buffers: spec_fn(int) -> VertexBinding,
    pub index_buffer: IndexBinding,
    pub topology: i32,
    pub vs: ShaderStage,
    pub vs_constant_buffers: Slots,
    pub ps: ShaderStage,
    pub ps_resources: Slots,
    pub ps_samplers: Slots,
    pub gs: ShaderStage,
    pub hs: Option<u64>,
    pub ds: Option<u64>,
    pub cs: Option<u64>,
    pub blend_state: Option<u64>,
    pub blend_factor: [u32; 4],
    pub sample_mask: u32,
    pub depth_stencil_state: Option<u64>,
    pub stencil_ref: u32,
}

/// Slots with objects bound to some that follow each other.
pub open spec fn bind(slots: Slots, first: u32, objects: Seq<Option<u64>>) -> Slots {
    |slot: int|
        if first <= slot < first + objects.len() {
            objects[slot - first]
        } else {
            slots(slot)
        }
}

/// A shader that is set with or without class instances.
pub open spec fn shader_stage(
    shader: Option<u64>,
    class_instances: Option<Seq<Option<u64>>>,
) -> ShaderStage {
    ShaderStage {
        shader,
        class_instances: match class_instances {
            Some(instances) => instances,
            None => Seq::empty(),
        },
    }
}

/// What the callbacks of the application do: the state of the pipeline after the callback at a place
/// of the draw data, which depends on the state before it
pub type Callbacks = spec_fn(Pipeline, Place) -> Pipeline;

/// The state of the pipeline after a call, where the callbacks of the application have the given
/// effects.
pub open spec fn apply(effects: Callbacks, pipeline: Pipeline, call: CommandView) -> Pipeline {
    match call {
        ContextCall::RsSetViewports { viewports } => Pipeline { viewports, ..pipeline },
        ContextCall::RsSetScissorRects { rects } => Pipeline { scissor_rects: rects, ..pipeline },
        ContextCall::RsSetState { state } => Pipeline { rasterizer_state: state, ..pipeline },
        ContextCall::IaSetInputLayout { layout } => Pipeline { input_layout: layout, ..pipeline },
        ContextCall::IaSetVertexBuffers { slot, buffer, stride, offset } => Pipeline {
            vertex_buffers: |i: int|
                if i == slot {
                    VertexBinding { buffer, stride, offset }
                } else {
                    (pipeline.vertex_buffers)(i)
                },
            ..pipeline
        },
        ContextCall::IaSetIndexBuffer { buffer, format, offset } => Pipeline {
            index_buffer: IndexBinding { buffer, format, offset },
            ..pipeline
        },
        ContextCall::IaSetPrimitiveTopology { topology } => Pipeline { topology, ..pipeline },
        ContextCall::VsSetShader { shader, class_instances } => Pipeline {
            vs: shader_stage(shader, class_instances),
            ..pipeline
        },
        ContextCall::VsSetConstantBuffers { slot, buffers } => Pipeline {
            vs_constant_buffers: bind(pipeline.vs_constant_buffers, slot, buffers),
            ..pipeline
        },
        ContextCall::PsSetShader { shader, class_instances } => Pipeline {
            ps: shader_stage(shader, class_instances),
            ..pipeline
        },
        ContextCall::PsSetShaderResources { slot, views } => Pipeline {
            ps_resources: bind(pipeline.ps_resources, slot, views),
            ..pipeline
        },
        ContextCall::PsSetSamplers { slot, samplers } => Pipeline {
            ps_samplers: bind(pipeline.ps_samplers, slot, samplers),
            ..pipeline
        },
        ContextCall::GsSetShader { shader, class_instances } => Pipeline {
            gs: shader_stage(shader, class_instances),
            ..pipeline
        },
        ContextCall::HsSetShader { shader } => Pipeline { hs: shader, ..pipeline },
        ContextCall::DsSetShader { shader } => Pipeline { ds: shader, ..pipeline },
        ContextCall::CsSetShader { shader } => Pipeline { cs: shader, ..pipeline },
        ContextCall::OmSetBlendState { state, factor, sample_mask } => Pipeline {
            blend_state: state,
            blend_factor: factor,
            sample_mask,
            ..pipeline
        },
        ContextCall::OmSetDepthStencilState { state, stencil_ref } => Pipeline {
            depth_stencil_state: state,
            stencil_ref,
            ..pipeline
        },
        ContextCall::DrawIndexed { .. } => pipeline,
        ContextCall::Unmap { .. } => pipeline,
        ContextCall::RawCallback { list, command } => effects(
            pipeline,
            (list as int, command as int),
        ),
    }
}

/// The state of the pipeline after a sequence of calls.
pub open spec fn apply_all(
    effects: Callbacks,
    pipeline: Pipeline,
    calls: Seq<CommandView>,
) -> Pipeline
    decreases calls.len(),
{
    if calls.len() == 0 {
        pipeline
    } else {
        apply(effects, apply_all(effects, pipeline, calls.drop_last()), calls.last())
    }
}

/// Whether the pipeline is set up for drawing on a display of the given size.
pub open spec fn is_set_up(
    pipeline: Pipeline,
    renderer: RendererView,
    display_size: [u32; 2],
) -> bool {
    let objects = renderer.objects;
    &&& pipeline.viewports.len() == 1
    &&& pipeline.viewports[0].top_left_x == F32_ZERO
    &&& pipeline.viewports[0].top_left_y == F32_ZERO
    &&& pipeline.viewports[0].width == display_size@[0]
    &&& pipeline.viewports[0].height == display_size@[1]
    &&& pipeline.viewports[0].min_depth == F32_ZERO
    &&& pipeline.viewports[0].max_depth == F32_ONE
    &&& pipeline.input_layout == Some(objects.input_layout)
    &&& (pipeline.vertex_buffers)(0) == (VertexBinding {
        buffer: Some(renderer.vertex_buffer.object),
        stride: 20,
        offset: 0,
    })
    &&& pipeline.index_buffer == (IndexBinding {
        buffer: Some(renderer.index_buffer.object),
        format: DXGI_FORMAT_R16_UINT,
        offset: 0,
    })
    &&& pipeline.topology == D3D11_PRIMITIVE_TOPOLOGY_TRIANGLELIST
    &&& pipeline.vs == shader_stage(Some(objects.vertex_shader), None)
    &&& (pipeline.vs_constant_buffers)(0) == Some(objects.constant_buffer)
    &&& pipeline.ps == shader_stage(Some(objects.pixel_shader), None)
    &&& (pipeline.ps_samplers)(0) == Some(objects.font_sampler)
    &&& pipeline.gs == shader_stage(None, None)
    &&& pipeline.hs is None
    &&& pipeline.ds is None
    &&& pipeline.cs is None
    &&& pipeline.blend_state == Some(objects.blend_state)
    &&& pipeline.blend_factor == [F32_ZERO, F32_ZERO, F32_ZERO, F32_ZERO]
    &&& pipeline.sample_mask == SAMPLE_MASK_ALL
    &&& pipeline.depth_stencil_state == Some(objects.depth_stencil_state)
    &&& pipeline.stencil_ref == 0
    &&& pipeline.rasterizer_state == Some(objects.rasterizer_state)
}

/// Whether two states of the pipeline have the same bound to every slot that the renderer does not
/// use.
pub open spec fn same_unused_slots(a: Pipeline, b: Pipeline) -> bool {
    &&& forall|slot: int| slot != 0 ==> #[trigger] (a.vertex_buffers)(slot) == (b.vertex_buffers)(
        slot,
    )
    &&& forall|slot: int|
        slot != 0 ==> #[trigger] (a.vs_constant_buffers)(slot) == (b.vs_constant_buffers)(slot)
    &&& forall|slot: int| slot != 0 ==> #[trigger] (a.ps_resources)(slot) == (b.ps_resources)(slot)
    &&& forall|slot: int| slot != 0 ==> #[trigger] (a.ps_samplers)(slot) == (b.ps_samplers)(slot)
}

/// Two sequences of calls, one after the other, do what both together do.
pub proof fn calls_add_up(
    effects: Callbacks,
    pipeline: Pipeline,
    first: Seq<CommandView>,
    second: Seq<CommandView>,
)
    ensures
        apply_all(effects, pipeline, first + second) == apply_all(
            effects,
            apply_all(effects, pipeline, first),
            second,
        ),
    decreases second.len(),
{
    let both = first + second;
    if second.len() == 0 {
        assert(both =~= first);
    } else {
        calls_add_up(effects, pipeline, first, second.drop_last());
        assert(both.drop_last() =~= first + second.drop_last());
    }
}

/// What the first half of setting up the pipeline does.
proof fn lemma_setup_first(
    effects: Callbacks,
    pipeline: Pipeline,
    renderer: RendererView,
    display_size: [u32; 2],
)
    ensures
        ({
            let half = apply_all(effects, pipeline, setup_commands(renderer, display_size).take(8));
            let objects = renderer.objects;
            &&& half == (Pipeline {
                viewports: seq![display_viewport(display_size)],
                input_layout: Some(objects.input_layout),
                vertex_buffers: half.vertex_buffers,
                index_buffer: IndexBinding {
                    buffer: Some(renderer.index_buffer.object),
                    format: index_format(),
                    offset: 0,
                },
                topology: D3D11_PRIMITIVE_TOPOLOGY_TRIANGLELIST,
                vs: shader_stage(Some(objects.vertex_shader), None),
                vs_constant_buffers: half.vs_constant_buffers,
                ps: shader_stage(Some(objects.pixel_shader), None),
                ..pipeline
            })
            &&& (half.vertex_buffers)(0) == (VertexBinding {
                buffer: Some(renderer.vertex_buffer.object),
                stride: VERTEX_SIZE as u32,
                offset: 0,
            })
            &&& (half.vs_constant_buffers)(0) == Some(objects.constant_buffer)
            &&& same_unused_slots(half, pipeline)
        }),
{
    let calls = setup_commands(renderer, display_size).take(8);
    lemma_next_call(effects, pipeline, calls, 0);
    lemma_next_call(effects, pipeline, calls, 1);
    lemma_next_call(effects, pipeline, calls, 2);
    lemma_next_call(effects, pipeline, calls, 3);
    lemma_next_call(effects, pipeline, calls, 4);
    lemma_next_call(effects, pipeline, calls, 5);
    lemma_next_call(effects, pipeline, calls, 6);
    lemma_next_call(effects, pipeline, calls, 7);
    assert(calls.take(0) =~= Seq::empty());
    assert(calls.take(8) =~= calls);
}

/// What the second half of setting up the pipeline does.
proof fn lemma_setup_second(
    effects: Callbacks,
    pipeline: Pipeline,
    renderer: RendererView,
    display_size: [u32; 2],
)
    ensures
        ({
            let half = apply_all(effects, pipeline, setup_commands(renderer, display_size).skip(8));
            let objects = renderer.objects;
            &&& half == (Pipeline {
                ps_samplers: half.ps_samplers,
                gs: shader_stage(None, None),
                hs: None,
                ds: None,
                cs: None,
                blend_state: Some(objects.blend_state),
                blend_factor: [F32_ZERO, F32_ZERO, F32_ZERO, F32_ZERO],
                sample_mask: SAMPLE_MASK_ALL,
                depth_stencil_state: Some(objects.depth_stencil_state),
                stencil_ref: 0,
                rasterizer_state: Some(objects.rasterizer_state),
                ..pipeline
            })
            &&& (half.ps_samplers)(0) == Some(objects.font_sampler)
            &&& same_unused_slots(half, pipeline)
        }),
{
    let calls = setup_commands(renderer, display_size).skip(8);
    lemma_next_call(effects, pipeline, calls, 0);
    lemma_next_call(effects, pipeline, calls, 1);
    lemma_next_call(effects, pipeline, calls, 2);
    lemma_next_call(effects, pipeline, calls, 3);
    lemma_next_call(effects, pipeline, calls, 4);
    lemma_next_call(effects, pipeline, calls, 5);
    lemma_next_call(effects, pipeline, calls, 6);
    lemma_next_call(effects, pipeline, calls, 7);
    assert(calls.take(0) =~= Seq::empty());
    assert(calls.take(8) =~= calls);
}

/// Setting up the pipeline leaves it set up, whatever it was before. It does not touch the texture
/// to draw with, the scissor rectangles, and the slots that the renderer does not use.
pub proof fn setup_sets_up(
    effects: Callbacks,
    pipeline: Pipeline,
    renderer: RendererView,
    display_size: [u32; 2],
)
    ensures
        is_set_up(
            apply_all(effects, pipeline, setup_commands(renderer, display_size)),
            renderer,
            display_size,
        ),
        apply_all(effects, pipeline, setup_commands(renderer, display_size)).ps_resources
            == pipeline.ps_resources,
        apply_all(effects, pipeline, setup_commands(renderer, display_size)).scissor_rects
            == pipeline.scissor_rects,
        same_unused_slots(
            apply_all(effects, pipeline, setup_commands(renderer, display_size)),
            pipeline,
        ),
{
    let calls = setup_commands(renderer, display_size);
    let half = apply_all(effects, pipeline, calls.take(8));
    lemma_setup_first(effects, pipeline, renderer, display_size);
    lemma_setup_second(effects, half, renderer, display_size);
    calls_add_up(effects, pipeline, calls.take(8), calls.skip(8));
    assert(calls.take(8) + calls.skip(8) =~= calls);
}

/// Setting up the pipeline twice leaves what setting it up once does.
pub proof fn setting_up_twice_is_setting_up_once(
    effects: Callbacks,
    pipeline: Pipeline,
    renderer: RendererView,
    display_size: [u32; 2],
)
    ensures
        ({
            let calls = setup_commands(renderer, display_size);
            apply_all(effects, pipeline, calls + calls) == apply_all(effects, pipeline, calls)
        }),
{
    let calls = setup_commands(renderer, display_size);
    let once = apply_all(effects, pipeline, calls);
    let twice = apply_all(effects, once, calls);
    calls_add_up(effects, pipeline, calls, calls);
    setup_sets_up(effects, pipeline, renderer, display_size);
    setup_sets_up(effects, once, renderer, display_size);
    assert(twice.vertex_buffers =~= once.vertex_buffers) by {
        assert forall|slot: int| #[trigger]
            (twice.vertex_buffers)(slot) == (once.vertex_buffers)(slot) by {}
    }
    assert(twice.vs_constant_buffers =~= once.vs_constant_buffers) by {
        assert forall|slot: int| #[trigger]
            (twice.vs_constant_buffers)(slot) == (once.vs_constant_buffers)(slot) by {}
    }
    assert(twice.ps_samplers =~= once.ps_samplers) by {
        assert forall|slot: int| #[trigger]
            (twice.ps_samplers)(slot) == (once.ps_samplers)(slot) by {}
    }
    assert(twice.viewports =~= once.viewports);
    assert(twice =~= once);
}

/// The state after one of a sequence of calls.
proof fn lemma_next_call(effects: Callbacks, pipeline: Pipeline, calls: Seq<CommandView>, i: int)
    requires
        0 <= i < calls.len(),
    ensures
        apply_all(effects, pipeline, calls.take(i + 1)) == apply(
            effects,
            apply_all(effects, pipeline, calls.take(i)),
            calls[i],
        ),
{
    assert(calls.take(i + 1).drop_last() =~= calls.take(i));
}

/// Whether none of the commands at the given places runs a callback of the application.
pub open spec fn no_callbacks(lists: Seq<DrawList<'_>>, done: Seq<Place>) -> bool {
    forall|i: int| 0 <= i < done.len() ==> !(command_at(lists, #[trigger] done[i]) is RawCallback)
}

/// While a frame is drawn without callbacks, the pipeline stays set up, the texture of the last
/// command that drew is bound, and the slots that the renderer does not use stay as they are.
pub proof fn drawing_keeps_the_setup(
    effects: Callbacks,
    pipeline: Pipeline,
    renderer: RendererView,
    display_size: [u32; 2],
    lists: Seq<DrawList<'_>>,
    done: Seq<Place>,
)
    requires
        is_set_up(pipeline, renderer, display_size),
        no_callbacks(lists, done),
    ensures
        ({
            let drawn = apply_all(
                effects,
                pipeline,
                draw_commands(renderer, display_size, lists, done),
            );
            &&& is_set_up(drawn, renderer, display_size)
            &&& (drawn.ps_resources)(0) == Some(view_of(renderer, bound_texture(lists, done)))
            &&& same_unused_slots(drawn, pipeline)
        }),
    decreases done.len(),
{
    if done.len() == 0 {
        let calls = draw_commands(renderer, display_size, lists, done);
        lemma_next_call(effects, pipeline, calls, 0);
        assert(calls.take(0) =~= Seq::empty());
        assert(calls.take(1) =~= calls);
    } else {
        let rest = done.drop_last();
        let place = done.last();
        drawing_keeps_the_setup(effects, pipeline, renderer, display_size, lists, rest);
        let before = apply_all(
            effects,
            pipeline,
            draw_commands(renderer, display_size, lists, rest),
        );
        let calls = command_calls(renderer, display_size, lists, rest, place);
        calls_add_up(
            effects,
            pipeline,
            draw_commands(renderer, display_size, lists, rest),
            calls,
        );
        assert(done[done.len() - 1] == place);
        match command_at(lists, place) {
            DrawCmd::Elements { cmd_params, .. } => {
                lemma_command_calls(effects, before, renderer, display_size, lists, rest, place);
            },
            DrawCmd::ResetRenderState => {
                setup_sets_up(effects, before, renderer, display_size);
            },
            DrawCmd::RawCallback => {},
        }
    }
}

/// What the calls of a command that draws do, up to the call that draws.
proof fn lemma_command_calls(
    effects: Callbacks,
    before: Pipeline,
    renderer: RendererView,
    display_size: [u32; 2],
    lists: Seq<DrawList<'_>>,
    done: Seq<Place>,
    place: Place,
)
    requires
        is_set_up(before, renderer, display_size),
        (before.ps_resources)(0) == Some(view_of(renderer, bound_texture(lists, done))),
        command_at(lists, place) is Elements,
    ensures
        ({
            let calls = command_calls(renderer, display_size, lists, done, place);
            let params = command_at(lists, place)->cmd_params;
            let ready = apply_all(effects, before, calls.drop_last());
            &&& calls.last() == draw_call(lists, done, place)
            &&& apply_all(effects, before, calls) == ready
            &&& is_set_up(ready, renderer, display_size)
            &&& (ready.ps_resources)(0) == Some(view_of(renderer, params.texture_id))
            &&& ready.scissor_rects == seq![params.clip_rect]
            &&& same_unused_slots(ready, before)
        }),
{
    let calls = command_calls(renderer, display_size, lists, done, place);
    lemma_next_call(effects, before, calls, 0);
    lemma_next_call(effects, before, calls, 1);
    assert(calls.take(0) =~= Seq::empty());
    if calls.len() == 2 {
        assert(calls.drop_last() =~= calls.take(1));
        assert(calls.take(2) =~= calls);
    } else {
        lemma_next_call(effects, before, calls, 2);
        assert(calls.drop_last() =~= calls.take(2));
        assert(calls.take(3) =~= calls);
    }
}

/// A command that draws does so with the pipeline set up, its own texture bound and its own clip
/// rectangle set, although a texture that is bound already is not bound again.
///
/// A callback of the application may change any part of the state of the pipeline, so nothing is
/// said of the commands after one.
pub proof fn every_draw_uses_its_texture(
    effects: Callbacks,
    pipeline: Pipeline,
    renderer: RendererView,
    display_size: [u32; 2],
    lists: Seq<DrawList<'_>>,
    k: int,
)
    requires
        is_set_up(pipeline, renderer, display_size),
        0 <= k < places(lists).len(),
        no_callbacks(lists, places(lists).take(k)),
        command_at(lists, places(lists)[k]) is Elements,
    ensures
        ({
            let done = places(lists).take(k);
            let place = places(lists)[k];
            let params = lists[place.0].commands@[place.1]->cmd_params;
            let calls = draw_commands(renderer, display_size, lists, places(lists).take(k + 1));
            let ready = apply_all(effects, pipeline, calls.drop_last());
            &&& calls.last() == draw_call(lists, done, place)
            &&& calls.last() is DrawIndexed
            &&& is_set_up(ready, renderer, display_size)
            &&& params.texture_id == usize::MAX ==> (ready.ps_resources)(0) == Some(
                renderer.objects.font_resource_view,
            )
            &&& params.texture_id != usize::MAX ==> (ready.ps_resources)(0) == Some(
                renderer.textures[params.texture_id],
            )
            &&& ready.scissor_rects == seq![params.clip_rect]
        }),
{
    let done = places(lists).take(k);
    let place = places(lists)[k];
    let next = places(lists).take(k + 1);
    assert(next.drop_last() =~= done);
    assert(next.last() == place);
    drawing_keeps_the_setup(effects, pipeline, renderer, display_size, lists, done);
    let first = draw_commands(renderer, display_size, lists, done);
    let second = command_calls(renderer, display_size, lists, done, place);
    lemma_command_calls(
        effects,
        apply_all(effects, pipeline, first),
        renderer,
        display_size,
        lists,
        done,
        place,
    );
    assert((first + second).drop_last() =~= first + second.drop_last());
    calls_add_up(effects, pipeline, first, second.drop_last());
}

/// Whether a backup says what the state of the pipeline is.
pub open spec fn is_reading(backup: StateBackup, pipeline: Pipeline) -> bool {
    &&& backup.rasterizer_state == pipeline.rasterizer_state
    &&& backup.blend_state == pipeline.blend_state
    &&& backup.blend_factor == pipeline.blend_factor
    &&& backup.sample_mask == pipeline.sample_mask
    &&& backup.depth_stencil_state == pipeline.depth_stencil_state
    &&& backup.stencil_ref == pipeline.stencil_ref
    &&& backup.shader_resource@.len() == 0
    &&& backup.sampler@.len() == 0
    &&& is_shader_reading(
        backup.ps_shader,
        backup.ps_instances_count,
        pipeline.ps,
    )
    &&& is_shader_reading(
        backup.vs_shader,
        backup.vs_instances_count,
        pipeline.vs,
    )
    &&& backup.constant_buffer@.len() == 0
    &&& is_shader_reading(
        backup.gs_shader,
        backup.gs_instances_count,
        pipeline.gs,
    )
    &&& backup.topology == pipeline.topology
    &&& pipeline.index_buffer == (IndexBinding {
        buffer: backup.index_buffer,
        format: backup.index_buffer_format,
        offset: backup.index_buffer_offset,
    })
    &&& (pipeline.vertex_buffers)(0) == (VertexBinding {
        buffer: backup.vertex_buffer,
        stride: backup.vertex_buffer_stride,
        offset: backup.vertex_buffer_offset,
    })
    &&& backup.input_layout == pipeline.input_layout
}

/// Whether a shader is that of a stage, with no more class instances than there is room for. Nothing
/// is said of the class instances themselves, which are asked for with a count of zero.
pub open spec fn is_shader_reading(
    shader: Option<u64>,
    instances_count: u32,
    stage: ShaderStage,
) -> bool {
    shader == stage.shader && instances_fit(shader, instances_count)
}

/// The pixel shader of a backup, with the class instances that were answered.
pub open spec fn saved_ps(backup: StateBackup) -> ShaderStage {
    ShaderStage {
        shader: backup.ps_shader,
        class_instances: backup.ps_instances@.take(backup.ps_instances_count as int),
    }
}

/// The vertex shader of a backup, with the class instances that were answered.
pub open spec fn saved_vs(backup: StateBackup) -> ShaderStage {
    ShaderStage {
        shader: backup.vs_shader,
        class_instances: backup.vs_instances@.take(backup.vs_instances_count as int),
    }
}

/// The geometry shader of a backup, with the class instances that were answered.
pub open spec fn saved_gs(backup: StateBackup) -> ShaderStage {
    ShaderStage {
        shader: backup.gs_shader,
        class_instances: backup.gs_instances@.take(backup.gs_instances_count as int),
    }
}

/// The stage that a shader comes back to: the saved one, or the current one where there was no
/// shader.
pub open spec fn restored_stage(saved: ShaderStage, current: ShaderStage) -> ShaderStage {
    if saved.shader is Some {
        saved
    } else {
        current
    }
}

/// Whether a stage that had a shader has it again, with the class instances that were answered for
/// it; so that it is the same again where these are the class instances that it had.
pub open spec fn has_come_back(
    restored: ShaderStage,
    answered: ShaderStage,
    had: ShaderStage,
) -> bool {
    had.shader is Some ==> {
        &&& restored.shader == had.shader
        &&& restored.class_instances == answered.class_instances
        &&& answered.class_instances == had.class_instances ==> restored == had
    }
}

/// Bringing back what was read of the pipeline gives it the saved states of the rasterizer, of
/// blending and of depth and stencil, the saved vertex and index buffers, and each of the shaders
/// and the input layout that there were. The topology and the sample mask become those that the
/// renderer uses itself, and what is bound to other slots stays.
pub proof fn restore_brings_back(
    effects: Callbacks,
    backup: StateBackup,
    saved: Pipeline,
    current: Pipeline,
)
    requires
        is_reading(backup, saved),
    ensures
        ({
            let restored = apply_all(effects, current, restore_commands(backup));
            &&& restored.rasterizer_state == saved.rasterizer_state
            &&& restored.blend_state == saved.blend_state
            &&& restored.blend_factor == saved.blend_factor
            &&& restored.sample_mask == SAMPLE_MASK_ALL
            &&& restored.depth_stencil_state == saved.depth_stencil_state
            &&& restored.stencil_ref == saved.stencil_ref
            &&& restored.index_buffer == saved.index_buffer
            &&& (restored.vertex_buffers)(0) == (saved.vertex_buffers)(0)
            &&& restored.topology == D3D11_PRIMITIVE_TOPOLOGY_TRIANGLELIST
            &&& restored.ps == restored_stage(saved_ps(backup), current.ps)
            &&& restored.vs == restored_stage(saved_vs(backup), current.vs)
            &&& restored.gs == restored_stage(saved_gs(backup), current.gs)
            &&& has_come_back(restored.ps, saved_ps(backup), saved.ps)
            &&& has_come_back(restored.vs, saved_vs(backup), saved.vs)
            &&& has_come_back(restored.gs, saved_gs(backup), saved.gs)
            &&& restored.input_layout == (if saved.input_layout is Some {
                saved.input_layout
            } else {
                current.input_layout
            })
            &&& restored.hs == current.hs
            &&& restored.ds == current.ds
            &&& restored.cs == current.cs
            &&& restored.ps_resources == current.ps_resources
            &&& restored.ps_samplers == current.ps_samplers
            &&& restored.vs_constant_buffers == current.vs_constant_buffers
            &&& same_unused_slots(restored, current)
            &&& restored.scissor_rects == backup.scissor_rects@
            &&& restored.viewports == backup.viewports@
        }),
{
    let states = restore_states(backup);
    let ps = if_some(backup.ps_shader, restore_ps(backup));
    let vs = if_some(backup.vs_shader, restore_vs(backup));
    let constants = seq![restore_constants(backup)];
    let gs = if_some(backup.gs_shader, restore_gs(backup));
    let buffers = restore_buffers(backup);
    let layout = if_some(backup.input_layout, restore_layout(backup));
    let p1 = apply_all(effects, current, states);
    let p2 = apply_all(effects, p1, ps);
    let p3 = apply_all(effects, p2, vs);
    let p4 = apply_all(effects, p3, constants);
    let p5 = apply_all(effects, p4, gs);
    let p6 = apply_all(effects, p5, buffers);
    calls_add_up(effects, current, states, ps);
    calls_add_up(effects, current, states + ps, vs);
    calls_add_up(effects, current, states + ps + vs, constants);
    calls_add_up(effects, current, states + ps + vs + constants, gs);
    calls_add_up(effects, current, states + ps + vs + constants + gs, buffers);
    calls_add_up(effects, current, states + ps + vs + constants + gs + buffers, layout);
    lemma_restore_states(effects, backup, current);
    lemma_if_some(effects, p1, backup.ps_shader, restore_ps(backup));
    lemma_if_some(effects, p2, backup.vs_shader, restore_vs(backup));
    lemma_if_some(effects, p3, Some(0), restore_constants(backup));
    lemma_if_some(effects, p4, backup.gs_shader, restore_gs(backup));
    lemma_restore_buffers(effects, backup, p5);
    lemma_if_some(effects, p6, backup.input_layout, restore_layout(backup));
    assert(bind(p3.vs_constant_buffers, 0, backup.constant_buffer@) =~= p3.vs_constant_buffers);
}

/// A call that is made where there is an object to make it with.
proof fn lemma_if_some(
    effects: Callbacks,
    pipeline: Pipeline,
    object: Option<u64>,
    call: CommandView,
)
    ensures
        apply_all(effects, pipeline, if_some(object, call)) == (if object is Some {
            apply(effects, pipeline, call)
        } else {
            pipeline
        }),
        apply_all(effects, pipeline, seq![call]) == apply(effects, pipeline, call),
{
    let calls = seq![call];
    lemma_next_call(effects, pipeline, calls, 0);
    assert(calls.take(0) =~= Seq::empty());
    assert(calls.take(1) =~= calls);
}

/// What bringing back the rectangles, the states and the resources does.
proof fn lemma_restore_states(effects: Callbacks, backup: StateBackup, current: Pipeline)
    requires
        backup.shader_resource@.len() == 0,
        backup.sampler@.len() == 0,
    ensures
        apply_all(effects, current, restore_states(backup)) == (Pipeline {
            scissor_rects: backup.scissor_rects@,
            viewports: backup.viewports@,
            rasterizer_state: backup.rasterizer_state,
            blend_state: backup.blend_state,
            blend_factor: backup.blend_factor,
            sample_mask: SAMPLE_MASK_ALL,
            depth_stencil_state: backup.depth_stencil_state,
            stencil_ref: backup.stencil_ref,
            ..current
        }),
{
    let calls = restore_states(backup);
    assert(bind(current.ps_resources, 0, backup.shader_resource@) =~= current.ps_resources);
    assert(bind(current.ps_samplers, 0, backup.sampler@) =~= current.ps_samplers);
    lemma_next_call(effects, current, calls, 0);
    lemma_next_call(effects, current, calls, 1);
    lemma_next_call(effects, current, calls, 2);
    lemma_next_call(effects, current, calls, 3);
    lemma_next_call(effects, current, calls, 4);
    lemma_next_call(effects, current, calls, 5);
    lemma_next_call(effects, current, calls, 6);
    assert(calls.take(0) =~= Seq::empty());
    assert(calls.take(7) =~= calls);
}

/// What bringing back the vertex buffer and the index buffer does.
proof fn lemma_restore_buffers(effects: Callbacks, backup: StateBackup, current: Pipeline)
    ensures
        ({
            let restored = apply_all(effects, current, restore_buffers(backup));
            &&& restored == (Pipeline {
                topology: D3D11_PRIMITIVE_TOPOLOGY_TRIANGLELIST,
                index_buffer: IndexBinding {
                    buffer: backup.index_buffer,
                    format: backup.index_buffer_format,
                    offset: backup.index_buffer_offset,
                },
                vertex_buffers: restored.vertex_buffers,
                ..current
            })
            &&& (restored.vertex_buffers)(0) == (VertexBinding {
                buffer: backup.vertex_buffer,
                stride: backup.vertex_buffer_stride,
                offset: backup.vertex_buffer_offset,
            })
            &&& forall|slot: int|
                slot != 0 ==> #[trigger] (restored.vertex_buffers)(slot) == (
                current.vertex_buffers)(slot)
        }),
{
    let calls = restore_buffers(backup);
    lemma_next_call(effects, current, calls, 0);
    lemma_next_call(effects, current, calls, 1);
    lemma_next_call(effects, current, calls, 2);
    assert(calls.take(0) =~= Seq::empty());
    assert(calls.take(3) =~= calls);
}

/// Whether an answer to a question says what the state of the pipeline is. Nothing is said of the
/// lists of rectangles, viewports and class instances, which are asked for with a count of zero; as
/// many slots are answered for as the question names.
pub open spec fn tells(pipeline: Pipeline, query: Query, answer: Answer) -> bool {
    match query {
        Query::ScissorRects { .. } => answer is ScissorRects,
        Query::Viewports { .. } => answer is Viewports,
        Query::RasterizerState => answer == (Answer::RasterizerState {
            state: pipeline.rasterizer_state,
        }),
        Query::BlendState => answer == (Answer::BlendState {
            state: pipeline.blend_state,
            factor: pipeline.blend_factor,
            sample_mask: pipeline.sample_mask,
        }),
        Query::DepthStencilState => answer == (Answer::DepthStencilState {
            state: pipeline.depth_stencil_state,
            stencil_ref: pipeline.stencil_ref,
        }),
        Query::PsShaderResources { slots, .. } => {
            answer matches Answer::PsShaderResources { objects } && objects@.len() == slots
        },
        Query::PsSamplers { slots, .. } => {
            answer matches Answer::PsSamplers { objects } && objects@.len() == slots
        },
        Query::PsShader { .. } => answer matches Answer::PsShader {
            shader,
            instances_count,
            ..
        } && is_shader_reading(shader, instances_count, pipeline.ps),
        Query::VsShader { .. } => answer matches Answer::VsShader {
            shader,
            instances_count,
            ..
        } && is_shader_reading(shader, instances_count, pipeline.vs),
        Query::VsConstantBuffers { slots, .. } => {
            answer matches Answer::VsConstantBuffers { objects } && objects@.len() == slots
        },
        Query::GsShader { .. } => answer matches Answer::GsShader {
            shader,
            instances_count,
            ..
        } && is_shader_reading(shader, instances_count, pipeline.gs),
        Query::PrimitiveTopology => answer == (Answer::PrimitiveTopology {
            topology: pipeline.topology,
        }),
        Query::IndexBuffer => answer == (Answer::IndexBuffer {
            buffer: pipeline.index_buffer.buffer,
            format: pipeline.index_buffer.format,
            offset: pipeline.index_buffer.offset,
        }),
        Query::VertexBuffer { slot } => answer == (Answer::VertexBuffer {
            buffer: (pipeline.vertex_buffers)(slot as int).buffer,
            stride: (pipeline.vertex_buffers)(slot as int).stride,
            offset: (pipeline.vertex_buffers)(slot as int).offset,
        }),
        Query::InputLayout => answer == (Answer::InputLayout { layout: pipeline.input_layout }),
    }
}

/// Whether the answers to the questions for a backup say what the state of the pipeline is.
pub open spec fn tell_all(pipeline: Pipeline, answers: Seq<Answer>) -> bool {
    &&& answers.len() == backup_queries().len()
    &&& forall|i: int|
        0 <= i < answers.len() ==> tells(pipeline, backup_queries()[i], #[trigger] answers[i])
}

/// The answers to the questions for a backup make a backup that says what they say.
pub proof fn answers_make_a_reading(
    pipeline: Pipeline,
    answers: Seq<Answer>,
    backup: StateBackup,
)
    requires
        tell_all(pipeline, answers),
        is_backup_of(backup, answers),
    ensures
        is_reading(backup, pipeline),
        is_restorable(backup),
{
    let blank = choose|blank: StateBackup| #[trigger]
        is_blank(blank) && backup == with_answers(blank, answers);
    let b5 = with_answers(blank, answers.take(5));
    let b10 = with_answers(blank, answers.take(10));
    lemma_five_answers(blank, answers, 0);
    lemma_five_answers(blank, answers, 5);
    lemma_five_answers(blank, answers, 10);
    assert(with_answers(blank, answers.take(0)) == blank);
    assert(answers.take(15) =~= answers);
    assert(tells(pipeline, backup_queries()[0], answers[0]));
    assert(tells(pipeline, backup_queries()[1], answers[1]));
    assert(tells(pipeline, backup_queries()[2], answers[2]));
    assert(tells(pipeline, backup_queries()[3], answers[3]));
    assert(tells(pipeline, backup_queries()[4], answers[4]));
    lemma_state_answers(
        pipeline,
        blank,
        answers[0],
        answers[1],
        answers[2],
        answers[3],
        answers[4],
    );
    assert(tells(pipeline, backup_queries()[5], answers[5]));
    assert(tells(pipeline, backup_queries()[6], answers[6]));
    assert(tells(pipeline, backup_queries()[7], answers[7]));
    assert(tells(pipeline, backup_queries()[8], answers[8]));
    assert(tells(pipeline, backup_queries()[9], answers[9]));
    lemma_shader_answers(
        pipeline,
        b5,
        answers[5],
        answers[6],
        answers[7],
        answers[8],
        answers[9],
    );
    assert(tells(pipeline, backup_queries()[10], answers[10]));
    assert(tells(pipeline, backup_queries()[11], answers[11]));
    assert(tells(pipeline, backup_queries()[12], answers[12]));
    assert(tells(pipeline, backup_queries()[13], answers[13]));
    assert(tells(pipeline, backup_queries()[14], answers[14]));
    lemma_input_answers(
        pipeline,
        b10,
        answers[10],
        answers[11],
        answers[12],
        answers[13],
        answers[14],
    );
}

/// Whether a backup says what the rasterizer, blending, and depth and stencil states are.
spec fn is_state_reading(backup: StateBackup, pipeline: Pipeline) -> bool {
    &&& backup.rasterizer_state == pipeline.rasterizer_state
    &&& backup.blend_state == pipeline.blend_state
    &&& backup.blend_factor == pipeline.blend_factor
    &&& backup.sample_mask == pipeline.sample_mask
    &&& backup.depth_stencil_state == pipeline.depth_stencil_state
    &&& backup.stencil_ref == pipeline.stencil_ref
}

/// Whether a backup says what the pixel shader and the vertex shader are, and holds no resources.
spec fn is_shaders_reading(backup: StateBackup, pipeline: Pipeline) -> bool {
    &&& backup.shader_resource@.len() == 0
    &&& backup.sampler@.len() == 0
    &&& is_shader_reading(
        backup.ps_shader,
        backup.ps_instances_count,
        pipeline.ps,
    )
    &&& is_shader_reading(
        backup.vs_shader,
        backup.vs_instances_count,
        pipeline.vs,
    )
    &&& backup.constant_buffer@.len() == 0
}

/// A backup with five answers put in, one after the other.
#[verifier::opaque]
spec fn with_five(
    backup: StateBackup,
    a: Answer,
    b: Answer,
    c: Answer,
    d: Answer,
    e: Answer,
) -> StateBackup {
    with_answer(with_answer(with_answer(with_answer(with_answer(backup, a), b), c), d), e)
}

/// Five of a sequence of answers, one after the other.
proof fn lemma_five_answers(blank: StateBackup, answers: Seq<Answer>, i: int)
    requires
        0 <= i,
        i + 5 <= answers.len(),
    ensures
        with_answers(blank, answers.take(i + 5)) == with_five(
            with_answers(blank, answers.take(i)),
            answers[i],
            answers[i + 1],
            answers[i + 2],
            answers[i + 3],
            answers[i + 4],
        ),
{
    reveal(with_five);
    lemma_next_answer(blank, answers, i);
    lemma_next_answer(blank, answers, i + 1);
    lemma_next_answer(blank, answers, i + 2);
    lemma_next_answer(blank, answers, i + 3);
    lemma_next_answer(blank, answers, i + 4);
}

/// The first five answers say what the states are.
proof fn lemma_state_answers(
    pipeline: Pipeline,
    backup: StateBackup,
    a: Answer,
    b: Answer,
    c: Answer,
    d: Answer,
    e: Answer,
)
    requires
        a is ScissorRects,
        b is Viewports,
        tells(pipeline, Query::RasterizerState, c),
        tells(pipeline, Query::BlendState, d),
        tells(pipeline, Query::DepthStencilState, e),
    ensures
        is_state_reading(with_five(backup, a, b, c, d, e), pipeline),
{
    reveal(with_five);
}

/// The next five answers say what the shaders are, and leave the states.
proof fn lemma_shader_answers(
    pipeline: Pipeline,
    backup: StateBackup,
    a: Answer,
    b: Answer,
    c: Answer,
    d: Answer,
    e: Answer,
)
    requires
        tells(pipeline, Query::PsShaderResources { slot: 0, slots: 0 }, a),
        tells(pipeline, Query::PsSamplers { slot: 0, slots: 0 }, b),
        tells(pipeline, Query::PsShader { instances_count: 0 }, c),
        tells(pipeline, Query::VsShader { instances_count: 0 }, d),
        tells(pipeline, Query::VsConstantBuffers { slot: 0, slots: 0 }, e),
        is_state_reading(backup, pipeline),
    ensures
        is_state_reading(with_five(backup, a, b, c, d, e), pipeline),
        is_shaders_reading(with_five(backup, a, b, c, d, e), pipeline),
{
    reveal(with_five);
}

/// The last five answers say the rest, and leave what the others say.
proof fn lemma_input_answers(
    pipeline: Pipeline,
    backup: StateBackup,
    a: Answer,
    b: Answer,
    c: Answer,
    d: Answer,
    e: Answer,
)
    requires
        tells(pipeline, Query::GsShader { instances_count: 0 }, a),
        tells(pipeline, Query::PrimitiveTopology, b),
        tells(pipeline, Query::IndexBuffer, c),
        tells(pipeline, Query::VertexBuffer { slot: 0 }, d),
        tells(pipeline, Query::InputLayout, e),
        is_state_reading(backup, pipeline),
        is_shaders_reading(backup, pipeline),
    ensures
        is_reading(with_five(backup, a, b, c, d, e), pipeline),
        is_restorable(with_five(backup, a, b, c, d, e)),
{
    reveal(with_five);
}

/// The backup after one of a sequence of answers.
proof fn lemma_next_answer(blank: StateBackup, answers: Seq<Answer>, i: int)
    requires
        0 <= i < answers.len(),
    ensures
        with_answers(blank, answers.take(i + 1)) == with_answer(
            with_answers(blank, answers.take(i)),
            answers[i],
        ),
{
    assert(answers.take(i + 1).drop_last() =~= answers.take(i));
}

/// A frame that ends well leaves the pipeline as it found it in these respects, whatever its
/// callbacks do: the states of the rasterizer, of blending and of depth and stencil, the vertex
/// buffer and the index buffer, and each of the pixel shader, the vertex shader, the geometry shader
/// and the input layout that there was. The topology and the sample mask are those of the renderer.
///
/// If it runs no callbacks, every slot that the renderer does not use stays too. Where there was no
/// pixel shader, vertex shader or input layout, that of the renderer stays; a geometry shader there
/// is none then. The other shaders are gone, and what is bound to the slots that the renderer uses
/// is its own.
pub proof fn frame_leaves_the_pipeline(
    effects: Callbacks,
    saved: Pipeline,
    renderer: RendererView,
    draw_data: DrawData<'_>,
    backup: StateBackup,
)
    requires
        is_reading(backup, saved),
    ensures
        ({
            let left = apply_all(effects, saved, whole_frame(renderer, draw_data, backup));
            let objects = renderer.objects;
            let lists = draw_data.draw_lists@;
            let done = drawn_places(renderer, lists);
            &&& left.rasterizer_state == saved.rasterizer_state
            &&& left.blend_state == saved.blend_state
            &&& left.blend_factor == saved.blend_factor
            &&& left.depth_stencil_state == saved.depth_stencil_state
            &&& left.stencil_ref == saved.stencil_ref
            &&& left.index_buffer == saved.index_buffer
            &&& (left.vertex_buffers)(0) == (saved.vertex_buffers)(0)
            &&& has_come_back(left.ps, saved_ps(backup), saved.ps)
            &&& has_come_back(left.vs, saved_vs(backup), saved.vs)
            &&& has_come_back(left.gs, saved_gs(backup), saved.gs)
            &&& saved.input_layout is Some ==> left.input_layout == saved.input_layout
            &&& left.topology == D3D11_PRIMITIVE_TOPOLOGY_TRIANGLELIST
            &&& left.sample_mask == SAMPLE_MASK_ALL
            &&& left.scissor_rects == backup.scissor_rects@
            &&& left.viewports == backup.viewports@
            &&& no_callbacks(lists, done) ==> {
                &&& left.gs.shader == saved.gs.shader
                &&& saved.ps.shader is None ==> left.ps == shader_stage(
                    Some(objects.pixel_shader),
                    None,
                )
                &&& saved.vs.shader is None ==> left.vs == shader_stage(
                    Some(objects.vertex_shader),
                    None,
                )
                &&& saved.input_layout is None ==> left.input_layout == Some(objects.input_layout)
                &&& left.hs is None
                &&& left.ds is None
                &&& left.cs is None
                &&& (left.vs_constant_buffers)(0) == Some(objects.constant_buffer)
                &&& (left.ps_samplers)(0) == Some(objects.font_sampler)
                &&& (left.ps_resources)(0) == Some(view_of(renderer, bound_texture(lists, done)))
                &&& same_unused_slots(left, saved)
            }
        }),
{
    let lists = draw_data.draw_lists@;
    let size = draw_data.display_size;
    let done = drawn_places(renderer, lists);
    let unmap = seq![
        ContextCall::<Seq<Rect>, Seq<Viewport>, Seq<Option<u64>>>::Unmap {
            resource: renderer.objects.constant_buffer,
        },
    ];
    let setup = setup_commands(renderer, size);
    let drawing = draw_commands(renderer, size, lists, done);
    let geometry = unmap_geometry(renderer);
    let frame = frame_commands(renderer, draw_data);
    lemma_next_call(effects, saved, geometry, 0);
    lemma_next_call(effects, saved, geometry, 1);
    assert(geometry.take(0) =~= Seq::empty());
    assert(geometry.take(2) =~= geometry);
    lemma_if_some(effects, saved, None, unmap[0]);
    calls_add_up(effects, saved, unmap, setup);
    calls_add_up(effects, saved, unmap + setup, drawing);
    setup_sets_up(effects, saved, renderer, size);
    if no_callbacks(lists, done) {
        drawing_keeps_the_setup(
            effects,
            apply_all(effects, saved, setup),
            renderer,
            size,
            lists,
            done,
        );
    }
    calls_add_up(effects, saved, geometry, frame);
    calls_add_up(effects, saved, geometry + frame, restore_commands(backup));
    restore_brings_back(effects, backup, saved, apply_all(effects, saved, frame));
}

} // verus!
