//! Saving the state of the pipeline before a frame, and bringing it back afterwards.

use vstd::prelude::*;

use crate::command::{push_command, views, Command, CommandView, ContextCall};
use crate::d3d11::{
    Rect, Viewport, D3D11_PRIMITIVE_TOPOLOGY_TRIANGLELIST, D3D11_PRIMITIVE_TOPOLOGY_UNDEFINED,
    DXGI_FORMAT_UNKNOWN, F32_ZERO, SAMPLE_MASK_ALL,
};

verus! {

/// How many viewports and scissor rectangles a pipeline has
pub const VIEWPORT_AND_SCISSORRECT_COUNT: usize = 16;

/// How many class instances of a shader there is room for
pub const CLASS_INSTANCE_COUNT: usize = 256;

/// The state of the pipeline that is saved
#[derive(Debug, PartialEq, Eq)]
pub struct StateBackup {
    pub scissor_rects_count: u32,
    pub scissor_rects: [Rect; 16],
    pub viewports_count: u32,
    pub viewports: [Viewport; 16],
    pub rasterizer_state: Option<u64>,
    pub blend_state: Option<u64>,
    pub blend_factor: [u32; 4],
    pub sample_mask: u32,
    pub depth_stencil_state: Option<u64>,
    pub stencil_ref: u32,
    pub shader_resource: Vec<Option<u64>>,
    pub sampler: Vec<Option<u64>>,
    pub ps_shader: Option<u64>,
    pub ps_instances_count: u32,
    pub ps_instances: [Option<u64>; 256],
    pub vs_shader: Option<u64>,
    pub vs_instances_count: u32,
    pub vs_instances: [Option<u64>; 256],
    pub constant_buffer: Vec<Option<u64>>,
    pub gs_shader: Option<u64>,
    pub gs_instances_count: u32,
    pub gs_instances: [Option<u64>; 256],
    pub index_buffer: Option<u64>,
    pub index_buffer_offset: u32,
    pub index_buffer_format: i32,
    pub vertex_buffer: Option<u64>,
    pub vertex_buffer_offset: u32,
    pub vertex_buffer_stride: u32,
    pub topology: i32,
    pub input_layout: Option<u64>,
}

/// A question about the state of the pipeline, with the number of items to ask for
#[derive(Clone, Copy, Debug, PartialEq, Eq)]
pub enum Query {
    ScissorRects { count: u32 },
    Viewports { count: u32 },
    RasterizerState,
    BlendState,
    DepthStencilState,
    PsShaderResources { slot: u32, slots: usize },
    PsSamplers { slot: u32, slots: usize },
    PsShader { instances_count: u32 },
    VsShader { instances_count: u32 },
    VsConstantBuffers { slot: u32, slots: usize },
    GsShader { instances_count: u32 },
    PrimitiveTopology,
    IndexBuffer,
    VertexBuffer { slot: u32 },
    InputLayout,
}

/// What the device context answers to a question
#[derive(Debug, PartialEq, Eq)]
pub enum Answer {
    ScissorRects { count: u32, rects: [Rect; 16] },
    Viewports { count: u32, viewports: [Viewport; 16] },
    RasterizerState { state: Option<u64> },
    BlendState { state: Option<u64>, factor: [u32; 4], sample_mask: u32 },
    DepthStencilState { state: Option<u64>, stencil_ref: u32 },
    PsShaderResources { objects: Vec<Option<u64>> },
    PsSamplers { objects: Vec<Option<u64>> },
    PsShader { shader: Option<u64>, instances_count: u32, instances: [Option<u64>; 256] },
    VsShader { shader: Option<u64>, instances_count: u32, instances: [Option<u64>; 256] },
    VsConstantBuffers { objects: Vec<Option<u64>> },
    GsShader { shader: Option<u64>, instances_count: u32, instances: [Option<u64>; 256] },
    PrimitiveTopology { topology: i32 },
    IndexBuffer { buffer: Option<u64>, format: i32, offset: u32 },
    VertexBuffer { buffer: Option<u64>, stride: u32, offset: u32 },
    InputLayout { layout: Option<u64> },
}

/// The rectangle with no extent.
pub open spec fn zero_rect() -> Rect {
    Rect { left: 0, top: 0, right: 0, bottom: 0 }
}

/// The viewport with no extent.
pub open spec fn zero_viewport() -> Viewport {
    Viewport {
        top_left_x: F32_ZERO,
        top_left_y: F32_ZERO,
        width: F32_ZERO,
        height: F32_ZERO,
        min_depth: F32_ZERO,
        max_depth: F32_ZERO,
    }
}

/// Whether nothing is saved: there are no objects, and all numbers are zero.
pub open spec fn is_blank(backup: StateBackup) -> bool {
    &&& backup.scissor_rects_count == 0
    &&& backup.scissor_rects@ == Seq::new(16, |i: int| zero_rect())
    &&& backup.viewports_count == 0
    &&& backup.viewports@ == Seq::new(16, |i: int| zero_viewport())
    &&& backup.rasterizer_state is None
    &&& backup.blend_state is None
    &&& backup.blend_factor == [F32_ZERO, F32_ZERO, F32_ZERO, F32_ZERO]
    &&& backup.sample_mask == 0
    &&& backup.depth_stencil_state is None
    &&& backup.stencil_ref == 0
    &&& backup.shader_resource@ == Seq::<Option<u64>>::empty()
    &&& backup.sampler@ == Seq::<Option<u64>>::empty()
    &&& backup.ps_shader is None
    &&& backup.ps_instances_count == 0
    &&& backup.ps_instances@ == Seq::new(256, |i: int| None::<u64>)
    &&& backup.vs_shader is None
    &&& backup.vs_instances_count == 0
    &&& backup.vs_instances@ == Seq::new(256, |i: int| None::<u64>)
    &&& backup.constant_buffer@ == Seq::<Option<u64>>::empty()
    &&& backup.gs_shader is None
    &&& backup.gs_instances_count == 0
    &&& backup.gs_instances@ == Seq::new(256, |i: int| None::<u64>)
    &&& backup.index_buffer is None
    &&& backup.index_buffer_offset == 0
    &&& backup.index_buffer_format == DXGI_FORMAT_UNKNOWN
    &&& backup.vertex_buffer is None
    &&& backup.vertex_buffer_offset == 0
    &&& backup.vertex_buffer_stride == 0
    &&& backup.topology == D3D11_PRIMITIVE_TOPOLOGY_UNDEFINED
    &&& backup.input_layout is None
}

/// The questions that are asked for a backup, in this order. The lists of shader resources, samplers
/// and constant buffers are asked for no items, and the other lists come with a count of zero, as a
/// blank backup has them.
pub open spec fn backup_queries() -> Seq<Query> {
    seq![
        Query::ScissorRects { count: 0 },
        Query::Viewports { count: 0 },
        Query::RasterizerState,
        Query::BlendState,
        Query::DepthStencilState,
        Query::PsShaderResources { slot: 0, slots: 0 },
        Query::PsSamplers { slot: 0, slots: 0 },
        Query::PsShader { instances_count: 0 },
        Query::VsShader { instances_count: 0 },
        Query::VsConstantBuffers { slot: 0, slots: 0 },
        Query::GsShader { instances_count: 0 },
        Query::PrimitiveTopology,
        Query::IndexBuffer,
        Query::VertexBuffer { slot: 0 },
        Query::InputLayout,
    ]
}

/// A backup with an answer put in the place of what it says on the same question.
pub open spec fn with_answer(backup: StateBackup, answer: Answer) -> StateBackup {
    match answer {
        Answer::ScissorRects { count, rects } => StateBackup {
            scissor_rects_count: count,
            scissor_rects: rects,
            ..backup
        },
        Answer::Viewports { count, viewports } => StateBackup {
            viewports_count: count,
            viewports,
            ..backup
        },
        Answer::RasterizerState { state } => StateBackup { rasterizer_state: state, ..backup },
        Answer::BlendState { state, factor, sample_mask } => StateBackup {
            blend_state: state,
            blend_factor: factor,
            sample_mask,
            ..backup
        },
        Answer::DepthStencilState { state, stencil_ref } => StateBackup {
            depth_stencil_state: state,
            stencil_ref,
            ..backup
        },
        Answer::PsShaderResources { objects } => StateBackup { shader_resource: objects, ..backup },
        Answer::PsSamplers { objects } => StateBackup { sampler: objects, ..backup },
        Answer::PsShader { shader, instances_count, instances } => StateBackup {
            ps_shader: shader,
            ps_instances_count: instances_count,
            ps_instances: instances,
            ..backup
        },
        Answer::VsShader { shader, instances_count, instances } => StateBackup {
            vs_shader: shader,
            vs_instances_count: instances_count,
            vs_instances: instances,
            ..backup
        },
        Answer::VsConstantBuffers { objects } => StateBackup { constant_buffer: objects, ..backup },
        Answer::GsShader { shader, instances_count, instances } => StateBackup {
            gs_shader: shader,
            gs_instances_count: instances_count,
            gs_instances: instances,
            ..backup
        },
        Answer::PrimitiveTopology { topology } => StateBackup { topology, ..backup },
        Answer::IndexBuffer { buffer, format, offset } => StateBackup {
            index_buffer: buffer,
            index_buffer_format: format,
            index_buffer_offset: offset,
            ..backup
        },
        Answer::VertexBuffer { buffer, stride, offset } => StateBackup {
            vertex_buffer: buffer,
            vertex_buffer_stride: stride,
            vertex_buffer_offset: offset,
            ..backup
        },
        Answer::InputLayout { layout } => StateBackup { input_layout: layout, ..backup },
    }
}

/// A backup with all of a sequence of answers put in, one after the other.
pub open spec fn with_answers(backup: StateBackup, answers: Seq<Answer>) -> StateBackup
    decreases answers.len(),
{
    if answers.len() == 0 {
        backup
    } else {
        with_answer(with_answers(backup, answers.drop_last()), answers.last())
    }
}

/// Whether a backup says what the answers say, and is blank where they say nothing.
pub open spec fn is_backup_of(backup: StateBackup, answers: Seq<Answer>) -> bool {
    exists|blank: StateBackup| #[trigger]
        is_blank(blank) && backup == with_answers(blank, answers)
}

/// Whether a shader that was saved comes with no more class instances than there is room for.
pub open spec fn instances_fit(shader: Option<u64>, instances_count: u32) -> bool {
    shader is Some ==> instances_count <= CLASS_INSTANCE_COUNT
}

/// Whether the shaders of a backup come with no more class instances than there is room for.
pub open spec fn is_restorable(backup: StateBackup) -> bool {
    &&& instances_fit(backup.ps_shader, backup.ps_instances_count)
    &&& instances_fit(backup.vs_shader, backup.vs_instances_count)
    &&& instances_fit(backup.gs_shader, backup.gs_instances_count)
}

/// The first items of a list of class instances.
pub open spec fn named_instances(instances: [Option<u64>; 256], count: u32) -> Option<
    Seq<Option<u64>>,
> {
    Some(instances@.take(count as int))
}

/// A sequence of one call, where there is an object to make it with.
pub open spec fn if_some(object: Option<u64>, call: CommandView) -> Seq<CommandView> {
    if object is Some {
        seq![call]
    } else {
        Seq::empty()
    }
}

/// The calls that bring back the rectangles, the states and the resources.
pub open spec fn restore_states(backup: StateBackup) -> Seq<CommandView> {
    seq![
        ContextCall::RsSetScissorRects { rects: backup.scissor_rects@ },
        ContextCall::RsSetViewports { viewports: backup.viewports@ },
        ContextCall::RsSetState { state: backup.rasterizer_state },
        ContextCall::OmSetBlendState {
            state: backup.blend_state,
            factor: backup.blend_factor,
            sample_mask: SAMPLE_MASK_ALL,
        },
        ContextCall::OmSetDepthStencilState {
            state: backup.depth_stencil_state,
            stencil_ref: backup.stencil_ref,
        },
        ContextCall::PsSetShaderResources { slot: 0, views: backup.shader_resource@ },
        ContextCall::PsSetSamplers { slot: 0, samplers: backup.sampler@ },
    ]
}

/// The call that brings back the pixel shader.
pub open spec fn restore_ps(backup: StateBackup) -> CommandView {
    ContextCall::PsSetShader {
        shader: backup.ps_shader,
        class_instances: named_instances(backup.ps_instances, backup.ps_instances_count),
    }
}

/// The call that brings back the vertex shader.
pub open spec fn restore_vs(backup: StateBackup) -> CommandView {
    ContextCall::VsSetShader {
        shader: backup.vs_shader,
        class_instances: named_instances(backup.vs_instances, backup.vs_instances_count),
    }
}

/// The call that brings back the constant buffers.
pub open spec fn restore_constants(backup: StateBackup) -> CommandView {
    ContextCall::VsSetConstantBuffers { slot: 0, buffers: backup.constant_buffer@ }
}

/// The call that brings back the geometry shader.
pub open spec fn restore_gs(backup: StateBackup) -> CommandView {
    ContextCall::GsSetShader {
        shader: backup.gs_shader,
        class_instances: named_instances(backup.gs_instances, backup.gs_instances_count),
    }
}

/// The calls that bring back the vertex buffer and the index buffer.
pub open spec fn restore_buffers(backup: StateBackup) -> Seq<CommandView> {
    seq![
        ContextCall::IaSetPrimitiveTopology { topology: D3D11_PRIMITIVE_TOPOLOGY_TRIANGLELIST },
        ContextCall::IaSetIndexBuffer {
            buffer: backup.index_buffer,
            format: backup.index_buffer_format,
            offset: backup.index_buffer_offset,
        },
        ContextCall::IaSetVertexBuffers {
            slot: 0,
            buffer: backup.vertex_buffer,
            stride: backup.vertex_buffer_stride,
            offset: backup.vertex_buffer_offset,
        },
    ]
}

/// The call that brings back the input layout.
pub open spec fn restore_layout(backup: StateBackup) -> CommandView {
    ContextCall::IaSetInputLayout { layout: backup.input_layout }
}

/// The calls that bring a saved state back. A shader or the input layout comes back only where
/// there was one; the sample mask and the topology are not those that were saved.
pub open spec fn restore_commands(backup: StateBackup) -> Seq<CommandView> {
    restore_states(backup) + if_some(backup.ps_shader, restore_ps(backup)) + if_some(
        backup.vs_shader,
        restore_vs(backup),
    ) + seq![restore_constants(backup)] + if_some(backup.gs_shader, restore_gs(backup))
        + restore_buffers(backup) + if_some(backup.input_layout, restore_layout(backup))
}

/// Copies the first items of a slice.
fn copy_first<T: Copy>(items: &[T], count: usize) -> (list: Vec<T>)
    requires
        count <= items@.len(),
    ensures
        list@ == items@.take(count as int),
{
    let mut list: Vec<T> = Vec::new();
    let mut i: usize = 0;
    while i < count
        invariant
            i <= count <= items@.len(),
            list@ == items@.take(i as int),
        decreases count - i,
    {
        list.push(items[i]);
        i += 1;
        assert(list@ =~= items@.take(i as int));
    }
    list
}

/// An array that holds the same item everywhere.
fn repeated<T: Copy, const N: usize>(item: T) -> (items: [T; N])
    ensures
        items@ == Seq::new(N as nat, |i: int| item),
{
    let items: [T; N] = [item; N];
    assert(items@ =~= Seq::new(N as nat, |i: int| item));
    items
}

impl Default for StateBackup {
    /// The blank backup.
    fn default() -> (backup: Self)
        ensures
            is_blank(backup),
    {
        let rect = Rect { left: 0, top: 0, right: 0, bottom: 0 };
        let viewport = Viewport {
            top_left_x: F32_ZERO,
            top_left_y: F32_ZERO,
            width: F32_ZERO,
            height: F32_ZERO,
            min_depth: F32_ZERO,
            max_depth: F32_ZERO,
        };
        let backup = StateBackup {
            scissor_rects_count: 0,
            scissor_rects: repeated(rect),
            viewports_count: 0,
            viewports: repeated(viewport),
            rasterizer_state: None,
            blend_state: None,
            blend_factor: [F32_ZERO, F32_ZERO, F32_ZERO, F32_ZERO],
            sample_mask: 0,
            depth_stencil_state: None,
            stencil_ref: 0,
            shader_resource: Vec::new(),
            sampler: Vec::new(),
            ps_shader: None,
            ps_instances_count: 0,
            ps_instances: repeated(None),
            vs_shader: None,
            vs_instances_count: 0,
            vs_instances: repeated(None),
            constant_buffer: Vec::new(),
            gs_shader: None,
            gs_instances_count: 0,
            gs_instances: repeated(None),
            index_buffer: None,
            index_buffer_offset: 0,
            index_buffer_format: DXGI_FORMAT_UNKNOWN,
            vertex_buffer: None,
            vertex_buffer_offset: 0,
            vertex_buffer_stride: 0,
            topology: D3D11_PRIMITIVE_TOPOLOGY_UNDEFINED,
            input_layout: None,
        };
        proof {
            assert(backup.scissor_rects@ =~= Seq::new(16, |i: int| zero_rect()));
            assert(backup.viewports@ =~= Seq::new(16, |i: int| zero_viewport()));
            assert(backup.ps_instances@ =~= Seq::new(256, |i: int| None::<u64>));
            assert(backup.vs_instances@ =~= Seq::new(256, |i: int| None::<u64>));
            assert(backup.gs_instances@ =~= Seq::new(256, |i: int| None::<u64>));
        }
        backup
    }
}

impl StateBackup {
    /// The questions to ask the device context for a backup.
    pub fn queries() -> (queries: Vec<Query>)
        ensures
            queries@ == backup_queries(),
    {
        let blank = StateBackup::default();
        let queries = vec![
            Query::ScissorRects { count: blank.scissor_rects_count },
            Query::Viewports { count: blank.viewports_count },
            Query::RasterizerState,
            Query::BlendState,
            Query::DepthStencilState,
            Query::PsShaderResources { slot: 0, slots: blank.shader_resource.len() },
            Query::PsSamplers { slot: 0, slots: blank.sampler.len() },
            Query::PsShader { instances_count: blank.ps_instances_count },
            Query::VsShader { instances_count: blank.vs_instances_count },
            Query::VsConstantBuffers { slot: 0, slots: blank.constant_buffer.len() },
            Query::GsShader { instances_count: blank.gs_instances_count },
            Query::PrimitiveTopology,
            Query::IndexBuffer,
            Query::VertexBuffer { slot: 0 },
            Query::InputLayout,
        ];
        assert(queries@ =~= backup_queries());
        queries
    }

    /// Puts an answer in the place of what the backup says on the same question.
    pub fn record(&mut self, answer: Answer)
        ensures
            *final(self) == with_answer(*old(self), answer),
    {
        match answer {
            Answer::ScissorRects { count, rects } => {
                self.scissor_rects_count = count;
                self.scissor_rects = rects;
            },
            Answer::Viewports { count, viewports } => {
                self.viewports_count = count;
                self.viewports = viewports;
            },
            Answer::RasterizerState { state } => {
                self.rasterizer_state = state;
            },
            Answer::BlendState { state, factor, sample_mask } => {
                self.blend_state = state;
                self.blend_factor = factor;
                self.sample_mask = sample_mask;
            },
            Answer::DepthStencilState { state, stencil_ref } => {
                self.depth_stencil_state = state;
                self.stencil_ref = stencil_ref;
            },
            Answer::PsShaderResources { objects } => {
                self.shader_resource = objects;
            },
            Answer::PsSamplers { objects } => {
                self.sampler = objects;
            },
            Answer::PsShader { shader, instances_count, instances } => {
                self.ps_shader = shader;
                self.ps_instances_count = instances_count;
                self.ps_instances = instances;
            },
            Answer::VsShader { shader, instances_count, instances } => {
                self.vs_shader = shader;
                self.vs_instances_count = instances_count;
                self.vs_instances = instances;
            },
            Answer::VsConstantBuffers { objects } => {
                self.constant_buffer = objects;
            },
            Answer::GsShader { shader, instances_count, instances } => {
                self.gs_shader = shader;
                self.gs_instances_count = instances_count;
                self.gs_instances = instances;
            },
            Answer::PrimitiveTopology { topology } => {
                self.topology = topology;
            },
            Answer::IndexBuffer { buffer, format, offset } => {
                self.index_buffer = buffer;
                self.index_buffer_format = format;
                self.index_buffer_offset = offset;
            },
            Answer::VertexBuffer { buffer, stride, offset } => {
                self.vertex_buffer = buffer;
                self.vertex_buffer_stride = stride;
                self.vertex_buffer_offset = offset;
            },
            Answer::InputLayout { layout } => {
                self.input_layout = layout;
            },
        }
    }

    /// The backup that the answers of the device context make.
    pub fn backup(answers: Vec<Answer>) -> (backup: Self)
        ensures
            is_backup_of(backup, answers@),
    {
        let ghost all = answers@;
        let mut rest = answers;
        let mut backup = StateBackup::default();
        let ghost blank = backup;
        let ghost mut done: int = 0;
        assert(all.take(0) =~= Seq::empty());
        assert(all.skip(0) =~= all);
        while rest.len() > 0
            invariant
                0 <= done <= all.len(),
                rest@ == all.skip(done),
                is_blank(blank),
                backup == with_answers(blank, all.take(done)),
            decreases rest@.len(),
        {
            let answer = rest.remove(0);
            proof {
                assert(all.take(done + 1).drop_last() =~= all.take(done));
                assert(all.take(done + 1).last() == answer);
                done = done + 1;
                assert(rest@ =~= all.skip(done));
            }
            backup.record(answer);
        }
        assert(all.take(done) =~= all);
        backup
    }

    /// Whether the saved state can be brought back.
    pub fn can_restore(&self) -> (result: bool)
        ensures
            result == is_restorable(*self),
    {
        (self.ps_shader.is_none() || self.ps_instances_count as usize <= CLASS_INSTANCE_COUNT) && (
        self.vs_shader.is_none() || self.vs_instances_count as usize <= CLASS_INSTANCE_COUNT) && (
        self.gs_shader.is_none() || self.gs_instances_count as usize <= CLASS_INSTANCE_COUNT)
    }

    /// The calls that bring the saved state back.
    pub fn restore(&self) -> (commands: Vec<Command>)
        requires
            is_restorable(*self),
        ensures
            views(commands@) == restore_commands(*self),
    {
        let rects = copy_first(self.scissor_rects.as_slice(), VIEWPORT_AND_SCISSORRECT_COUNT);
        let viewports = copy_first(self.viewports.as_slice(), VIEWPORT_AND_SCISSORRECT_COUNT);
        let resources = copy_first(self.shader_resource.as_slice(), self.shader_resource.len());
        let samplers = copy_first(self.sampler.as_slice(), self.sampler.len());
        let constants = copy_first(self.constant_buffer.as_slice(), self.constant_buffer.len());
        proof {
            assert(rects@ =~= self.scissor_rects@);
            assert(viewports@ =~= self.viewports@);
            assert(resources@ =~= self.shader_resource@);
            assert(samplers@ =~= self.sampler@);
            assert(constants@ =~= self.constant_buffer@);
        }
        let mut commands: Vec<Command> = Vec::new();
        push_command(&mut commands, ContextCall::RsSetScissorRects { rects });
        push_command(&mut commands, ContextCall::RsSetViewports { viewports });
        push_command(&mut commands, ContextCall::RsSetState { state: self.rasterizer_state });
        push_command(
            &mut commands,
            ContextCall::OmSetBlendState {
                state: self.blend_state,
                factor: self.blend_factor,
                sample_mask: SAMPLE_MASK_ALL,
            },
        );
        push_command(
            &mut commands,
            ContextCall::OmSetDepthStencilState {
                state: self.depth_stencil_state,
                stencil_ref: self.stencil_ref,
            },
        );
        push_command(
            &mut commands,
            ContextCall::PsSetShaderResources { slot: 0, views: resources },
        );
        push_command(&mut commands, ContextCall::PsSetSamplers { slot: 0, samplers });
        if self.ps_shader.is_some() {
            let instances = copy_first(
                self.ps_instances.as_slice(),
                self.ps_instances_count as usize,
            );
            push_command(
                &mut commands,
                ContextCall::PsSetShader {
                    shader: self.ps_shader,
                    class_instances: Some(instances),
                },
            );
        }
        if self.vs_shader.is_some() {
            let instances = copy_first(
                self.vs_instances.as_slice(),
                self.vs_instances_count as usize,
            );
            push_command(
                &mut commands,
                ContextCall::VsSetShader {
                    shader: self.vs_shader,
                    class_instances: Some(instances),
                },
            );
        }
        push_command(
            &mut commands,
            ContextCall::VsSetConstantBuffers { slot: 0, buffers: constants },
        );
        if self.gs_shader.is_some() {
            let instances = copy_first(
                self.gs_instances.as_slice(),
                self.gs_instances_count as usize,
            );
            push_command(
                &mut commands,
                ContextCall::GsSetShader {
                    shader: self.gs_shader,
                    class_instances: Some(instances),
                },
            );
        }
        push_command(
            &mut commands,
            ContextCall::IaSetPrimitiveTopology {
                topology: D3D11_PRIMITIVE_TOPOLOGY_TRIANGLELIST,
            },
        );
        push_command(
            &mut commands,
            ContextCall::IaSetIndexBuffer {
                buffer: self.index_buffer,
                format: self.index_buffer_format,
                offset: self.index_buffer_offset,
            },
        );
        push_command(
            &mut commands,
            ContextCall::IaSetVertexBuffers {
                slot: 0,
                buffer: self.vertex_buffer,
                stride: self.vertex_buffer_stride,
                offset: self.vertex_buffer_offset,
            },
        );
        if self.input_layout.is_some() {
            push_command(
                &mut commands,
                ContextCall::IaSetInputLayout { layout: self.input_layout },
            );
        }
        assert(views(commands@) =~= restore_commands(*self));
        commands
    }
}

/// Whether a backup says what an answer says, field by field.
pub open spec fn says(backup: StateBackup, answer: Answer) -> bool {
    match answer {
        Answer::ScissorRects { count, rects } => {
            &&& backup.scissor_rects_count == count
            &&& backup.scissor_rects == rects
        },
        Answer::Viewports { count, viewports } => {
            &&& backup.viewports_count == count
            &&& backup.viewports == viewports
        },
        Answer::RasterizerState { state } => backup.rasterizer_state == state,
        Answer::BlendState { state, factor, sample_mask } => {
            &&& backup.blend_state == state
            &&& backup.blend_factor == factor
            &&& backup.sample_mask == sample_mask
        },
        Answer::DepthStencilState { state, stencil_ref } => {
            &&& backup.depth_stencil_state == state
            &&& backup.stencil_ref == stencil_ref
        },
        Answer::PsShaderResources { objects } => backup.shader_resource == objects,
        Answer::PsSamplers { objects } => backup.sampler == objects,
        Answer::PsShader { shader, instances_count, instances } => {
            &&& backup.ps_shader == shader
            &&& backup.ps_instances_count == instances_count
            &&& backup.ps_instances == instances
        },
        Answer::VsShader { shader, instances_count, instances } => {
            &&& backup.vs_shader == shader
            &&& backup.vs_instances_count == instances_count
            &&& backup.vs_instances == instances
        },
        Answer::VsConstantBuffers { objects } => backup.constant_buffer == objects,
        Answer::GsShader { shader, instances_count, instances } => {
            &&& backup.gs_shader == shader
            &&& backup.gs_instances_count == instances_count
            &&& backup.gs_instances == instances
        },
        Answer::PrimitiveTopology { topology } => backup.topology == topology,
        Answer::IndexBuffer { buffer, format, offset } => {
            &&& backup.index_buffer == buffer
            &&& backup.index_buffer_format == format
            &&& backup.index_buffer_offset == offset
        },
        Answer::VertexBuffer { buffer, stride, offset } => {
            &&& backup.vertex_buffer == buffer
            &&& backup.vertex_buffer_stride == stride
            &&& backup.vertex_buffer_offset == offset
        },
        Answer::InputLayout { layout } => backup.input_layout == layout,
    }
}

/// Whether two backups say the same on a question, field by field.
pub open spec fn say_the_same(a: StateBackup, b: StateBackup, query: Query) -> bool {
    match query {
        Query::ScissorRects { .. } => {
            &&& a.scissor_rects_count == b.scissor_rects_count
            &&& a.scissor_rects == b.scissor_rects
        },
        Query::Viewports { .. } => {
            &&& a.viewports_count == b.viewports_count
            &&& a.viewports == b.viewports
        },
        Query::RasterizerState => a.rasterizer_state == b.rasterizer_state,
        Query::BlendState => {
            &&& a.blend_state == b.blend_state
            &&& a.blend_factor == b.blend_factor
            &&& a.sample_mask == b.sample_mask
        },
        Query::DepthStencilState => {
            &&& a.depth_stencil_state == b.depth_stencil_state
            &&& a.stencil_ref == b.stencil_ref
        },
        Query::PsShaderResources { .. } => a.shader_resource == b.shader_resource,
        Query::PsSamplers { .. } => a.sampler == b.sampler,
        Query::PsShader { .. } => {
            &&& a.ps_shader == b.ps_shader
            &&& a.ps_instances_count == b.ps_instances_count
            &&& a.ps_instances == b.ps_instances
        },
        Query::VsShader { .. } => {
            &&& a.vs_shader == b.vs_shader
            &&& a.vs_instances_count == b.vs_instances_count
            &&& a.vs_instances == b.vs_instances
        },
        Query::VsConstantBuffers { .. } => a.constant_buffer == b.constant_buffer,
        Query::GsShader { .. } => {
            &&& a.gs_shader == b.gs_shader
            &&& a.gs_instances_count == b.gs_instances_count
            &&& a.gs_instances == b.gs_instances
        },
        Query::PrimitiveTopology => a.topology == b.topology,
        Query::IndexBuffer => {
            &&& a.index_buffer == b.index_buffer
            &&& a.index_buffer_format == b.index_buffer_format
            &&& a.index_buffer_offset == b.index_buffer_offset
        },
        Query::VertexBuffer { .. } => {
            &&& a.vertex_buffer == b.vertex_buffer
            &&& a.vertex_buffer_stride == b.vertex_buffer_stride
            &&& a.vertex_buffer_offset == b.vertex_buffer_offset
        },
        Query::InputLayout => a.input_layout == b.input_layout,
    }
}

/// Whether an answer answers a question.
pub open spec fn is_answer_to(answer: Answer, query: Query) -> bool {
    match query {
        Query::ScissorRects { .. } => answer is ScissorRects,
        Query::Viewports { .. } => answer is Viewports,
        Query::RasterizerState => answer is RasterizerState,
        Query::BlendState => answer is BlendState,
        Query::DepthStencilState => answer is DepthStencilState,
        Query::PsShaderResources { .. } => answer is PsShaderResources,
        Query::PsSamplers { .. } => answer is PsSamplers,
        Query::PsShader { .. } => answer is PsShader,
        Query::VsShader { .. } => answer is VsShader,
        Query::VsConstantBuffers { .. } => answer is VsConstantBuffers,
        Query::GsShader { .. } => answer is GsShader,
        Query::PrimitiveTopology => answer is PrimitiveTopology,
        Query::IndexBuffer => answer is IndexBuffer,
        Query::VertexBuffer { .. } => answer is VertexBuffer,
        Query::InputLayout => answer is InputLayout,
    }
}

/// Recording an answer makes a backup say what the answer says, and keeps what it says on every other
/// question.
pub proof fn an_answer_is_recorded(backup: StateBackup, answer: Answer)
    ensures
        says(with_answer(backup, answer), answer),
        forall|query: Query|
            !is_answer_to(answer, query) ==> #[trigger] say_the_same(
                with_answer(backup, answer),
                backup,
                query,
            ),
{
}

/// Where the last answer to a question is put in, the backup says what it says.
proof fn lemma_last_answer(blank: StateBackup, answers: Seq<Answer>, query: Query, i: int)
    requires
        0 <= i < answers.len(),
        is_answer_to(answers[i], query),
        forall|j: int| i < j < answers.len() ==> !is_answer_to(#[trigger] answers[j], query),
    ensures
        says(with_answers(blank, answers), answers[i]),
    decreases answers.len(),
{
    let last = answers.len() - 1;
    let before = with_answers(blank, answers.drop_last());
    an_answer_is_recorded(before, answers[last]);
    if i < last {
        assert forall|j: int| i < j < answers.drop_last().len() implies !is_answer_to(
            #[trigger] answers.drop_last()[j],
            query,
        ) by {
            assert(answers.drop_last()[j] == answers[j]);
        }
        lemma_last_answer(blank, answers.drop_last(), query, i);
        assert(!is_answer_to(answers[last], query));
        assert(say_the_same(with_answer(before, answers[last]), before, query));
    }
}

/// Where a question is not answered, the backup says what it said before.
proof fn lemma_no_answer(blank: StateBackup, answers: Seq<Answer>, query: Query)
    requires
        forall|j: int| 0 <= j < answers.len() ==> !is_answer_to(#[trigger] answers[j], query),
    ensures
        say_the_same(with_answers(blank, answers), blank, query),
    decreases answers.len(),
{
    if answers.len() > 0 {
        let last = answers.len() - 1;
        let before = with_answers(blank, answers.drop_last());
        an_answer_is_recorded(before, answers[last]);
        assert forall|j: int| 0 <= j < answers.drop_last().len() implies !is_answer_to(
            #[trigger] answers.drop_last()[j],
            query,
        ) by {
            assert(answers.drop_last()[j] == answers[j]);
        }
        lemma_no_answer(blank, answers.drop_last(), query);
        assert(!is_answer_to(answers[last], query));
        assert(say_the_same(with_answer(before, answers[last]), before, query));
    }
}

/// A backup says on each question what the last answer to it says, and is blank where there is none.
pub proof fn a_backup_says_what_was_answered_last(backup: StateBackup, answers: Seq<Answer>)
    requires
        is_backup_of(backup, answers),
    ensures
        forall|query: Query, i: int|
            #![trigger is_answer_to(answers[i], query)]
            0 <= i < answers.len() && is_answer_to(answers[i], query) && (forall|j: int|
                i < j < answers.len() ==> !is_answer_to(#[trigger] answers[j], query)) ==> says(
                backup,
                answers[i],
            ),
        exists|blank: StateBackup| #[trigger]
            is_blank(blank) && forall|query: Query|
                (forall|j: int|
                    0 <= j < answers.len() ==> !is_answer_to(#[trigger] answers[j], query))
                    ==> #[trigger] say_the_same(backup, blank, query),
{
    let blank = choose|blank: StateBackup| #[trigger]
        is_blank(blank) && backup == with_answers(blank, answers);
    assert forall|query: Query, i: int|
        #![trigger is_answer_to(answers[i], query)]
        0 <= i < answers.len() && is_answer_to(answers[i], query) && (forall|j: int|
            i < j < answers.len() ==> !is_answer_to(#[trigger] answers[j], query)) implies says(
        backup,
        answers[i],
    ) by {
        lemma_last_answer(blank, answers, query, i);
    }
    assert forall|query: Query|
        (forall|j: int| 0 <= j < answers.len() ==> !is_answer_to(#[trigger] answers[j], query))
        implies #[trigger] say_the_same(backup, blank, query) by {
        lemma_no_answer(blank, answers, query);
    }
}

/// Whether a call names these class instances: as many as are counted, in their order.
pub open spec fn names_instances(
    class_instances: Option<Seq<Option<u64>>>,
    instances: [Option<u64>; 256],
    count: u32,
) -> bool {
    &&& class_instances is Some
    &&& class_instances->Some_0.len() == count
    &&& forall|i: int| 0 <= i < count ==> #[trigger] class_instances->Some_0[i] == instances@[i]
}

/// Where the parts of a sequence of seven parts stand.
proof fn lemma_seven_parts<T>(
    a: Seq<T>,
    b: Seq<T>,
    c: Seq<T>,
    d: Seq<T>,
    e: Seq<T>,
    f: Seq<T>,
    g: Seq<T>,
)
    ensures
        ({
            let all = a + b + c + d + e + f + g;
            let at_c = (a.len() + b.len()) as int;
            let at_d = at_c + c.len();
            let at_e = at_d + d.len();
            let at_f = at_e + e.len();
            let at_g = at_f + f.len();
            &&& all.len() == at_g + g.len()
            &&& forall|i: int| 0 <= i < a.len() ==> #[trigger] all[i] == a[i]
            &&& b.len() > 0 ==> all[a.len() as int] == b[0]
            &&& c.len() > 0 ==> all[at_c] == c[0]
            &&& d.len() > 0 ==> all[at_d] == d[0]
            &&& e.len() > 0 ==> all[at_e] == e[0]
            &&& f.len() > 2 ==> all[at_f] == f[0] && all[at_f + 1] == f[1] && all[at_f + 2]
                == f[2]
            &&& g.len() > 0 ==> all[at_g] == g[0]
        }),
{
}

/// The calls that bring back the rectangles, the states and the resources, one by one.
proof fn lemma_state_calls(backup: StateBackup)
    ensures
        ({
            let calls = restore_states(backup);
            &&& calls.len() == 7
            &&& calls[0] is RsSetScissorRects
            &&& calls[0]->rects == backup.scissor_rects@
            &&& calls[1] is RsSetViewports
            &&& calls[1]->viewports == backup.viewports@
            &&& calls[2] is RsSetState
            &&& calls[2]->RsSetState_state == backup.rasterizer_state
            &&& calls[3] is OmSetBlendState
            &&& calls[3]->OmSetBlendState_state == backup.blend_state
            &&& calls[3]->factor == backup.blend_factor
            &&& calls[3]->sample_mask == u32::MAX
            &&& calls[4] is OmSetDepthStencilState
            &&& calls[4]->OmSetDepthStencilState_state == backup.depth_stencil_state
            &&& calls[4]->stencil_ref == backup.stencil_ref
            &&& calls[5] is PsSetShaderResources
            &&& calls[5]->PsSetShaderResources_slot == 0
            &&& calls[5]->views == backup.shader_resource@
            &&& calls[6] is PsSetSamplers
            &&& calls[6]->PsSetSamplers_slot == 0
            &&& calls[6]->samplers == backup.sampler@
        }),
{
}

/// Where the parts of the calls that bring a saved state back stand.
proof fn lemma_restore_parts(backup: StateBackup)
    ensures
        ({
            let calls = restore_commands(backup);
            let vs: int = if backup.ps_shader is Some {
                8
            } else {
                7
            };
            let constants: int = if backup.vs_shader is Some {
                vs + 1
            } else {
                vs
            };
            let topology: int = if backup.gs_shader is Some {
                constants + 2
            } else {
                constants + 1
            };
            &&& calls.len() == (if backup.input_layout is Some {
                topology + 4
            } else {
                topology + 3
            })
            &&& forall|i: int| 0 <= i < 7 ==> #[trigger] calls[i] == restore_states(backup)[i]
            &&& backup.ps_shader is Some ==> calls[7] == restore_ps(backup)
            &&& backup.vs_shader is Some ==> calls[vs] == restore_vs(backup)
            &&& calls[constants] == restore_constants(backup)
            &&& backup.gs_shader is Some ==> calls[constants + 1] == restore_gs(backup)
            &&& calls[topology] == restore_buffers(backup)[0]
            &&& calls[topology + 1] == restore_buffers(backup)[1]
            &&& calls[topology + 2] == restore_buffers(backup)[2]
            &&& backup.input_layout is Some ==> calls[topology + 3] == restore_layout(backup)
        }),
{
    lemma_state_calls(backup);
    lemma_seven_parts(
        restore_states(backup),
        if_some(backup.ps_shader, restore_ps(backup)),
        if_some(backup.vs_shader, restore_vs(backup)),
        seq![restore_constants(backup)],
        if_some(backup.gs_shader, restore_gs(backup)),
        restore_buffers(backup),
        if_some(backup.input_layout, restore_layout(backup)),
    );
}

/// Bringing a saved state back makes these calls and no others.
pub proof fn restoring_makes_these_calls(backup: StateBackup)
    requires
        is_restorable(backup),
    ensures
        ({
            let calls = restore_commands(backup);
            let vs: int = if backup.ps_shader is Some {
                8
            } else {
                7
            };
            let constants: int = if backup.vs_shader is Some {
                vs + 1
            } else {
                vs
            };
            let topology: int = if backup.gs_shader is Some {
                constants + 2
            } else {
                constants + 1
            };
            &&& calls.len() == (if backup.input_layout is Some {
                topology + 4
            } else {
                topology + 3
            })
            &&& calls[0] is RsSetScissorRects
            &&& calls[0]->rects == backup.scissor_rects@
            &&& calls[1] is RsSetViewports
            &&& calls[1]->viewports == backup.viewports@
            &&& calls[2] is RsSetState
            &&& calls[2]->RsSetState_state == backup.rasterizer_state
            &&& calls[3] is OmSetBlendState
            &&& calls[3]->OmSetBlendState_state == backup.blend_state
            &&& calls[3]->factor == backup.blend_factor
            &&& calls[3]->sample_mask == u32::MAX
            &&& calls[4] is OmSetDepthStencilState
            &&& calls[4]->OmSetDepthStencilState_state == backup.depth_stencil_state
            &&& calls[4]->stencil_ref == backup.stencil_ref
            &&& calls[5] is PsSetShaderResources
            &&& calls[5]->PsSetShaderResources_slot == 0
            &&& calls[5]->views == backup.shader_resource@
            &&& calls[6] is PsSetSamplers
            &&& calls[6]->PsSetSamplers_slot == 0
            &&& calls[6]->samplers == backup.sampler@
            &&& backup.ps_shader is Some ==> {
                &&& calls[7] is PsSetShader
                &&& calls[7]->PsSetShader_shader == backup.ps_shader
                &&& names_instances(
                    calls[7]->PsSetShader_class_instances,
                    backup.ps_instances,
                    backup.ps_instances_count,
                )
            }
            &&& backup.vs_shader is Some ==> {
                &&& calls[vs] is VsSetShader
                &&& calls[vs]->VsSetShader_shader == backup.vs_shader
                &&& names_instances(
                    calls[vs]->VsSetShader_class_instances,
                    backup.vs_instances,
                    backup.vs_instances_count,
                )
            }
            &&& calls[constants] is VsSetConstantBuffers
            &&& calls[constants]->VsSetConstantBuffers_slot == 0
            &&& calls[constants]->buffers == backup.constant_buffer@
            &&& backup.gs_shader is Some ==> {
                &&& calls[constants + 1] is GsSetShader
                &&& calls[constants + 1]->GsSetShader_shader == backup.gs_shader
                &&& names_instances(
                    calls[constants + 1]->GsSetShader_class_instances,
                    backup.gs_instances,
                    backup.gs_instances_count,
                )
            }
            &&& calls[topology] is IaSetPrimitiveTopology
            &&& calls[topology]->topology == D3D11_PRIMITIVE_TOPOLOGY_TRIANGLELIST
            &&& calls[topology + 1] is IaSetIndexBuffer
            &&& calls[topology + 1]->IaSetIndexBuffer_buffer == backup.index_buffer
            &&& calls[topology + 1]->format == backup.index_buffer_format
            &&& calls[topology + 1]->IaSetIndexBuffer_offset == backup.index_buffer_offset
            &&& calls[topology + 2] is IaSetVertexBuffers
            &&& calls[topology + 2]->IaSetVertexBuffers_slot == 0
            &&& calls[topology + 2]->IaSetVertexBuffers_buffer == backup.vertex_buffer
            &&& calls[topology + 2]->stride == backup.vertex_buffer_stride
            &&& calls[topology + 2]->IaSetVertexBuffers_offset == backup.vertex_buffer_offset
            &&& backup.input_layout is Some ==> {
                &&& calls[topology + 3] is IaSetInputLayout
                &&& calls[topology + 3]->layout == backup.input_layout
            }
        }),
{
    lemma_restore_parts(backup);
    lemma_state_calls(backup);
}

/// A backup can be brought back just where no shader that was saved has more than 256 class
/// instances.
pub proof fn few_instances_can_be_restored(backup: StateBackup)
    ensures
        is_restorable(backup) <==> {
            &&& backup.ps_shader is None || backup.ps_instances_count <= 256
            &&& backup.vs_shader is None || backup.vs_instances_count <= 256
            &&& backup.gs_shader is None || backup.gs_instances_count <= 256
        },
{
}

/// A blank backup holds no object, no items and no instances, and every number in it is zero.
pub proof fn a_blank_backup_holds_nothing(backup: StateBackup)
    requires
        is_blank(backup),
    ensures
        backup.scissor_rects_count == 0 && backup.viewports_count == 0,
        forall|i: int|
            0 <= i < 16 ==> {
                let rect = #[trigger] backup.scissor_rects@[i];
                rect.left == 0 && rect.top == 0 && rect.right == 0 && rect.bottom == 0
            },
        forall|i: int|
            0 <= i < 16 ==> {
                let viewport = #[trigger] backup.viewports@[i];
                &&& viewport.top_left_x == 0 && viewport.top_left_y == 0
                &&& viewport.width == 0 && viewport.height == 0
                &&& viewport.min_depth == 0 && viewport.max_depth == 0
            },
        backup.rasterizer_state is None && backup.blend_state is None,
        forall|i: int| 0 <= i < 4 ==> #[trigger] backup.blend_factor@[i] == 0,
        backup.sample_mask == 0 && backup.depth_stencil_state is None && backup.stencil_ref == 0,
        backup.shader_resource@.len() == 0 && backup.sampler@.len() == 0,
        backup.constant_buffer@.len() == 0,
        backup.ps_shader is None && backup.vs_shader is None && backup.gs_shader is None,
        backup.ps_instances_count == 0 && backup.vs_instances_count == 0,
        backup.gs_instances_count == 0,
        forall|i: int| 0 <= i < 256 ==> #[trigger] backup.ps_instances@[i] is None,
        forall|i: int| 0 <= i < 256 ==> #[trigger] backup.vs_instances@[i] is None,
        forall|i: int| 0 <= i < 256 ==> #[trigger] backup.gs_instances@[i] is None,
        backup.index_buffer is None && backup.index_buffer_offset == 0,
        backup.index_buffer_format == 0,
        backup.vertex_buffer is None && backup.vertex_buffer_offset == 0,
        backup.vertex_buffer_stride == 0 && backup.topology == 0,
        backup.input_layout is None,
{
}

} // verus!
