//! The calls on the device context that the renderer makes.

use vstd::prelude::*;

use crate::d3d11::{Rect, Viewport};

verus! {

/// One call on the device context, over the types of its lists: `R` of rectangles, `V` of
/// viewports, and `O` of objects that may be absent.
///
/// An object is named by its handle. Where a call takes a null pointer, the handle is absent.
#[derive(Debug, PartialEq, Eq)]
pub enum ContextCall<R, V, O> {
    RsSetViewports { viewports: V },
    RsSetScissorRects { rects: R },
    RsSetState { state: Option<u64> },
    IaSetInputLayout { layout: Option<u64> },
    /// Binds one vertex buffer.
    IaSetVertexBuffers { slot: u32, buffer: Option<u64>, stride: u32, offset: u32 },
    IaSetIndexBuffer { buffer: Option<u64>, format: i32, offset: u32 },
    IaSetPrimitiveTopology { topology: i32 },
    VsSetShader { shader: Option<u64>, class_instances: Option<O> },
    VsSetConstantBuffers { slot: u32, buffers: O },
    PsSetShader { shader: Option<u64>, class_instances: Option<O> },
    PsSetShaderResources { slot: u32, views: O },
    PsSetSamplers { slot: u32, samplers: O },
    GsSetShader { shader: Option<u64>, class_instances: Option<O> },
    HsSetShader { shader: Option<u64> },
    DsSetShader { shader: Option<u64> },
    CsSetShader { shader: Option<u64> },
    OmSetBlendState { state: Option<u64>, factor: [u32; 4], sample_mask: u32 },
    OmSetDepthStencilState { state: Option<u64>, stencil_ref: u32 },
    DrawIndexed { index_count: u32, start_index: u32, base_vertex: i32 },
    Unmap { resource: u64 },
    /// Runs the callback of a draw command, given by the positions of its draw list and of the
    /// command in that list.
    RawCallback { list: usize, command: usize },
}

/// A call as the renderer hands it out
pub type Command = ContextCall<Vec<Rect>, Vec<Viewport>, Vec<Option<u64>>>;

/// A call as contracts speak of it
pub type CommandView = ContextCall<Seq<Rect>, Seq<Viewport>, Seq<Option<u64>>>;

impl View for ContextCall<Vec<Rect>, Vec<Viewport>, Vec<Option<u64>>> {
    type V = CommandView;

    open spec fn view(&self) -> CommandView {
        match *self {
            ContextCall::RsSetViewports { viewports } => ContextCall::RsSetViewports {
                viewports: viewports@,
            },
            ContextCall::RsSetScissorRects { rects } => ContextCall::RsSetScissorRects {
                rects: rects@,
            },
            ContextCall::RsSetState { state } => ContextCall::RsSetState { state },
            ContextCall::IaSetInputLayout { layout } => ContextCall::IaSetInputLayout { layout },
            ContextCall::IaSetVertexBuffers {
                slot,
                buffer,
                stride,
                offset,
            } => ContextCall::IaSetVertexBuffers { slot, buffer, stride, offset },
            ContextCall::IaSetIndexBuffer {
                buffer,
                format,
                offset,
            } => ContextCall::IaSetIndexBuffer { buffer, format, offset },
            ContextCall::IaSetPrimitiveTopology { topology } => {
                ContextCall::IaSetPrimitiveTopology { topology }
            },
            ContextCall::VsSetShader { shader, class_instances } => ContextCall::VsSetShader {
                shader,
                class_instances: optional_list(class_instances),
            },
            ContextCall::VsSetConstantBuffers { slot, buffers } => {
                ContextCall::VsSetConstantBuffers { slot, buffers: buffers@ }
            },
            ContextCall::PsSetShader { shader, class_instances } => ContextCall::PsSetShader {
                shader,
                class_instances: optional_list(class_instances),
            },
            ContextCall::PsSetShaderResources { slot, views } => {
                ContextCall::PsSetShaderResources { slot, views: views@ }
            },
            ContextCall::PsSetSamplers { slot, samplers } => ContextCall::PsSetSamplers {
                slot,
                samplers: samplers@,
            },
            ContextCall::GsSetShader { shader, class_instances } => ContextCall::GsSetShader {
                shader,
                class_instances: optional_list(class_instances),
            },
            ContextCall::HsSetShader { shader } => ContextCall::HsSetShader { shader },
            ContextCall::DsSetShader { shader } => ContextCall::DsSetShader { shader },
            ContextCall::CsSetShader { shader } => ContextCall::CsSetShader { shader },
            ContextCall::OmSetBlendState {
                state,
                factor,
                sample_mask,
            } => ContextCall::OmSetBlendState { state, factor, sample_mask },
            ContextCall::OmSetDepthStencilState { state, stencil_ref } => {
                ContextCall::OmSetDepthStencilState { state, stencil_ref }
            },
            ContextCall::DrawIndexed {
                index_count,
                start_index,
                base_vertex,
            } => ContextCall::DrawIndexed { index_count, start_index, base_vertex },
            ContextCall::Unmap { resource } => ContextCall::Unmap { resource },
            ContextCall::RawCallback { list, command } => ContextCall::RawCallback {
                list,
                command,
            },
        }
    }
}

/// The contents of a list that may be absent.
pub open spec fn optional_list(list: Option<Vec<Option<u64>>>) -> Option<Seq<Option<u64>>> {
    match list {
        Some(items) => Some(items@),
        None => None,
    }
}

/// The contents of each of a sequence of calls.
pub open spec fn views(commands: Seq<Command>) -> Seq<CommandView> {
    Seq::new(commands.len(), |i: int| commands[i]@)
}

/// A call is seen as it is: contracts speak of the same call, with the contents of its lists.
pub proof fn a_call_is_seen_as_it_is(command: Command)
    ensures
        command matches ContextCall::RsSetViewports { viewports } ==> command@
            is RsSetViewports && command@->viewports == viewports@,
        command matches ContextCall::RsSetScissorRects { rects } ==> command@
            is RsSetScissorRects && command@->rects == rects@,
        command matches ContextCall::RsSetState { state } ==> command@ is RsSetState
            && command@->RsSetState_state == state,
        command matches ContextCall::IaSetInputLayout { layout } ==> command@
            is IaSetInputLayout && command@->layout == layout,
        command matches ContextCall::IaSetVertexBuffers { slot, buffer, stride, offset } ==> {
            &&& command@ is IaSetVertexBuffers
            &&& command@->IaSetVertexBuffers_slot == slot
            &&& command@->IaSetVertexBuffers_buffer == buffer
            &&& command@->stride == stride
            &&& command@->IaSetVertexBuffers_offset == offset
        },
        command matches ContextCall::IaSetIndexBuffer { buffer, format, offset } ==> {
            &&& command@ is IaSetIndexBuffer
            &&& command@->IaSetIndexBuffer_buffer == buffer
            &&& command@->format == format
            &&& command@->IaSetIndexBuffer_offset == offset
        },
        command matches ContextCall::IaSetPrimitiveTopology { topology } ==> command@
            is IaSetPrimitiveTopology && command@->topology == topology,
        command matches ContextCall::VsSetShader { shader, class_instances } ==> {
            &&& command@ is VsSetShader
            &&& command@->VsSetShader_shader == shader
            &&& is_optional_list(command@->VsSetShader_class_instances, class_instances)
        },
        command matches ContextCall::PsSetShader { shader, class_instances } ==> {
            &&& command@ is PsSetShader
            &&& command@->PsSetShader_shader == shader
            &&& is_optional_list(command@->PsSetShader_class_instances, class_instances)
        },
        command matches ContextCall::GsSetShader { shader, class_instances } ==> {
            &&& command@ is GsSetShader
            &&& command@->GsSetShader_shader == shader
            &&& is_optional_list(command@->GsSetShader_class_instances, class_instances)
        },
        command matches ContextCall::VsSetConstantBuffers { slot, buffers } ==> {
            &&& command@ is VsSetConstantBuffers
            &&& command@->VsSetConstantBuffers_slot == slot
            &&& command@->buffers == buffers@
        },
        command matches ContextCall::PsSetShaderResources { slot, views } ==> {
            &&& command@ is PsSetShaderResources
            &&& command@->PsSetShaderResources_slot == slot
            &&& command@->views == views@
        },
        command matches ContextCall::PsSetSamplers { slot, samplers } ==> {
            &&& command@ is PsSetSamplers
            &&& command@->PsSetSamplers_slot == slot
            &&& command@->samplers == samplers@
        },
        command matches ContextCall::HsSetShader { shader } ==> command@ is HsSetShader
            && command@->HsSetShader_shader == shader,
        command matches ContextCall::DsSetShader { shader } ==> command@ is DsSetShader
            && command@->DsSetShader_shader == shader,
        command matches ContextCall::CsSetShader { shader } ==> command@ is CsSetShader
            && command@->CsSetShader_shader == shader,
        command matches ContextCall::OmSetBlendState { state, factor, sample_mask } ==> {
            &&& command@ is OmSetBlendState
            &&& command@->OmSetBlendState_state == state
            &&& command@->factor == factor
            &&& command@->sample_mask == sample_mask
        },
        command matches ContextCall::OmSetDepthStencilState { state, stencil_ref } ==> {
            &&& command@ is OmSetDepthStencilState
            &&& command@->OmSetDepthStencilState_state == state
            &&& command@->stencil_ref == stencil_ref
        },
        command matches ContextCall::DrawIndexed { index_count, start_index, base_vertex } ==> {
            &&& command@ is DrawIndexed
            &&& command@->index_count == index_count
            &&& command@->start_index == start_index
            &&& command@->base_vertex == base_vertex
        },
        command matches ContextCall::Unmap { resource } ==> command@ is Unmap
            && command@->resource == resource,
        command matches ContextCall::RawCallback { list, command: c } ==> {
            &&& command@ is RawCallback
            &&& command@->list == list
            &&& command@->command == c
        },
{
}

/// Whether a list that may be absent is the contents of another.
pub open spec fn is_optional_list(
    seen: Option<Seq<Option<u64>>>,
    list: Option<Vec<Option<u64>>>,
) -> bool {
    &&& seen is Some <==> list is Some
    &&& list matches Some(items) ==> seen->Some_0 == items@
}

/// A list of calls is seen call by call.
pub proof fn calls_are_seen_one_by_one(commands: Seq<Command>)
    ensures
        views(commands).len() == commands.len(),
        forall|i: int| 0 <= i < commands.len() ==> #[trigger] views(commands)[i] == commands[i]@,
{
}

/// Adds a call to the end of a list.
pub(crate) fn push_command(commands: &mut Vec<Command>, command: Command)
    ensures
        views(final(commands)@) == views(old(commands)@).push(command@),
        final(commands)@ == old(commands)@.push(command),
{
    commands.push(command);
    assert(views(commands@) =~= views(old(commands)@).push(command@));
}

/// Moves the calls of one list to the end of another.
pub(crate) fn append_commands(commands: &mut Vec<Command>, more: Vec<Command>)
    ensures
        views(final(commands)@) == views(old(commands)@) + views(more@),
{
    let mut tail = more;
    commands.append(&mut tail);
    assert(views(commands@) =~= views(old(commands)@) + views(more@));
}

} // verus!
