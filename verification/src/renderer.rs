//! The renderer.

use imgui::Textures;
use vstd::prelude::*;

use crate::buffer::{index_size, truncate, vertex_size, Buffer, BufferView};
use crate::command::{append_commands, push_command, views, Command, ContextCall};
use crate::d3d11::{
    Viewport, D3D11_PRIMITIVE_TOPOLOGY_TRIANGLELIST, DXGI_ERROR_INVALID_CALL, DXGI_FORMAT_R16_UINT,
    DXGI_FORMAT_R32_UINT, F32_ONE, F32_ZERO, SAMPLE_MASK_ALL,
};
use crate::draw_data::{
    command_at, element_count, places, vertex_base, DrawCmd, DrawData, Place,
};
use crate::drawing::{
    all_drawable, bound_texture, command_calls, countable, draw_commands, drawable_count,
    drawn_places, is_drawable, is_texture, lemma_all_drawable, lemma_countable_elements,
    lemma_countable_vertices, lemma_drawable_count, lemma_drawing_stops, lemma_places_before,
    places_before,
};
use crate::textures::{
    entry, get_texture, insert_texture, new_textures, next_texture_id, remove_texture,
    texture_views,
};

verus! {

/// The texture id of the font texture
pub const FONT_TEX_ID: usize = usize::MAX;

/// The objects that a renderer keeps from its creation on
#[derive(Clone, Copy, Debug, PartialEq, Eq)]
pub struct DeviceObjects {
    pub device: u64,
    pub context: u64,
    pub vertex_shader: u64,
    pub pixel_shader: u64,
    pub input_layout: u64,
    pub constant_buffer: u64,
    pub blend_state: u64,
    pub rasterizer_state: u64,
    pub depth_stencil_state: u64,
    pub font_resource_view: u64,
    pub font_sampler: u64,
}

/// A DirectX 11 renderer for the draw data of `imgui`
#[derive(Debug)]
pub struct Renderer {
    objects: DeviceObjects,
    vertex_buffer: Buffer,
    index_buffer: Buffer,
    textures: Textures<u64>,
}

/// What a renderer is: its objects, its two buffers, and what the texture registry holds and which
/// id it gives next
pub struct RendererView {
    pub objects: DeviceObjects,
    pub vertex_buffer: BufferView,
    pub index_buffer: BufferView,
    pub textures: Map<usize, u64>,
    pub next_texture: usize,
}

impl View for Renderer {
    type V = RendererView;

    closed spec fn view(&self) -> RendererView {
        RendererView {
            objects: self.objects,
            vertex_buffer: self.vertex_buffer@,
            index_buffer: self.index_buffer@,
            textures: texture_views(self.textures),
            next_texture: next_texture_id(self.textures),
        }
    }
}

/// A renderer with a texture put under the id that is next.
pub open spec fn with_texture(renderer: RendererView, view: u64) -> RendererView {
    RendererView {
        textures: renderer.textures.insert(renderer.next_texture, view),
        next_texture: (renderer.next_texture + 1) as usize,
        ..renderer
    }
}

/// A renderer with no texture under the given id.
pub open spec fn without_texture(renderer: RendererView, id: usize) -> RendererView {
    RendererView { textures: renderer.textures.remove(id), ..renderer }
}

impl Renderer {
    /// The texture registry itself.
    pub closed spec fn registry(&self) -> Textures<u64> {
        self.textures
    }

    /// The registry holds the textures of the renderer, and gives its next id.
    pub proof fn the_registry_is_viewed(&self)
        ensures
            self@.textures == texture_views(self.registry()),
            self@.next_texture == next_texture_id(self.registry()),
    {
    }

    /// Makes a renderer of objects and buffers that were created, with an empty texture registry.
    pub(crate) fn assemble(
        objects: DeviceObjects,
        vertex_buffer: Buffer,
        index_buffer: Buffer,
    ) -> (renderer: Self)
        ensures
            renderer@ == (RendererView {
                objects,
                vertex_buffer: vertex_buffer@,
                index_buffer: index_buffer@,
                textures: crate::textures::no_views(),
                next_texture: 0,
            }),
    {
        Renderer { objects, vertex_buffer, index_buffer, textures: new_textures() }
    }

    /// The texture registry of this renderer.
    ///
    /// The texture slot of `FONT_TEX_ID` is reserved for the font texture, therefore the renderer
    /// ignores any texture inserted into that slot.
    pub fn textures_mut(&mut self) -> (textures: &mut Textures<u64>)
        ensures
            *textures == old(self).registry(),
            texture_views(*textures) == old(self)@.textures,
            next_texture_id(*textures) == old(self)@.next_texture,
            final(self).registry() == *final(textures),
            final(self)@ == (RendererView {
                textures: texture_views(*final(textures)),
                next_texture: next_texture_id(*final(textures)),
                ..old(self)@
            }),
    {
        &mut self.textures
    }

    /// The texture registry of this renderer.
    pub fn textures(&self) -> (textures: &Textures<u64>)
        ensures
            *textures == self.registry(),
            texture_views(*textures) == self@.textures,
            next_texture_id(*textures) == self@.next_texture,
    {
        &self.textures
    }

    /// Inserts a texture into the registry, and returns the number of its texture id.
    pub fn insert_texture(&mut self, view: u64) -> (id: usize)
        requires
            old(self)@.next_texture < usize::MAX,
        ensures
            id == old(self)@.next_texture,
            final(self)@ == with_texture(old(self)@, view),
    {
        insert_texture(&mut self.textures, view)
    }

    /// Removes a texture from the registry, and returns it if there is one under the given id.
    pub fn remove_texture(&mut self, id: usize) -> (view: Option<u64>)
        ensures
            view == entry(old(self)@.textures, id),
            final(self)@ == without_texture(old(self)@, id),
    {
        remove_texture(&mut self.textures, id)
    }

    /// The texture in the registry under the given id, if there is one.
    pub fn texture(&self, id: usize) -> (view: Option<u64>)
        ensures
            view == entry(self@.textures, id),
    {
        get_texture(&self.textures, id)
    }

    /// The objects that the renderer keeps from its creation on.
    pub(crate) fn objects(&self) -> (objects: DeviceObjects)
        ensures
            objects == self@.objects,
    {
        self.objects
    }

    /// The vertex buffer.
    pub(crate) fn vertex_buffer(&self) -> (buffer: &Buffer)
        ensures
            buffer@ == self@.vertex_buffer,
    {
        &self.vertex_buffer
    }

    /// The index buffer.
    pub(crate) fn index_buffer(&self) -> (buffer: &Buffer)
        ensures
            buffer@ == self@.index_buffer,
    {
        &self.index_buffer
    }

    /// Takes another vertex buffer into use.
    pub(crate) fn replace_vertex_buffer(&mut self, buffer: Buffer)
        ensures
            final(self)@ == (RendererView { vertex_buffer: buffer@, ..old(self)@ }),
            final(self).registry() == old(self).registry(),
    {
        self.vertex_buffer = buffer;
    }

    /// Takes another index buffer into use.
    pub(crate) fn replace_index_buffer(&mut self, buffer: Buffer)
        ensures
            final(self)@ == (RendererView { index_buffer: buffer@, ..old(self)@ }),
            final(self).registry() == old(self).registry(),
    {
        self.index_buffer = buffer;
    }

    /// The calls that set up the pipeline for drawing on a display of the size of the draw data.
    pub fn setup_render_state(&self, draw_data: &DrawData<'_>) -> (commands: Vec<Command>)
        ensures
            views(commands@) == crate::drawing::setup_commands(self@, draw_data.display_size),
            commands@[0] is RsSetViewports,
            commands@[0]->viewports@.len() == 1,
            commands@[0]->viewports@[0].width == draw_data.display_size@[0],
            commands@[0]->viewports@[0].height == draw_data.display_size@[1],
    {
        let objects: DeviceObjects = self.objects;
        let viewport = Viewport {
            top_left_x: F32_ZERO,
            top_left_y: F32_ZERO,
            width: draw_data.display_size[0],
            height: draw_data.display_size[1],
            min_depth: F32_ZERO,
            max_depth: F32_ONE,
        };
        let format: i32 = if index_size() == 2 {
            DXGI_FORMAT_R16_UINT
        } else {
            DXGI_FORMAT_R32_UINT
        };
        let stride: u32 = vertex_size() as u32;
        let viewports = vec![viewport];
        let constant_buffers = vec![Some(objects.constant_buffer)];
        let samplers = vec![Some(objects.font_sampler)];
        let commands = vec![
            ContextCall::RsSetViewports { viewports },
            ContextCall::IaSetInputLayout { layout: Some(objects.input_layout) },
            ContextCall::IaSetVertexBuffers {
                slot: 0,
                buffer: Some(self.vertex_buffer.get_buf()),
                stride,
                offset: 0,
            },
            ContextCall::IaSetIndexBuffer {
                buffer: Some(self.index_buffer.get_buf()),
                format,
                offset: 0,
            },
            ContextCall::IaSetPrimitiveTopology {
                topology: D3D11_PRIMITIVE_TOPOLOGY_TRIANGLELIST,
            },
            ContextCall::VsSetShader {
                shader: Some(objects.vertex_shader),
                class_instances: None,
            },
            ContextCall::VsSetConstantBuffers { slot: 0, buffers: constant_buffers },
            ContextCall::PsSetShader {
                shader: Some(objects.pixel_shader),
                class_instances: None,
            },
            ContextCall::PsSetSamplers { slot: 0, samplers },
            ContextCall::GsSetShader { shader: None, class_instances: None },
            ContextCall::HsSetShader { shader: None },
            ContextCall::DsSetShader { shader: None },
            ContextCall::CsSetShader { shader: None },
            ContextCall::OmSetBlendState {
                state: Some(objects.blend_state),
                factor: [F32_ZERO, F32_ZERO, F32_ZERO, F32_ZERO],
                sample_mask: SAMPLE_MASK_ALL,
            },
            ContextCall::OmSetDepthStencilState {
                state: Some(objects.depth_stencil_state),
                stencil_ref: 0,
            },
            ContextCall::RsSetState { state: Some(objects.rasterizer_state) },
        ];
        proof {
            assert(viewports@ =~= seq![crate::drawing::display_viewport(draw_data.display_size)]);
            assert(constant_buffers@ =~= seq![Some(objects.constant_buffer)]);
            assert(samplers@ =~= seq![Some(objects.font_sampler)]);
            assert(views(commands@) =~= crate::drawing::setup_commands(
                self@,
                draw_data.display_size,
            ));
        }
        commands
    }

    /// Whether drawing the given data counts in machine numbers.
    pub fn can_draw(&self, draw_data: &DrawData<'_>) -> (result: bool)
        ensures
            result == countable(self@, draw_data.draw_lists@),
    {
        let lists = &draw_data.draw_lists;
        let ghost all = places(lists@);
        let mut vertex_offset: usize = 0;
        let mut index_offset: usize = 0;
        let mut l: usize = 0;
        proof {
            assert(lists@.take(0) =~= Seq::empty());
            assert(all.take(0) =~= places(lists@.take(0)));
        }
        while l < lists.len()
            invariant
                lists == &draw_data.draw_lists,
                all == places(lists@),
                l <= lists@.len(),
                vertex_offset == vertex_base(lists@, l as int),
                ({
                    let done = places(lists@.take(l as int));
                    &&& done.len() <= all.len()
                    &&& done == all.take(done.len() as int)
                    &&& done.len() <= drawable_count(self@, lists@, all)
                    &&& index_offset == element_count(lists@, done)
                }),
            decreases lists@.len() - l,
        {
            let draw_list = &lists[l];
            let mut c: usize = 0;
            assert(places_before(lists@, l as int, 0) =~= places(lists@.take(l as int)));
            while c < draw_list.commands.len()
                invariant
                    lists == &draw_data.draw_lists,
                    all == places(lists@),
                    l < lists@.len(),
                    draw_list == &lists@[l as int],
                    c <= draw_list.commands@.len(),
                    vertex_offset == vertex_base(lists@, l as int),
                    ({
                        let done = places_before(lists@, l as int, c as nat);
                        &&& done.len() <= drawable_count(self@, lists@, all)
                        &&& index_offset == element_count(lists@, done)
                    }),
                decreases draw_list.commands@.len() - c,
            {
                let ghost done = places_before(lists@, l as int, c as nat);
                let ghost next = places_before(lists@, l as int, (c + 1) as nat);
                let ghost place: Place = (l as int, c as int);
                proof {
                    lemma_places_before(lists@, l as int, c as nat);
                    lemma_places_before(lists@, l as int, (c + 1) as nat);
                    assert(next.drop_last() =~= done);
                    assert(next.last() == place);
                    assert(all[done.len() as int] == place);
                    lemma_drawable_count(self@, lists@, all);
                    if is_drawable(self@, command_at(lists@, place)) {
                        lemma_countable_elements(self@, lists@, next);
                    } else {
                        lemma_drawing_stops(self@, lists@, done, place);
                    }
                }
                match draw_list.commands[c] {
                    DrawCmd::Elements { count, cmd_params } => {
                        let texture_id: usize = cmd_params.texture_id;
                        if texture_id != FONT_TEX_ID && get_texture(
                            &self.textures,
                            texture_id,
                        ).is_none() {
                            return true;
                        }
                        match index_offset.checked_add(count) {
                            Some(sum) => {
                                index_offset = sum;
                            },
                            None => {
                                return false;
                            },
                        }
                    },
                    _ => {},
                }
                c += 1;
            }
            proof {
                lemma_places_before(lists@, l as int, c as nat);
                assert(lists@.take(l + 1).drop_last() =~= lists@.take(l as int));
                assert(places(lists@.take(l + 1)) =~= places_before(lists@, l as int, c as nat));
                lemma_countable_vertices(self@, lists@, l + 1);
            }
            match vertex_offset.checked_add(draw_list.vtx_buffer.len()) {
                Some(sum) => {
                    vertex_offset = sum;
                },
                None => {
                    return false;
                },
            }
            l += 1;
        }
        proof {
            assert(lists@.take(l as int) =~= lists@);
            lemma_drawable_count(self@, lists@, all);
            assert(all.take(all.len() as int) =~= all);
        }
        true
    }

    /// The calls that bind the font texture and carry out the draw commands of a frame.
    ///
    /// A command that draws with a texture that does not exist stops the drawing: the calls end
    /// before it, and the result is the error `DXGI_ERROR_INVALID_CALL`.
    pub fn render_impl(&self, draw_data: &DrawData<'_>) -> (drawn: (
        Vec<Command>,
        Result<(), i32>,
    ))
        requires
            countable(self@, draw_data.draw_lists@),
        ensures
            views(drawn.0@) == draw_commands(
                self@,
                draw_data.display_size,
                draw_data.draw_lists@,
                drawn_places(self@, draw_data.draw_lists@),
            ),
            drawn.1 == (if all_drawable(self@, draw_data.draw_lists@) {
                Ok::<(), i32>(())
            } else {
                Err::<(), i32>(DXGI_ERROR_INVALID_CALL)
            }),
    {
        let lists = &draw_data.draw_lists;
        let ghost all = places(lists@);
        let ghost size = draw_data.display_size;
        let mut commands: Vec<Command> = Vec::new();
        let mut vertex_offset: usize = 0;
        let mut index_offset: usize = 0;
        let mut last_tex: usize = FONT_TEX_ID;
        let font_views = vec![Some(self.objects.font_resource_view)];
        push_command(
            &mut commands,
            ContextCall::PsSetShaderResources { slot: 0, views: font_views },
        );
        proof {
            lemma_all_drawable(self@, lists@);
            assert(font_views@ =~= seq![Some(self.objects.font_resource_view)]);
            assert(all.take(0) =~= places(lists@.take(0)));
            assert(views(commands@) =~= draw_commands(self@, size, lists@, all.take(0)));
        }
        let mut l: usize = 0;
        while l < lists.len()
            invariant
                lists == &draw_data.draw_lists,
                all == places(lists@),
                size == draw_data.display_size,
                countable(self@, lists@),
                all_drawable(self@, lists@) <==> drawable_count(self@, lists@, all) == all.len(),
                l <= lists@.len(),
                vertex_offset == vertex_base(lists@, l as int),
                ({
                    let done = places(lists@.take(l as int));
                    &&& done.len() <= all.len()
                    &&& done == all.take(done.len() as int)
                    &&& done.len() <= drawable_count(self@, lists@, all)
                    &&& views(commands@) == draw_commands(self@, size, lists@, done)
                    &&& index_offset == element_count(lists@, done)
                    &&& last_tex == bound_texture(lists@, done)
                    &&& is_texture(self@, last_tex)
                }),
            decreases lists@.len() - l,
        {
            let draw_list = &lists[l];
            let mut c: usize = 0;
            assert(places_before(lists@, l as int, 0) =~= places(lists@.take(l as int)));
            while c < draw_list.commands.len()
                invariant
                    lists == &draw_data.draw_lists,
                    all == places(lists@),
                    size == draw_data.display_size,
                    countable(self@, lists@),
                    all_drawable(self@, lists@) <==> drawable_count(self@, lists@, all)
                        == all.len(),
                    l < lists@.len(),
                    draw_list == &lists@[l as int],
                    c <= draw_list.commands@.len(),
                    vertex_offset == vertex_base(lists@, l as int),
                    ({
                        let done = places_before(lists@, l as int, c as nat);
                        &&& done.len() <= drawable_count(self@, lists@, all)
                        &&& views(commands@) == draw_commands(self@, size, lists@, done)
                        &&& index_offset == element_count(lists@, done)
                        &&& last_tex == bound_texture(lists@, done)
                        &&& is_texture(self@, last_tex)
                    }),
                decreases draw_list.commands@.len() - c,
            {
                let ghost done = places_before(lists@, l as int, c as nat);
                let ghost next = places_before(lists@, l as int, (c + 1) as nat);
                let ghost place: Place = (l as int, c as int);
                let ghost issued = views(commands@);
                proof {
                    lemma_places_before(lists@, l as int, c as nat);
                    lemma_places_before(lists@, l as int, (c + 1) as nat);
                    assert(next.drop_last() =~= done);
                    assert(next.last() == place);
                    assert(all[done.len() as int] == place);
                    lemma_drawable_count(self@, lists@, all);
                    if is_drawable(self@, command_at(lists@, place)) {
                        lemma_countable_elements(self@, lists@, next);
                    }
                }
                match draw_list.commands[c] {
                    DrawCmd::Elements { count, cmd_params } => {
                        let texture_id: usize = cmd_params.texture_id;
                        if texture_id != last_tex {
                            let view: u64 = if texture_id == FONT_TEX_ID {
                                self.objects.font_resource_view
                            } else {
                                match get_texture(&self.textures, texture_id) {
                                    Some(view) => view,
                                    None => {
                                        return (commands, Err(DXGI_ERROR_INVALID_CALL));
                                    },
                                }
                            };
                            let bound = vec![Some(view)];
                            assert(bound@ =~= seq![Some(view)]);
                            push_command(
                                &mut commands,
                                ContextCall::PsSetShaderResources { slot: 0, views: bound },
                            );
                            last_tex = texture_id;
                        }
                        let rects = vec![cmd_params.clip_rect];
                        assert(rects@ =~= seq![cmd_params.clip_rect]);
                        push_command(&mut commands, ContextCall::RsSetScissorRects { rects });
                        push_command(
                            &mut commands,
                            ContextCall::DrawIndexed {
                                index_count: truncate(count),
                                start_index: truncate(index_offset),
                                base_vertex: vertex_offset as i32,
                            },
                        );
                        index_offset += count;
                    },
                    DrawCmd::ResetRenderState => {
                        append_commands(&mut commands, self.setup_render_state(draw_data));
                    },
                    DrawCmd::RawCallback => {
                        push_command(
                            &mut commands,
                            ContextCall::RawCallback { list: l, command: c },
                        );
                    },
                }
                c += 1;
                assert(views(commands@) =~= issued + command_calls(
                    self@,
                    size,
                    lists@,
                    done,
                    place,
                ));
            }
            proof {
                lemma_places_before(lists@, l as int, c as nat);
                assert(lists@.take(l + 1).drop_last() =~= lists@.take(l as int));
                assert(places(lists@.take(l + 1)) =~= places_before(lists@, l as int, c as nat));
                lemma_countable_vertices(self@, lists@, l + 1);
            }
            vertex_offset += draw_list.vtx_buffer.len();
            l += 1;
        }
        proof {
            assert(lists@.take(l as int) =~= lists@);
            lemma_drawable_count(self@, lists@, all);
            assert(all.take(all.len() as int) =~= all);
        }
        (commands, Ok(()))
    }
}

} // verus!
