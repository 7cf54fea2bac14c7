# imgui-dx11-renderer

A DirectX 11 renderer for the draw data of [imgui](https://docs.rs/imgui/*/imgui/), with its logic
verified by Verus.

- `src/` is the verified library. It decides which objects are created, which calls are made on the
  device context and in which order, and how the vertices and indices lie in their buffers. It calls
  no device: creating a renderer and rendering a frame are step machines that take what the device
  answered and return the action that is next. Objects are handles of type `u64`, and floating-point
  numbers are carried by their bits.
- `app/` performs the actions on a real device, and holds the floating-point arithmetic on clip
  rectangles and on the projection matrix.
- `tests/` runs the library against a device that is played by the tests, and compares its constants
  with those of the `windows` crate.

Modules of the library:

| Module | Contents |
| --- | --- |
| `setup` | the creation of a renderer, and the descriptions of its objects |
| `renderer` | the renderer, the calls that set up the pipeline, and the calls that draw |
| `frame` | rendering a frame, from growing the buffers to bringing the saved state back |
| `frames` | what holds of whole frames and of frames that follow each other |
| `backup` | saving the state of the pipeline and bringing it back |
| `buffer`, `geometry` | the sizes of the two buffers, and what is written to them |
| `textures` | the texture registry of imgui |
| `steps` | lemmas on step functions |
| `draw_data`, `drawing` | the draw data, and what drawing them means |
| `command`, `pipeline` | the calls on the device context, and what they do to the pipeline |
| `d3d11`, `f32_bits` | constants and descriptions of Direct3D, and comparison of bits with zero |

What holds of the library as a whole stands in public proof functions, such as
`frame::a_frame_from_beginning_to_end`, `geometry::every_draw_reads_its_own_geometry` and
`pipeline::frame_leaves_the_pipeline`.
