use imgui::{TextureId, Textures};
use imgui_dx11_renderer::d3d11::{Rect, DXGI_ERROR_INVALID_CALL};
use imgui_dx11_renderer::{
    DrawCmd, DrawCmdParams, DrawData, DrawList, Event, Frame, FrameStep, Projection, Renderer,
    Setup, SetupEvent, SetupStep, StateBackup,
};

fn renderer() -> Renderer {
    let mut setup = Setup::new(1);
    let mut event = SetupEvent::Begin;
    loop {
        event = match Renderer::new(&mut setup, "0.0.0", event) {
            SetupStep::Finish { result } => return result.unwrap(),
            SetupStep::BuildFontTexture => SetupEvent::FontTextureBuilt { width: 8, height: 8 },
            SetupStep::SetFontTextureId { .. } | SetupStep::Announce { .. } => SetupEvent::Done,
            _ => SetupEvent::Created { object: Ok(2) },
        };
    }
}

fn draw_with(r: &mut Renderer, texture_id: usize) -> Result<(), i32> {
    let d = DrawData {
        total_idx_count: 0,
        total_vtx_count: 0,
        display_size: [1.0f32.to_bits(); 2],
        projection: Projection { scale_x: 0, scale_y: 0, translate_x: 0, translate_y: 0 },
        draw_lists: vec![DrawList {
            commands: vec![DrawCmd::Elements {
                count: 3,
                cmd_params: DrawCmdParams {
                    clip_rect: Rect { left: 0, top: 0, right: 1, bottom: 1 },
                    texture_id,
                    vtx_offset: 0,
                    idx_offset: 0,
                },
            }],
            vtx_buffer: &[],
            idx_buffer: &[],
        }],
    };
    let mut frame = Frame::new();
    let mut event = Event::Begin;
    loop {
        event = match r.render(&d, &mut frame, event) {
            FrameStep::Finish { result } => return result,
            FrameStep::CreateBuffer { .. } => Event::Created { object: Ok(3) },
            FrameStep::Save { .. } => Event::Saved { backup: StateBackup::default() },
            FrameStep::MapBuffer { .. } => Event::Mapped { result: Ok(()) },
            _ => Event::Done,
        };
    }
}

#[test]
fn a_texture_stays_until_it_is_removed() {
    let mut r = renderer();
    let other = r.insert_texture(70);
    let id = r.insert_texture(71);
    assert_eq!((other, id), (0, 1));
    assert_eq!(draw_with(&mut r, id), Ok(()));
    assert_eq!(draw_with(&mut r, 9), Err(DXGI_ERROR_INVALID_CALL));
    assert_eq!(r.texture(id), Some(71));
    assert_eq!(r.textures().get(TextureId::from(id)), Some(&71));
    assert_eq!(r.remove_texture(id), Some(71));
    assert_eq!(r.remove_texture(id), None);
    assert_eq!(r.texture(id), None);
    assert_eq!(r.textures().get(TextureId::from(id)), None);
    assert_eq!(r.texture(other), Some(70));
    assert_eq!(draw_with(&mut r, id), Err(DXGI_ERROR_INVALID_CALL));
}

#[test]
fn an_id_is_not_given_again() {
    let mut r = renderer();
    let id = r.insert_texture(70);
    assert_eq!(r.remove_texture(id), Some(70));
    assert_eq!(draw_with(&mut r, id), Err(DXGI_ERROR_INVALID_CALL));
    assert_eq!(r.textures_mut().insert(71).id(), 1);
    assert_eq!(r.insert_texture(72), 2);
}

#[test]
fn the_registry_read_is_the_registry_written() {
    let mut r = renderer();
    assert_eq!(r.texture(0), None);
    let mut registry = Textures::new();
    registry.insert(80);
    registry.insert(81);
    registry.remove(TextureId::from(0));
    *r.textures_mut() = registry;
    assert_eq!(r.texture(0), None);
    assert_eq!(r.texture(1), Some(81));
    assert_eq!(r.insert_texture(82), 2);
}

#[test]
fn a_texture_inserted_takes_the_place_of_one_under_its_id() {
    let mut r = renderer();
    assert_eq!(r.textures_mut().replace(TextureId::from(0), 90), None);
    assert_eq!(r.texture(0), Some(90));
    assert_eq!(r.insert_texture(91), 0);
    assert_eq!(r.texture(0), Some(91));
}
