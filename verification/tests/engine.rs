use fg_engine::LoadError;
use fg_engine::frame::{handle_events, frame_interval_ns, FrameEvent, InputEvent, Key};
use fg_engine::game_window::{
    create_default, DisplayMode, FullscreenMode, GameWindow, MouseSnapshot, MAX_DELTA_NS,
};
use fg_engine::model::{FGModel, SubMeshData, TextureKind};
use fg_engine::renderer::Renderer;
use fg_engine::textures::{loadTexture, PixelFormat, WrapMode, MinFilter, MagFilter};

fn display() -> DisplayMode {
    DisplayMode { width: 1920, height: 1080, refresh_rate: 60 }
}

fn window() -> GameWindow {
    create_default("game", 720, 480, display())
}

fn no_mouse() -> MouseSnapshot {
    MouseSnapshot { x: 0, y: 0, left: false, middle: false, right: false }
}

#[test]
fn delta_time_below_clamp_is_exact() {
    assert_eq!(GameWindow::calculate_delta_time(1_000_000, 400_000), 600_000);
    assert_eq!(GameWindow::calculate_delta_time(5, 5), 0);
    assert_eq!(GameWindow::calculate_delta_time(MAX_DELTA_NS, 0), MAX_DELTA_NS);
}

#[test]
fn delta_time_is_clamped_after_stall() {
    assert_eq!(GameWindow::calculate_delta_time(3_000_000_000, 0), MAX_DELTA_NS);
    assert_eq!(GameWindow::calculate_delta_time(u64::MAX, 1), MAX_DELTA_NS);
}

#[test]
fn toggle_grabbed_keeps_flags_equal() {
    let mut w = window();
    assert!(!w.get_mouse_grabbed());
    assert!(!w.relative_mouse_mode());
    w.toggle_grabbed();
    assert!(w.get_mouse_grabbed());
    assert!(w.relative_mouse_mode());
    w.toggle_grabbed();
    assert!(!w.get_mouse_grabbed());
    assert!(!w.relative_mouse_mode());
    // From a desynchronised state both flags still end up equal.
    let mut w2 = window();
    w2.set_relative_mouse_mode(true);
    w2.toggle_grabbed();
    assert_eq!(w2.get_mouse_grabbed(), w2.relative_mouse_mode());
}

#[test]
fn disabling_fullscreen_always_lands_windowed() {
    let mut w = window();
    w.set_fullscreen(false, FullscreenMode::Exclusive);
    assert!(!w.is_fullscreen());
    w.set_fullscreen(true, FullscreenMode::Borderless);
    assert!(w.is_fullscreen());
    w.set_fullscreen(false, FullscreenMode::Borderless);
    assert!(!w.is_fullscreen());
    // Asking for fullscreen in mode Off also lands windowed.
    w.set_fullscreen(true, FullscreenMode::Off);
    assert!(!w.is_fullscreen());
}

#[test]
fn fullscreen_round_trip_restores_windowed_size() {
    let mut w = window();
    assert_eq!(w.get_width_and_height(), (720, 480));
    w.set_fullscreen(true, FullscreenMode::Exclusive);
    assert_eq!(w.get_width_and_height(), (1920, 1080));
    assert!(w.is_fullscreen());
    w.set_fullscreen(false, FullscreenMode::Exclusive);
    assert_eq!(w.get_width_and_height(), (720, 480));
    assert!(!w.is_fullscreen());
}

#[test]
fn create_default_centers_window() {
    let mut w = window();
    assert_eq!(w.get_position(), ((1920 - 720) / 2, (1080 - 480) / 2));
    assert_eq!(w.get_current_display_mode(), display());
    assert!(!w.is_fullscreen());
}

#[test]
fn mouse_setters_are_independent() {
    let mut w = window();
    w.set_mouse_grabbed(true);
    assert!(w.get_mouse_grabbed());
    assert!(!w.relative_mouse_mode());
    w.set_relative_mouse_mode(true);
    w.set_mouse_grabbed(false);
    assert!(w.relative_mouse_mode());
    assert!(!w.get_mouse_grabbed());
    w.capture_mouse(true);
    w.capture_mouse(false);
}

#[test]
fn new_frame_feeds_overlay_clock() {
    let mut w = window();
    let m = MouseSnapshot { x: 7, y: 9, left: true, middle: false, right: false };
    w.new_frame(16_000_000, &m);
}

#[test]
fn quit_event_stops_the_loop() {
    let mut w = window();
    let mut r = Renderer::create_renderer(1, 720, 480);
    let events = vec![FrameEvent { claimed_by_overlay: false, event: InputEvent::Quit }];
    assert!(!handle_events(&events, &mut w, &mut r));
}

#[test]
fn escape_key_stops_the_loop() {
    let mut w = window();
    let mut r = Renderer::create_renderer(1, 720, 480);
    let events = vec![
        FrameEvent { claimed_by_overlay: false, event: InputEvent::KeyDown(Key::O) },
        FrameEvent { claimed_by_overlay: false, event: InputEvent::KeyDown(Key::Escape) },
    ];
    assert!(!handle_events(&events, &mut w, &mut r));
}

#[test]
fn overlay_claimed_events_are_ignored() {
    let mut w = window();
    let mut r = Renderer::create_renderer(1, 720, 480);
    let events = vec![
        FrameEvent { claimed_by_overlay: true, event: InputEvent::Quit },
        FrameEvent { claimed_by_overlay: true, event: InputEvent::KeyDown(Key::F) },
    ];
    assert!(handle_events(&events, &mut w, &mut r));
    assert!(!w.is_fullscreen());
    assert_eq!(r.viewport(), (720, 480));
}

#[test]
fn fullscreen_key_resizes_viewport() {
    let mut w = window();
    let mut r = Renderer::create_renderer(1, 720, 480);
    let events = vec![FrameEvent { claimed_by_overlay: false, event: InputEvent::KeyDown(Key::F) }];
    assert!(handle_events(&events, &mut w, &mut r));
    assert!(w.is_fullscreen());
    assert_eq!(w.get_width_and_height(), (1920, 1080));
    assert_eq!(r.viewport(), (1920, 1080));
    // A second press toggles back and the viewport follows.
    assert!(handle_events(&events, &mut w, &mut r));
    assert!(!w.is_fullscreen());
    assert_eq!(r.viewport(), (720, 480));
}

#[test]
fn events_after_a_stop_are_left_alone() {
    let mut w = window();
    let mut r = Renderer::create_renderer(1, 720, 480);
    let events = vec![
        FrameEvent { claimed_by_overlay: false, event: InputEvent::Quit },
        FrameEvent { claimed_by_overlay: false, event: InputEvent::KeyDown(Key::F) },
    ];
    assert!(!handle_events(&events, &mut w, &mut r));
    assert!(!w.is_fullscreen());
    assert_eq!(r.viewport(), (720, 480));
}

#[test]
fn frame_interval_matches_target_rate() {
    assert_eq!(frame_interval_ns(60), 16_666_666);
    assert_eq!(frame_interval_ns(1), 1_000_000_000);
}

fn quad_submesh() -> SubMeshData {
    let positions: Vec<f32> = vec![
        0.0, 0.0, 0.0, 1.0, 0.0, 0.0, 1.0, 1.0, 0.0, 0.0, 1.0, 0.0,
    ];
    let normals: Vec<f32> = vec![
        0.0, 0.0, 1.0, 0.0, 0.0, 1.0, 0.0, 0.0, 1.0, 0.0, 0.0, 1.0,
    ];
    let texcoords: Vec<f32> = vec![0.0, 0.0, 1.0, 0.0, 1.0, 1.0, 0.0, 1.0];
    SubMeshData {
        name: "quad".to_string(),
        positions: positions.iter().map(|c| c.to_bits()).collect(),
        normals: normals.iter().map(|c| c.to_bits()).collect(),
        texcoords: texcoords.iter().map(|c| c.to_bits()).collect(),
        indices: vec![0, 1, 2, 0, 2, 3],
        material_id: None,
    }
}

#[test]
fn load_model_deinterleaves_vertices() {
    let mut m = FGModel::default();
    let subs = vec![quad_submesh()];
    assert!(m.load_model(&subs).is_ok());
    assert_eq!(m.meshes.len(), 1);
    let mesh = &m.meshes[0];
    assert_eq!(mesh.vertices.len(), 4);
    assert_eq!(mesh.indices, vec![0, 1, 2, 0, 2, 3]);
    let v1 = &mesh.vertices[1];
    assert_eq!(v1.px, 1.0f32.to_bits());
    assert_eq!(v1.py, 0.0f32.to_bits());
    assert_eq!(v1.pz, 0.0f32.to_bits());
    assert_eq!(v1.nz, 1.0f32.to_bits());
    assert_eq!(v1.tu, 1.0f32.to_bits());
    assert_eq!(v1.tv, 0.0f32.to_bits());
}

#[test]
fn load_model_rejects_truncated_positions() {
    let mut m = FGModel::default();
    let mut bad = quad_submesh();
    bad.positions.pop();
    let subs = vec![bad];
    assert_eq!(m.load_model(&subs), Err(LoadError::InconsistentVertexData));
    assert_eq!(m.meshes.len(), 0);
}

#[test]
fn load_model_rejects_texcoord_count_mismatch() {
    let mut m = FGModel::default();
    let mut bad = quad_submesh();
    bad.texcoords.pop();
    bad.texcoords.pop();
    let subs = vec![bad];
    assert_eq!(m.load_model(&subs), Err(LoadError::InconsistentVertexData));
}

#[test]
fn load_model_rejects_out_of_range_index() {
    let mut m = FGModel::default();
    let mut bad = quad_submesh();
    bad.indices[3] = 4;
    let subs = vec![bad];
    assert_eq!(m.load_model(&subs), Err(LoadError::IndexOutOfRange));
}

#[test]
fn failed_load_leaves_model_untouched() {
    let mut m = FGModel::default();
    let good = vec![quad_submesh()];
    assert!(m.load_model(&good).is_ok());
    let mut bad = quad_submesh();
    bad.normals.pop();
    let subs = vec![bad];
    assert!(m.load_model(&subs).is_err());
    assert_eq!(m.meshes.len(), 1);
}

const QUAD_OBJ: &str = "v 0 0 0\nv 1 0 0\nv 1 1 0\nv 0 1 0\nvt 0 0\nvt 1 0\nvt 1 1\nvt 0 1\nvn 0 0 1\nf 1/1/1 2/2/1 3/3/1\nf 1/1/1 3/3/1 4/4/1\n";

#[test]
fn obj_quad_loads_one_mesh_with_six_indices() {
    let bytes: Vec<u8> = QUAD_OBJ.as_bytes().to_vec();
    let m = FGModel::new(&bytes).unwrap();
    assert_eq!(m.meshes.len(), 1);
    let mesh = &m.meshes[0];
    assert_eq!(mesh.vertices.len(), 4);
    assert_eq!(mesh.indices.len(), 6);
    for &i in mesh.indices.iter() {
        assert!(i < 4);
    }
    assert_eq!(m.textures_loaded.len(), 0);
}

#[test]
fn obj_parse_failure_is_reported() {
    let bytes: Vec<u8> = b"v 1.0 oops 2.0\n".to_vec();
    assert_eq!(FGModel::new(&bytes).err(), Some(LoadError::ObjParse));
}

#[test]
fn empty_obj_yields_one_empty_mesh() {
    // The parser hands back one unnamed sub-mesh for an empty file; the
    // loader turns it into one mesh with no vertices and no indices.
    let bytes: Vec<u8> = Vec::new();
    let m = FGModel::new(&bytes).unwrap();
    assert_eq!(m.meshes.len(), 1);
    assert_eq!(m.meshes[0].vertices.len(), 0);
    assert_eq!(m.meshes[0].indices.len(), 0);
}

#[test]
fn texture_cache_loads_each_path_once() {
    let mut m = FGModel::default();
    let path = "bricks.png".to_string();
    let first = m.load_material_texture(&path, TextureKind::Diffuse, 7);
    assert_eq!(first.id, 7);
    assert_eq!(first.kind, TextureKind::Diffuse);
    assert_eq!(first.path, path);
    // A second load of the same path hands back the identical GPU handle
    // and records nothing new, whatever fresh handle the caller offers.
    let second = m.load_material_texture(&path, TextureKind::Specular, 99);
    assert_eq!(second.id, 7);
    assert_eq!(second.kind, TextureKind::Diffuse);
    assert_eq!(m.textures_loaded.len(), 1);
}

#[test]
fn texture_cache_keeps_distinct_paths_apart() {
    let mut m = FGModel::default();
    let a = "a.png".to_string();
    let b = "b.png".to_string();
    let ta = m.load_material_texture(&a, TextureKind::Diffuse, 1);
    let tb = m.load_material_texture(&b, TextureKind::Normal, 2);
    assert_eq!(ta.id, 1);
    assert_eq!(tb.id, 2);
    assert_eq!(m.textures_loaded.len(), 2);
    let found = m.find_loaded_texture(&a).unwrap();
    assert_eq!(found.id, 1);
    assert!(m.find_loaded_texture(&"c.png".to_string()).is_none());
}

#[test]
fn gray_image_decodes_to_red_format() {
    let mut bytes: Vec<u8> = b"P5\n2 2\n255\n".to_vec();
    bytes.extend_from_slice(&[10, 20, 30, 40]);
    let t = loadTexture(&bytes).unwrap();
    assert_eq!(t.width, 2);
    assert_eq!(t.height, 2);
    assert_eq!(t.format, PixelFormat::Red);
    assert_eq!(t.pixels, vec![10, 20, 30, 40]);
    assert_eq!(t.wrap_s, WrapMode::Repeat);
    assert_eq!(t.wrap_t, WrapMode::Repeat);
    assert_eq!(t.min_filter, MinFilter::LinearMipmapLinear);
    assert_eq!(t.mag_filter, MagFilter::Linear);
    assert!(t.generate_mipmaps);
}

#[test]
fn rgb_image_decodes_to_rgb_format() {
    let mut bytes: Vec<u8> = b"P6\n1 1\n255\n".to_vec();
    bytes.extend_from_slice(&[1, 2, 3]);
    let t = loadTexture(&bytes).unwrap();
    assert_eq!(t.width, 1);
    assert_eq!(t.height, 1);
    assert_eq!(t.format, PixelFormat::Rgb);
    assert_eq!(t.pixels, vec![1, 2, 3]);
}

#[test]
fn undecodable_bytes_fail_with_image_decode() {
    let bytes: Vec<u8> = b"not an image at all".to_vec();
    assert_eq!(loadTexture(&bytes).err(), Some(LoadError::ImageDecode));
}

#[test]
fn sixteen_bit_image_is_unsupported() {
    let mut bytes: Vec<u8> = b"P5\n1 1\n65535\n".to_vec();
    bytes.extend_from_slice(&[0, 1]);
    assert_eq!(loadTexture(&bytes).err(), Some(LoadError::UnsupportedPixelLayout));
}
