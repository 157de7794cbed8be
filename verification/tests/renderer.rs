use sketch::geometry::{index_data, indices, INDICES, NUM_TRIANGLES, NUM_VERTICES};
use sketch::renderer::{App, Command, DrawCall, Event, PhysicalSize, SurfaceError, WindowEvent};
use sketch::texture::{texture_size, Extent3d};
use std::io::Cursor;

fn size(width: u32, height: u32) -> PhysicalSize {
    PhysicalSize { width, height }
}

fn png(width: u32, height: u32) -> Vec<u8> {
    let picture = image::DynamicImage::ImageRgba8(image::RgbaImage::new(width, height));
    let mut bytes = Cursor::new(Vec::new());
    picture.write_to(&mut bytes, image::ImageOutputFormat::Png).unwrap();
    bytes.into_inner()
}

#[test]
fn new_app_is_configured_with_the_window_size() {
    let app = App::new(size(800, 600));
    assert_eq!(app.size, size(800, 600));
    assert_eq!(app.size(), size(800, 600));
    assert_eq!(app.surface_config(), size(800, 600));
    assert_eq!(app.num_vertices(), 5);
    assert_eq!(app.num_indices(), 9);
}

#[test]
fn resize_to_a_size_with_area_reconfigures() {
    let mut app = App::new(size(800, 600));
    assert!(app.resize(size(1024, 768)));
    assert_eq!(app.size, size(1024, 768));
    assert_eq!(app.surface_config(), size(1024, 768));
    assert!(app.resize(size(1, 1)));
    assert_eq!(app.surface_config(), size(1, 1));
}

#[test]
fn resize_with_zero_width_or_height_changes_nothing() {
    let mut app = App::new(size(800, 600));
    assert!(!app.resize(size(0, 600)));
    assert!(!app.resize(size(800, 0)));
    assert!(!app.resize(size(0, 0)));
    assert_eq!(app.size(), size(800, 600));
    assert_eq!(app.surface_config(), size(800, 600));
    assert_eq!(app.draw_call(), DrawCall {
        first_index: 0,
        end_index: 9,
        base_vertex: 0,
        first_instance: 0,
        end_instance: 1,
    });
}

#[test]
fn input_uses_up_no_event() {
    let mut app = App::new(size(800, 600));
    assert!(!app.input(&WindowEvent::CloseRequested));
    assert!(!app.input(&WindowEvent::Resized(size(1, 1))));
    assert!(!app.input(&WindowEvent::Other));
    assert_eq!(app.size, size(800, 600));
}

#[test]
fn update_changes_nothing() {
    let mut app = App::new(size(800, 600));
    app.update();
    assert_eq!(app.size, size(800, 600));
    assert_eq!(app.surface_config(), size(800, 600));
    assert_eq!(app.num_indices(), 9);
}

#[test]
fn draw_call_draws_nine_indices_once() {
    let app = App::new(size(800, 600));
    let call = app.draw_call();
    assert_eq!((call.first_index, call.end_index), (0, 9));
    assert_eq!(call.base_vertex, 0);
    assert_eq!((call.first_instance, call.end_instance), (0, 1));
}

#[test]
fn resize_events_reconfigure_the_surface() {
    let mut app = App::new(size(800, 600));
    assert_eq!(app.on_event(Event::Window(WindowEvent::Resized(size(640, 480)))), Command::Configure);
    assert_eq!(app.surface_config(), size(640, 480));
    let event = Event::Window(WindowEvent::ScaleFactorChanged { new_inner_size: size(1280, 960) });
    assert_eq!(app.on_event(event), Command::Configure);
    assert_eq!(app.size, size(1280, 960));
    assert_eq!(app.surface_config(), size(1280, 960));
}

#[test]
fn resize_events_without_area_are_ignored() {
    let mut app = App::new(size(800, 600));
    assert_eq!(app.on_event(Event::Window(WindowEvent::Resized(size(0, 480)))), Command::Idle);
    let event = Event::Window(WindowEvent::ScaleFactorChanged { new_inner_size: size(10, 0) });
    assert_eq!(app.on_event(event), Command::Idle);
    assert_eq!(app.size, size(800, 600));
    assert_eq!(app.surface_config(), size(800, 600));
}

#[test]
fn close_and_escape_leave_the_loop() {
    let mut app = App::new(size(800, 600));
    assert_eq!(app.on_event(Event::Window(WindowEvent::CloseRequested)), Command::Exit);
    assert_eq!(app.on_event(Event::Window(WindowEvent::EscapePressed)), Command::Exit);
}

#[test]
fn the_loop_redraws_when_idle() {
    let mut app = App::new(size(800, 600));
    assert_eq!(app.on_event(Event::MainEventsCleared), Command::RequestRedraw);
    assert_eq!(app.on_event(Event::RedrawRequested), Command::Render);
    assert_eq!(app.on_event(Event::Other), Command::Idle);
    assert_eq!(app.on_event(Event::Window(WindowEvent::Other)), Command::Idle);
    assert_eq!(app.size, size(800, 600));
}

#[test]
fn a_lost_surface_is_reconfigured_at_the_current_size() {
    let mut app = App::new(size(800, 600));
    assert_eq!(app.after_render(Err(SurfaceError::Lost)), Command::Configure);
    assert_eq!(app.size, size(800, 600));
    assert_eq!(app.surface_config(), size(800, 600));
}

#[test]
fn a_lost_surface_without_area_is_left_alone() {
    let mut app = App::new(size(0, 600));
    assert_eq!(app.after_render(Err(SurfaceError::Lost)), Command::Idle);
    assert_eq!(app.surface_config(), size(0, 600));
}

#[test]
fn a_lost_surface_takes_the_size_set_from_outside() {
    let mut app = App::new(size(800, 600));
    app.size = size(320, 200);
    assert_eq!(app.after_render(Err(SurfaceError::Lost)), Command::Configure);
    assert_eq!(app.surface_config(), size(320, 200));
}

#[test]
fn other_outcomes_of_a_frame() {
    let mut app = App::new(size(800, 600));
    assert_eq!(app.after_render(Ok(())), Command::Idle);
    assert_eq!(app.after_render(Err(SurfaceError::OutOfMemory)), Command::Exit);
    assert_eq!(app.after_render(Err(SurfaceError::Timeout)), Command::Report(SurfaceError::Timeout));
    assert_eq!(app.after_render(Err(SurfaceError::Outdated)), Command::Report(SurfaceError::Outdated));
    assert_eq!(app.surface_config(), size(800, 600));
}

#[test]
fn indices_describe_a_fan_around_the_last_vertex() {
    assert_eq!(INDICES, [0, 1, 4, 1, 2, 4, 2, 3, 4]);
    assert_eq!(indices(), vec![0, 1, 4, 1, 2, 4, 2, 3, 4]);
    assert_eq!(NUM_VERTICES, 5);
    assert_eq!(NUM_TRIANGLES, 3);
    assert!(INDICES.iter().all(|index| u32::from(*index) < NUM_VERTICES));
}

#[test]
fn index_data_holds_two_bytes_for_each_index() {
    let mut expected = Vec::new();
    for index in INDICES {
        expected.extend_from_slice(&index.to_ne_bytes());
    }
    assert_eq!(index_data(), expected);
    assert_eq!(index_data().len(), 18);
}

#[test]
fn texture_size_is_that_of_the_image() {
    let extent = texture_size(&png(3, 2)).unwrap();
    assert_eq!(extent, Extent3d { width: 3, height: 2, depth_or_array_layers: 1 });
    let extent = texture_size(&png(256, 1)).unwrap();
    assert_eq!(extent, Extent3d { width: 256, height: 1, depth_or_array_layers: 1 });
}

#[test]
fn texture_size_fails_where_the_decoder_does() {
    assert!(texture_size(&[]).is_err());
    assert!(texture_size(b"no image at all").is_err());
    let mut cut = png(3, 2);
    cut.truncate(20);
    assert!(texture_size(&cut).is_err());
}

#[test]
fn extent_for_image_has_one_layer() {
    assert_eq!(Extent3d::for_image((640, 480)), Extent3d {
        width: 640,
        height: 480,
        depth_or_array_layers: 1,
    });
    assert_eq!(Extent3d::for_image((0, u32::MAX)), Extent3d {
        width: 0,
        height: u32::MAX,
        depth_or_array_layers: 1,
    });
}
