use textured_polygon::binding::{build_bind_group, build_bind_group_layout};
use textured_polygon::frame::{
    Action, Color, Completion, DrawIndexed, Event, FrameRenderer, FrameState, Key, LoadOp,
    RenderCommand, RenderPass, StoreOp, SurfaceError, WindowEvent,
};
use textured_polygon::geometry::{pentagon, IndexFormat, Vertex};
use textured_polygon::pipeline::{build_pipeline, PipelineCreation};
use textured_polygon::surface::{DeviceContext, Handshake, Size, SurfaceCapabilities};
use textured_polygon::texture::TextureResource;

const WINDOW: u64 = 7;

fn renderer() -> FrameRenderer {
    let caps = SurfaceCapabilities {
        formats: vec![wgpu::TextureFormat::Bgra8Unorm, wgpu::TextureFormat::Bgra8UnormSrgb],
        present_modes: vec![wgpu::PresentMode::Fifo],
        alpha_modes: vec![wgpu::CompositeAlphaMode::Opaque],
    };
    let context = DeviceContext::initialize(Size::new(800, 600), &Handshake::Ready(caps)).unwrap();
    let texture = TextureResource::from_pixels(1, 1, vec![255; 4]).unwrap();
    let layout = build_bind_group_layout();
    let bind_group = build_bind_group(&layout, &texture).unwrap();
    let format = context.config().format;
    let pipeline =
        build_pipeline(PipelineCreation::Created, format, Vertex::desc(), layout).unwrap();
    FrameRenderer::new(WINDOW, context, pentagon(), bind_group, pipeline)
}

fn window(event: WindowEvent) -> Event {
    Event::Window { window_id: WINDOW, event }
}

#[test]
fn renderer_starts_between_frames() {
    let renderer = renderer();
    assert_eq!(renderer.state(), FrameState::Idle);
    assert_eq!(renderer.context().size(), Size::new(800, 600));
    assert_eq!(renderer.geometry().draw_index_count(), 9);
    assert_eq!(renderer.bind_group().bound_entries().len(), 2);
    assert_eq!(renderer.pipeline().descriptor().vertex_entry_point, "vs_main");
}

#[test]
fn frame_pass_clears_to_the_background() {
    let pass = renderer().render_pass();
    let color = match pass.load {
        LoadOp::Clear(color) => color,
        LoadOp::Load => panic!("the pass does not clear"),
    };
    assert_eq!(f64::from_bits(color.r), 0.1);
    assert_eq!(f64::from_bits(color.g), 0.2);
    assert_eq!(f64::from_bits(color.b), 0.3);
    assert_eq!(f64::from_bits(color.a), 1.0);
    assert_eq!(pass.store, StoreOp::Store);
}

#[test]
fn frame_pass_draws_all_indices_once() {
    let pass = renderer().render_pass();
    assert_eq!(
        pass,
        RenderPass {
            load: LoadOp::Clear(Color {
                r: 0.1f64.to_bits(),
                g: 0.2f64.to_bits(),
                b: 0.3f64.to_bits(),
                a: 1.0f64.to_bits(),
            }),
            store: StoreOp::Store,
            bind_group_index: 0,
            vertex_buffer_slot: 0,
            index_format: IndexFormat::Uint16,
            draw: DrawIndexed {
                first_index: 0,
                end_index: 9,
                base_vertex: 0,
                first_instance: 0,
                end_instance: 1,
            },
        }
    );
}

#[test]
fn pass_records_its_commands_in_order() {
    let pass = renderer().render_pass();
    assert_eq!(
        pass.commands(),
        vec![
            RenderCommand::SetPipeline,
            RenderCommand::SetBindGroup { index: 0 },
            RenderCommand::SetVertexBuffer { slot: 0 },
            RenderCommand::SetIndexBuffer { format: IndexFormat::Uint16 },
            RenderCommand::DrawIndexed(DrawIndexed {
                first_index: 0,
                end_index: 9,
                base_vertex: 0,
                first_instance: 0,
                end_instance: 1,
            }),
        ]
    );
}

#[test]
fn input_claims_nothing() {
    let mut renderer = renderer();
    for event in [
        WindowEvent::CloseRequested,
        WindowEvent::KeyboardInput { key: Key::Escape, pressed: true },
        WindowEvent::Resized(Size::new(1, 1)),
        WindowEvent::RedrawRequested,
        WindowEvent::Other,
    ] {
        assert!(!renderer.input(&event));
    }
    assert_eq!(renderer.state(), FrameState::Idle);
    assert_eq!(renderer.context().size(), Size::new(800, 600));
}

#[test]
fn update_changes_nothing() {
    let mut renderer = renderer();
    let before = renderer.context().config();
    renderer.update();
    assert_eq!(renderer.state(), FrameState::Idle);
    assert_eq!(renderer.context().config(), before);
    assert_eq!(renderer.render_pass().draw.end_index, 9);
}

#[test]
fn close_request_ends_the_loop() {
    let mut renderer = renderer();
    assert_eq!(renderer.on_close_request(), Action::Exit);
    assert_eq!(renderer.on_event(window(WindowEvent::CloseRequested)), Action::Exit);
}

#[test]
fn escape_press_ends_the_loop() {
    let mut renderer = renderer();
    assert_eq!(renderer.on_key(Key::Escape, true), Action::Exit);
    let pressed = WindowEvent::KeyboardInput { key: Key::Escape, pressed: true };
    assert_eq!(renderer.on_event(window(pressed)), Action::Exit);
}

#[test]
fn escape_release_does_nothing() {
    let mut renderer = renderer();
    assert_eq!(renderer.on_key(Key::Escape, false), Action::Nothing);
    let released = WindowEvent::KeyboardInput { key: Key::Escape, pressed: false };
    assert_eq!(renderer.on_event(window(released)), Action::Nothing);
    assert_eq!(renderer.state(), FrameState::Idle);
}

#[test]
fn other_keys_do_nothing() {
    let mut renderer = renderer();
    assert_eq!(renderer.on_key(Key::Other, true), Action::Nothing);
    assert_eq!(renderer.on_key(Key::Other, false), Action::Nothing);
    let pressed = WindowEvent::KeyboardInput { key: Key::Other, pressed: true };
    assert_eq!(renderer.on_event(window(pressed)), Action::Nothing);
    assert_eq!(renderer.state(), FrameState::Idle);
}

#[test]
fn resize_event_configures_the_surface() {
    let mut renderer = renderer();
    let before = renderer.context().config();
    let action = renderer.on_event(window(WindowEvent::Resized(Size::new(1280, 720))));
    let config = renderer.context().config();
    assert_eq!(action, Action::Configure(config));
    assert_eq!((config.width, config.height), (1280, 720));
    assert_eq!(config.format, before.format);
    assert_eq!(renderer.context().size(), Size::new(1280, 720));
    assert_eq!(renderer.state(), FrameState::Idle);
}

#[test]
fn resize_event_without_area_is_passed_over() {
    let mut renderer = renderer();
    let before = renderer.context().config();
    assert_eq!(renderer.on_resize(Size::new(0, 0)), Action::Nothing);
    assert_eq!(
        renderer.on_event(window(WindowEvent::Resized(Size::new(800, 0)))),
        Action::Nothing
    );
    assert_eq!(renderer.context().config(), before);
}

#[test]
fn events_of_other_windows_are_passed_over() {
    let mut renderer = renderer();
    let before = renderer.context().config();
    for event in [
        WindowEvent::CloseRequested,
        WindowEvent::KeyboardInput { key: Key::Escape, pressed: true },
        WindowEvent::Resized(Size::new(10, 10)),
        WindowEvent::RedrawRequested,
    ] {
        let action = renderer.on_event(Event::Window { window_id: WINDOW + 1, event });
        assert_eq!(action, Action::Nothing);
    }
    assert_eq!(renderer.state(), FrameState::Idle);
    assert_eq!(renderer.context().config(), before);
}

#[test]
fn about_to_wait_requests_a_redraw() {
    let mut renderer = renderer();
    assert_eq!(renderer.on_event(Event::AboutToWait), Action::RequestRedraw);
    assert_eq!(renderer.on_event(Event::Other), Action::Nothing);
    assert_eq!(renderer.on_event(window(WindowEvent::Other)), Action::Nothing);
    assert_eq!(renderer.state(), FrameState::Idle);
}

#[test]
fn redraw_starts_a_frame() {
    let mut renderer = renderer();
    assert_eq!(renderer.on_event(window(WindowEvent::RedrawRequested)), Action::Acquire);
    assert_eq!(renderer.state(), FrameState::Acquiring);
}

#[test]
fn redraw_during_a_frame_is_dropped() {
    let mut renderer = renderer();
    assert_eq!(renderer.on_redraw(), Action::Acquire);
    assert_eq!(renderer.on_redraw(), Action::Nothing);
    assert_eq!(renderer.state(), FrameState::Acquiring);
    renderer.advance(Completion::Acquired);
    assert_eq!(renderer.on_redraw(), Action::Nothing);
    assert_eq!(renderer.state(), FrameState::Encoding);
    renderer.advance(Completion::Encoded);
    assert_eq!(renderer.on_redraw(), Action::Nothing);
    renderer.advance(Completion::Submitted);
    assert_eq!(renderer.on_redraw(), Action::Nothing);
    assert_eq!(renderer.state(), FrameState::Presented);
    renderer.advance(Completion::Presented);
    assert_eq!(renderer.on_redraw(), Action::Acquire);
}

#[test]
fn frame_moves_through_its_states() {
    let mut renderer = renderer();
    renderer.on_redraw();
    assert_eq!(renderer.state(), FrameState::Acquiring);
    let pass = renderer.render_pass();
    assert_eq!(renderer.advance(Completion::Acquired), Action::Encode(pass));
    assert_eq!(renderer.state(), FrameState::Encoding);
    assert_eq!(renderer.advance(Completion::Encoded), Action::Submit);
    assert_eq!(renderer.state(), FrameState::Submitted);
    assert_eq!(renderer.advance(Completion::Submitted), Action::Present);
    assert_eq!(renderer.state(), FrameState::Presented);
    assert_eq!(renderer.advance(Completion::Presented), Action::Nothing);
    assert_eq!(renderer.state(), FrameState::Idle);
}

#[test]
fn stray_reports_are_ignored() {
    let reports = [
        Completion::Acquired,
        Completion::AcquireFailed(SurfaceError::Lost),
        Completion::AcquireFailed(SurfaceError::OutOfMemory),
        Completion::Encoded,
        Completion::Submitted,
        Completion::Presented,
    ];
    let mut idle = renderer();
    for report in reports {
        assert_eq!(idle.advance(report), Action::Nothing);
        assert_eq!(idle.state(), FrameState::Idle);
    }
    let mut acquiring = renderer();
    acquiring.on_redraw();
    for report in [Completion::Encoded, Completion::Submitted, Completion::Presented] {
        assert_eq!(acquiring.advance(report), Action::Nothing);
        assert_eq!(acquiring.state(), FrameState::Acquiring);
    }
    let mut encoding = renderer();
    encoding.on_redraw();
    encoding.advance(Completion::Acquired);
    for report in [
        Completion::Acquired,
        Completion::AcquireFailed(SurfaceError::Lost),
        Completion::Submitted,
        Completion::Presented,
    ] {
        assert_eq!(encoding.advance(report), Action::Nothing);
        assert_eq!(encoding.state(), FrameState::Encoding);
    }
}

#[test]
fn outdated_surface_skips_the_frame() {
    let mut renderer = renderer();
    renderer.on_redraw();
    assert_eq!(
        renderer.advance(Completion::AcquireFailed(SurfaceError::Outdated)),
        Action::Report(SurfaceError::Outdated)
    );
    assert_eq!(renderer.state(), FrameState::Idle);
    assert_eq!(renderer.on_redraw(), Action::Acquire);
}

#[test]
fn timeout_skips_the_frame() {
    let mut renderer = renderer();
    renderer.on_redraw();
    assert_eq!(
        renderer.render(Completion::AcquireFailed(SurfaceError::Timeout)),
        vec![Action::Report(SurfaceError::Timeout)]
    );
    assert_eq!(renderer.state(), FrameState::Idle);
}

#[test]
fn render_needs_a_frame_that_asked_for_a_texture() {
    let mut renderer = renderer();
    assert_eq!(renderer.render(Completion::Acquired), Vec::new());
    assert_eq!(renderer.state(), FrameState::Idle);
    renderer.on_redraw();
    assert_eq!(renderer.render(Completion::Encoded), Vec::new());
    assert_eq!(renderer.state(), FrameState::Acquiring);
    renderer.advance(Completion::Acquired);
    assert_eq!(renderer.render(Completion::Acquired), Vec::new());
    assert_eq!(renderer.state(), FrameState::Encoding);
}

#[test]
fn resize_between_frames_keeps_the_draw() {
    let mut renderer = renderer();
    renderer.on_resize(Size::new(300, 200));
    renderer.on_redraw();
    let actions = renderer.render(Completion::Acquired);
    assert_eq!(actions.len(), 3);
    assert_eq!(actions[0], Action::Encode(renderer.render_pass()));
    assert_eq!(renderer.context().size(), Size::new(300, 200));
}
