use textured_polygon::binding::{build_bind_group, build_bind_group_layout};
use textured_polygon::frame::{
    Action, Completion, Event, FrameRenderer, FrameState, LoadOp, RenderCommand, StoreOp,
    SurfaceError, WindowEvent,
};
use textured_polygon::geometry::{pentagon, Vertex};
use textured_polygon::pipeline::{build_pipeline, PipelineCreation};
use textured_polygon::surface::{DeviceContext, Handshake, Size, SurfaceCapabilities};
use textured_polygon::texture::TextureResource;

const WINDOW: u64 = 1;

const TEXTURE: [u8; 92] = [
    0x89, 0x50, 0x4E, 0x47, 0x0D, 0x0A, 0x1A, 0x0A, 0x00, 0x00, 0x00, 0x0D,
    0x49, 0x48, 0x44, 0x52, 0x00, 0x00, 0x00, 0x03, 0x00, 0x00, 0x00, 0x02,
    0x08, 0x06, 0x00, 0x00, 0x00, 0x9D, 0x74, 0x66, 0x1A, 0x00, 0x00, 0x00,
    0x23, 0x49, 0x44, 0x41, 0x54, 0x78, 0xDA, 0x63, 0xE0, 0x12, 0x91, 0xD3,
    0x30, 0xB2, 0x71, 0x0B, 0x88, 0x4A, 0xC9, 0xAB, 0x60, 0x68, 0xEA, 0x99,
    0xB6, 0x60, 0xD5, 0x96, 0x7D, 0x27, 0x2E, 0xDD, 0x79, 0xF6, 0x01, 0x00,
    0x68, 0xB6, 0x0B, 0xB9, 0xCA, 0x7E, 0x43, 0x94, 0x00, 0x00, 0x00, 0x00,
    0x49, 0x45, 0x4E, 0x44, 0xAE, 0x42, 0x60, 0x82,
];

fn start() -> FrameRenderer {
    let caps = SurfaceCapabilities {
        formats: vec![wgpu::TextureFormat::Bgra8Unorm, wgpu::TextureFormat::Bgra8UnormSrgb],
        present_modes: vec![wgpu::PresentMode::Fifo],
        alpha_modes: vec![wgpu::CompositeAlphaMode::Opaque],
    };
    let context = DeviceContext::initialize(Size::new(800, 600), &Handshake::Ready(caps)).unwrap();
    let texture = TextureResource::from_image_bytes(&TEXTURE).unwrap();
    let layout = build_bind_group_layout();
    let bind_group = build_bind_group(&layout, &texture).unwrap();
    let format = context.config().format;
    let pipeline =
        build_pipeline(PipelineCreation::Created, format, Vertex::desc(), layout).unwrap();
    FrameRenderer::new(WINDOW, context, pentagon(), bind_group, pipeline)
}

fn count(actions: &[Action], wanted: fn(&Action) -> bool) -> usize {
    actions.iter().filter(|action| wanted(action)).count()
}

#[test]
fn startup_at_800_by_600() {
    let renderer = start();
    assert_eq!(renderer.context().size(), Size::new(800, 600));
    let config = renderer.context().config();
    assert_eq!((config.width, config.height), (800, 600));
    assert_eq!(config.format, wgpu::TextureFormat::Bgra8UnormSrgb);
    assert_eq!(renderer.pipeline().descriptor().target.format, config.format);
    assert_eq!(renderer.bind_group().bound_texture_size().width, 3);
    assert_eq!(renderer.bind_group().bound_texture_size().height, 2);
}

#[test]
fn resize_to_zero_width_keeps_800_by_600() {
    let mut renderer = start();
    let before = renderer.context().config();
    let event = Event::Window {
        window_id: WINDOW,
        event: WindowEvent::Resized(Size::new(0, 600)),
    };
    assert_eq!(renderer.on_event(event), Action::Nothing);
    assert_eq!(renderer.context().config(), before);
    assert_eq!((before.width, before.height), (800, 600));
    assert_eq!(renderer.context().size(), Size::new(800, 600));
}

#[test]
fn lost_surface_is_configured_again_and_nothing_is_drawn() {
    let mut renderer = start();
    let config = renderer.context().config();
    let mut actions = vec![renderer.on_event(Event::Window {
        window_id: WINDOW,
        event: WindowEvent::RedrawRequested,
    })];
    actions.extend(renderer.render(Completion::AcquireFailed(SurfaceError::Lost)));
    assert_eq!(actions, vec![Action::Acquire, Action::Configure(config)]);
    assert_eq!(count(&actions, |action| matches!(action, Action::Configure(_))), 1);
    assert_eq!(count(&actions, |action| matches!(action, Action::Encode(_))), 0);
    assert_eq!(count(&actions, |action| matches!(action, Action::Submit)), 0);
    assert_eq!(count(&actions, |action| matches!(action, Action::Present)), 0);
    assert_eq!(renderer.context().config(), config);
    assert_eq!(renderer.context().size(), Size::new(800, 600));
    assert_eq!(renderer.state(), FrameState::Idle);
}

#[test]
fn lost_surface_after_a_resize_is_configured_at_the_new_size() {
    let mut renderer = start();
    renderer.on_resize(Size::new(1024, 768));
    let config = renderer.context().config();
    renderer.on_redraw();
    let action = renderer.advance(Completion::AcquireFailed(SurfaceError::Lost));
    assert_eq!(action, Action::Configure(config));
    assert_eq!((config.width, config.height), (1024, 768));
}

#[test]
fn out_of_memory_ends_the_loop_once() {
    let mut renderer = start();
    let mut actions = vec![renderer.on_redraw()];
    actions.extend(renderer.render(Completion::AcquireFailed(SurfaceError::OutOfMemory)));
    assert_eq!(actions, vec![Action::Acquire, Action::Exit]);
    assert_eq!(count(&actions, |action| matches!(action, Action::Exit)), 1);
    assert_eq!(renderer.state(), FrameState::Idle);
}

#[test]
fn one_frame_of_the_pentagon() {
    let mut renderer = start();
    let mut actions = vec![renderer.on_redraw()];
    actions.push(renderer.advance(Completion::Acquired));
    actions.push(renderer.advance(Completion::Encoded));
    actions.push(renderer.advance(Completion::Submitted));
    actions.push(renderer.advance(Completion::Presented));
    assert_eq!(count(&actions, |action| matches!(action, Action::Encode(_))), 1);
    assert_eq!(count(&actions, |action| matches!(action, Action::Submit)), 1);
    assert_eq!(count(&actions, |action| matches!(action, Action::Present)), 1);
    let encoded = actions.iter().position(|action| matches!(action, Action::Encode(_))).unwrap();
    let submitted = actions.iter().position(|action| matches!(action, Action::Submit)).unwrap();
    let presented = actions.iter().position(|action| matches!(action, Action::Present)).unwrap();
    assert!(encoded < submitted);
    assert!(submitted < presented);
    let pass = match actions[encoded] {
        Action::Encode(pass) => pass,
        _ => unreachable!(),
    };
    let clear = match pass.load {
        LoadOp::Clear(color) => color,
        LoadOp::Load => panic!("the pass does not clear"),
    };
    assert_eq!(
        (
            f64::from_bits(clear.r),
            f64::from_bits(clear.g),
            f64::from_bits(clear.b),
            f64::from_bits(clear.a)
        ),
        (0.1, 0.2, 0.3, 1.0)
    );
    assert_eq!(pass.store, StoreOp::Store);
    let draws: Vec<RenderCommand> = pass
        .commands()
        .into_iter()
        .filter(|command| matches!(command, RenderCommand::DrawIndexed(_)))
        .collect();
    assert_eq!(draws.len(), 1);
    match draws[0] {
        RenderCommand::DrawIndexed(draw) => {
            assert_eq!((draw.first_index, draw.end_index), (0, 9));
            assert_eq!(draw.end_index - draw.first_index, 9);
            assert_eq!(draw.base_vertex, 0);
            assert_eq!((draw.first_instance, draw.end_instance), (0, 1));
        },
        _ => unreachable!(),
    }
    assert_eq!(renderer.state(), FrameState::Idle);
}

#[test]
fn render_gives_the_frame_in_one_piece() {
    let mut stepwise = start();
    stepwise.on_redraw();
    let steps = vec![
        stepwise.advance(Completion::Acquired),
        stepwise.advance(Completion::Encoded),
        stepwise.advance(Completion::Submitted),
    ];
    let mut whole = start();
    whole.on_redraw();
    assert_eq!(whole.render(Completion::Acquired), steps);
    assert_eq!(whole.state(), FrameState::Idle);
}

#[test]
fn frames_follow_one_another() {
    let mut renderer = start();
    for _ in 0..3 {
        assert_eq!(renderer.on_event(Event::AboutToWait), Action::RequestRedraw);
        assert_eq!(renderer.on_redraw(), Action::Acquire);
        let actions = renderer.render(Completion::Acquired);
        assert_eq!(
            actions,
            vec![Action::Encode(renderer.render_pass()), Action::Submit, Action::Present]
        );
        assert_eq!(renderer.state(), FrameState::Idle);
    }
}
