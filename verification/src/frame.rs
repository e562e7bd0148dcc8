//! The frame lifecycle: what each window event leads to, and the steps of
//! one frame from acquiring the surface texture to presenting it.
//!
//! The renderer performs nothing itself. It is told what happened and says
//! what the host has to do next.

use vstd::prelude::*;
use crate::binding::BindGroup;
use crate::geometry::{GeometryBuffer, IndexFormat};
use crate::pipeline::PipelineState;
use crate::surface::{DeviceContext, Size, SurfaceConfiguration};

verus! {

/// Where a frame stands. A state names the step that the host is carrying
/// out; `Idle` is the time between frames.
#[derive(Clone, Copy, Debug, PartialEq, Eq, Structural)]
pub enum FrameState {
    Idle,
    Acquiring,
    Encoding,
    Submitted,
    Presented,
}

/// Why the surface gave no texture.
#[derive(Clone, Copy, Debug, PartialEq, Eq, Structural)]
pub enum SurfaceError {
    Timeout,
    Outdated,
    Lost,
    OutOfMemory,
}

/// A color of four double-precision channels, each held as its IEEE-754
/// bit pattern.
#[derive(Clone, Copy, Debug, PartialEq, Eq, Structural)]
pub struct Color {
    pub r: u64,
    pub g: u64,
    pub b: u64,
    pub a: u64,
}

/// What happens to a color target when a pass begins.
#[derive(Clone, Copy, Debug, PartialEq, Eq, Structural)]
pub enum LoadOp {
    Clear(Color),
    Load,
}

/// What happens to a color target when a pass ends.
#[derive(Clone, Copy, Debug, PartialEq, Eq, Structural)]
pub enum StoreOp {
    Store,
    Discard,
}

/// One indexed draw: the indices `first_index..end_index`, each offset by
/// `base_vertex`, for the instances `first_instance..end_instance`.
#[derive(Clone, Copy, Debug, PartialEq, Eq, Structural)]
pub struct DrawIndexed {
    pub first_index: u32,
    pub end_index: u32,
    pub base_vertex: i32,
    pub first_instance: u32,
    pub end_instance: u32,
}

/// A command recorded inside a render pass.
#[derive(Clone, Copy, Debug, PartialEq, Eq, Structural)]
pub enum RenderCommand {
    SetPipeline,
    SetBindGroup { index: u32 },
    SetVertexBuffer { slot: u32 },
    SetIndexBuffer { format: IndexFormat },
    DrawIndexed(DrawIndexed),
}

/// The one render pass of a frame: a single color target, the view of the
/// acquired texture, with no resolve target and no depth or stencil
/// attachment, and the draw that is recorded into it.
#[derive(Clone, Copy, Debug, PartialEq, Eq, Structural)]
pub struct RenderPass {
    pub load: LoadOp,
    pub store: StoreOp,
    pub bind_group_index: u32,
    pub vertex_buffer_slot: u32,
    pub index_format: IndexFormat,
    pub draw: DrawIndexed,
}

/// The background: red 0.1, green 0.2, blue 0.3, alpha 1.0.
pub open spec fn background() -> Color {
    Color {
        r: 0x3FB9_9999_9999_999A,
        g: 0x3FC9_9999_9999_999A,
        b: 0x3FD3_3333_3333_3333,
        a: 0x3FF0_0000_0000_0000,
    }
}

/// The pass that draws `index_count` indices: the target is cleared to the
/// background and stored, the bind group goes to index 0, the vertex
/// buffer to slot 0, the indices are 16 bits wide, and one instance of all
/// of them is drawn from vertex 0.
pub open spec fn frame_pass(index_count: u32) -> RenderPass {
    RenderPass {
        load: LoadOp::Clear(background()),
        store: StoreOp::Store,
        bind_group_index: 0,
        vertex_buffer_slot: 0,
        index_format: IndexFormat::Uint16,
        draw: DrawIndexed {
            first_index: 0,
            end_index: index_count,
            base_vertex: 0,
            first_instance: 0,
            end_instance: 1,
        },
    }
}

impl RenderPass {
    /// The commands of the pass in the order of recording: the pipeline,
    /// the bind group, the vertex buffer, the index buffer, then the one
    /// draw.
    pub open spec fn recorded(self) -> Seq<RenderCommand> {
        seq![
            RenderCommand::SetPipeline,
            RenderCommand::SetBindGroup { index: self.bind_group_index },
            RenderCommand::SetVertexBuffer { slot: self.vertex_buffer_slot },
            RenderCommand::SetIndexBuffer { format: self.index_format },
            RenderCommand::DrawIndexed(self.draw),
        ]
    }

    /// The commands to record between the begin and the end of the pass.
    pub fn commands(&self) -> (commands: Vec<RenderCommand>)
        ensures
            commands@ == self.recorded(),
            commands@.len() == 5,
            commands@[4] == RenderCommand::DrawIndexed(self.draw),
    {
        let mut commands: Vec<RenderCommand> = Vec::new();
        commands.push(RenderCommand::SetPipeline);
        commands.push(RenderCommand::SetBindGroup { index: self.bind_group_index });
        commands.push(RenderCommand::SetVertexBuffer { slot: self.vertex_buffer_slot });
        commands.push(RenderCommand::SetIndexBuffer { format: self.index_format });
        commands.push(RenderCommand::DrawIndexed(self.draw));
        assert(commands@ =~= self.recorded());
        commands
    }
}

/// The keys that the renderer tells apart.
#[derive(Clone, Copy, Debug, PartialEq, Eq, Structural)]
pub enum Key {
    Escape,
    Other,
}

/// What a window reports.
#[derive(Clone, Copy, Debug, PartialEq, Eq, Structural)]
pub enum WindowEvent {
    CloseRequested,
    KeyboardInput { key: Key, pressed: bool },
    Resized(Size),
    RedrawRequested,
    Other,
}

/// What the event loop delivers.
#[derive(Clone, Copy, Debug, PartialEq, Eq, Structural)]
pub enum Event {
    /// An event of the window with this identifier.
    Window { window_id: u64, event: WindowEvent },
    /// The loop has run out of events and is about to wait.
    AboutToWait,
    /// Anything else.
    Other,
}

/// What the host reports of the step it was asked to carry out.
#[derive(Clone, Copy, Debug, PartialEq, Eq, Structural)]
pub enum Completion {
    /// The surface gave its next texture.
    Acquired,
    /// The surface gave no texture.
    AcquireFailed(SurfaceError),
    /// The render pass is recorded and closed, and the recording is
    /// finished into a command buffer.
    Encoded,
    /// The command buffer is on the queue.
    Submitted,
    /// The surface texture is handed over for display.
    Presented,
}

/// What the host has to do next.
#[derive(Clone, Copy, Debug, PartialEq, Eq)]
pub enum Action {
    /// Nothing.
    Nothing,
    /// Leave the event loop.
    Exit,
    /// Ask the window for a redraw.
    RequestRedraw,
    /// Apply this configuration to the surface.
    Configure(SurfaceConfiguration),
    /// Ask the surface for its next texture.
    Acquire,
    /// Take a view of the acquired texture, open a recording, record this
    /// pass into it, close the pass, then finish the recording.
    Encode(RenderPass),
    /// Submit the finished command buffer to the queue, whole.
    Submit,
    /// Present the acquired surface texture.
    Present,
    /// Note that this frame was dropped for this reason; the next redraw
    /// request tries again.
    Report(SurfaceError),
}

/// `completion` reports the step that `state` names.
pub open spec fn expects(state: FrameState, completion: Completion) -> bool {
    match (state, completion) {
        (FrameState::Acquiring, Completion::Acquired) => true,
        (FrameState::Acquiring, Completion::AcquireFailed(_)) => true,
        (FrameState::Encoding, Completion::Encoded) => true,
        (FrameState::Submitted, Completion::Submitted) => true,
        (FrameState::Presented, Completion::Presented) => true,
        _ => false,
    }
}

/// The state that follows `state` on `completion`. A failed acquisition
/// ends the frame; a report that belongs to another step changes nothing.
pub open spec fn after(state: FrameState, completion: Completion) -> FrameState {
    match (state, completion) {
        (FrameState::Acquiring, Completion::Acquired) => FrameState::Encoding,
        (FrameState::Acquiring, Completion::AcquireFailed(_)) => FrameState::Idle,
        (FrameState::Encoding, Completion::Encoded) => FrameState::Submitted,
        (FrameState::Submitted, Completion::Submitted) => FrameState::Presented,
        (FrameState::Presented, Completion::Presented) => FrameState::Idle,
        _ => state,
    }
}

/// What a failed acquisition leads to: a lost surface is configured again
/// as it was, with no memory left the loop ends, and an outdated surface
/// or a timeout is reported and left to the next frame.
pub open spec fn recovery(error: SurfaceError, config: SurfaceConfiguration) -> Action {
    match error {
        SurfaceError::Lost => Action::Configure(config),
        SurfaceError::OutOfMemory => Action::Exit,
        SurfaceError::Outdated => Action::Report(SurfaceError::Outdated),
        SurfaceError::Timeout => Action::Report(SurfaceError::Timeout),
    }
}

/// What the host is asked to do when `completion` arrives in `state`, for
/// a surface configured with `config` and a frame that records `pass`.
pub open spec fn reaction(
    state: FrameState,
    completion: Completion,
    config: SurfaceConfiguration,
    pass: RenderPass,
) -> Action {
    match (state, completion) {
        (FrameState::Acquiring, Completion::Acquired) => Action::Encode(pass),
        (FrameState::Acquiring, Completion::AcquireFailed(error)) => recovery(error, config),
        (FrameState::Encoding, Completion::Encoded) => Action::Submit,
        (FrameState::Submitted, Completion::Submitted) => Action::Present,
        _ => Action::Nothing,
    }
}

/// What a whole frame asks of the host once the surface has answered,
/// every later step reported done: the pass, the submission and the
/// presentation in this order, or the one recovery.
pub open spec fn frame_script(
    acquisition: Completion,
    config: SurfaceConfiguration,
    pass: RenderPass,
) -> Seq<Action> {
    match acquisition {
        Completion::Acquired => seq![Action::Encode(pass), Action::Submit, Action::Present],
        Completion::AcquireFailed(error) => seq![recovery(error, config)],
        _ => Seq::empty(),
    }
}

/// The rendering state of one window: the surface context, the resources
/// made once at startup, and where the current frame stands.
pub struct FrameRenderer {
    window_id: u64,
    context: DeviceContext,
    geometry: GeometryBuffer,
    bind_group: BindGroup,
    pipeline: PipelineState,
    state: FrameState,
}

impl FrameRenderer {
    /// Identifier of the window that is rendered to.
    pub closed spec fn window_id(&self) -> u64 {
        self.window_id
    }

    /// The surface context.
    pub closed spec fn spec_context(&self) -> &DeviceContext {
        &self.context
    }

    /// The geometry that every frame draws.
    pub closed spec fn spec_geometry(&self) -> &GeometryBuffer {
        &self.geometry
    }

    /// The bind group that every frame binds.
    pub closed spec fn spec_bind_group(&self) -> &BindGroup {
        &self.bind_group
    }

    /// The pipeline that every frame sets.
    pub closed spec fn spec_pipeline(&self) -> &PipelineState {
        &self.pipeline
    }

    /// Where the current frame stands.
    pub closed spec fn spec_state(&self) -> FrameState {
        self.state
    }

    /// The pass that a frame records: `frame_pass` for all the indices of
    /// the geometry.
    pub open spec fn spec_render_pass(&self) -> RenderPass {
        frame_pass(self.geometry().indices().len() as u32)
    }

    /// `other` has the window and the resources of `self`; context and
    /// state may differ.
    pub open spec fn same_resources(&self, other: &FrameRenderer) -> bool {
        &&& other.window_id() == self.window_id()
        &&& other.geometry() == self.geometry()
        &&& other.bind_group() == self.bind_group()
        &&& other.pipeline() == self.pipeline()
    }

    /// A renderer for the window `window_id`, between frames.
    pub fn new(
        window_id: u64,
        context: DeviceContext,
        geometry: GeometryBuffer,
        bind_group: BindGroup,
        pipeline: PipelineState,
    ) -> (renderer: FrameRenderer)
        ensures
            renderer.window_id() == window_id,
            *renderer.context() == context,
            *renderer.geometry() == geometry,
            *renderer.bind_group() == bind_group,
            *renderer.pipeline() == pipeline,
            renderer.state() == FrameState::Idle,
    {
        FrameRenderer { window_id, context, geometry, bind_group, pipeline, state: FrameState::Idle }
    }

    /// The surface context.
    #[verifier::when_used_as_spec(spec_context)]
    pub fn context(&self) -> (context: &DeviceContext)
        ensures
            context == self.spec_context(),
    {
        &self.context
    }

    /// The geometry that every frame draws.
    #[verifier::when_used_as_spec(spec_geometry)]
    pub fn geometry(&self) -> (geometry: &GeometryBuffer)
        ensures
            geometry == self.spec_geometry(),
    {
        &self.geometry
    }

    /// The bind group that every frame binds.
    #[verifier::when_used_as_spec(spec_bind_group)]
    pub fn bind_group(&self) -> (bind_group: &BindGroup)
        ensures
            bind_group == self.spec_bind_group(),
    {
        &self.bind_group
    }

    /// The pipeline that every frame sets.
    #[verifier::when_used_as_spec(spec_pipeline)]
    pub fn pipeline(&self) -> (pipeline: &PipelineState)
        ensures
            pipeline == self.spec_pipeline(),
    {
        &self.pipeline
    }

    /// Where the current frame stands.
    #[verifier::when_used_as_spec(spec_state)]
    pub fn state(&self) -> (state: FrameState)
        ensures
            state == self.spec_state(),
    {
        self.state
    }

    /// The pass that a frame records. The number of indices drawn is
    /// computed from the index buffer each time.
    #[verifier::when_used_as_spec(spec_render_pass)]
    pub fn render_pass(&self) -> (pass: RenderPass)
        ensures
            pass == self.spec_render_pass(),
            pass == frame_pass(pass.draw.end_index),
            pass.draw.end_index == self.geometry().indices().len(),
    {
        RenderPass {
            load: LoadOp::Clear(
                Color {
                    r: 0x3FB9_9999_9999_999A,
                    g: 0x3FC9_9999_9999_999A,
                    b: 0x3FD3_3333_3333_3333,
                    a: 0x3FF0_0000_0000_0000,
                },
            ),
            store: StoreOp::Store,
            bind_group_index: 0,
            vertex_buffer_slot: 0,
            index_format: self.geometry.index_format(),
            draw: DrawIndexed {
                first_index: 0,
                end_index: self.geometry.draw_index_count(),
                base_vertex: 0,
                first_instance: 0,
                end_instance: 1,
            },
        }
    }

    /// Offers a window event to the renderer before it is handled. The
    /// renderer claims none: it answers `false` and stays as it is.
    pub fn input(&mut self, event: &WindowEvent) -> (claimed: bool)
        ensures
            !claimed,
            *final(self) == *old(self),
    {
        false
    }

    /// Runs once per frame before encoding. There is nothing to update
    /// yet, so the renderer stays as it is.
    pub fn update(&mut self)
        ensures
            *final(self) == *old(self),
    {
    }

    /// The window is asked to close: the loop ends.
    pub fn on_close_request(&mut self) -> (action: Action)
        ensures
            action == Action::Exit,
            *final(self) == *old(self),
    {
        Action::Exit
    }

    /// A key changed. Pressing Escape ends the loop; releasing it, and
    /// every other key, does nothing.
    pub fn on_key(&mut self, key: Key, pressed: bool) -> (action: Action)
        ensures
            action == if key == Key::Escape && pressed {
                Action::Exit
            } else {
                Action::Nothing
            },
            *final(self) == *old(self),
    {
        match key {
            Key::Escape => if pressed {
                Action::Exit
            } else {
                Action::Nothing
            },
            Key::Other => Action::Nothing,
        }
    }

    /// The window has a new size. A size with area is stored and the
    /// surface is to be configured with it; a size with a zero dimension
    /// is passed over.
    pub fn on_resize(&mut self, new_size: Size) -> (action: Action)
        ensures
            old(self).same_resources(final(self)),
            final(self).state() == old(self).state(),
            *final(self).context() == old(self).context().resized(new_size),
            new_size.has_area() ==> {
                &&& final(self).context().size() == new_size
                &&& final(self).context().config() == old(self).context().config().with_size(
                    new_size,
                )
                &&& action == Action::Configure(final(self).context().config())
            },
            !new_size.has_area() ==> {
                &&& *final(self) == *old(self)
                &&& action == Action::Nothing
            },
    {
        match self.context.resize(new_size) {
            Some(config) => Action::Configure(config),
            None => Action::Nothing,
        }
    }

    /// A redraw is requested. Between frames this starts one: the update
    /// hook runs and the surface is to be asked for its next texture.
    /// While a frame is under way the request is dropped, so that the next
    /// frame starts only after this one.
    pub fn on_redraw(&mut self) -> (action: Action)
        ensures
            old(self).same_resources(final(self)),
            final(self).context() == old(self).context(),
            old(self).state() == FrameState::Idle ==> {
                &&& final(self).state() == FrameState::Acquiring
                &&& action == Action::Acquire
            },
            old(self).state() != FrameState::Idle ==> {
                &&& *final(self) == *old(self)
                &&& action == Action::Nothing
            },
    {
        match self.state {
            FrameState::Idle => {
                self.update();
                self.state = FrameState::Acquiring;
                Action::Acquire
            },
            _ => Action::Nothing,
        }
    }

    /// The host reports how the step it was asked for went. The frame
    /// moves on as `after` says and the host is asked what `reaction`
    /// says. Nothing but the frame's state changes: a lost surface is
    /// configured again at its current size, which leaves the context as
    /// it is.
    pub fn advance(&mut self, completion: Completion) -> (action: Action)
        ensures
            old(self).same_resources(final(self)),
            final(self).context() == old(self).context(),
            final(self).state() == after(old(self).state(), completion),
            action == reaction(
                old(self).state(),
                completion,
                old(self).context().config(),
                old(self).render_pass(),
            ),
    {
        match (self.state, completion) {
            (FrameState::Acquiring, Completion::Acquired) => {
                self.state = FrameState::Encoding;
                Action::Encode(self.render_pass())
            },
            (FrameState::Acquiring, Completion::AcquireFailed(error)) => {
                self.state = FrameState::Idle;
                match error {
                    SurfaceError::Lost => {
                        let size = self.context.size();
                        proof {
                            crate::surface::lemma_resize_to_current_size(self.context);
                        }
                        match self.context.resize(size) {
                            Some(config) => Action::Configure(config),
                            None => Action::Nothing,
                        }
                    },
                    SurfaceError::OutOfMemory => Action::Exit,
                    SurfaceError::Outdated => Action::Report(SurfaceError::Outdated),
                    SurfaceError::Timeout => Action::Report(SurfaceError::Timeout),
                }
            },
            (FrameState::Encoding, Completion::Encoded) => {
                self.state = FrameState::Submitted;
                Action::Submit
            },
            (FrameState::Submitted, Completion::Submitted) => {
                self.state = FrameState::Presented;
                Action::Present
            },
            (FrameState::Presented, Completion::Presented) => {
                self.state = FrameState::Idle;
                Action::Nothing
            },
            _ => Action::Nothing,
        }
    }

    /// Runs a frame to its end once the surface has answered, for a host
    /// that carries out every later step at once: what is to be done, in
    /// order. A frame that has not asked for a texture has nothing to
    /// render, and a report of another step is no answer of the surface.
    pub fn render(&mut self, acquisition: Completion) -> (actions: Vec<Action>)
        ensures
            old(self).same_resources(final(self)),
            final(self).context() == old(self).context(),
            old(self).state() == FrameState::Acquiring ==> {
                &&& actions@ == frame_script(
                    acquisition,
                    old(self).context().config(),
                    old(self).render_pass(),
                )
                &&& final(self).state() == if expects(FrameState::Acquiring, acquisition) {
                    FrameState::Idle
                } else {
                    FrameState::Acquiring
                }
            },
            old(self).state() != FrameState::Acquiring ==> {
                &&& actions@ == Seq::<Action>::empty()
                &&& final(self).state() == old(self).state()
            },
    {
        let mut actions: Vec<Action> = Vec::new();
        match (self.state, acquisition) {
            (FrameState::Acquiring, Completion::Acquired) => {
                actions.push(self.advance(Completion::Acquired));
                actions.push(self.advance(Completion::Encoded));
                actions.push(self.advance(Completion::Submitted));
                self.advance(Completion::Presented);
            },
            (FrameState::Acquiring, Completion::AcquireFailed(error)) => {
                actions.push(self.advance(Completion::AcquireFailed(error)));
            },
            _ => {},
        }
        proof {
            if old(self).state() == FrameState::Acquiring {
                assert(actions@ =~= frame_script(
                    acquisition,
                    old(self).context().config(),
                    old(self).render_pass(),
                ));
            }
        }
        actions
    }

    /// Handles one event of the loop. Window events of other windows are
    /// passed over. An event of this window is first offered to `input`;
    /// unless it is claimed there, a close request or a press of Escape
    /// ends the loop, a new size goes to `on_resize` and a redraw request to
    /// `on_redraw`. When the loop is about to wait, the next redraw is
    /// requested.
    pub fn on_event(&mut self, event: Event) -> (action: Action)
        ensures
            old(self).same_resources(final(self)),
            match event {
                Event::Window { window_id, event: WindowEvent::Resized(new_size) } if window_id
                    == old(self).window_id() => {
                    &&& final(self).state() == old(self).state()
                    &&& *final(self).context() == old(self).context().resized(new_size)
                    &&& new_size.has_area() ==> {
                        &&& final(self).context().size() == new_size
                        &&& final(self).context().config() == old(
                            self,
                        ).context().config().with_size(new_size)
                        &&& action == Action::Configure(final(self).context().config())
                    }
                    &&& !new_size.has_area() ==> {
                        &&& *final(self) == *old(self)
                        &&& action == Action::Nothing
                    }
                },
                Event::Window { window_id, event: WindowEvent::RedrawRequested } if window_id
                    == old(self).window_id() => {
                    &&& final(self).context() == old(self).context()
                    &&& final(self).state() == if old(self).state() == FrameState::Idle {
                        FrameState::Acquiring
                    } else {
                        old(self).state()
                    }
                    &&& action == if old(self).state() == FrameState::Idle {
                        Action::Acquire
                    } else {
                        Action::Nothing
                    }
                },
                Event::Window { window_id, event } if window_id == old(self).window_id() => {
                    &&& *final(self) == *old(self)
                    &&& action == if event == WindowEvent::CloseRequested || (
                    event matches WindowEvent::KeyboardInput { key, pressed } && key == Key::Escape
                        && pressed) {
                        Action::Exit
                    } else {
                        Action::Nothing
                    }
                },
                Event::AboutToWait => {
                    &&& *final(self) == *old(self)
                    &&& action == Action::RequestRedraw
                },
                _ => {
                    &&& *final(self) == *old(self)
                    &&& action == Action::Nothing
                },
            },
    {
        match event {
            Event::Window { window_id, event } => {
                if window_id != self.window_id {
                    return Action::Nothing;
                }
                if self.input(&event) {
                    return Action::Nothing;
                }
                match event {
                    WindowEvent::CloseRequested => self.on_close_request(),
                    WindowEvent::KeyboardInput { key, pressed } => self.on_key(key, pressed),
                    WindowEvent::Resized(new_size) => self.on_resize(new_size),
                    WindowEvent::RedrawRequested => self.on_redraw(),
                    WindowEvent::Other => Action::Nothing,
                }
            },
            Event::AboutToWait => Action::RequestRedraw,
            Event::Other => Action::Nothing,
        }
    }
}

/// A pass records exactly one draw, and records it last.
pub proof fn lemma_pass_draws_once(pass: RenderPass)
    ensures
        pass.recorded().len() == 5,
        pass.recorded()[4] == RenderCommand::DrawIndexed(pass.draw),
        forall|i: int| 0 <= i < 5 ==> (#[trigger] pass.recorded()[i] is DrawIndexed <==> i == 4),
{
}

/// A frame whose texture was acquired is encoded, submitted and presented,
/// in this order and each once, and then the renderer is between frames
/// again.
pub proof fn lemma_frame_runs_in_order(config: SurfaceConfiguration, pass: RenderPass)
    ensures
        after(FrameState::Acquiring, Completion::Acquired) == FrameState::Encoding,
        after(FrameState::Encoding, Completion::Encoded) == FrameState::Submitted,
        after(FrameState::Submitted, Completion::Submitted) == FrameState::Presented,
        after(FrameState::Presented, Completion::Presented) == FrameState::Idle,
        reaction(FrameState::Acquiring, Completion::Acquired, config, pass) == Action::Encode(pass),
        reaction(FrameState::Encoding, Completion::Encoded, config, pass) == Action::Submit,
        reaction(FrameState::Submitted, Completion::Submitted, config, pass) == Action::Present,
        reaction(FrameState::Presented, Completion::Presented, config, pass) == Action::Nothing,
        frame_script(Completion::Acquired, config, pass) == seq![
            Action::Encode(pass),
            Action::Submit,
            Action::Present,
        ],
{
}

/// A frame whose texture was not acquired ends at once with the one
/// recovery for the error, and nothing is encoded, submitted or presented.
pub proof fn lemma_failed_acquisition_draws_nothing(
    error: SurfaceError,
    config: SurfaceConfiguration,
    pass: RenderPass,
)
    ensures
        after(FrameState::Acquiring, Completion::AcquireFailed(error)) == FrameState::Idle,
        reaction(FrameState::Acquiring, Completion::AcquireFailed(error), config, pass) == recovery(
            error,
            config,
        ),
        frame_script(Completion::AcquireFailed(error), config, pass) == seq![
            recovery(error, config),
        ],
        !(recovery(error, config) is Encode),
        recovery(error, config) != Action::Submit,
        recovery(error, config) != Action::Present,
        recovery(error, config) == Action::Exit <==> error == SurfaceError::OutOfMemory,
        recovery(error, config) is Configure <==> error == SurfaceError::Lost,
{
}

/// The host is asked to submit only once the pass is encoded, and to
/// present only once the command buffer is submitted.
pub proof fn lemma_submit_before_present(
    state: FrameState,
    completion: Completion,
    config: SurfaceConfiguration,
    pass: RenderPass,
)
    ensures
        reaction(state, completion, config, pass) == Action::Submit <==> state
            == FrameState::Encoding && completion == Completion::Encoded,
        reaction(state, completion, config, pass) == Action::Present <==> state
            == FrameState::Submitted && completion == Completion::Submitted,
        reaction(state, completion, config, pass) is Encode <==> state == FrameState::Acquiring
            && completion == Completion::Acquired,
{
}

/// A report that does not belong to the step under way changes nothing
/// and asks for nothing.
pub proof fn lemma_stray_report_is_ignored(
    state: FrameState,
    completion: Completion,
    config: SurfaceConfiguration,
    pass: RenderPass,
)
    requires
        !expects(state, completion),
    ensures
        after(state, completion) == state,
        reaction(state, completion, config, pass) == Action::Nothing,
{
}

} // verus!
