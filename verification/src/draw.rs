use vstd::prelude::*;
use vstd::pervasive::unreached;

pub mod shader;
pub mod vulkan;
pub mod window;

verus! {

/// Width, in pixels, requested for the presentation surface.
pub const WIDTH: u32 = 500;
/// Height, in pixels, requested for the presentation surface.
pub const HEIGHT: u32 = 500;
/// Scan code of the key (escape) whose press requests shutdown.
pub const CLOSE_KEY: u32 = 1;
/// The index the session selects among the enumerated physical devices.
pub const PHYSICAL_DEVICE_ID: usize = 0;

/// Whether the session is still serving frames or tearing down.
/// Monotonic: once `Closing`, never `Running` again.
#[derive(PartialEq, Eq, Structural, Clone, Copy, Debug)]
pub enum Status {
    Running,
    Closing,
}

impl Status {
    /// The status after a key event is delivered: a press of the close key
    /// moves to `Closing`; everything else leaves the status as it was.
    pub open spec fn spec_after_key(self, key: u32, pressed: bool) -> Status {
        if key == CLOSE_KEY && pressed {
            Status::Closing
        } else {
            self
        }
    }
}

/// Applies one keyboard key event to the shutdown status: a press of the
/// close key requests shutdown; no event ever moves the status back to
/// `Running`.
pub fn handle_key(status: &mut Status, key: u32, pressed: bool)
    ensures
        *final(status) == old(status).spec_after_key(key, pressed),
        *old(status) is Closing ==> *final(status) is Closing,
{
    if key == CLOSE_KEY && pressed {
        *status = Status::Closing;
    }
}

/// Applies a compositor-originated close notification: the status becomes
/// `Closing` whatever it was.
pub fn handle_closed(status: &mut Status)
    ensures
        *final(status) is Closing,
{
    *status = Status::Closing;
}

/// The clear color of a frame, each channel in thousandths of the unit
/// intensity range: opaque yellow.
#[derive(PartialEq, Eq, Structural, Clone, Copy, Debug)]
pub struct ClearColor {
    pub r_milli: u32,
    pub g_milli: u32,
    pub b_milli: u32,
    pub a_milli: u32,
}

/// How the vertex stream is assembled into primitives.
#[derive(PartialEq, Eq, Structural, Clone, Copy, Debug)]
pub enum Topology {
    TriangleList,
}

/// A graphics pipeline: the two shader entry points, the primitive
/// topology, the render pass and subpass it draws into, and the number of
/// viewports supplied dynamically at draw time.
#[derive(PartialEq, Eq, Structural, Clone, Copy, Debug)]
pub struct Pipeline {
    pub vertex_entry: shader::GraphicsEntryPoint,
    pub fragment_entry: shader::GraphicsEntryPoint,
    pub topology: Topology,
    pub dynamic_viewport_count: u32,
    pub render_pass: vulkan::RenderPass,
    pub subpass: u32,
}

/// One recorded and submitted frame: which swapchain image it renders to
/// and presents, the clear color, the uploaded vertices, the pipeline, and
/// the framebuffer the render pass begins on.
#[derive(PartialEq, Eq, Clone, Debug)]
pub struct FramePlan {
    pub image_index: usize,
    pub clear: ClearColor,
    pub vertices: Vec<shader::Vertex>,
    pub pipeline: Pipeline,
    pub framebuffer: vulkan::Framebuffer,
    pub draw_vertex_count: usize,
    pub present_image_index: usize,
}

/// The fixed three-vertex triangle uploaded each frame, all vertices in the
/// same grey.
pub open spec fn spec_triangle_vertices() -> Seq<shader::Vertex> {
    seq![
        shader::Vertex {
            position: shader::PositionMilli { x: -500i32, y: -250i32 },
            color: shader::ColorMilli { r: 200, g: 200, b: 200 },
        },
        shader::Vertex {
            position: shader::PositionMilli { x: 0, y: 500 },
            color: shader::ColorMilli { r: 200, g: 200, b: 200 },
        },
        shader::Vertex {
            position: shader::PositionMilli { x: 250i32, y: -100i32 },
            color: shader::ColorMilli { r: 200, g: 200, b: 200 },
        },
    ]
}

/// The clear color every frame begins with.
pub open spec fn spec_clear_color() -> ClearColor {
    ClearColor { r_milli: 1000, g_milli: 1000, b_milli: 0, a_milli: 1000 }
}

/// The drawing stack: the bound GPU session, which owns the negotiated
/// compositor surface.
#[derive(PartialEq, Eq, Clone, Debug)]
pub struct Drawer {
    pub vk: vulkan::VkSession,
}

impl Drawer {
    /// Brings the whole stack up: negotiates the fixed-size surface with the
    /// compositor and binds the GPU session to it, selecting the fixed
    /// physical-device index. The compositor's configure reply and the
    /// driver's answers arrive as arguments; the preconditions say exactly
    /// when this succeeds, and the callers at the process edge abort on
    /// anything else, as a failed initialization is fatal.
    pub fn initialize(
        reply: window::LayerSurfaceEvent,
        devices: &Vec<vulkan::PhysicalDeviceInfo>,
        caps: &vulkan::SurfaceCapabilities,
        status: &mut Status,
    ) -> (r: Drawer)
        requires
            reply matches window::LayerSurfaceEvent::Configure { width, height, .. }
                && width == WIDTH && height == HEIGHT,
            PHYSICAL_DEVICE_ID < devices@.len(),
            vulkan::spec_has_graphics_family(devices@[PHYSICAL_DEVICE_ID as int]),
            caps.supported_formats@.len() > 0,
            caps.supported_composite_alpha@.len() > 0,
        ensures
            r.vk.wf(),
            r.vk.physical_device_id == PHYSICAL_DEVICE_ID,
            vulkan::spec_is_first_graphics_family(
                devices@[PHYSICAL_DEVICE_ID as int],
                r.vk.queue_family_id as int,
            ),
            r.vk.draw_surface.window.width == WIDTH,
            r.vk.draw_surface.window.height == HEIGHT,
            r.vk.draw_surface.window.offset_top == 0,
            r.vk.draw_surface.window.offset_left == 0,
            r.vk.swapchain.image_count == caps.min_image_count,
            r.vk.images@.len() == caps.min_image_count,
            r.vk.swapchain.format == caps.supported_formats@[0],
            r.vk.swapchain.dimensions == vulkan::spec_chosen_extent(*caps),
            r.vk.swapchain.alpha == caps.supported_composite_alpha@[0],
            r.vk.swapchain.present_mode is Fifo,
            *final(status) == *old(status),
    {
        let win = match window::Window::spawn(WIDTH, HEIGHT, 0, 0, reply, status) {
            Ok(w) => w,
            Err(_) => unreached(),
        };
        let vk = match vulkan::VkSession::initialize(PHYSICAL_DEVICE_ID, win, devices, caps) {
            Ok(s) => s,
            Err(_) => unreached(),
        };
        Drawer { vk }
    }

    /// The compositor surface under the session's presentation surface.
    pub fn window(&self) -> (r: &window::Window)
        ensures
            *r == self.vk.draw_surface.window,
    {
        self.vk.draw_surface.window()
    }

    /// Records and submits one frame for the acquired swapchain image: the
    /// render targets are built, the pipeline is assembled from the two
    /// shader entry points with triangle-list topology, dynamic viewports
    /// and subpass 0, and one render pass (clear, then a single non-indexed
    /// draw of the fixed triangle) is recorded on the framebuffer of the
    /// acquired image, submitted, and presented for that same image. The
    /// acquire itself blocks on the presentation engine, so its result
    /// arrives here as `image_num`.
    pub fn test_draw(
        &mut self,
        image_num: usize,
        vs: &shader::ShaderModule,
        fs: &shader::ShaderModule,
    ) -> (plan: FramePlan)
        requires
            old(self).vk.wf(),
            image_num < old(self).vk.images@.len(),
        ensures
            final(self).vk.wf(),
            plan.image_index == image_num,
            plan.present_image_index == image_num,
            plan.clear == spec_clear_color(),
            plan.vertices@ =~= spec_triangle_vertices(),
            plan.draw_vertex_count == spec_triangle_vertices().len(),
            plan.framebuffer.image_index == image_num,
            plan.framebuffer.render_pass == plan.pipeline.render_pass,
            plan.pipeline.render_pass.color == (vulkan::AttachmentDesc {
                load: vulkan::LoadOp::Clear,
                store: vulkan::StoreOp::Store,
                format: old(self).vk.swapchain.format,
                samples: 1,
            }),
            plan.pipeline.vertex_entry.shader_type is Vertex,
            plan.pipeline.fragment_entry.shader_type is Fragment,
            plan.pipeline.topology is TriangleList,
            plan.pipeline.dynamic_viewport_count == 1,
            plan.pipeline.subpass == 0,
            final(self).vk.dynamic_state.viewports matches Some(v) && v@ =~= seq![
                vulkan::Viewport {
                    origin_x: 0,
                    origin_y: 0,
                    dimensions: old(self).vk.swapchain.dimensions,
                    depth_min_milli: 0,
                    depth_max_milli: 1000,
                },
            ],
            final(self).vk.images == old(self).vk.images,
            final(self).vk.swapchain == old(self).vk.swapchain,
            final(self).vk.draw_surface == old(self).vk.draw_surface,
    {
        let clear = ClearColor { r_milli: 1000, g_milli: 1000, b_milli: 0, a_milli: 1000 };

        let mut vertices: Vec<shader::Vertex> = Vec::new();
        vertices.push(shader::Vertex {
            position: shader::PositionMilli { x: -500, y: -250 },
            color: shader::ColorMilli { r: 200, g: 200, b: 200 },
        });
        vertices.push(shader::Vertex {
            position: shader::PositionMilli { x: 0, y: 500 },
            color: shader::ColorMilli { r: 200, g: 200, b: 200 },
        });
        vertices.push(shader::Vertex {
            position: shader::PositionMilli { x: 250, y: -100 },
            color: shader::ColorMilli { r: 200, g: 200, b: 200 },
        });

        let (framebuffers, render_pass) = self.vk.new_framebuffers();

        let pipeline = Pipeline {
            vertex_entry: shader::get_entry_vertex(vs),
            fragment_entry: shader::get_entry_fragment(fs),
            topology: Topology::TriangleList,
            dynamic_viewport_count: 1,
            render_pass,
            subpass: 0,
        };

        let framebuffer = framebuffers[image_num];
        let draw_vertex_count = vertices.len();

        FramePlan {
            image_index: image_num,
            clear,
            vertices,
            pipeline,
            framebuffer,
            draw_vertex_count,
            present_image_index: image_num,
        }
    }
}

/// Where the coordinator stands in the session's life.
#[derive(PartialEq, Eq, Structural, Clone, Copy, Debug)]
pub enum Phase {
    /// Nothing has happened yet.
    Boot,
    /// Both shader binaries were found on disk.
    ShadersOk,
    /// The compositor surface is negotiated and committed.
    SurfaceUp,
    /// The GPU session is bound to the surface.
    GpuUp,
    /// A frame is presented and the event loop is pumping the connection.
    Looping,
    /// The surface is destroyed and the final round-trip is done.
    TornDown,
    /// A fatal initialization error; nothing further is started.
    Aborted,
}

/// What the process edge reports back to the coordinator.
#[derive(PartialEq, Eq, Structural, Clone, Copy, Debug)]
pub enum Event {
    /// Whether each precompiled shader binary exists on disk.
    ShadersChecked { vertex_present: bool, fragment_present: bool },
    /// Whether the compositor surface came up (configured with the exact
    /// requested size, and committed).
    SurfaceOutcome { ok: bool },
    /// Whether the GPU session came up.
    GpuOutcome { ok: bool },
    /// The first frame was submitted and handed to the presentation engine.
    FramePresented,
    /// A keyboard key event, delivered during dispatch.
    Key { code: u32, pressed: bool },
    /// The compositor asked the surface to close, delivered during dispatch.
    Closed,
    /// One blocking dispatch cycle returned.
    DispatchReturned,
    /// The surface was destroyed and the final round-trip completed.
    TeardownSynced,
}

/// What the coordinator asks the process edge to do next. `SpawnSurface` is
/// the only action that opens a compositor connection, and `InitGpu` the
/// only one that creates any GPU resource.
#[derive(PartialEq, Eq, Structural, Clone, Copy, Debug)]
pub enum Action {
    /// Test that both shader binaries exist on disk.
    CheckShaders,
    /// Connect to the compositor and negotiate the surface.
    SpawnSurface { width: u32, height: u32, offset_top: i32, offset_left: i32 },
    /// Bind the GPU session to the surface.
    InitGpu { device_index: usize },
    /// Record, submit and present one frame.
    SubmitFrame,
    /// Block until compositor traffic arrives and dispatch it.
    Dispatch,
    /// Destroy the surface and flush the destroy request with one final
    /// round-trip.
    DestroyAndSync,
    /// End the process: with code zero if the shutdown was clean, non-zero
    /// after a fatal initialization error.
    Exit { clean: bool },
}

/// The shutdown coordinator and startup sequencer: the single thread of
/// control that alternates between asking the process edge for one step and
/// folding the step's outcome back in.
#[derive(PartialEq, Eq, Structural, Clone, Copy, Debug)]
pub struct Launcher {
    pub phase: Phase,
    pub status: Status,
}

/// The coordinator before anything has happened.
pub open spec fn spec_initial() -> Launcher {
    Launcher { phase: Phase::Boot, status: Status::Running }
}

/// The status after an event: key and close events move it as the handlers
/// do; no event moves it back to `Running`.
pub open spec fn spec_status_after(s: Status, e: Event) -> Status {
    match e {
        Event::Key { code, pressed } => s.spec_after_key(code, pressed),
        Event::Closed => Status::Closing,
        _ => s,
    }
}

/// The phase after an event. A failed startup step aborts; `Aborted` and
/// `TornDown` are terminal; an event that does not belong to the phase is
/// ignored, as unrecognized protocol traffic is.
pub open spec fn spec_phase_after(s: Launcher, e: Event) -> Phase {
    match (s.phase, e) {
        (Phase::Boot, Event::ShadersChecked { vertex_present, fragment_present }) => {
            if vertex_present && fragment_present {
                Phase::ShadersOk
            } else {
                Phase::Aborted
            }
        },
        (Phase::ShadersOk, Event::SurfaceOutcome { ok }) => {
            if ok {
                Phase::SurfaceUp
            } else {
                Phase::Aborted
            }
        },
        (Phase::SurfaceUp, Event::GpuOutcome { ok }) => {
            if ok {
                Phase::GpuUp
            } else {
                Phase::Aborted
            }
        },
        (Phase::GpuUp, Event::FramePresented) => Phase::Looping,
        (Phase::Looping, Event::TeardownSynced) => {
            if spec_status_after(s.status, e) is Closing {
                Phase::TornDown
            } else {
                Phase::Looping
            }
        },
        _ => s.phase,
    }
}

/// One step of the coordinator: the event moves the status and the phase.
pub open spec fn spec_step(s: Launcher, e: Event) -> Launcher {
    Launcher { phase: spec_phase_after(s, e), status: spec_status_after(s.status, e) }
}

/// The coordinator after a whole sequence of events, first event first.
pub open spec fn spec_run(s: Launcher, events: Seq<Event>) -> Launcher
    decreases events.len(),
{
    if events.len() == 0 {
        s
    } else {
        spec_run(spec_step(s, events[0]), events.skip(1))
    }
}

/// What the coordinator asks for in each state: the startup steps in order;
/// once looping, dispatch until the status is `Closing`, then the ordered
/// teardown; after teardown or an abort, the exit.
pub open spec fn spec_next_action(s: Launcher) -> Action {
    match s.phase {
        Phase::Boot => Action::CheckShaders,
        Phase::ShadersOk => Action::SpawnSurface {
            width: WIDTH,
            height: HEIGHT,
            offset_top: 0,
            offset_left: 0,
        },
        Phase::SurfaceUp => Action::InitGpu { device_index: PHYSICAL_DEVICE_ID },
        Phase::GpuUp => Action::SubmitFrame,
        Phase::Looping => if s.status is Closing {
            Action::DestroyAndSync
        } else {
            Action::Dispatch
        },
        Phase::TornDown => Action::Exit { clean: true },
        Phase::Aborted => Action::Exit { clean: false },
    }
}

impl Launcher {
    /// The coordinator before anything has happened.
    pub fn new() -> (r: Launcher)
        ensures
            r == spec_initial(),
    {
        Launcher { phase: Phase::Boot, status: Status::Running }
    }

    /// Folds one outcome back into the coordinator.
    pub fn step(&mut self, e: Event)
        ensures
            *final(self) == spec_step(*old(self), e),
    {
        match e {
            Event::Key { code, pressed } => handle_key(&mut self.status, code, pressed),
            Event::Closed => handle_closed(&mut self.status),
            _ => (),
        }
        match (self.phase, e) {
            (Phase::Boot, Event::ShadersChecked { vertex_present, fragment_present }) => {
                self.phase = if vertex_present && fragment_present {
                    Phase::ShadersOk
                } else {
                    Phase::Aborted
                };
            },
            (Phase::ShadersOk, Event::SurfaceOutcome { ok }) => {
                self.phase = if ok {
                    Phase::SurfaceUp
                } else {
                    Phase::Aborted
                };
            },
            (Phase::SurfaceUp, Event::GpuOutcome { ok }) => {
                self.phase = if ok {
                    Phase::GpuUp
                } else {
                    Phase::Aborted
                };
            },
            (Phase::GpuUp, Event::FramePresented) => {
                self.phase = Phase::Looping;
            },
            (Phase::Looping, Event::TeardownSynced) => {
                if self.status == Status::Closing {
                    self.phase = Phase::TornDown;
                }
            },
            _ => (),
        }
    }

    /// What the process edge should do next.
    pub fn next_action(&self) -> (a: Action)
        ensures
            a == spec_next_action(*self),
    {
        match self.phase {
            Phase::Boot => Action::CheckShaders,
            Phase::ShadersOk => Action::SpawnSurface {
                width: WIDTH,
                height: HEIGHT,
                offset_top: 0,
                offset_left: 0,
            },
            Phase::SurfaceUp => Action::InitGpu { device_index: PHYSICAL_DEVICE_ID },
            Phase::GpuUp => Action::SubmitFrame,
            Phase::Looping => if self.status == Status::Closing {
                Action::DestroyAndSync
            } else {
                Action::Dispatch
            },
            Phase::TornDown => Action::Exit { clean: true },
            Phase::Aborted => Action::Exit { clean: false },
        }
    }
}

/// The coordinator event that reports a surface negotiation's outcome: the
/// surface either came up whole or it did not.
pub fn surface_outcome(r: &Result<window::Window, window::WindowError>) -> (e: Event)
    ensures
        e == (Event::SurfaceOutcome { ok: r is Ok }),
{
    Event::SurfaceOutcome { ok: r.is_ok() }
}

/// The coordinator event that reports a GPU session initialization's
/// outcome: the session either came up whole or it did not.
pub fn gpu_outcome(r: &Result<vulkan::VkSession, vulkan::VkSessionError>) -> (e: Event)
    ensures
        e == (Event::GpuOutcome { ok: r is Ok }),
{
    Event::GpuOutcome { ok: r.is_ok() }
}

/// Law: the shutdown status is monotonic under every single event; once
/// `Closing`, no event observes `Running` again.
pub proof fn lemma_status_monotonic_step(s: Launcher, e: Event)
    ensures
        s.status is Closing ==> spec_step(s, e).status is Closing,
{
}

/// Law: the shutdown status is monotonic over every event sequence; once
/// `Closing`, the coordinator stays `Closing` for the rest of the process's
/// life, whatever arrives.
pub proof fn lemma_status_monotonic(s: Launcher, events: Seq<Event>)
    requires
        s.status is Closing,
    ensures
        spec_run(s, events).status is Closing,
    decreases events.len(),
{
    if events.len() > 0 {
        lemma_status_monotonic(spec_step(s, events[0]), events.skip(1));
    }
}

/// Law: a press of the close key moves the status to `Closing` exactly once:
/// the first delivery moves it there, and every repeated delivery leaves the
/// whole coordinator state unchanged.
pub proof fn lemma_close_key_once(s: Launcher)
    ensures
        spec_step(s, Event::Key { code: CLOSE_KEY, pressed: true }).status is Closing,
        spec_step(
            spec_step(s, Event::Key { code: CLOSE_KEY, pressed: true }),
            Event::Key { code: CLOSE_KEY, pressed: true },
        ) == spec_step(s, Event::Key { code: CLOSE_KEY, pressed: true }),
{
}

/// Law: `Aborted` is terminal; whatever else arrives, the coordinator's
/// phase stays `Aborted`, so its next action is always the failing exit.
pub proof fn lemma_aborted_is_terminal(s: Launcher, events: Seq<Event>)
    requires
        s.phase is Aborted,
    ensures
        spec_run(s, events).phase is Aborted,
        spec_next_action(spec_run(s, events)) == (Action::Exit { clean: false }),
    decreases events.len(),
{
    if events.len() > 0 {
        lemma_aborted_is_terminal(spec_step(s, events[0]), events.skip(1));
    }
}

/// Law: when a shader binary is missing at startup, the coordinator aborts
/// before any compositor connection is opened: the check's outcome moves it
/// straight to `Aborted`, and from there no continuation ever has
/// `SpawnSurface` (the only action that opens a connection) as its next
/// action.
pub proof fn lemma_missing_shader_aborts_before_connection(
    vertex_present: bool,
    fragment_present: bool,
    events: Seq<Event>,
)
    requires
        !vertex_present || !fragment_present,
    ensures
        ({
            let s1 = spec_step(
                spec_initial(),
                Event::ShadersChecked { vertex_present, fragment_present },
            );
            &&& s1.phase is Aborted
            &&& forall|i: int|
                0 <= i <= events.len() ==> !(spec_next_action(
                    #[trigger] spec_run(s1, events.take(i)),
                ) matches Action::SpawnSurface { .. })
        }),
{
    let s1 = spec_step(spec_initial(), Event::ShadersChecked { vertex_present, fragment_present });
    assert forall|i: int|
        0 <= i <= events.len() implies !(spec_next_action(
        #[trigger] spec_run(s1, events.take(i)),
    ) matches Action::SpawnSurface { .. }) by {
        lemma_aborted_is_terminal(s1, events.take(i));
    }
}

/// Law: when the compositor grants a size other than the requested one, the
/// surface does not come up, the coordinator aborts, and no GPU resource is
/// ever created: from the failed outcome on, no continuation ever has
/// `InitGpu` or `SubmitFrame` as its next action.
pub proof fn lemma_size_mismatch_aborts_before_gpu(s: Launcher, events: Seq<Event>)
    requires
        s.phase is ShadersOk,
    ensures
        ({
            let s1 = spec_step(s, Event::SurfaceOutcome { ok: false });
            &&& s1.phase is Aborted
            &&& forall|i: int|
                0 <= i <= events.len() ==> {
                    let a = spec_next_action(#[trigger] spec_run(s1, events.take(i)));
                    !(a matches Action::InitGpu { .. }) && a != Action::SubmitFrame
                }
        }),
{
    let s1 = spec_step(s, Event::SurfaceOutcome { ok: false });
    assert forall|i: int|
        0 <= i <= events.len() implies ({
        let a = spec_next_action(#[trigger] spec_run(s1, events.take(i)));
        !(a matches Action::InitGpu { .. }) && a != Action::SubmitFrame
    }) by {
        lemma_aborted_is_terminal(s1, events.take(i));
    }
}

/// Law: the event loop exits within one dispatch cycle of shutdown being
/// requested: once the status is `Closing`, the next action after any
/// dispatch return is the ordered teardown, and after the teardown syncs,
/// the clean exit.
pub proof fn lemma_closing_exits_loop(s: Launcher)
    requires
        s.phase is Looping,
        s.status is Closing,
    ensures
        spec_next_action(s) == Action::DestroyAndSync,
        spec_next_action(spec_step(s, Event::TeardownSynced)) == (Action::Exit { clean: true }),
{
}

} // verus!
