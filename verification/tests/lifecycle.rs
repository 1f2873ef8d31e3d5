use infolauncher::draw::{
    gpu_outcome, handle_closed, handle_key, surface_outcome, Action, Drawer, Event, Launcher,
    Phase, Status, CLOSE_KEY, HEIGHT, WIDTH,
};
use infolauncher::draw::vulkan::{
    CompositeAlpha, Extent, PhysicalDeviceInfo, QueueFamily, SurfaceCapabilities, VkSession,
    VkSessionError,
};
use infolauncher::draw::window::{LayerSurfaceEvent, Window, WindowError};
use infolauncher::draw::shader::ShaderModule;

fn sample_devices() -> Vec<PhysicalDeviceInfo> {
    vec![PhysicalDeviceInfo {
        queue_families: vec![
            QueueFamily { supports_graphics: false },
            QueueFamily { supports_graphics: true },
        ],
    }]
}

fn sample_caps() -> SurfaceCapabilities {
    SurfaceCapabilities {
        min_image_count: 2,
        current_extent: Some(Extent { width: 500, height: 500 }),
        supported_formats: vec![44, 50],
        supported_composite_alpha: vec![CompositeAlpha::Opaque, CompositeAlpha::Inherit],
        supported_usage_flags: 3,
    }
}

fn spawn_exact() -> Window {
    let mut status = Status::Running;
    Window::spawn(
        WIDTH,
        HEIGHT,
        0,
        0,
        LayerSurfaceEvent::Configure { width: WIDTH, height: HEIGHT, serial: 1 },
        &mut status,
    )
    .unwrap()
}

#[test]
fn granted_size_must_match_request() {
    let mut status = Status::Running;
    let r = Window::spawn(
        500,
        500,
        0,
        0,
        LayerSurfaceEvent::Configure { width: 512, height: 500, serial: 9 },
        &mut status,
    );
    assert_eq!(
        r,
        Err(WindowError::SizeMismatch {
            requested_width: 500,
            requested_height: 500,
            granted_width: 512,
            granted_height: 500,
        })
    );
}

#[test]
fn close_before_configure_is_fatal_and_sets_closing() {
    let mut status = Status::Running;
    let r = Window::spawn(500, 500, 0, 0, LayerSurfaceEvent::Closed, &mut status);
    assert_eq!(r, Err(WindowError::ClosedBeforeConfigure));
    assert_eq!(status, Status::Closing);
}

#[test]
fn missing_configure_acknowledgment_is_fatal() {
    let mut status = Status::Running;
    let r = Window::spawn(500, 500, 0, 0, LayerSurfaceEvent::Other, &mut status);
    assert_eq!(r, Err(WindowError::NoConfigure));
    assert_eq!(status, Status::Running);
}

#[test]
fn mismatch_aborts_before_any_gpu_step() {
    let mut l = Launcher::new();
    l.step(Event::ShadersChecked { vertex_present: true, fragment_present: true });
    assert!(matches!(l.next_action(), Action::SpawnSurface { .. }));
    // The failed negotiation, as the coordinator hears of it.
    let mut status = Status::Running;
    let r = Window::spawn(
        500,
        500,
        0,
        0,
        LayerSurfaceEvent::Configure { width: 512, height: 500, serial: 9 },
        &mut status,
    );
    assert_eq!(surface_outcome(&r), Event::SurfaceOutcome { ok: false });
    l.step(surface_outcome(&r));
    assert_eq!(l.phase, Phase::Aborted);
    // From here on, every action is the failing exit; no GPU step is asked for.
    for e in [Event::GpuOutcome { ok: true }, Event::FramePresented, Event::DispatchReturned] {
        assert_eq!(l.next_action(), Action::Exit { clean: false });
        l.step(e);
    }
    assert_eq!(l.next_action(), Action::Exit { clean: false });
}

#[test]
fn status_is_monotonic() {
    let mut status = Status::Running;
    handle_closed(&mut status);
    assert_eq!(status, Status::Closing);
    handle_key(&mut status, 30, true);
    handle_key(&mut status, CLOSE_KEY, false);
    handle_key(&mut status, CLOSE_KEY, true);
    assert_eq!(status, Status::Closing);

    let mut l = Launcher::new();
    l.step(Event::Closed);
    assert_eq!(l.status, Status::Closing);
    for e in [
        Event::Key { code: 30, pressed: true },
        Event::DispatchReturned,
        Event::FramePresented,
        Event::Key { code: CLOSE_KEY, pressed: false },
    ] {
        l.step(e);
        assert_eq!(l.status, Status::Closing);
    }
}

#[test]
fn device_index_out_of_range_fails_without_session() {
    let devices = sample_devices();
    let caps = sample_caps();
    let r = VkSession::initialize(1, spawn_exact(), &devices, &caps);
    assert_eq!(gpu_outcome(&r), Event::GpuOutcome { ok: false });
    assert_eq!(r, Err(VkSessionError::PhysicalDeviceIdNotFound(1)));
    let r = VkSession::initialize(7, spawn_exact(), &devices, &caps);
    assert_eq!(r, Err(VkSessionError::PhysicalDeviceIdNotFound(7)));
}

#[test]
fn session_selects_first_supported_choices() {
    let devices = sample_devices();
    let caps = sample_caps();
    let s = VkSession::initialize(0, spawn_exact(), &devices, &caps).unwrap();
    assert_eq!(s.physical_device_id, 0);
    assert_eq!(s.queue_family_id, 1);
    assert_eq!(s.swapchain.image_count, 2);
    assert_eq!(s.swapchain.format, 44);
    assert_eq!(s.swapchain.alpha, CompositeAlpha::Opaque);
    assert_eq!(s.swapchain.dimensions, Extent { width: 500, height: 500 });
    assert_eq!(s.images.len(), 2);
}

#[test]
fn extent_falls_back_to_default_without_current_extent() {
    let devices = sample_devices();
    let mut caps = sample_caps();
    caps.current_extent = None;
    let s = VkSession::initialize(0, spawn_exact(), &devices, &caps).unwrap();
    assert_eq!(s.swapchain.dimensions, Extent { width: WIDTH, height: HEIGHT });

    caps.current_extent = Some(Extent { width: 300, height: 200 });
    let s = VkSession::initialize(0, spawn_exact(), &devices, &caps).unwrap();
    assert_eq!(s.swapchain.dimensions, Extent { width: 300, height: 200 });
}

#[test]
fn framebuffer_count_equals_image_count() {
    let devices = sample_devices();
    for n in [1u32, 2, 3, 5] {
        let mut caps = sample_caps();
        caps.min_image_count = n;
        let mut s = VkSession::initialize(0, spawn_exact(), &devices, &caps).unwrap();
        let (framebuffers, render_pass) = s.new_framebuffers();
        assert_eq!(framebuffers.len(), s.images.len());
        assert_eq!(framebuffers.len(), n as usize);
        for (i, fb) in framebuffers.iter().enumerate() {
            assert_eq!(fb.image_index, i);
            assert_eq!(fb.render_pass, render_pass);
        }
        assert_eq!(render_pass.color.format, s.swapchain.format);
        assert_eq!(render_pass.color.samples, 1);
        let viewports = s.dynamic_state.viewports.unwrap();
        assert_eq!(viewports.len(), 1);
        assert_eq!(viewports[0].origin_x, 0);
        assert_eq!(viewports[0].origin_y, 0);
        assert_eq!(viewports[0].dimensions, s.swapchain.dimensions);
    }
}

#[test]
fn close_key_closes_exactly_once() {
    let mut status = Status::Running;
    handle_key(&mut status, CLOSE_KEY, true);
    assert_eq!(status, Status::Closing);
    handle_key(&mut status, CLOSE_KEY, true);
    assert_eq!(status, Status::Closing);

    let mut l = Launcher::new();
    l.step(Event::Key { code: CLOSE_KEY, pressed: true });
    let once = l;
    l.step(Event::Key { code: CLOSE_KEY, pressed: true });
    assert_eq!(l, once);
    assert_eq!(l.status, Status::Closing);
}

#[test]
fn other_keys_leave_status_running() {
    let mut status = Status::Running;
    handle_key(&mut status, 30, true);
    handle_key(&mut status, CLOSE_KEY, false);
    assert_eq!(status, Status::Running);
}

#[test]
fn missing_fragment_shader_aborts_before_connection() {
    let mut l = Launcher::new();
    assert_eq!(l.next_action(), Action::CheckShaders);
    l.step(Event::ShadersChecked { vertex_present: true, fragment_present: false });
    assert_eq!(l.phase, Phase::Aborted);
    // No continuation ever asks for a compositor connection.
    for e in [Event::SurfaceOutcome { ok: true }, Event::DispatchReturned, Event::Closed] {
        assert_eq!(l.next_action(), Action::Exit { clean: false });
        l.step(e);
        assert!(!matches!(l.next_action(), Action::SpawnSurface { .. }));
    }
}

#[test]
fn end_to_end_clean_shutdown() {
    // The coordinator walks the whole startup order.
    let mut l = Launcher::new();
    assert_eq!(l.next_action(), Action::CheckShaders);
    l.step(Event::ShadersChecked { vertex_present: true, fragment_present: true });
    assert_eq!(
        l.next_action(),
        Action::SpawnSurface { width: 500, height: 500, offset_top: 0, offset_left: 0 }
    );

    // The compositor grants exactly 500 x 500 at margin (0, 0).
    let mut status = Status::Running;
    let reply = LayerSurfaceEvent::Configure { width: 500, height: 500, serial: 3 };
    let devices = sample_devices();
    let caps = sample_caps();
    let mut drawer = Drawer::initialize(reply, &devices, &caps, &mut status);
    assert_eq!(status, Status::Running);
    assert_eq!(drawer.window().width, 500);
    assert_eq!(drawer.window().height, 500);
    l.step(Event::SurfaceOutcome { ok: true });
    assert_eq!(l.next_action(), Action::InitGpu { device_index: 0 });
    l.step(Event::GpuOutcome { ok: true });
    assert_eq!(l.next_action(), Action::SubmitFrame);

    // One frame for swapchain image 0: presented for image 0, clear + one
    // draw of the fixed three-vertex triangle.
    let vs = ShaderModule { code: vec![3, 2, 35, 7] };
    let fs = ShaderModule { code: vec![3, 2, 35, 7, 0] };
    let plan = drawer.test_draw(0, &vs, &fs);
    assert_eq!(plan.image_index, 0);
    assert_eq!(plan.present_image_index, 0);
    assert_eq!(plan.framebuffer.image_index, 0);
    assert_eq!(plan.vertices.len(), 3);
    assert_eq!(plan.draw_vertex_count, 3);
    l.step(Event::FramePresented);
    assert_eq!(l.next_action(), Action::Dispatch);

    // A compositor close event arrives during dispatch: the loop exits
    // within one cycle and the surface is destroyed.
    l.step(Event::Closed);
    assert_eq!(l.next_action(), Action::DestroyAndSync);
    let win = &mut drawer.vk.draw_surface.window;
    assert!(win.alive);
    win.destroy();
    assert!(!win.alive);
    l.step(Event::TeardownSynced);
    assert_eq!(l.next_action(), Action::Exit { clean: true });
}
