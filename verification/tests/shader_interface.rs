use infolauncher::draw::vulkan::{
    CompositeAlpha, Extent, LoadOp, PhysicalDeviceInfo, QueueFamily, StoreOp,
    SurfaceCapabilities, VkSession,
};
use infolauncher::draw::window::{LayerSurfaceEvent, Window};
use infolauncher::draw::{Drawer, Status, Topology};
use infolauncher::draw::shader::{
    get_entry_fragment, get_entry_vertex, Format, FragInput, FragLayout, FragOutput,
    GraphicsShaderType, InterfaceName, ShaderModule, ShaderStages, VertInput, VertLayout,
    VertOutput,
};

#[test]
fn vertex_input_elements_in_order() {
    let mut it = VertInput.elements();
    assert_eq!(it.size_hint(), (2, Some(2)));
    let color = it.next().unwrap();
    assert_eq!(color.location_start, 1);
    assert_eq!(color.location_end, 2);
    assert_eq!(color.format, Format::R32G32B32Sfloat);
    assert_eq!(color.name, Some(InterfaceName::Color));
    assert_eq!(it.size_hint(), (1, Some(1)));
    let position = it.next().unwrap();
    assert_eq!(position.location_start, 0);
    assert_eq!(position.location_end, 1);
    assert_eq!(position.format, Format::R32G32Sfloat);
    assert_eq!(position.name, Some(InterfaceName::Position));
    assert_eq!(it.size_hint(), (0, Some(0)));
    assert_eq!(it.next(), None);
    assert_eq!(it.next(), None);
}

#[test]
fn vertex_output_feeds_fragment_input() {
    let mut out = VertOutput.elements();
    assert_eq!(out.size_hint(), (1, Some(1)));
    let v_color = out.next().unwrap();
    assert_eq!(v_color.location_start, 0);
    assert_eq!(v_color.location_end, 1);
    assert_eq!(v_color.format, Format::R32G32B32Sfloat);
    assert_eq!(v_color.name, Some(InterfaceName::VColor));
    assert_eq!(out.next(), None);

    let mut inp = FragInput.elements();
    let consumed = inp.next().unwrap();
    assert_eq!(consumed, v_color);
    assert_eq!(inp.next(), None);
    assert_eq!(inp.size_hint(), (0, Some(0)));
}

#[test]
fn fragment_output_is_one_rgba_color() {
    let mut out = FragOutput.elements();
    assert_eq!(out.size_hint(), (1, Some(1)));
    let f_color = out.next().unwrap();
    assert_eq!(f_color.location_start, 0);
    assert_eq!(f_color.location_end, 1);
    assert_eq!(f_color.format, Format::R32G32B32A32Sfloat);
    assert_eq!(f_color.name, Some(InterfaceName::FColor));
    assert_eq!(out.next(), None);
}

#[test]
fn layouts_declare_no_sets_and_no_push_constants() {
    let vl = VertLayout(ShaderStages { vertex: true, ..ShaderStages::none() });
    assert_eq!(vl.num_sets(), 0);
    assert_eq!(vl.num_bindings_in_set(0), None);
    assert_eq!(vl.descriptor(0, 0), None);
    assert_eq!(vl.num_push_constants_ranges(), 0);
    assert_eq!(vl.push_constants_range(0), None);

    let fl = FragLayout(ShaderStages { fragment: true, ..ShaderStages::none() });
    assert_eq!(fl.num_sets(), 0);
    assert_eq!(fl.num_bindings_in_set(1), None);
    assert_eq!(fl.descriptor(1, 2), None);
    assert_eq!(fl.num_push_constants_ranges(), 0);
    assert_eq!(fl.push_constants_range(3), None);
}

#[test]
fn entry_points_cover_their_stage_alone() {
    let module = ShaderModule { code: vec![3, 2, 35, 7] };
    let v = get_entry_vertex(&module);
    assert_eq!(v.shader_type, GraphicsShaderType::Vertex);
    assert!(v.stages.vertex);
    assert!(!v.stages.fragment);
    assert_eq!(v.input_len, 2);
    assert_eq!(v.output_len, 1);

    let f = get_entry_fragment(&module);
    assert_eq!(f.shader_type, GraphicsShaderType::Fragment);
    assert!(f.stages.fragment);
    assert!(!f.stages.vertex);
    assert_eq!(f.input_len, 1);
    assert_eq!(f.output_len, 1);
}

#[test]
fn frame_plan_records_triangle_and_clear() {
    let mut status = Status::Running;
    let win = Window::spawn(
        500,
        500,
        0,
        0,
        LayerSurfaceEvent::Configure { width: 500, height: 500, serial: 2 },
        &mut status,
    )
    .unwrap();
    let devices = vec![PhysicalDeviceInfo {
        queue_families: vec![QueueFamily { supports_graphics: true }],
    }];
    let caps = SurfaceCapabilities {
        min_image_count: 3,
        current_extent: Some(Extent { width: 500, height: 500 }),
        supported_formats: vec![37],
        supported_composite_alpha: vec![CompositeAlpha::PostMultiplied],
        supported_usage_flags: 1,
    };
    let vk = VkSession::initialize(0, win, &devices, &caps).unwrap();
    let mut drawer = Drawer { vk };
    let vs = ShaderModule { code: vec![3, 2, 35, 7] };
    let fs = ShaderModule { code: vec![3, 2, 35, 7, 1] };
    let plan = drawer.test_draw(2, &vs, &fs);

    assert_eq!(plan.image_index, 2);
    assert_eq!(plan.present_image_index, 2);
    assert_eq!(plan.framebuffer.image_index, 2);
    assert_eq!(plan.clear.r_milli, 1000);
    assert_eq!(plan.clear.g_milli, 1000);
    assert_eq!(plan.clear.b_milli, 0);
    assert_eq!(plan.clear.a_milli, 1000);
    assert_eq!(plan.vertices.len(), 3);
    assert_eq!(plan.vertices[0].position.x, -500);
    assert_eq!(plan.vertices[0].position.y, -250);
    assert_eq!(plan.vertices[1].position.x, 0);
    assert_eq!(plan.vertices[1].position.y, 500);
    assert_eq!(plan.vertices[2].position.x, 250);
    assert_eq!(plan.vertices[2].position.y, -100);
    for v in &plan.vertices {
        assert_eq!((v.color.r, v.color.g, v.color.b), (200, 200, 200));
    }
    assert_eq!(plan.pipeline.topology, Topology::TriangleList);
    assert_eq!(plan.pipeline.dynamic_viewport_count, 1);
    assert_eq!(plan.pipeline.subpass, 0);
    assert_eq!(plan.pipeline.render_pass.color.load, LoadOp::Clear);
    assert_eq!(plan.pipeline.render_pass.color.store, StoreOp::Store);
    assert_eq!(plan.pipeline.render_pass.color.format, 37);
    assert_eq!(plan.pipeline.render_pass.color.samples, 1);
    assert_eq!(plan.pipeline.vertex_entry.shader_type, GraphicsShaderType::Vertex);
    assert_eq!(plan.pipeline.fragment_entry.shader_type, GraphicsShaderType::Fragment);
    assert_eq!(plan.framebuffer.render_pass, plan.pipeline.render_pass);
}
