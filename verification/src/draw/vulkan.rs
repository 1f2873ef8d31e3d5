use vstd::prelude::*;
use crate::draw::window::Window;

verus! {

/// One queue family advertised by a physical device.
#[derive(PartialEq, Eq, Structural, Clone, Copy, Debug)]
pub struct QueueFamily {
    /// Whether queues of this family accept graphics work.
    pub supports_graphics: bool,
}

/// What the driver reports of one physical device: its queue families, in
/// enumeration order.
#[derive(PartialEq, Eq, Clone, Debug)]
pub struct PhysicalDeviceInfo {
    pub queue_families: Vec<QueueFamily>,
}

/// How a swapchain image may blend with what is behind it. The driver
/// reports which of these the surface supports.
#[derive(PartialEq, Eq, Structural, Clone, Copy, Debug)]
pub enum CompositeAlpha {
    Opaque,
    PreMultiplied,
    PostMultiplied,
    Inherit,
}

/// How presentation requests are ordered against the display's refresh.
#[derive(PartialEq, Eq, Structural, Clone, Copy, Debug)]
pub enum PresentMode {
    Immediate,
    Mailbox,
    Fifo,
    Relaxed,
}

/// A transform the presentation engine applies to the image.
#[derive(PartialEq, Eq, Structural, Clone, Copy, Debug)]
pub enum SurfaceTransform {
    Identity,
}

/// The color space the presentation engine interprets images in.
#[derive(PartialEq, Eq, Structural, Clone, Copy, Debug)]
pub enum ColorSpace {
    SrgbNonLinear,
}

/// A width and height, in pixels.
#[derive(PartialEq, Eq, Structural, Clone, Copy, Debug)]
pub struct Extent {
    pub width: u32,
    pub height: u32,
}

/// What the driver reports of the presentation surface: the least image
/// count a swapchain may have, the current extent if the compositor fixed
/// one, and the supported formats (as driver format codes), composite-alpha
/// modes, and image-usage flag bits, each in the driver's order.
#[derive(PartialEq, Eq, Clone, Debug)]
pub struct SurfaceCapabilities {
    pub min_image_count: u32,
    pub current_extent: Option<Extent>,
    pub supported_formats: Vec<u32>,
    pub supported_composite_alpha: Vec<CompositeAlpha>,
    pub supported_usage_flags: u32,
}

/// Everything a swapchain is created with.
#[derive(PartialEq, Eq, Clone, Debug)]
pub struct SwapchainConfig {
    pub image_count: u32,
    pub format: u32,
    pub dimensions: Extent,
    pub layers: u32,
    pub usage_flags: u32,
    pub transform: SurfaceTransform,
    pub alpha: CompositeAlpha,
    pub present_mode: PresentMode,
    pub clipped: bool,
    pub color_space: ColorSpace,
}

/// One presentable image of the swapchain's ring, named by its position.
#[derive(PartialEq, Eq, Structural, Clone, Copy, Debug)]
pub struct SwapchainImage {
    pub index: usize,
}

/// The presentation surface the GPU renders to; it wraps the negotiated
/// compositor surface, whose native handles the driver binds to.
#[derive(PartialEq, Eq, Clone, Debug)]
pub struct DrawSurface {
    pub window: Window,
}

impl DrawSurface {
    /// The compositor surface this presentation surface was built over.
    pub fn window(&self) -> (r: &Window)
        ensures
            *r == self.window,
    {
        &self.window
    }
}

/// A viewport, in pixels; depth bounds are in thousandths of the unit range.
#[derive(PartialEq, Eq, Structural, Clone, Copy, Debug)]
pub struct Viewport {
    pub origin_x: u32,
    pub origin_y: u32,
    pub dimensions: Extent,
    pub depth_min_milli: u32,
    pub depth_max_milli: u32,
}

/// Pipeline state supplied at draw time rather than baked into the pipeline.
#[derive(PartialEq, Eq, Clone, Debug)]
pub struct DynamicState {
    pub line_width: Option<u32>,
    pub viewports: Option<Vec<Viewport>>,
    pub scissors: Option<Vec<Viewport>>,
}

/// What a render pass does with an attachment's contents on load.
#[derive(PartialEq, Eq, Structural, Clone, Copy, Debug)]
pub enum LoadOp {
    Clear,
    Load,
    DontCare,
}

/// What a render pass does with an attachment's contents on store.
#[derive(PartialEq, Eq, Structural, Clone, Copy, Debug)]
pub enum StoreOp {
    Store,
    DontCare,
}

/// One color attachment of a render pass.
#[derive(PartialEq, Eq, Structural, Clone, Copy, Debug)]
pub struct AttachmentDesc {
    pub load: LoadOp,
    pub store: StoreOp,
    pub format: u32,
    pub samples: u32,
}

/// A single-subpass render pass with one color attachment and no
/// depth/stencil attachment.
#[derive(PartialEq, Eq, Structural, Clone, Copy, Debug)]
pub struct RenderPass {
    pub color: AttachmentDesc,
}

/// A render target: one swapchain image bound as the color attachment of a
/// render pass. It references the image, it does not own it.
#[derive(PartialEq, Eq, Structural, Clone, Copy, Debug)]
pub struct Framebuffer {
    pub render_pass: RenderPass,
    pub image_index: usize,
}

/// Why a GPU session could not be initialized.
#[derive(PartialEq, Eq, Clone, Debug)]
pub enum VkSessionError {
    /// The caller-supplied device index lies outside the enumerated range.
    PhysicalDeviceIdNotFound(usize),
    /// Any other failure, wrapped with its cause.
    Todo(String),
}

/// A bound GPU session: the selected device and queue family, the
/// presentation surface, the swapchain it feeds, and the swapchain's images.
#[derive(PartialEq, Eq, Clone, Debug)]
pub struct VkSession {
    pub physical_device_id: usize,
    pub queue_family_id: usize,
    pub draw_surface: DrawSurface,
    pub swapchain: SwapchainConfig,
    pub images: Vec<SwapchainImage>,
    pub dynamic_state: DynamicState,
}

/// Whether `i` is the first queue family of `d` that supports graphics.
pub open spec fn spec_is_first_graphics_family(d: PhysicalDeviceInfo, i: int) -> bool {
    &&& 0 <= i < d.queue_families@.len()
    &&& d.queue_families@[i].supports_graphics
    &&& forall|j: int| 0 <= j < i ==> !d.queue_families@[j].supports_graphics
}

/// Whether some queue family of `d` supports graphics.
pub open spec fn spec_has_graphics_family(d: PhysicalDeviceInfo) -> bool {
    exists|i: int| 0 <= i < d.queue_families@.len() && d.queue_families@[i].supports_graphics
}

/// Picks the first queue family of `device` that advertises graphics
/// support, in enumeration order, or reports that none does.
pub fn find_graphics_queue_family(device: &PhysicalDeviceInfo) -> (r: Option<usize>)
    ensures
        r is Some <==> spec_has_graphics_family(*device),
        r matches Some(i) ==> {
            &&& i < device.queue_families@.len()
            &&& device.queue_families@[i as int].supports_graphics
            &&& forall|j: int| 0 <= j < i ==> !device.queue_families@[j].supports_graphics
        },
{
    let n = device.queue_families.len();
    let mut i: usize = 0;
    while i < n
        invariant
            n == device.queue_families@.len(),
            i <= n,
            forall|j: int| 0 <= j < i ==> !device.queue_families@[j].supports_graphics,
        decreases n - i,
    {
        if device.queue_families[i].supports_graphics {
            return Some(i);
        }
        i += 1;
    }
    None
}

/// The extent the swapchain is created with: the compositor-reported current
/// extent where there is one, else the fixed default.
pub open spec fn spec_chosen_extent(caps: SurfaceCapabilities) -> Extent {
    match caps.current_extent {
        Some(e) => e,
        None => Extent { width: crate::draw::WIDTH, height: crate::draw::HEIGHT },
    }
}

impl VkSession {
    /// A session is well formed when its queue family is the first graphics
    /// family the driver enumerated for its device, the swapchain's ring has
    /// as many images as the swapchain was created with, the images stand in
    /// ring order, and the underlying compositor surface is fully negotiated.
    pub open spec fn wf(self) -> bool {
        &&& self.images@.len() == self.swapchain.image_count
        &&& forall|i: int| 0 <= i < self.images@.len() ==> self.images@[i].index == i
        &&& self.swapchain.layers == 1
        &&& self.draw_surface.window.wf()
    }

    /// Binds a GPU session to a negotiated compositor surface. The driver's
    /// answers (the enumerated devices and the surface capabilities) arrive
    /// as arguments; the instance, device, and swapchain objects themselves
    /// live at the process edge. Selection policy: the physical device is
    /// taken by index and an index outside the enumerated range fails with
    /// `PhysicalDeviceIdNotFound` before anything is created; the first
    /// graphics-capable queue family is taken; the swapchain is created with
    /// the driver's least image count, the first supported format, the first
    /// supported composite-alpha mode, the compositor's current extent (or
    /// the fixed default), FIFO presentation, identity transform, clipping
    /// allowed, and the standard non-linear color space.
    pub fn initialize(
        physical_device_id: usize,
        window: Window,
        devices: &Vec<PhysicalDeviceInfo>,
        caps: &SurfaceCapabilities,
    ) -> (r: Result<VkSession, VkSessionError>)
        requires
            window.wf(),
            // The driver promises at least one format and one composite-alpha
            // mode for a presentable surface; a device with no graphics queue
            // family is fatal, never an error value, so it is left out here.
            physical_device_id < devices@.len() ==> {
                &&& spec_has_graphics_family(devices@[physical_device_id as int])
                &&& caps.supported_formats@.len() > 0
                &&& caps.supported_composite_alpha@.len() > 0
            },
        ensures
            r is Ok <==> physical_device_id < devices@.len(),
            physical_device_id >= devices@.len() ==>
                r == Result::<VkSession, VkSessionError>::Err(
                    VkSessionError::PhysicalDeviceIdNotFound(physical_device_id),
                ),
            r matches Ok(s) ==> {
                &&& s.wf()
                &&& s.physical_device_id == physical_device_id
                &&& spec_is_first_graphics_family(
                    devices@[physical_device_id as int],
                    s.queue_family_id as int,
                )
                &&& s.draw_surface.window == window
                &&& s.swapchain.image_count == caps.min_image_count
                &&& s.swapchain.format == caps.supported_formats@[0]
                &&& s.swapchain.dimensions == spec_chosen_extent(*caps)
                &&& s.swapchain.layers == 1
                &&& s.swapchain.usage_flags == caps.supported_usage_flags
                &&& s.swapchain.transform == SurfaceTransform::Identity
                &&& s.swapchain.alpha == caps.supported_composite_alpha@[0]
                &&& s.swapchain.present_mode == PresentMode::Fifo
                &&& s.swapchain.clipped
                &&& s.swapchain.color_space == ColorSpace::SrgbNonLinear
                &&& s.images@.len() == caps.min_image_count
                &&& s.dynamic_state.line_width is None
                &&& s.dynamic_state.viewports is None
                &&& s.dynamic_state.scissors is None
            },
    {
        if physical_device_id >= devices.len() {
            return Err(VkSessionError::PhysicalDeviceIdNotFound(physical_device_id));
        }
        let physical = &devices[physical_device_id];
        let queue_family_id = match find_graphics_queue_family(physical) {
            Some(i) => i,
            None => {
                // Unreachable under the precondition; kept for the callers
                // the verifier does not see.
                return Err(VkSessionError::Todo(
                    "could not find a graphical queue family of physical vulkan device".to_string(),
                ));
            },
        };
        let dimensions = match caps.current_extent {
            Some(e) => e,
            None => Extent { width: crate::draw::WIDTH, height: crate::draw::HEIGHT },
        };
        let alpha = caps.supported_composite_alpha[0];
        let format = caps.supported_formats[0];

        let swapchain = SwapchainConfig {
            image_count: caps.min_image_count,
            format,
            dimensions,
            layers: 1,
            usage_flags: caps.supported_usage_flags,
            transform: SurfaceTransform::Identity,
            alpha,
            present_mode: PresentMode::Fifo,
            clipped: true,
            color_space: ColorSpace::SrgbNonLinear,
        };

        // The presentation engine hands back one image per slot of the ring.
        let count = caps.min_image_count as usize;
        let mut images: Vec<SwapchainImage> = Vec::new();
        let mut i: usize = 0;
        while i < count
            invariant
                i <= count,
                images@.len() == i,
                forall|j: int| 0 <= j < i ==> images@[j].index == j,
            decreases count - i,
        {
            images.push(SwapchainImage { index: i });
            i += 1;
        }

        let dynamic_state = DynamicState { line_width: None, viewports: None, scissors: None };

        Ok(VkSession {
            physical_device_id,
            queue_family_id,
            draw_surface: DrawSurface { window },
            swapchain,
            images,
            dynamic_state,
        })
    }

    /// Builds the session's render targets: a single-subpass render pass
    /// whose one color attachment is cleared on load, kept on store, has the
    /// swapchain's format and a sample count of one; one framebuffer per
    /// swapchain image, binding that image as the attachment, in ring order;
    /// and, as a side effect, the full-surface viewport as the active
    /// dynamic viewport state. Everything else about the session is kept.
    pub fn new_framebuffers(&mut self) -> (r: (Vec<Framebuffer>, RenderPass))
        ensures
            r.1 == (RenderPass {
                color: AttachmentDesc {
                    load: LoadOp::Clear,
                    store: StoreOp::Store,
                    format: old(self).swapchain.format,
                    samples: 1,
                },
            }),
            r.0@.len() == old(self).images@.len(),
            old(self).wf() ==> r.0@.len() == old(self).swapchain.image_count,
            forall|i: int| 0 <= i < r.0@.len() ==> r.0@[i] == (Framebuffer {
                render_pass: r.1,
                image_index: old(self).images@[i].index,
            }),
            final(self).dynamic_state.viewports matches Some(v) && v@ =~= seq![
                Viewport {
                    origin_x: 0,
                    origin_y: 0,
                    dimensions: old(self).swapchain.dimensions,
                    depth_min_milli: 0,
                    depth_max_milli: 1000,
                },
            ],
            final(self).dynamic_state.line_width == old(self).dynamic_state.line_width,
            final(self).dynamic_state.scissors == old(self).dynamic_state.scissors,
            final(self).physical_device_id == old(self).physical_device_id,
            final(self).queue_family_id == old(self).queue_family_id,
            final(self).draw_surface == old(self).draw_surface,
            final(self).swapchain == old(self).swapchain,
            final(self).images == old(self).images,
            old(self).wf() ==> final(self).wf(),
    {
        let viewport = Viewport {
            origin_x: 0,
            origin_y: 0,
            dimensions: self.swapchain.dimensions,
            depth_min_milli: 0,
            depth_max_milli: 1000,
        };
        let mut viewports: Vec<Viewport> = Vec::new();
        viewports.push(viewport);
        self.dynamic_state.viewports = Some(viewports);

        let render_pass = RenderPass {
            color: AttachmentDesc {
                load: LoadOp::Clear,
                store: StoreOp::Store,
                format: self.swapchain.format,
                samples: 1,
            },
        };

        let n = self.images.len();
        let mut buffers: Vec<Framebuffer> = Vec::new();
        let mut i: usize = 0;
        while i < n
            invariant
                n == self.images@.len(),
                i <= n,
                buffers@.len() == i,
                forall|j: int| 0 <= j < i ==> buffers@[j] == (Framebuffer {
                    render_pass: render_pass,
                    image_index: self.images@[j].index,
                }),
            decreases n - i,
        {
            buffers.push(Framebuffer { render_pass: render_pass, image_index: self.images[i].index });
            i += 1;
        }
        (buffers, render_pass)
    }
}

} // verus!
