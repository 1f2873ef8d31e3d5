use vstd::prelude::*;

verus! {

/// A position in the unit clip range, each coordinate in thousandths.
#[derive(PartialEq, Eq, Structural, Default, Copy, Clone, Debug)]
pub struct PositionMilli {
    pub x: i32,
    pub y: i32,
}

/// A color, each channel in thousandths of the unit intensity range.
#[derive(PartialEq, Eq, Structural, Default, Copy, Clone, Debug)]
pub struct ColorMilli {
    pub r: i32,
    pub g: i32,
    pub b: i32,
}

/// A vertex of the fixed triangle: a clip-space position and a color.
#[derive(PartialEq, Eq, Structural, Default, Copy, Clone, Debug)]
pub struct Vertex {
    pub position: PositionMilli,
    pub color: ColorMilli,
}

/// A precompiled shader binary, loaded whole from disk at the process edge.
#[derive(PartialEq, Eq, Clone, Debug)]
pub struct ShaderModule {
    pub code: Vec<u8>,
}

/// The format of one shader interface element.
#[derive(PartialEq, Eq, Structural, Copy, Clone, Debug)]
pub enum Format {
    R32G32Sfloat,
    R32G32B32Sfloat,
    R32G32B32A32Sfloat,
}

/// The protocol-level name an interface element is bound by.
#[derive(PartialEq, Eq, Structural, Copy, Clone, Debug)]
pub enum InterfaceName {
    Position,
    Color,
    VColor,
    FColor,
}

/// One element of a shader stage's interface: a half-open location range,
/// a format, and the name the stage binds it by.
#[derive(PartialEq, Eq, Structural, Copy, Clone, Debug)]
pub struct ShaderInterfaceEntry {
    pub location_start: u32,
    pub location_end: u32,
    pub format: Format,
    pub name: Option<InterfaceName>,
}

/// The elements the vertex stage consumes, in the order handed out: the
/// three-channel color at location 1, then the two-channel position at
/// location 0. Locations neither repeat nor overlap, and no element is wider
/// than 128 bits.
pub open spec fn spec_vert_input_entries() -> Seq<ShaderInterfaceEntry> {
    seq![
        ShaderInterfaceEntry {
            location_start: 1,
            location_end: 2,
            format: Format::R32G32B32Sfloat,
            name: Some(InterfaceName::Color),
        },
        ShaderInterfaceEntry {
            location_start: 0,
            location_end: 1,
            format: Format::R32G32Sfloat,
            name: Some(InterfaceName::Position),
        },
    ]
}

/// The single element the vertex stage produces: the interpolated color.
pub open spec fn spec_vert_output_entries() -> Seq<ShaderInterfaceEntry> {
    seq![
        ShaderInterfaceEntry {
            location_start: 0,
            location_end: 1,
            format: Format::R32G32B32Sfloat,
            name: Some(InterfaceName::VColor),
        },
    ]
}

/// The single element the fragment stage consumes: the interpolated color.
pub open spec fn spec_frag_input_entries() -> Seq<ShaderInterfaceEntry> {
    seq![
        ShaderInterfaceEntry {
            location_start: 0,
            location_end: 1,
            format: Format::R32G32B32Sfloat,
            name: Some(InterfaceName::VColor),
        },
    ]
}

/// The single element the fragment stage produces: the RGBA output color.
pub open spec fn spec_frag_output_entries() -> Seq<ShaderInterfaceEntry> {
    seq![
        ShaderInterfaceEntry {
            location_start: 0,
            location_end: 1,
            format: Format::R32G32B32A32Sfloat,
            name: Some(InterfaceName::FColor),
        },
    ]
}

/// The vertex stage's input interface.
#[derive(PartialEq, Eq, Structural, Copy, Clone, Debug)]
pub struct VertInput;

/// Walks the vertex stage's input elements.
#[derive(Debug, Copy, Clone, PartialEq, Eq, Structural)]
pub struct VertInputIter(pub u16);

impl VertInput {
    /// Hands out the input elements from the first.
    pub fn elements(&self) -> (r: VertInputIter)
        ensures
            r.0 == 0,
    {
        VertInputIter(0)
    }
}

impl VertInputIter {
    /// The next input element, if any is left.
    pub fn next(&mut self) -> (r: Option<ShaderInterfaceEntry>)
        ensures
            old(self).0 < 2 ==> {
                &&& r == Some(spec_vert_input_entries()[old(self).0 as int])
                &&& final(self).0 == old(self).0 + 1
            },
            old(self).0 >= 2 ==> r is None && *final(self) == *old(self),
    {
        if self.0 == 0 {
            self.0 += 1;
            return Some(ShaderInterfaceEntry {
                location_start: 1,
                location_end: 2,
                format: Format::R32G32B32Sfloat,
                name: Some(InterfaceName::Color),
            });
        }
        if self.0 == 1 {
            self.0 += 1;
            return Some(ShaderInterfaceEntry {
                location_start: 0,
                location_end: 1,
                format: Format::R32G32Sfloat,
                name: Some(InterfaceName::Position),
            });
        }
        None
    }

    /// The exact number of elements left, given twice.
    pub fn size_hint(&self) -> (r: (usize, Option<usize>))
        requires
            self.0 <= 2,
        ensures
            r.0 == 2 - self.0,
            r.1 == Some((2 - self.0) as usize),
    {
        let len = (2 - self.0) as usize;
        (len, Some(len))
    }
}

/// The vertex stage's output interface.
#[derive(Debug, Copy, Clone, PartialEq, Eq, Structural)]
pub struct VertOutput;

/// Walks the vertex stage's output elements.
#[derive(Debug, Copy, Clone, PartialEq, Eq, Structural)]
pub struct VertOutputIter(pub u16);

impl VertOutput {
    /// Hands out the output elements from the first.
    pub fn elements(&self) -> (r: VertOutputIter)
        ensures
            r.0 == 0,
    {
        VertOutputIter(0)
    }
}

impl VertOutputIter {
    /// The next output element, if any is left.
    pub fn next(&mut self) -> (r: Option<ShaderInterfaceEntry>)
        ensures
            old(self).0 < 1 ==> {
                &&& r == Some(spec_vert_output_entries()[old(self).0 as int])
                &&& final(self).0 == old(self).0 + 1
            },
            old(self).0 >= 1 ==> r is None && *final(self) == *old(self),
    {
        if self.0 == 0 {
            self.0 += 1;
            return Some(ShaderInterfaceEntry {
                location_start: 0,
                location_end: 1,
                format: Format::R32G32B32Sfloat,
                name: Some(InterfaceName::VColor),
            });
        }
        None
    }

    /// The exact number of elements left, given twice.
    pub fn size_hint(&self) -> (r: (usize, Option<usize>))
        requires
            self.0 <= 1,
        ensures
            r.0 == 1 - self.0,
            r.1 == Some((1 - self.0) as usize),
    {
        let len = (1 - self.0) as usize;
        (len, Some(len))
    }
}

/// The fragment stage's input interface.
#[derive(Debug, Copy, Clone, PartialEq, Eq, Structural)]
pub struct FragInput;

/// Walks the fragment stage's input elements.
#[derive(Debug, Copy, Clone, PartialEq, Eq, Structural)]
pub struct FragInputIter(pub u16);

impl FragInput {
    /// Hands out the input elements from the first.
    pub fn elements(&self) -> (r: FragInputIter)
        ensures
            r.0 == 0,
    {
        FragInputIter(0)
    }
}

impl FragInputIter {
    /// The next input element, if any is left.
    pub fn next(&mut self) -> (r: Option<ShaderInterfaceEntry>)
        ensures
            old(self).0 < 1 ==> {
                &&& r == Some(spec_frag_input_entries()[old(self).0 as int])
                &&& final(self).0 == old(self).0 + 1
            },
            old(self).0 >= 1 ==> r is None && *final(self) == *old(self),
    {
        if self.0 == 0 {
            self.0 += 1;
            return Some(ShaderInterfaceEntry {
                location_start: 0,
                location_end: 1,
                format: Format::R32G32B32Sfloat,
                name: Some(InterfaceName::VColor),
            });
        }
        None
    }

    /// The exact number of elements left, given twice.
    pub fn size_hint(&self) -> (r: (usize, Option<usize>))
        requires
            self.0 <= 1,
        ensures
            r.0 == 1 - self.0,
            r.1 == Some((1 - self.0) as usize),
    {
        let len = (1 - self.0) as usize;
        (len, Some(len))
    }
}

/// The fragment stage's output interface.
#[derive(Debug, Copy, Clone, PartialEq, Eq, Structural)]
pub struct FragOutput;

/// Walks the fragment stage's output elements.
#[derive(Debug, Copy, Clone, PartialEq, Eq, Structural)]
pub struct FragOutputIter(pub u16);

impl FragOutput {
    /// Hands out the output elements from the first.
    pub fn elements(&self) -> (r: FragOutputIter)
        ensures
            r.0 == 0,
    {
        FragOutputIter(0)
    }
}

impl FragOutputIter {
    /// The next output element, if any is left.
    pub fn next(&mut self) -> (r: Option<ShaderInterfaceEntry>)
        ensures
            old(self).0 < 1 ==> {
                &&& r == Some(spec_frag_output_entries()[old(self).0 as int])
                &&& final(self).0 == old(self).0 + 1
            },
            old(self).0 >= 1 ==> r is None && *final(self) == *old(self),
    {
        if self.0 == 0 {
            self.0 += 1;
            return Some(ShaderInterfaceEntry {
                location_start: 0,
                location_end: 1,
                format: Format::R32G32B32A32Sfloat,
                name: Some(InterfaceName::FColor),
            });
        }
        None
    }

    /// The exact number of elements left, given twice.
    pub fn size_hint(&self) -> (r: (usize, Option<usize>))
        requires
            self.0 <= 1,
        ensures
            r.0 == 1 - self.0,
            r.1 == Some((1 - self.0) as usize),
    {
        let len = (1 - self.0) as usize;
        (len, Some(len))
    }
}

/// The stage set that covers the vertex stage alone.
pub open spec fn spec_vertex_only_stages() -> ShaderStages {
    ShaderStages {
        vertex: true,
        tessellation_control: false,
        tessellation_evaluation: false,
        geometry: false,
        fragment: false,
        compute: false,
    }
}

/// The stage set that covers the fragment stage alone.
pub open spec fn spec_fragment_only_stages() -> ShaderStages {
    ShaderStages {
        vertex: false,
        tessellation_control: false,
        tessellation_evaluation: false,
        geometry: false,
        fragment: true,
        compute: false,
    }
}

/// Which shader stages a pipeline layout applies to.
#[derive(PartialEq, Eq, Structural, Copy, Clone, Debug)]
pub struct ShaderStages {
    pub vertex: bool,
    pub tessellation_control: bool,
    pub tessellation_evaluation: bool,
    pub geometry: bool,
    pub fragment: bool,
    pub compute: bool,
}

impl ShaderStages {
    /// No stage at all; the stage of interest is then switched on alone.
    pub fn none() -> (r: ShaderStages)
        ensures
            r == (ShaderStages {
                vertex: false,
                tessellation_control: false,
                tessellation_evaluation: false,
                geometry: false,
                fragment: false,
                compute: false,
            }),
    {
        ShaderStages {
            vertex: false,
            tessellation_control: false,
            tessellation_evaluation: false,
            geometry: false,
            fragment: false,
            compute: false,
        }
    }
}

/// A descriptor-set entry; this design declares none.
#[derive(PartialEq, Eq, Structural, Copy, Clone, Debug)]
pub struct DescriptorDesc {
    pub stages: ShaderStages,
}

/// A push-constant range; this design declares none.
#[derive(PartialEq, Eq, Structural, Copy, Clone, Debug)]
pub struct PipelineLayoutPcRange {
    pub offset: u32,
    pub size: u32,
    pub stages: ShaderStages,
}

/// The vertex stage's pipeline layout: no descriptor sets, no push
/// constants.
#[derive(Debug, Copy, Clone, PartialEq, Eq, Structural)]
pub struct VertLayout(pub ShaderStages);

impl VertLayout {
    /// The number of descriptor sets the stage takes.
    pub fn num_sets(&self) -> (r: usize)
        ensures
            r == 0,
    {
        0
    }

    /// The number of bindings in the given set; there is no set.
    pub fn num_bindings_in_set(&self, _set: usize) -> (r: Option<usize>)
        ensures
            r is None,
    {
        None
    }

    /// The descriptor at the given set and binding; there is none.
    pub fn descriptor(&self, _set: usize, _binding: usize) -> (r: Option<DescriptorDesc>)
        ensures
            r is None,
    {
        None
    }

    /// The number of push-constant ranges the stage takes.
    pub fn num_push_constants_ranges(&self) -> (r: usize)
        ensures
            r == 0,
    {
        0
    }

    /// The push-constant range at the given index; there is none.
    pub fn push_constants_range(&self, _num: usize) -> (r: Option<PipelineLayoutPcRange>)
        ensures
            r is None,
    {
        None
    }
}

/// The fragment stage's pipeline layout: no descriptor sets, no push
/// constants.
#[derive(Debug, Copy, Clone, PartialEq, Eq, Structural)]
pub struct FragLayout(pub ShaderStages);

impl FragLayout {
    /// The number of descriptor sets the stage takes.
    pub fn num_sets(&self) -> (r: usize)
        ensures
            r == 0,
    {
        0
    }

    /// The number of bindings in the given set; there is no set.
    pub fn num_bindings_in_set(&self, _set: usize) -> (r: Option<usize>)
        ensures
            r is None,
    {
        None
    }

    /// The descriptor at the given set and binding; there is none.
    pub fn descriptor(&self, _set: usize, _binding: usize) -> (r: Option<DescriptorDesc>)
        ensures
            r is None,
    {
        None
    }

    /// The number of push-constant ranges the stage takes.
    pub fn num_push_constants_ranges(&self) -> (r: usize)
        ensures
            r == 0,
    {
        0
    }

    /// The push-constant range at the given index; there is none.
    pub fn push_constants_range(&self, _num: usize) -> (r: Option<PipelineLayoutPcRange>)
        ensures
            r is None,
    {
        None
    }
}

/// The kind of work a shader entry point performs.
#[derive(PartialEq, Eq, Structural, Copy, Clone, Debug)]
pub enum GraphicsShaderType {
    Vertex,
    Fragment,
}

/// One entry point of a shader module, with its stage, the stages its layout
/// covers, and its interface element counts.
#[derive(PartialEq, Eq, Structural, Copy, Clone, Debug)]
pub struct GraphicsEntryPoint {
    pub shader_type: GraphicsShaderType,
    pub stages: ShaderStages,
    pub input_len: usize,
    pub output_len: usize,
}

/// The `main` entry point of the vertex shader: two inputs (position,
/// color), one output (the interpolated color), a layout covering the vertex
/// stage alone.
pub fn get_entry_vertex(_shader: &ShaderModule) -> (r: GraphicsEntryPoint)
    ensures
        r.shader_type is Vertex,
        r.stages == spec_vertex_only_stages(),
        r.input_len == spec_vert_input_entries().len(),
        r.output_len == spec_vert_output_entries().len(),
{
    GraphicsEntryPoint {
        shader_type: GraphicsShaderType::Vertex,
        stages: ShaderStages { vertex: true, ..ShaderStages::none() },
        input_len: 2,
        output_len: 1,
    }
}

/// The `main` entry point of the fragment shader: one input (the
/// interpolated color), one output (the RGBA color), a layout covering the
/// fragment stage alone.
pub fn get_entry_fragment(_shader: &ShaderModule) -> (r: GraphicsEntryPoint)
    ensures
        r.shader_type is Fragment,
        r.stages == spec_fragment_only_stages(),
        r.input_len == spec_frag_input_entries().len(),
        r.output_len == spec_frag_output_entries().len(),
{
    GraphicsEntryPoint {
        shader_type: GraphicsShaderType::Fragment,
        stages: ShaderStages { fragment: true, ..ShaderStages::none() },
        input_len: 1,
        output_len: 1,
    }
}

} // verus!
