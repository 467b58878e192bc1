//! The render pipeline as an immutable configuration value: shader stages,
//! vertex-buffer layouts and fixed-function state.

use vstd::prelude::*;

verus! {

/// Texel formats of render targets.
#[derive(Clone, Copy, Debug, PartialEq, Eq)]
pub enum TextureFormat {
    R8Unorm,
    R8Snorm,
    R8Uint,
    R8Sint,
    R16Unorm,
    R16Snorm,
    R16Uint,
    R16Sint,
    R16Float,
    Rg8Unorm,
    Rg8Snorm,
    Rg8Uint,
    Rg8Sint,
    R32Uint,
    R32Sint,
    R32Float,
    Rg16Unorm,
    Rg16Snorm,
    Rg16Uint,
    Rg16Sint,
    Rg16Float,
    Rgba8Unorm,
    Rgba8UnormSrgb,
    Rgba8Snorm,
    Rgba8Uint,
    Rgba8Sint,
    Bgra8Unorm,
    Bgra8UnormSrgb,
    Rgb10a2Unorm,
    Rg11b10Float,
    Rg32Uint,
    Rg32Sint,
    Rg32Float,
    Rgba16Unorm,
    Rgba16Snorm,
    Rgba16Uint,
    Rgba16Sint,
    Rgba16Float,
    Rgba32Uint,
    Rgba32Sint,
    Rgba32Float,
    Depth32Float,
    Depth24Plus,
    Depth24PlusStencil8,
}

/// Winding order of front-facing triangles.
#[derive(Clone, Copy, Debug, PartialEq, Eq)]
pub enum FrontFace {
    Ccw,
    Cw,
}

/// Which triangle faces are discarded.
#[derive(Clone, Copy, Debug, PartialEq, Eq)]
pub enum CullMode {
    Neither,
    Front,
    Back,
}

/// How the vertex stream is assembled into primitives.
#[derive(Clone, Copy, Debug, PartialEq, Eq)]
pub enum PrimitiveTopology {
    PointList,
    LineList,
    LineStrip,
    TriangleList,
    TriangleStrip,
}

/// Width of the entries of an index buffer.
#[derive(Clone, Copy, Debug, PartialEq, Eq)]
pub enum IndexFormat {
    Uint16,
    Uint32,
}

/// Whether a vertex buffer advances once per vertex or once per instance.
#[derive(Clone, Copy, Debug, PartialEq, Eq)]
pub enum InputStepMode {
    Vertex,
    Instance,
}

/// Attribute formats made of 32-bit float components.
#[derive(Clone, Copy, Debug, PartialEq, Eq)]
pub enum VertexFormat {
    Float,
    Float2,
    Float3,
    Float4,
}

impl VertexFormat {
    /// Number of 32-bit words one attribute of this format occupies.
    pub open spec fn words(self) -> nat {
        match self {
            VertexFormat::Float => 1,
            VertexFormat::Float2 => 2,
            VertexFormat::Float3 => 3,
            VertexFormat::Float4 => 4,
        }
    }
}

/// Multiplier of a blend term.
#[derive(Clone, Copy, Debug, PartialEq, Eq)]
pub enum BlendFactor {
    Zero,
    One,
    SrcColor,
    OneMinusSrcColor,
    SrcAlpha,
    OneMinusSrcAlpha,
    DstColor,
    OneMinusDstColor,
    DstAlpha,
    OneMinusDstAlpha,
    SrcAlphaSaturated,
    BlendColor,
    OneMinusBlendColor,
}

/// How the two blend terms are combined.
#[derive(Clone, Copy, Debug, PartialEq, Eq)]
pub enum BlendOperation {
    Add,
    Subtract,
    ReverseSubtract,
    Min,
    Max,
}

/// Blending of one channel group: `src * src_factor (operation) dst * dst_factor`.
#[derive(Clone, Copy, Debug, PartialEq, Eq)]
pub struct BlendState {
    pub src_factor: BlendFactor,
    pub dst_factor: BlendFactor,
    pub operation: BlendOperation,
}

impl BlendState {
    /// The source value replaces the destination value.
    pub open spec fn replace() -> BlendState {
        BlendState {
            src_factor: BlendFactor::One,
            dst_factor: BlendFactor::Zero,
            operation: BlendOperation::Add,
        }
    }
}

/// Channels of a color target that draws may write.
#[derive(Clone, Copy, Debug, PartialEq, Eq)]
pub struct ColorWrite {
    pub red: bool,
    pub green: bool,
    pub blue: bool,
    pub alpha: bool,
}

impl ColorWrite {
    /// All four channels.
    pub open spec fn all() -> ColorWrite {
        ColorWrite { red: true, green: true, blue: true, alpha: true }
    }
}

/// Output state of one color attachment.
#[derive(Clone, Copy, Debug, PartialEq, Eq)]
pub struct ColorState {
    pub format: TextureFormat,
    pub color_blend: BlendState,
    pub alpha_blend: BlendState,
    pub write_mask: ColorWrite,
}

/// Comparison used by depth and stencil tests.
#[derive(Clone, Copy, Debug, PartialEq, Eq)]
pub enum CompareFunction {
    Never,
    Less,
    Equal,
    LessEqual,
    Greater,
    NotEqual,
    GreaterEqual,
    Always,
}

/// What happens to a stencil value after a test.
#[derive(Clone, Copy, Debug, PartialEq, Eq)]
pub enum StencilOperation {
    Keep,
    Zero,
    Replace,
    Invert,
    IncrementClamp,
    DecrementClamp,
    IncrementWrap,
    DecrementWrap,
}

/// Stencil behaviour for one triangle facing.
#[derive(Clone, Copy, Debug, PartialEq, Eq)]
pub struct StencilFaceState {
    pub compare: CompareFunction,
    pub fail_op: StencilOperation,
    pub depth_fail_op: StencilOperation,
    pub pass_op: StencilOperation,
}

impl StencilFaceState {
    /// The stencil test always passes and never changes the stencil value.
    pub open spec fn ignore() -> StencilFaceState {
        StencilFaceState {
            compare: CompareFunction::Always,
            fail_op: StencilOperation::Keep,
            depth_fail_op: StencilOperation::Keep,
            pass_op: StencilOperation::Keep,
        }
    }
}

/// Depth and stencil testing.
#[derive(Clone, Copy, Debug, PartialEq, Eq)]
pub struct DepthStencilState {
    pub format: TextureFormat,
    pub depth_write_enabled: bool,
    pub depth_compare: CompareFunction,
    pub stencil_front: StencilFaceState,
    pub stencil_back: StencilFaceState,
    pub stencil_read_mask: u32,
    pub stencil_write_mask: u32,
}

/// Rasterizer state. The two float-valued bias parameters are carried as
/// IEEE-754 bit patterns.
#[derive(Clone, Copy, Debug, PartialEq, Eq)]
pub struct RasterizationState {
    pub front_face: FrontFace,
    pub cull_mode: CullMode,
    pub depth_bias: i32,
    pub depth_bias_slope_scale_bits: u32,
    pub depth_bias_clamp_bits: u32,
}

/// One attribute read from a vertex buffer.
#[derive(Clone, Copy, Debug, PartialEq, Eq)]
pub struct VertexAttribute {
    pub format: VertexFormat,
    /// Byte offset of the attribute inside one element of the buffer.
    pub offset: u64,
    /// Input location of the vertex shader that receives the attribute.
    pub shader_location: u32,
}

/// Mathematical content of a [`VertexBufferLayout`].
#[verifier::ext_equal]
pub struct VertexBufferLayoutView {
    pub stride: u64,
    pub step_mode: InputStepMode,
    pub attributes: Seq<VertexAttribute>,
}

/// How one bound vertex buffer is cut into elements and attributes.
#[derive(Debug, PartialEq, Eq)]
pub struct VertexBufferLayout {
    /// Distance in bytes between consecutive elements.
    pub stride: u64,
    pub step_mode: InputStepMode,
    pub attributes: Vec<VertexAttribute>,
}

impl View for VertexBufferLayout {
    type V = VertexBufferLayoutView;

    open spec fn view(&self) -> VertexBufferLayoutView {
        VertexBufferLayoutView {
            stride: self.stride,
            step_mode: self.step_mode,
            attributes: self.attributes@,
        }
    }
}

impl VertexBufferLayoutView {
    /// The stride is a positive number of whole words, and every attribute
    /// starts on a word boundary and ends inside one element.
    pub open spec fn well_formed(self) -> bool {
        &&& self.stride > 0
        &&& self.stride % 4 == 0
        &&& forall|a: int|
            0 <= a < self.attributes.len() ==> {
                let attribute = #[trigger] self.attributes[a];
                &&& attribute.offset % 4 == 0
                &&& attribute.offset + 4 * attribute.format.words() <= self.stride
            }
    }

    /// Number of whole elements in a buffer of `words` words.
    pub open spec fn elements(self, words: nat) -> nat {
        (4 * words) / (self.stride as nat)
    }

    /// The words that attribute `a` of element `e` is read from, in a buffer
    /// that holds `words` and is bound at offset 0.
    pub open spec fn attribute_words(self, words: Seq<u32>, e: int, a: int) -> Seq<u32> {
        let first = (e * self.stride + self.attributes[a].offset) / 4;
        words.subrange(first, first + self.attributes[a].format.words())
    }
}

/// Mathematical content of a [`ShaderStage`].
#[verifier::ext_equal]
pub struct ShaderStageView {
    pub code: Seq<u32>,
    pub entry_point: Seq<char>,
}

/// One programmable stage: device-loadable bytecode and the name of the
/// function that the stage starts in.
#[derive(Debug, PartialEq, Eq)]
pub struct ShaderStage {
    pub code: Vec<u32>,
    pub entry_point: &'static str,
}

impl View for ShaderStage {
    type V = ShaderStageView;

    open spec fn view(&self) -> ShaderStageView {
        ShaderStageView { code: self.code@, entry_point: self.entry_point@ }
    }
}

/// Mathematical content of a [`PipelineState`].
#[verifier::ext_equal]
pub struct PipelineStateView {
    pub bind_group_layouts: nat,
    pub vertex_stage: ShaderStageView,
    pub fragment_stage: Option<ShaderStageView>,
    pub rasterization_state: Option<RasterizationState>,
    pub primitive_topology: PrimitiveTopology,
    pub color_states: Seq<ColorState>,
    pub depth_stencil_state: Option<DepthStencilState>,
    pub index_format: IndexFormat,
    pub vertex_buffers: Seq<VertexBufferLayoutView>,
    pub sample_count: u32,
    pub sample_mask: u32,
    pub alpha_to_coverage_enabled: bool,
}

/// The complete description of a render pipeline. It is assembled once and
/// never modified.
#[derive(Debug, PartialEq, Eq)]
pub struct PipelineState {
    /// Number of bind-group layouts the pipeline layout refers to; bind
    /// groups are bound at the indices below this number.
    pub bind_group_layouts: u32,
    pub vertex_stage: ShaderStage,
    pub fragment_stage: Option<ShaderStage>,
    pub rasterization_state: Option<RasterizationState>,
    pub primitive_topology: PrimitiveTopology,
    pub color_states: Vec<ColorState>,
    pub depth_stencil_state: Option<DepthStencilState>,
    pub index_format: IndexFormat,
    /// Layout of the vertex buffers, by binding slot.
    pub vertex_buffers: Vec<VertexBufferLayout>,
    pub sample_count: u32,
    pub sample_mask: u32,
    pub alpha_to_coverage_enabled: bool,
}

impl View for PipelineState {
    type V = PipelineStateView;

    open spec fn view(&self) -> PipelineStateView {
        PipelineStateView {
            bind_group_layouts: self.bind_group_layouts as nat,
            vertex_stage: self.vertex_stage@,
            fragment_stage: match self.fragment_stage {
                Some(stage) => Some(stage@),
                None => None,
            },
            rasterization_state: self.rasterization_state,
            primitive_topology: self.primitive_topology,
            color_states: self.color_states@,
            depth_stencil_state: self.depth_stencil_state,
            index_format: self.index_format,
            vertex_buffers: self.vertex_buffers@.map_values(|l: VertexBufferLayout| l@),
            sample_count: self.sample_count,
            sample_mask: self.sample_mask,
            alpha_to_coverage_enabled: self.alpha_to_coverage_enabled,
        }
    }
}

/// Bytes between consecutive vertices of the mesh buffer.
pub const VERTEX_STRIDE: u64 = 24;

/// Bytes between consecutive instance positions.
pub const INSTANCE_STRIDE: u64 = 12;

/// Layout of binding 0, the mesh vertices: a four-float position at the
/// start of each vertex for location 0, followed by a two-float texture
/// coordinate for location 1.
pub open spec fn mesh_vertex_layout() -> VertexBufferLayoutView {
    VertexBufferLayoutView {
        stride: VERTEX_STRIDE,
        step_mode: InputStepMode::Vertex,
        attributes: seq![
            VertexAttribute { format: VertexFormat::Float4, offset: 0, shader_location: 0 },
            VertexAttribute { format: VertexFormat::Float2, offset: 16, shader_location: 1 },
        ],
    }
}

/// Layout of binding 1, the instance placements: one three-float position
/// per instance for location 2.
pub open spec fn instance_layout() -> VertexBufferLayoutView {
    VertexBufferLayoutView {
        stride: INSTANCE_STRIDE,
        step_mode: InputStepMode::Instance,
        attributes: seq![
            VertexAttribute { format: VertexFormat::Float3, offset: 0, shader_location: 2 },
        ],
    }
}

impl PipelineStateView {
    /// The pipeline of the instanced mesh renderer. Only the color format and
    /// the two shader programs vary; everything else is fixed: one bind-group
    /// layout, both stages entered at `main`, counter-clockwise front faces with
    /// back faces culled and no depth bias, triangle lists with 32-bit indices,
    /// a single color target written in full with replace blending, a 32-bit
    /// float depth buffer tested with "less" and written, no stencil test, one
    /// sample per pixel with every sample enabled, no alpha-to-coverage.
    pub open spec fn instanced_mesh(
        format: TextureFormat,
        vertex_code: Seq<u32>,
        fragment_code: Seq<u32>,
    ) -> PipelineStateView {
        PipelineStateView {
            bind_group_layouts: 1,
            vertex_stage: ShaderStageView { code: vertex_code, entry_point: "main"@ },
            fragment_stage: Some(ShaderStageView { code: fragment_code, entry_point: "main"@ }),
            rasterization_state: Some(
                RasterizationState {
                    front_face: FrontFace::Ccw,
                    cull_mode: CullMode::Back,
                    depth_bias: 0,
                    depth_bias_slope_scale_bits: 0,
                    depth_bias_clamp_bits: 0,
                },
            ),
            primitive_topology: PrimitiveTopology::TriangleList,
            color_states: seq![
                ColorState {
                    format,
                    color_blend: BlendState::replace(),
                    alpha_blend: BlendState::replace(),
                    write_mask: ColorWrite::all(),
                },
            ],
            depth_stencil_state: Some(
                DepthStencilState {
                    format: TextureFormat::Depth32Float,
                    depth_write_enabled: true,
                    depth_compare: CompareFunction::Less,
                    stencil_front: StencilFaceState::ignore(),
                    stencil_back: StencilFaceState::ignore(),
                    stencil_read_mask: 0,
                    stencil_write_mask: 0,
                },
            ),
            index_format: IndexFormat::Uint32,
            vertex_buffers: seq![mesh_vertex_layout(), instance_layout()],
            sample_count: 1,
            sample_mask: u32::MAX,
            alpha_to_coverage_enabled: false,
        }
    }
}

impl PipelineStateView {
    /// Whether this is the instanced mesh pipeline for some color format and
    /// some pair of shader programs.
    pub open spec fn is_instanced_mesh(self) -> bool {
        &&& self.color_states.len() == 1
        &&& self.fragment_stage is Some
        &&& self == PipelineStateView::instanced_mesh(
            self.color_states[0].format,
            self.vertex_stage.code,
            self.fragment_stage->0.code,
        )
    }
}

impl PipelineState {
    /// Assembles the pipeline of the instanced mesh renderer for a color
    /// target of the given format and the given compiled shader programs.
    pub fn instanced_mesh(
        format: TextureFormat,
        vertex_code: Vec<u32>,
        fragment_code: Vec<u32>,
    ) -> (pipeline: PipelineState)
        ensures
            pipeline@ == PipelineStateView::instanced_mesh(format, vertex_code@, fragment_code@),
    {
        let replace = BlendState {
            src_factor: BlendFactor::One,
            dst_factor: BlendFactor::Zero,
            operation: BlendOperation::Add,
        };
        let ignore = StencilFaceState {
            compare: CompareFunction::Always,
            fail_op: StencilOperation::Keep,
            depth_fail_op: StencilOperation::Keep,
            pass_op: StencilOperation::Keep,
        };

        let mut color_states: Vec<ColorState> = Vec::new();
        color_states.push(
            ColorState {
                format,
                color_blend: replace,
                alpha_blend: replace,
                write_mask: ColorWrite { red: true, green: true, blue: true, alpha: true },
            },
        );

        let mut vertex_attributes: Vec<VertexAttribute> = Vec::new();
        vertex_attributes.push(
            VertexAttribute { format: VertexFormat::Float4, offset: 0, shader_location: 0 },
        );
        vertex_attributes.push(
            VertexAttribute { format: VertexFormat::Float2, offset: 4 * 4, shader_location: 1 },
        );
        let mut instance_attributes: Vec<VertexAttribute> = Vec::new();
        instance_attributes.push(
            VertexAttribute { format: VertexFormat::Float3, offset: 0, shader_location: 2 },
        );

        let mut vertex_buffers: Vec<VertexBufferLayout> = Vec::new();
        vertex_buffers.push(
            VertexBufferLayout {
                stride: VERTEX_STRIDE,
                step_mode: InputStepMode::Vertex,
                attributes: vertex_attributes,
            },
        );
        vertex_buffers.push(
            VertexBufferLayout {
                stride: INSTANCE_STRIDE,
                step_mode: InputStepMode::Instance,
                attributes: instance_attributes,
            },
        );

        let pipeline = PipelineState {
            bind_group_layouts: 1,
            vertex_stage: ShaderStage { code: vertex_code, entry_point: "main" },
            fragment_stage: Some(ShaderStage { code: fragment_code, entry_point: "main" }),
            rasterization_state: Some(
                RasterizationState {
                    front_face: FrontFace::Ccw,
                    cull_mode: CullMode::Back,
                    depth_bias: 0,
                    depth_bias_slope_scale_bits: 0,
                    depth_bias_clamp_bits: 0,
                },
            ),
            primitive_topology: PrimitiveTopology::TriangleList,
            color_states,
            depth_stencil_state: Some(
                DepthStencilState {
                    format: TextureFormat::Depth32Float,
                    depth_write_enabled: true,
                    depth_compare: CompareFunction::Less,
                    stencil_front: ignore,
                    stencil_back: ignore,
                    stencil_read_mask: 0,
                    stencil_write_mask: 0,
                },
            ),
            index_format: IndexFormat::Uint32,
            vertex_buffers,
            sample_count: 1,
            sample_mask: u32::MAX,
            alpha_to_coverage_enabled: false,
        };
        proof {
            let expected = PipelineStateView::instanced_mesh(format, vertex_code@, fragment_code@);
            assert(pipeline@.color_states =~= expected.color_states);
            assert(pipeline.vertex_buffers@[0]@ =~= mesh_vertex_layout());
            assert(pipeline.vertex_buffers@[1]@ =~= instance_layout());
            assert(pipeline@.vertex_buffers =~= expected.vertex_buffers);
            assert(pipeline@ =~= expected);
        }
        pipeline
    }
}

} // verus!
