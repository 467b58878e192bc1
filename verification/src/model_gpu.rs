//! The instanced mesh renderer: three device buffers and one pipeline, with
//! construction, instance update and draw.

use vstd::prelude::*;
use crate::buffer::{BufferUsage, DeviceBuffer, DeviceBufferView};
use crate::command::{BufferBinding, BufferRole, PassState, RenderCommand};
use crate::laws::law_frame_is_valid;
use crate::geometry::{flatten_vertices, vertex_words, TriangleList, TriangleListView, WORDS_PER_VERTEX};
use crate::pipeline::{InputStepMode, PipelineState, PipelineStateView, TextureFormat};

verus! {

/// Number of 32-bit words one instance placement occupies.
pub const WORDS_PER_INSTANCE: usize = 3;

/// Mathematical content of a [`ModelGpu`].
#[verifier::ext_equal]
pub struct ModelGpuView {
    pub vertex_buf: DeviceBufferView,
    pub index_buf: DeviceBufferView,
    pub index_count: nat,
    pub instance_buf: DeviceBufferView,
    pub instance_count: nat,
    pub pipeline: PipelineStateView,
}

impl ModelGpuView {
    /// The renderer right after construction: the mesh uploaded, no
    /// instances, the pipeline assembled.
    pub open spec fn constructed(
        mesh: TriangleListView,
        format: TextureFormat,
        vertex_code: Seq<u32>,
        fragment_code: Seq<u32>,
    ) -> ModelGpuView {
        ModelGpuView {
            vertex_buf: DeviceBufferView {
                usage: BufferUsage::vertex_input(),
                words: vertex_words(mesh.vertices),
            },
            index_buf: DeviceBufferView { usage: BufferUsage::index_input(), words: mesh.indices },
            index_count: mesh.indices.len(),
            instance_buf: DeviceBufferView {
                usage: BufferUsage::vertex_input_copy_dst(),
                words: Seq::empty(),
            },
            instance_count: 0,
            pipeline: PipelineStateView::instanced_mesh(format, vertex_code, fragment_code),
        }
    }

    /// The renderer after its instance buffer has been replaced by a new one
    /// that holds `positions`. A trailing partial instance is not counted.
    pub open spec fn with_instances(self, positions: Seq<u32>) -> ModelGpuView {
        ModelGpuView {
            instance_buf: DeviceBufferView { usage: BufferUsage::vertex_input(), words: positions },
            instance_count: positions.len() / WORDS_PER_INSTANCE as nat,
            ..self
        }
    }

    /// What one call of `render` records: pipeline, bind group 0, index
    /// buffer, the mesh vertices at slot 0 and the instances at slot 1, then a
    /// single indexed draw of every index for every instance.
    pub open spec fn render_commands(self) -> Seq<RenderCommand> {
        seq![
            RenderCommand::SetPipeline,
            RenderCommand::SetBindGroup { index: 0 },
            RenderCommand::SetIndexBuffer { buffer: BufferRole::Index, offset: 0 },
            RenderCommand::SetVertexBuffers {
                start_slot: 0,
                buffers: [
                    BufferBinding { buffer: BufferRole::Vertex, offset: 0 },
                    BufferBinding { buffer: BufferRole::Instance, offset: 0 },
                ],
            },
            RenderCommand::DrawIndexed {
                first_index: 0,
                end_index: self.index_count as u32,
                base_vertex: 0,
                first_instance: 0,
                end_instance: self.instance_count as u32,
            },
        ]
    }

    /// The renderer after a series of instance updates, applied in order.
    pub open spec fn after_updates(self, updates: Seq<Seq<u32>>) -> ModelGpuView
        decreases updates.len(),
    {
        if updates.len() == 0 {
            self
        } else {
            self.after_updates(updates.drop_last()).with_instances(updates.last())
        }
    }

    /// The buffer that `role` names.
    pub open spec fn buffer(self, role: BufferRole) -> DeviceBufferView {
        match role {
            BufferRole::Vertex => self.vertex_buf,
            BufferRole::Index => self.index_buf,
            BufferRole::Instance => self.instance_buf,
        }
    }

    /// Whether a draw call may be recorded into a pass in state `pass`: a
    /// pipeline is active, every bind-group index of its layout has a bind
    /// group, the index buffer is set, has index usage and holds every index
    /// of the draw, and every vertex-buffer slot of the pipeline has a buffer
    /// with vertex usage that holds every element the draw reads: the vertex
    /// that each drawn index names, or each drawn instance.
    pub open spec fn draw_is_valid(self, pass: PassState, draw: RenderCommand) -> bool
        recommends
            draw is DrawIndexed,
    {
        let first_index = draw->first_index;
        let end_index = draw->end_index;
        let base_vertex = draw->base_vertex;
        let first_instance = draw->first_instance;
        let end_instance = draw->end_instance;
        &&& pass.pipeline_set
        &&& forall|group: int|
            0 <= group < self.pipeline.bind_group_layouts ==> pass.bind_groups.contains(group)
        &&& first_index <= end_index
        &&& first_instance <= end_instance
        &&& pass.index_buffer matches Some(indices)
        &&& self.buffer(indices.buffer).usage.index
        &&& indices.offset % 4 == 0
        &&& indices.offset + 4 * end_index <= self.buffer(indices.buffer).size_bytes()
        &&& forall|slot: int|
            0 <= slot < self.pipeline.vertex_buffers.len() ==> {
                let layout = #[trigger] self.pipeline.vertex_buffers[slot];
                let bound = pass.vertex_buffers[slot];
                let size = self.buffer(bound.buffer).size_bytes();
                &&& pass.vertex_buffers.dom().contains(slot)
                &&& self.buffer(bound.buffer).usage.vertex
                &&& bound.offset % 4 == 0
                &&& match layout.step_mode {
                    InputStepMode::Vertex => forall|k: int|
                        first_index <= k < end_index ==> {
                            let vertex = (#[trigger] self.buffer(indices.buffer).words[indices.offset
                                / 4 + k]) + base_vertex;
                            &&& 0 <= vertex
                            &&& bound.offset + (vertex + 1) * layout.stride <= size
                        },
                    InputStepMode::Instance => bound.offset + end_instance * layout.stride
                        <= size,
                }
            }
    }

    /// Whether every draw call of `commands` may be recorded where it
    /// stands, in a pass that starts with `commands`.
    pub open spec fn frame_is_valid(self, commands: Seq<RenderCommand>) -> bool {
        forall|i: int|
            0 <= i < commands.len() && (#[trigger] commands[i]).is_draw() ==> self.draw_is_valid(
                PassState::after(commands.take(i)),
                commands[i],
            )
    }

    /// Number of vertices in the vertex buffer.
    pub open spec fn vertex_count(self) -> nat {
        self.vertex_buf.words.len() / WORDS_PER_VERTEX as nat
    }

    /// What holds of every renderer at all times.
    pub open spec fn well_formed(self) -> bool {
        &&& self.vertex_buf.usage == BufferUsage::vertex_input()
        &&& self.index_buf.usage == BufferUsage::index_input()
        &&& self.instance_buf.usage.vertex
        &&& self.vertex_buf.words.len() % WORDS_PER_VERTEX as nat == 0
        &&& self.index_count == self.index_buf.words.len()
        &&& self.index_count <= u32::MAX
        &&& forall|i: int|
            0 <= i < self.index_count ==> (#[trigger] self.index_buf.words[i]) < self.vertex_count()
        &&& self.instance_count == self.instance_buf.words.len() / WORDS_PER_INSTANCE as nat
        &&& self.instance_count <= u32::MAX
        &&& self.pipeline.is_instanced_mesh()
    }
}

/// The instance buffer together with the number of instances it holds.
#[derive(Debug)]
struct Instances {
    buf: DeviceBuffer,
    count: u32,
}

/// Renders one indexed mesh at any number of instance positions.
#[derive(Debug)]
pub struct ModelGpu {
    vertex_buf: DeviceBuffer,
    index_buf: DeviceBuffer,
    index_count: usize,
    instances: Instances,
    pipeline: PipelineState,
}

impl View for ModelGpu {
    type V = ModelGpuView;

    closed spec fn view(&self) -> ModelGpuView {
        ModelGpuView {
            vertex_buf: self.vertex_buf@,
            index_buf: self.index_buf@,
            index_count: self.index_count as nat,
            instance_buf: self.instances.buf@,
            instance_count: self.instances.count as nat,
            pipeline: self.pipeline@,
        }
    }
}

impl ModelGpu {
    #[verifier::type_invariant]
    spec fn inv(&self) -> bool {
        self@.well_formed()
    }

    /// Creates the renderer for `triangle_list`: lays its vertices and indices
    /// out in a vertex and an index buffer, starts with an empty instance
    /// buffer, and assembles the pipeline for a color target of `format` from
    /// the two compiled shader programs.
    pub fn new(
        triangle_list: &TriangleList,
        format: TextureFormat,
        vertex_code: Vec<u32>,
        fragment_code: Vec<u32>,
    ) -> (gpu: ModelGpu)
        ensures
            gpu@ == ModelGpuView::constructed(triangle_list@, format, vertex_code@, fragment_code@),
            gpu@.well_formed(),
    {
        let vertex_data = triangle_list.vertex_data();
        let index_data = triangle_list.index_data();
        let vertex_buf = DeviceBuffer::from_words(
            BufferUsage { vertex: true, index: false, copy_dst: false },
            flatten_vertices(vertex_data),
        );
        let index_buf = DeviceBuffer::with_data(
            BufferUsage { vertex: false, index: true, copy_dst: false },
            index_data.as_slice(),
        );
        let positions: Vec<u32> = Vec::new();
        let instance_buf = DeviceBuffer::from_words(
            BufferUsage { vertex: true, index: false, copy_dst: true },
            positions,
        );
        let pipeline = PipelineState::instanced_mesh(format, vertex_code, fragment_code);
        proof {
            let n = vertex_data@.len();
            assert(vertex_buf@.words.len() == n * 6);
            assert((n * 6) % 6 == 0 && (n * 6) / 6 == n) by (nonlinear_arith);
        }
        ModelGpu {
            vertex_buf,
            index_buf,
            index_count: index_data.len(),
            instances: Instances { buf: instance_buf, count: 0 },
            pipeline,
        }
    }

    /// Records one frame: binds the pipeline, the bind group, the index
    /// buffer and both vertex buffers, then draws every index once per
    /// instance. With no instances the draw covers an empty instance range.
    pub fn render(&self) -> (commands: Vec<RenderCommand>)
        ensures
            commands@ == self@.render_commands(),
            self@.well_formed(),
            self@.frame_is_valid(commands@),
    {
        proof {
            use_type_invariant(self);
            law_frame_is_valid(self@);
        }
        let mut commands: Vec<RenderCommand> = Vec::new();
        commands.push(RenderCommand::SetPipeline);
        commands.push(RenderCommand::SetBindGroup { index: 0 });
        commands.push(RenderCommand::SetIndexBuffer { buffer: BufferRole::Index, offset: 0 });
        commands.push(
            RenderCommand::SetVertexBuffers {
                start_slot: 0,
                buffers: [
                    BufferBinding { buffer: BufferRole::Vertex, offset: 0 },
                    BufferBinding { buffer: BufferRole::Instance, offset: 0 },
                ],
            },
        );
        commands.push(
            RenderCommand::DrawIndexed {
                first_index: 0,
                end_index: self.index_count as u32,
                base_vertex: 0,
                first_instance: 0,
                end_instance: self.instances.count,
            },
        );
        proof {
            assert(commands@ =~= self@.render_commands());
        }
        commands
    }

    /// Replaces the instance buffer by a new one that holds `positions`, three
    /// words per instance, and counts the whole instances in it; a trailing
    /// partial instance stays in the buffer but is not counted. The previous
    /// buffer is dropped, and nothing else changes. The data goes straight
    /// into the new buffer: there is no staging copy and no update in place.
    ///
    /// The number of whole instances has to fit the 32-bit instance range of
    /// a draw call.
    pub fn update_instance(&mut self, positions: &[u32])
        requires
            positions@.len() / WORDS_PER_INSTANCE as nat <= u32::MAX,
        ensures
            final(self)@ == old(self)@.with_instances(positions@),
            final(self)@.well_formed(),
    {
        proof {
            use_type_invariant(&*self);
        }
        let temp_buf = DeviceBuffer::with_data(
            BufferUsage { vertex: true, index: false, copy_dst: false },
            positions,
        );
        self.instances = Instances {
            buf: temp_buf,
            count: (positions.len() / WORDS_PER_INSTANCE) as u32,
        };
    }
}

impl ModelGpu {
    /// The buffer that holds the mesh vertices.
    pub fn vertex_buf(&self) -> (buffer: &DeviceBuffer)
        ensures
            buffer@ == self@.vertex_buf,
    {
        &self.vertex_buf
    }

    /// The buffer that holds the mesh indices.
    pub fn index_buf(&self) -> (buffer: &DeviceBuffer)
        ensures
            buffer@ == self@.index_buf,
    {
        &self.index_buf
    }

    /// The buffer that holds the current instance positions.
    pub fn instance_buf(&self) -> (buffer: &DeviceBuffer)
        ensures
            buffer@ == self@.instance_buf,
    {
        &self.instances.buf
    }

    /// The pipeline that draws are made with.
    pub fn pipeline(&self) -> (pipeline: &PipelineState)
        ensures
            pipeline@ == self@.pipeline,
    {
        &self.pipeline
    }

    /// Number of indices one instance is drawn with.
    pub fn index_count(&self) -> (count: usize)
        ensures
            count == self@.index_count,
    {
        self.index_count
    }

    /// Number of instances a draw covers.
    pub fn instance_count(&self) -> (count: u32)
        ensures
            count == self@.instance_count,
    {
        self.instances.count
    }
}

} // verus!
