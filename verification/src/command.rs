//! The commands a renderer records into a render pass, and what a pass has
//! bound after a series of them.

use vstd::prelude::*;

verus! {

/// Names one of the three buffers a renderer owns.
#[derive(Clone, Copy, Debug, PartialEq, Eq)]
pub enum BufferRole {
    /// The mesh vertices.
    Vertex,
    /// The mesh indices.
    Index,
    /// The instance placements.
    Instance,
}

/// A buffer bound as input, read from `offset` bytes onward.
#[derive(Clone, Copy, Debug, PartialEq, Eq)]
pub struct BufferBinding {
    pub buffer: BufferRole,
    pub offset: u64,
}

/// One command of a render pass.
#[derive(Clone, Copy, Debug, PartialEq, Eq)]
pub enum RenderCommand {
    /// Makes the renderer's pipeline the active one.
    SetPipeline,
    /// Binds the caller's bind group at `index`, without dynamic offsets.
    SetBindGroup { index: u32 },
    /// Makes `buffer`, from `offset` bytes onward, the source of indices.
    SetIndexBuffer { buffer: BufferRole, offset: u64 },
    /// Binds `buffers[0]` at vertex-buffer slot `start_slot` and `buffers[1]`
    /// at the slot after it.
    SetVertexBuffers { start_slot: u32, buffers: [BufferBinding; 2] },
    /// Draws the indices `first_index..end_index` of the index buffer, each
    /// offset by `base_vertex`, once for every instance in
    /// `first_instance..end_instance`.
    DrawIndexed {
        first_index: u32,
        end_index: u32,
        base_vertex: i32,
        first_instance: u32,
        end_instance: u32,
    },
}

impl RenderCommand {
    /// Whether the command is a draw call.
    pub open spec fn is_draw(self) -> bool {
        self is DrawIndexed
    }

    /// Number of instances the command draws; zero unless it is a draw call.
    pub open spec fn instances_drawn(self) -> nat {
        match self {
            RenderCommand::DrawIndexed { first_instance, end_instance, .. } => if first_instance
                <= end_instance {
                (end_instance - first_instance) as nat
            } else {
                0
            },
            _ => 0,
        }
    }

    /// Number of indices the command draws for each instance; zero unless it
    /// is a draw call.
    pub open spec fn indices_per_instance(self) -> nat {
        match self {
            RenderCommand::DrawIndexed { first_index, end_index, .. } => if first_index
                <= end_index {
                (end_index - first_index) as nat
            } else {
                0
            },
            _ => 0,
        }
    }
}

/// What a render pass has bound at some point of its recording.
#[verifier::ext_equal]
pub struct PassState {
    /// Whether a pipeline is active.
    pub pipeline_set: bool,
    /// The bind-group indices that have a bind group.
    pub bind_groups: Set<int>,
    /// The source of indices, if one is set.
    pub index_buffer: Option<BufferBinding>,
    /// The vertex-buffer slots that have a buffer, with their buffers.
    pub vertex_buffers: Map<int, BufferBinding>,
}

impl PassState {
    /// A pass that has just begun: nothing is bound.
    pub open spec fn begin() -> PassState {
        PassState {
            pipeline_set: false,
            bind_groups: Set::empty(),
            index_buffer: None,
            vertex_buffers: Map::empty(),
        }
    }

    /// The pass after one more command. Draw calls bind nothing.
    pub open spec fn record(self, command: RenderCommand) -> PassState {
        match command {
            RenderCommand::SetPipeline => PassState { pipeline_set: true, ..self },
            RenderCommand::SetBindGroup { index } => PassState {
                bind_groups: self.bind_groups.insert(index as int),
                ..self
            },
            RenderCommand::SetIndexBuffer { buffer, offset } => PassState {
                index_buffer: Some(BufferBinding { buffer, offset }),
                ..self
            },
            RenderCommand::SetVertexBuffers { start_slot, buffers } => PassState {
                vertex_buffers: self.vertex_buffers.insert(start_slot as int, buffers[0]).insert(
                    start_slot + 1,
                    buffers[1],
                ),
                ..self
            },
            RenderCommand::DrawIndexed { .. } => self,
        }
    }

    /// The pass after a series of commands, recorded in order from its
    /// beginning.
    pub open spec fn after(commands: Seq<RenderCommand>) -> PassState
        decreases commands.len(),
    {
        if commands.len() == 0 {
            PassState::begin()
        } else {
            PassState::after(commands.drop_last()).record(commands.last())
        }
    }
}

} // verus!
