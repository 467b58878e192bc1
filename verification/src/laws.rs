//! Properties of the renderer that hold for every mesh, every pipeline input
//! and every history of instance updates.

use vstd::prelude::*;
use crate::command::{BufferBinding, BufferRole, PassState, RenderCommand};
use crate::geometry::{vertex_words, TriangleListView, Vertex};
use crate::model_gpu::ModelGpuView;
use crate::pipeline::{
    instance_layout, mesh_vertex_layout, BlendState, ColorWrite, CompareFunction, CullMode,
    FrontFace, IndexFormat, InputStepMode, PipelineStateView, PrimitiveTopology, ShaderStageView,
    StencilFaceState, TextureFormat,
};

verus! {

/// Whether every update of the series fits the 32-bit instance count.
pub open spec fn updates_fit(updates: Seq<Seq<u32>>) -> bool {
    forall|i: int| 0 <= i < updates.len() ==> (#[trigger] updates[i]).len() / 3 <= u32::MAX
}

/// A renderer constructed from a well-formed mesh is well formed.
pub proof fn lemma_constructed_well_formed(
    mesh: TriangleListView,
    format: TextureFormat,
    vertex_code: Seq<u32>,
    fragment_code: Seq<u32>,
)
    requires
        mesh.well_formed(),
    ensures
        ModelGpuView::constructed(mesh, format, vertex_code, fragment_code).well_formed(),
{
    let g = ModelGpuView::constructed(mesh, format, vertex_code, fragment_code);
    let n = mesh.vertices.len();
    assert(g.vertex_buf.words.len() == n * 6);
    assert((n * 6) % 6 == 0 && (n * 6) / 6 == n) by (nonlinear_arith);
}

/// An instance update keeps a well-formed renderer well formed.
pub proof fn lemma_update_well_formed(g: ModelGpuView, positions: Seq<u32>)
    requires
        g.well_formed(),
        positions.len() / 3 <= u32::MAX,
    ensures
        g.with_instances(positions).well_formed(),
{
}

/// Updating with `3 * n` position components and then rendering records
/// exactly one draw call, and that call draws `n` instances of `index_count`
/// indices each.
pub proof fn law_update_then_render_draws_each_instance(
    g: ModelGpuView,
    positions: Seq<u32>,
    n: nat,
)
    requires
        g.well_formed(),
        positions.len() == 3 * n,
        n <= u32::MAX,
    ensures
        ({
            let commands = g.with_instances(positions).render_commands();
            &&& forall|i: int| 0 <= i < commands.len() ==> ((#[trigger] commands[i]).is_draw() <==> i == 4)
            &&& commands[4] == RenderCommand::DrawIndexed {
                first_index: 0,
                end_index: g.index_count as u32,
                base_vertex: 0,
                first_instance: 0,
                end_instance: n as u32,
            }
            &&& commands[4].instances_drawn() == n
            &&& commands[4].indices_per_instance() == g.index_count
        }),
{
    assert((3 * n) / 3 == n) by (nonlinear_arith);
}

/// The index count is the length of the mesh's index list from construction
/// on, whatever instance updates follow; the vertex buffer, the index buffer
/// and the pipeline stay as constructed too.
pub proof fn law_mesh_and_pipeline_never_change(
    mesh: TriangleListView,
    format: TextureFormat,
    vertex_code: Seq<u32>,
    fragment_code: Seq<u32>,
    updates: Seq<Seq<u32>>,
)
    ensures
        ({
            let start = ModelGpuView::constructed(mesh, format, vertex_code, fragment_code);
            let g = start.after_updates(updates);
            &&& g.index_count == mesh.indices.len()
            &&& g.vertex_count() == start.vertex_count()
            &&& g.index_buf == start.index_buf
            &&& g.vertex_buf == start.vertex_buf
            &&& g.pipeline == start.pipeline
        }),
    decreases updates.len(),
{
    if updates.len() > 0 {
        law_mesh_and_pipeline_never_change(
            mesh,
            format,
            vertex_code,
            fragment_code,
            updates.drop_last(),
        );
    }
}

/// Every state reached from construction on a well-formed mesh by updates
/// that fit is well formed.
pub proof fn law_reachable_states_well_formed(
    mesh: TriangleListView,
    format: TextureFormat,
    vertex_code: Seq<u32>,
    fragment_code: Seq<u32>,
    updates: Seq<Seq<u32>>,
)
    requires
        mesh.well_formed(),
        updates_fit(updates),
    ensures
        ModelGpuView::constructed(mesh, format, vertex_code, fragment_code).after_updates(
            updates,
        ).well_formed(),
    decreases updates.len(),
{
    let start = ModelGpuView::constructed(mesh, format, vertex_code, fragment_code);
    if updates.len() == 0 {
        lemma_constructed_well_formed(mesh, format, vertex_code, fragment_code);
    } else {
        let earlier = updates.drop_last();
        assert forall|i: int| 0 <= i < earlier.len() implies (#[trigger] earlier[i]).len() / 3
            <= u32::MAX by {
            assert(earlier[i] == updates[i]);
        }
        law_reachable_states_well_formed(mesh, format, vertex_code, fragment_code, earlier);
        lemma_update_well_formed(start.after_updates(earlier), updates.last());
    }
}

/// The draw call of a well-formed renderer reads only indices that the index
/// buffer holds, and every vertex it names is a vertex of the vertex buffer.
pub proof fn law_drawn_indices_name_vertices(g: ModelGpuView, k: int)
    requires
        g.well_formed(),
        g.render_commands()[4]->first_index <= k < g.render_commands()[4]->end_index,
    ensures
        0 <= k < g.index_buf.words.len(),
        0 <= g.index_buf.words[k] + g.render_commands()[4]->base_vertex < g.vertex_count(),
{
}

/// However many instance updates follow the construction from a well-formed
/// mesh, a frame draws every index of the mesh, and every index it draws is
/// below the number of vertices the mesh had at construction.
pub proof fn law_drawn_indices_below_constructed_vertex_count(
    mesh: TriangleListView,
    format: TextureFormat,
    vertex_code: Seq<u32>,
    fragment_code: Seq<u32>,
    updates: Seq<Seq<u32>>,
    k: int,
)
    requires
        mesh.well_formed(),
    ensures
        ({
            let g = ModelGpuView::constructed(
                mesh,
                format,
                vertex_code,
                fragment_code,
            ).after_updates(updates);
            let draw = g.render_commands()[4];
            &&& draw->first_index == 0
            &&& draw->end_index == mesh.indices.len()
            &&& draw->base_vertex == 0
            &&& g.vertex_count() == mesh.vertices.len()
            &&& draw->first_index <= k < draw->end_index ==> g.index_buf.words[k]
                < mesh.vertices.len()
        }),
{
    law_mesh_and_pipeline_never_change(mesh, format, vertex_code, fragment_code, updates);
    let n = mesh.vertices.len();
    assert((n * 6) / 6 == n) by (nonlinear_arith);
}

/// The draw call of a well-formed renderer reads only instances that the
/// instance buffer holds in full.
pub proof fn law_drawn_instances_lie_in_buffer(g: ModelGpuView, j: int)
    requires
        g.well_formed(),
        g.render_commands()[4]->first_instance <= j < g.render_commands()[4]->end_instance,
    ensures
        0 <= 3 * j,
        3 * j + 3 <= g.instance_buf.words.len(),
{
}

/// What a pass has bound when the draw call of a frame is reached: the
/// pipeline, bind group 0, the index buffer, the mesh vertices at slot 0 and
/// the instances at slot 1.
pub proof fn lemma_pass_before_draw(g: ModelGpuView)
    ensures
        PassState::after(g.render_commands().take(4)) == (PassState {
            pipeline_set: true,
            bind_groups: set![0int],
            index_buffer: Some(BufferBinding { buffer: BufferRole::Index, offset: 0 }),
            vertex_buffers: map![
                0int => BufferBinding { buffer: BufferRole::Vertex, offset: 0 },
                1int => BufferBinding { buffer: BufferRole::Instance, offset: 0 },
            ],
        }),
{
    let c = g.render_commands();
    let c4 = c.take(4);
    let c3 = c4.drop_last();
    let c2 = c3.drop_last();
    let c1 = c2.drop_last();
    assert(c1.drop_last().len() == 0);
    assert(c1.last() == c[0] && c2.last() == c[1] && c3.last() == c[2] && c4.last() == c[3]);
    reveal_with_fuel(PassState::after, 5);
    let pass = PassState::after(c4);
    assert(pass.bind_groups =~= set![0int]);
    assert(pass.vertex_buffers =~= map![
        0int => BufferBinding { buffer: BufferRole::Vertex, offset: 0 },
        1int => BufferBinding { buffer: BufferRole::Instance, offset: 0 },
    ]);
}

/// A frame of a well-formed renderer is valid: when its draw call is
/// reached, everything the draw needs is bound, and every index, vertex and
/// instance the draw reads lies inside the buffer it is read from.
pub proof fn law_frame_is_valid(g: ModelGpuView)
    requires
        g.well_formed(),
    ensures
        g.frame_is_valid(g.render_commands()),
{
    let c = g.render_commands();
    lemma_pass_before_draw(g);
    assert(g.pipeline.vertex_buffers[0] == mesh_vertex_layout());
    assert(g.pipeline.vertex_buffers[1] == instance_layout());
    assert forall|i: int| 0 <= i < c.len() && (#[trigger] c[i]).is_draw() implies g.draw_is_valid(
        PassState::after(c.take(i)),
        c[i],
    ) by {
        assert(i == 4);
    }
}

/// Updating with no positions leaves a renderer that draws zero instances and
/// whose vertex buffer, index buffer, index count and pipeline are untouched.
pub proof fn law_empty_update_draws_nothing(g: ModelGpuView)
    requires
        g.well_formed(),
    ensures
        ({
            let after = g.with_instances(Seq::empty());
            &&& after.well_formed()
            &&& after.instance_count == 0
            &&& after.render_commands()[4].instances_drawn() == 0
            &&& after.vertex_buf == g.vertex_buf
            &&& after.index_buf == g.index_buf
            &&& after.index_count == g.index_count
            &&& after.pipeline == g.pipeline
            &&& after.render_commands().take(4) == g.render_commands().take(4)
            &&& after.frame_is_valid(after.render_commands())
            &&& forall|positions: Seq<u32>| #[trigger]
                after.with_instances(positions) == g.with_instances(positions)
        }),
{
    let after = g.with_instances(Seq::empty());
    assert(after.render_commands().take(4) =~= g.render_commands().take(4));
    law_frame_is_valid(after);
}

/// Of two instance updates in a row only the second is left: the instance
/// buffer holds the second list and nothing else, and the state, and with it
/// what `render` records, is the same as if the first update had never
/// happened.
pub proof fn law_last_update_wins(g: ModelGpuView, first: Seq<u32>, second: Seq<u32>)
    ensures
        g.with_instances(first).with_instances(second).instance_buf.words == second,
        g.with_instances(first).with_instances(second).instance_count == second.len() / 3,
        g.with_instances(first).with_instances(second) == g.with_instances(second),
        g.with_instances(first).with_instances(second).render_commands() == g.with_instances(
            second,
        ).render_commands(),
{
}

/// The fixed-function state of a constructed renderer does not depend on the
/// mesh or the shader programs: counter-clockwise front faces, back-face
/// culling, no depth bias, triangle lists, 32-bit indices, one color target
/// of the requested format written in full with replace blending, depth test
/// "less" with depth writes on a 32-bit float depth buffer, no stencil test,
/// one sample with every sample enabled, no alpha-to-coverage, and the two
/// vertex-buffer layouts.
pub proof fn law_pipeline_state_is_fixed(
    mesh: TriangleListView,
    format: TextureFormat,
    vertex_code: Seq<u32>,
    fragment_code: Seq<u32>,
)
    ensures
        ({
            let p = ModelGpuView::constructed(mesh, format, vertex_code, fragment_code).pipeline;
            &&& p.bind_group_layouts == 1
            &&& p.rasterization_state is Some
            &&& p.rasterization_state->0.front_face == FrontFace::Ccw
            &&& p.rasterization_state->0.cull_mode == CullMode::Back
            &&& p.rasterization_state->0.depth_bias == 0
            &&& p.rasterization_state->0.depth_bias_slope_scale_bits == 0
            &&& p.rasterization_state->0.depth_bias_clamp_bits == 0
            &&& p.primitive_topology == PrimitiveTopology::TriangleList
            &&& p.index_format == IndexFormat::Uint32
            &&& p.color_states.len() == 1
            &&& p.color_states[0].format == format
            &&& p.color_states[0].color_blend == BlendState::replace()
            &&& p.color_states[0].alpha_blend == BlendState::replace()
            &&& p.color_states[0].write_mask == ColorWrite::all()
            &&& p.depth_stencil_state is Some
            &&& p.depth_stencil_state->0.format == TextureFormat::Depth32Float
            &&& p.depth_stencil_state->0.depth_compare == CompareFunction::Less
            &&& p.depth_stencil_state->0.depth_write_enabled
            &&& p.depth_stencil_state->0.stencil_front == StencilFaceState::ignore()
            &&& p.depth_stencil_state->0.stencil_back == StencilFaceState::ignore()
            &&& p.depth_stencil_state->0.stencil_read_mask == 0
            &&& p.depth_stencil_state->0.stencil_write_mask == 0
            &&& p.sample_count == 1
            &&& p.sample_mask == u32::MAX
            &&& !p.alpha_to_coverage_enabled
            &&& p.vertex_buffers == seq![mesh_vertex_layout(), instance_layout()]
            &&& p.vertex_stage == (ShaderStageView { code: vertex_code, entry_point: "main"@ })
            &&& p.fragment_stage == Some(
                ShaderStageView { code: fragment_code, entry_point: "main"@ },
            )
        }),
{
}

/// Two constructions for the same color format have the same pipeline but
/// for the code of the two shader stages; with the same shader programs the
/// pipelines are equal.
pub proof fn law_pipeline_is_deterministic(
    mesh: TriangleListView,
    vertex_code: Seq<u32>,
    fragment_code: Seq<u32>,
    other_mesh: TriangleListView,
    other_vertex_code: Seq<u32>,
    other_fragment_code: Seq<u32>,
    format: TextureFormat,
)
    ensures
        ({
            let p = ModelGpuView::constructed(mesh, format, vertex_code, fragment_code).pipeline;
            let q = ModelGpuView::constructed(
                other_mesh,
                format,
                other_vertex_code,
                other_fragment_code,
            ).pipeline;
            &&& q == (PipelineStateView {
                vertex_stage: q.vertex_stage,
                fragment_stage: q.fragment_stage,
                ..p
            })
            &&& vertex_code == other_vertex_code && fragment_code == other_fragment_code ==> p == q
        }),
{
}

/// Both vertex-buffer layouts of the pipeline are well formed, and the
/// number of elements they see in the renderer's buffers is the vertex count
/// and the instance count.
pub proof fn law_layouts_fit_buffers(vertices: Seq<Vertex>, positions: Seq<u32>)
    ensures
        mesh_vertex_layout().well_formed(),
        instance_layout().well_formed(),
        mesh_vertex_layout().elements(vertex_words(vertices).len()) == vertices.len(),
        instance_layout().elements(positions.len()) == positions.len() / 3,
{
    let n = vertices.len();
    assert((4 * (n * 6)) / 24 == n) by (nonlinear_arith);
    let m = positions.len();
    assert((4 * m) / 12 == m / 3) by (nonlinear_arith);
}

/// Read through the layout of binding 0, vertex `i` of the vertex buffer
/// has the position of mesh vertex `i` at location 0 and its texture
/// coordinate at location 1.
pub proof fn law_vertex_attributes_are_mesh_vertices(vertices: Seq<Vertex>, i: int)
    requires
        0 <= i < vertices.len(),
    ensures
        mesh_vertex_layout().attribute_words(vertex_words(vertices), i, 0) == vertices[i].pos@,
        mesh_vertex_layout().attribute_words(vertex_words(vertices), i, 1)
            == vertices[i].tex_coord@,
{
    let words = vertex_words(vertices);
    let layout = mesh_vertex_layout();
    assert((i * 24 + 0) / 4 == 6 * i);
    assert((i * 24 + 16) / 4 == 6 * i + 4);
    let pos = layout.attribute_words(words, i, 0);
    assert(pos.len() == 4);
    assert forall|c: int| 0 <= c < 4 implies pos[c] == vertices[i].pos@[c] by {
        let k = 6 * i + c;
        assert(k / 6 == i && k % 6 == c);
        assert(pos[c] == words[k]);
    }
    assert(pos =~= vertices[i].pos@);
    let tex = layout.attribute_words(words, i, 1);
    assert(tex.len() == 2);
    assert forall|c: int| 0 <= c < 2 implies tex[c] == vertices[i].tex_coord@[c] by {
        let k = 6 * i + 4 + c;
        assert(k / 6 == i && k % 6 == 4 + c);
        assert(tex[c] == words[k]);
    }
    assert(tex =~= vertices[i].tex_coord@);
}

/// Read through the layout of binding 1, instance `j` of an instance buffer
/// that holds `positions` has the `j`-th group of three components at
/// location 2.
pub proof fn law_instance_attributes_are_positions(positions: Seq<u32>, j: int)
    requires
        0 <= j < positions.len() / 3,
    ensures
        instance_layout().attribute_words(positions, j, 0) == positions.subrange(
            3 * j,
            3 * j + 3,
        ),
{
    assert((j * 12 + 0) / 4 == 3 * j);
}

} // verus!
