use instanced_mesh::buffer::{BufferUsage, DeviceBuffer};
use instanced_mesh::command::{BufferRole, RenderCommand, BufferBinding};
use instanced_mesh::geometry::{flatten_vertices, TriangleList, Vertex, WORDS_PER_VERTEX};
use instanced_mesh::model_gpu::{ModelGpu, WORDS_PER_INSTANCE};
use instanced_mesh::pipeline::TextureFormat;

fn vertex(pos: [i8; 3], tc: [i8; 2]) -> Vertex {
    Vertex {
        pos: [
            (pos[0] as f32).to_bits(),
            (pos[1] as f32).to_bits(),
            (pos[2] as f32).to_bits(),
            1.0f32.to_bits(),
        ],
        tex_coord: [(tc[0] as f32).to_bits(), (tc[1] as f32).to_bits()],
    }
}

/// A unit cube: four vertices per face, two triangles per face.
fn cube() -> (Vec<Vertex>, Vec<u32>) {
    let vertices = vec![
        // +z
        vertex([-1, -1, 1], [0, 0]),
        vertex([1, -1, 1], [1, 0]),
        vertex([1, 1, 1], [1, 1]),
        vertex([-1, 1, 1], [0, 1]),
        // -z
        vertex([-1, 1, -1], [1, 0]),
        vertex([1, 1, -1], [0, 0]),
        vertex([1, -1, -1], [0, 1]),
        vertex([-1, -1, -1], [1, 1]),
        // +x
        vertex([1, -1, -1], [0, 0]),
        vertex([1, 1, -1], [1, 0]),
        vertex([1, 1, 1], [1, 1]),
        vertex([1, -1, 1], [0, 1]),
        // -x
        vertex([-1, -1, 1], [1, 0]),
        vertex([-1, 1, 1], [0, 0]),
        vertex([-1, 1, -1], [0, 1]),
        vertex([-1, -1, -1], [1, 1]),
        // +y
        vertex([1, 1, -1], [1, 0]),
        vertex([-1, 1, -1], [0, 0]),
        vertex([-1, 1, 1], [0, 1]),
        vertex([1, 1, 1], [1, 1]),
        // -y
        vertex([1, -1, 1], [0, 0]),
        vertex([-1, -1, 1], [1, 0]),
        vertex([-1, -1, -1], [1, 1]),
        vertex([1, -1, -1], [0, 1]),
    ];
    let mut indices = Vec::new();
    for face in 0..6u32 {
        let base = 4 * face;
        indices.extend_from_slice(&[base, base + 1, base + 2, base + 2, base + 3, base]);
    }
    (vertices, indices)
}

fn cube_renderer() -> ModelGpu {
    let (vertices, indices) = cube();
    let mesh = TriangleList::new(vertices, indices).unwrap();
    ModelGpu::new(&mesh, TextureFormat::Bgra8UnormSrgb, vec![0x0723_0203, 1], vec![0x0723_0203, 2])
}

fn bits(values: &[f32]) -> Vec<u32> {
    values.iter().map(|v| v.to_bits()).collect()
}

fn frame(index_count: u32, instance_count: u32) -> Vec<RenderCommand> {
    vec![
        RenderCommand::SetPipeline,
        RenderCommand::SetBindGroup { index: 0 },
        RenderCommand::SetIndexBuffer { buffer: BufferRole::Index, offset: 0 },
        RenderCommand::SetVertexBuffers {
            start_slot: 0,
            buffers: [
                BufferBinding { buffer: BufferRole::Vertex, offset: 0 },
                BufferBinding { buffer: BufferRole::Instance, offset: 0 },
            ],
        },
        RenderCommand::DrawIndexed {
            first_index: 0,
            end_index: index_count,
            base_vertex: 0,
            first_instance: 0,
            end_instance: instance_count,
        },
    ]
}

#[test]
fn cube_with_three_instances_draws_36_indices_3_times() {
    let mut gpu = cube_renderer();
    let positions = bits(&[0.0, 0.0, 0.0, 1.0, 0.0, 0.0, 2.0, 0.0, 0.0]);
    gpu.update_instance(&positions);
    let commands = gpu.render();
    assert_eq!(commands, frame(36, 3));
    let draws = commands
        .iter()
        .filter(|c| matches!(c, RenderCommand::DrawIndexed { .. }))
        .count();
    assert_eq!(draws, 1);
    assert_eq!(gpu.instance_count(), 3);
    assert_eq!(gpu.index_count(), 36);
    assert_eq!(gpu.instance_buf().words(), &positions);
    let words = gpu.instance_buf().words();
    assert_eq!(f32::from_bits(words[3]), 1.0);
    assert_eq!(f32::from_bits(words[6]), 2.0);
    assert_eq!(&words[3..6], &bits(&[1.0, 0.0, 0.0])[..]);
}

#[test]
fn new_renderer_has_mesh_and_no_instances() {
    let (vertices, indices) = cube();
    let gpu = cube_renderer();
    assert_eq!(gpu.index_count(), 36);
    assert_eq!(gpu.instance_count(), 0);
    assert_eq!(gpu.vertex_buf().words().len(), 24 * WORDS_PER_VERTEX);
    assert_eq!(gpu.vertex_buf().words(), &flatten_vertices(&vertices));
    assert_eq!(gpu.index_buf().words(), &indices);
    assert!(gpu.instance_buf().words().is_empty());
    assert_eq!(gpu.render(), frame(36, 0));
}

#[test]
fn buffers_carry_their_usage() {
    let mut gpu = cube_renderer();
    assert_eq!(
        gpu.vertex_buf().usage(),
        BufferUsage { vertex: true, index: false, copy_dst: false }
    );
    assert_eq!(
        gpu.index_buf().usage(),
        BufferUsage { vertex: false, index: true, copy_dst: false }
    );
    assert_eq!(
        gpu.instance_buf().usage(),
        BufferUsage { vertex: true, index: false, copy_dst: true }
    );
    gpu.update_instance(&[1, 2, 3]);
    assert_eq!(
        gpu.instance_buf().usage(),
        BufferUsage { vertex: true, index: false, copy_dst: false }
    );
}

#[test]
fn update_with_3n_components_draws_n_instances() {
    for n in [1usize, 2, 5, 100] {
        let mut gpu = cube_renderer();
        let positions: Vec<u32> = (0..3 * n as u32).collect();
        gpu.update_instance(&positions);
        assert_eq!(gpu.instance_count() as usize, n);
        assert_eq!(gpu.render(), frame(36, n as u32));
    }
}

#[test]
fn trailing_partial_instance_is_dropped() {
    let mut gpu = cube_renderer();
    gpu.update_instance(&[1, 2, 3, 4, 5, 6, 7]);
    assert_eq!(gpu.instance_count(), 2);
    assert_eq!(gpu.instance_buf().words(), &vec![1, 2, 3, 4, 5, 6, 7]);
    assert_eq!(gpu.render()[4], frame(36, 2)[4]);
    gpu.update_instance(&[1, 2, 3, 4, 5, 6, 7, 8]);
    assert_eq!(gpu.instance_count(), 2);
    gpu.update_instance(&[9, 9]);
    assert_eq!(gpu.instance_count(), 0);
    assert_eq!(gpu.render(), frame(36, 0));
    assert_eq!(WORDS_PER_INSTANCE, 3);
}

#[test]
fn empty_update_draws_nothing_and_keeps_the_mesh() {
    let mut gpu = cube_renderer();
    gpu.update_instance(&[1, 2, 3, 4, 5, 6]);
    let vertex_words = gpu.vertex_buf().words().clone();
    let index_words = gpu.index_buf().words().clone();
    gpu.update_instance(&[]);
    assert_eq!(gpu.instance_count(), 0);
    assert!(gpu.instance_buf().words().is_empty());
    assert_eq!(gpu.render(), frame(36, 0));
    assert_eq!(gpu.vertex_buf().words(), &vertex_words);
    assert_eq!(gpu.index_buf().words(), &index_words);
    assert_eq!(gpu.index_count(), 36);
    assert_eq!(gpu.pipeline(), cube_renderer().pipeline());
    gpu.update_instance(&[7, 8, 9]);
    assert_eq!(gpu.render(), frame(36, 1));
}

#[test]
fn second_update_replaces_the_first() {
    let mut gpu = cube_renderer();
    gpu.update_instance(&[11, 12, 13, 14, 15, 16, 17, 18, 19]);
    gpu.update_instance(&[21, 22, 23]);
    assert_eq!(gpu.instance_buf().words(), &vec![21, 22, 23]);
    assert_eq!(gpu.instance_count(), 1);
    assert_eq!(gpu.render(), frame(36, 1));

    let mut fresh = cube_renderer();
    fresh.update_instance(&[21, 22, 23]);
    assert_eq!(fresh.instance_buf().words(), gpu.instance_buf().words());
    assert_eq!(fresh.instance_count(), gpu.instance_count());
    assert_eq!(fresh.render(), gpu.render());
}

#[test]
fn index_count_never_changes() {
    let mut gpu = cube_renderer();
    let before = gpu.index_count();
    for n in 0..10u32 {
        let positions: Vec<u32> = (0..n).collect();
        gpu.update_instance(&positions);
        let _ = gpu.render();
        assert_eq!(gpu.index_count(), before);
    }
    assert_eq!(before, 36);
}

#[test]
fn every_drawn_index_names_a_vertex() {
    let mut gpu = cube_renderer();
    gpu.update_instance(&[0, 0, 0]);
    let vertex_count = gpu.vertex_buf().words().len() / WORDS_PER_VERTEX;
    assert_eq!(vertex_count, 24);
    match gpu.render()[4] {
        RenderCommand::DrawIndexed { first_index, end_index, base_vertex, .. } => {
            assert_eq!(base_vertex, 0);
            let indices = gpu.index_buf().words();
            assert!(end_index as usize <= indices.len());
            for k in first_index..end_index {
                assert!((indices[k as usize] as usize) < vertex_count);
            }
        }
        _ => panic!("the last command of a frame is the draw call"),
    }
}

#[test]
fn render_does_not_change_the_renderer() {
    let mut gpu = cube_renderer();
    gpu.update_instance(&[1, 2, 3, 4, 5, 6]);
    let first = gpu.render();
    let second = gpu.render();
    assert_eq!(first, second);
    assert_eq!(gpu.instance_count(), 2);
}

#[test]
fn device_buffer_copies_its_data() {
    let data = [5u32, 6, 7];
    let usage = BufferUsage { vertex: true, index: false, copy_dst: false };
    let copied = DeviceBuffer::with_data(usage, &data);
    assert_eq!(copied.words(), &vec![5, 6, 7]);
    assert_eq!(copied.usage(), usage);
    let taken = DeviceBuffer::from_words(usage, vec![8, 9]);
    assert_eq!(taken.words(), &vec![8, 9]);
    let empty = DeviceBuffer::with_data(usage, &[]);
    assert!(empty.words().is_empty());
}

#[test]
fn frames_stay_inside_the_bound_buffers() {
    for len in [0usize, 1, 2, 3, 7, 9, 300] {
        let mut gpu = cube_renderer();
        let positions: Vec<u32> = (0..len as u32).collect();
        gpu.update_instance(&positions);

        let mut pipeline_set = false;
        let mut bind_group_set = false;
        let mut index_limit = None;
        let mut instance_limit = None;
        let mut vertex_limit = None;
        let mut draws = 0;
        for command in gpu.render() {
            match command {
                RenderCommand::SetPipeline => pipeline_set = true,
                RenderCommand::SetBindGroup { index } => bind_group_set = index == 0,
                RenderCommand::SetIndexBuffer { buffer, offset } => {
                    assert_eq!(buffer, BufferRole::Index);
                    assert!(gpu.index_buf().usage().index);
                    let size = 4 * gpu.index_buf().words().len() as u64;
                    index_limit = Some((size - offset) / 4);
                }
                RenderCommand::SetVertexBuffers { start_slot, buffers } => {
                    assert_eq!(start_slot, 0);
                    assert_eq!(buffers[0].buffer, BufferRole::Vertex);
                    assert_eq!(buffers[1].buffer, BufferRole::Instance);
                    assert!(gpu.vertex_buf().usage().vertex);
                    assert!(gpu.instance_buf().usage().vertex);
                    let layouts = &gpu.pipeline().vertex_buffers;
                    assert_eq!(layouts.len(), 2);
                    let vertex_size = 4 * gpu.vertex_buf().words().len() as u64;
                    let instance_size = 4 * gpu.instance_buf().words().len() as u64;
                    vertex_limit = Some((vertex_size - buffers[0].offset) / layouts[0].stride);
                    instance_limit = Some((instance_size - buffers[1].offset) / layouts[1].stride);
                }
                RenderCommand::DrawIndexed {
                    first_index,
                    end_index,
                    base_vertex,
                    first_instance,
                    end_instance,
                } => {
                    draws += 1;
                    assert!(pipeline_set && bind_group_set);
                    assert!(first_index <= end_index && first_instance <= end_instance);
                    assert!(end_index as u64 <= index_limit.unwrap());
                    assert!(end_instance as u64 <= instance_limit.unwrap());
                    assert_eq!(end_instance as usize, len / 3);
                    for k in first_index..end_index {
                        let vertex = gpu.index_buf().words()[k as usize] as i64 + base_vertex as i64;
                        assert!(0 <= vertex && (vertex as u64) < vertex_limit.unwrap());
                    }
                }
            }
        }
        assert_eq!(draws, 1);
    }
}
