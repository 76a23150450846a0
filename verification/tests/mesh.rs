use terrain_renderer::utils::{
    create_indices, create_texels, create_vertices, index_bytes, little_endian_bytes, vertex_bytes, Vertex,
    GRID_SIZE,
    ONE_BITS, VERTEX_SIZE,
};

fn axis() -> Vec<u32> {
    (0..GRID_SIZE).map(|i| (i as f32).to_bits()).collect()
}

fn tex_axis() -> Vec<u32> {
    (0..GRID_SIZE).map(|i| (i as f32 / (GRID_SIZE - 1) as f32).to_bits()).collect()
}

fn heights(amplitude: f64, frequency: f32) -> Vec<u32> {
    (0..GRID_SIZE * GRID_SIZE)
        .map(|k| {
            let x = (k % GRID_SIZE) as f32 * frequency;
            let z = (k / GRID_SIZE) as f32 * frequency;
            ((amplitude as f32) * (x.sin() + z.cos())).to_bits()
        })
        .collect()
}

#[test]
fn constants_have_their_documented_values() {
    assert_eq!(VERTEX_SIZE, 24);
    assert_eq!(f32::from_bits(ONE_BITS), 1.0);
}

#[test]
fn mesh_is_the_same_on_every_call() {
    let a = create_vertices(&axis(), &tex_axis(), &heights(10.0, 6.0)).unwrap();
    let b = create_vertices(&axis(), &tex_axis(), &heights(10.0, 6.0)).unwrap();
    assert_eq!(a.0, b.0);
    assert_eq!(a.1, b.1);
}

#[test]
fn mesh_counts_do_not_depend_on_parameters() {
    let a = create_vertices(&axis(), &tex_axis(), &heights(10.0, 6.0)).unwrap();
    let b = create_vertices(&axis(), &tex_axis(), &heights(2.5, 0.25)).unwrap();
    assert_eq!(a.0.len(), GRID_SIZE * GRID_SIZE);
    assert_eq!(b.0.len(), GRID_SIZE * GRID_SIZE);
    assert_eq!(a.1.len(), 6 * (GRID_SIZE - 1) * (GRID_SIZE - 1));
    assert_eq!(a.1, b.1);
    assert_ne!(a.0, b.0);
}

#[test]
fn mesh_vertices_follow_the_lattice() {
    let hs = heights(10.0, 6.0);
    let (vertices, _) = create_vertices(&axis(), &tex_axis(), &hs).unwrap();
    let k = 3 * GRID_SIZE + 5;
    assert_eq!(
        vertices[k],
        Vertex {
            x: 5.0f32.to_bits(),
            y: hs[k],
            z: 3.0f32.to_bits(),
            w: 1.0f32.to_bits(),
            u: (5.0f32 / 63.0).to_bits(),
            v: (3.0f32 / 63.0).to_bits(),
        }
    );
    assert!(vertices.iter().all(|v| f32::from_bits(v.w) == 1.0));
}

#[test]
fn mesh_rejects_inputs_of_the_wrong_shape() {
    let mut short_axis = axis();
    short_axis.pop();
    assert!(create_vertices(&short_axis, &tex_axis(), &heights(10.0, 6.0)).is_none());
    let mut long_tex = tex_axis();
    long_tex.push(0);
    assert!(create_vertices(&axis(), &long_tex, &heights(10.0, 6.0)).is_none());
    assert!(create_vertices(&axis(), &tex_axis(), &vec![0; 10]).is_none());
    assert!(create_vertices(&Vec::new(), &Vec::new(), &Vec::new()).is_none());
}

#[test]
fn indices_name_vertices_and_form_triangles() {
    let indices = create_indices();
    assert_eq!(indices.len(), 23814);
    assert_eq!(indices.len() % 3, 0);
    assert!(indices.iter().all(|&i| (i as usize) < GRID_SIZE * GRID_SIZE));
}

#[test]
fn indices_triangulate_each_cell() {
    let indices = create_indices();
    assert_eq!(&indices[0..6], &[0, 64, 1, 1, 64, 65]);
    assert_eq!(&indices[6..12], &[1, 65, 2, 2, 65, 66]);
    // first cell of the second row of cells
    let at = 6 * (GRID_SIZE - 1);
    assert_eq!(&indices[at..at + 6], &[64, 128, 65, 65, 128, 129]);
    // last cell
    let at = indices.len() - 6;
    assert_eq!(&indices[at..], &[4030, 4094, 4031, 4031, 4094, 4095]);
}

#[test]
fn vertex_takes_twenty_four_little_endian_bytes() {
    let vertex = Vertex {
        x: 1.5f32.to_bits(),
        y: (-2.0f32).to_bits(),
        z: 3.25f32.to_bits(),
        w: 1.0f32.to_bits(),
        u: 0.5f32.to_bits(),
        v: 0.75f32.to_bits(),
    };
    let bytes = vertex_bytes(&vec![vertex]);
    let mut expected: Vec<u8> = Vec::new();
    for f in [1.5f32, -2.0, 3.25, 1.0, 0.5, 0.75] {
        expected.extend_from_slice(&f.to_le_bytes());
    }
    assert_eq!(bytes.len(), 24);
    assert_eq!(bytes, expected);
    assert_eq!(&bytes[12..16], &[0x00, 0x00, 0x80, 0x3F]);
}

#[test]
fn vertex_buffer_length_is_count_times_stride() {
    let (vertices, _) = create_vertices(&axis(), &tex_axis(), &heights(10.0, 6.0)).unwrap();
    let bytes = vertex_bytes(&vertices);
    assert_eq!(bytes.len(), vertices.len() * 24);
    assert_eq!(bytes.len(), 98304);
    assert_eq!(&bytes[24 * 7 + 12..24 * 7 + 16], &1.0f32.to_le_bytes());
    assert!(vertex_bytes(&Vec::new()).is_empty());
}

#[test]
fn index_bytes_are_little_endian_words() {
    let bytes = index_bytes(&vec![0x0102_0304, 1, 0xFFFF_FFFF]);
    assert_eq!(bytes, vec![4, 3, 2, 1, 1, 0, 0, 0, 255, 255, 255, 255]);
    let indices = create_indices();
    assert_eq!(index_bytes(&indices).len() / 4, indices.len());
    assert!(index_bytes(&Vec::new()).is_empty());
}

#[test]
fn texels_fill_a_square_of_four_byte_pixels() {
    let texels = create_texels(256);
    assert_eq!(texels.len(), 256 * 256 * 4);
    assert!(texels.iter().all(|&b| b == 0xFF));
    assert_eq!(create_texels(256), texels);
}

#[test]
fn texels_of_small_sizes() {
    assert!(create_texels(0).is_empty());
    assert_eq!(create_texels(1), vec![255, 255, 255, 255]);
    assert_eq!(create_texels(3).len(), 36);
}

#[test]
fn little_endian_memory_is_handed_on() {
    let words = vec![0x1111_1111, 0x0102_0304, 7];
    let memory = vec![0x11, 0x11, 0x11, 0x11, 4, 3, 2, 1, 7, 0, 0, 0];
    assert_eq!(little_endian_bytes(&words, memory.clone()), memory);
}

#[test]
fn big_endian_memory_is_encoded_anew() {
    let words = vec![0x1111_1111, 0x0102_0304, 7];
    let memory = vec![0x11, 0x11, 0x11, 0x11, 1, 2, 3, 4, 0, 0, 0, 7];
    assert_eq!(
        little_endian_bytes(&words, memory),
        vec![0x11, 0x11, 0x11, 0x11, 4, 3, 2, 1, 7, 0, 0, 0]
    );
}

#[test]
fn words_with_equal_inner_bytes_still_tell_the_order() {
    let words = vec![0x0A55_550B];
    assert_eq!(little_endian_bytes(&words, vec![0x0A, 0x55, 0x55, 0x0B]), vec![0x0B, 0x55, 0x55, 0x0A]);
    let words = vec![0x0A12_340A];
    assert_eq!(little_endian_bytes(&words, vec![0x0A, 0x12, 0x34, 0x0A]), vec![0x0A, 0x34, 0x12, 0x0A]);
}

#[test]
fn symmetric_words_read_the_same_in_both_orders() {
    let words = vec![0, 0xFFFF_FFFF, 0x1221_2112, 0xAB00_00AB];
    let memory: Vec<u8> = words.iter().flat_map(|w: &u32| w.to_be_bytes()).collect();
    let expected: Vec<u8> = words.iter().flat_map(|w: &u32| w.to_le_bytes()).collect();
    assert_eq!(little_endian_bytes(&words, memory), expected);
}

#[test]
fn memory_of_the_wrong_length_is_replaced() {
    let words = vec![0x0102_0304];
    assert_eq!(little_endian_bytes(&words, vec![4, 3, 2]), vec![4, 3, 2, 1]);
    assert_eq!(little_endian_bytes(&words, vec![4, 3, 2, 1, 0, 0, 0, 0]), vec![4, 3, 2, 1]);
    assert_eq!(little_endian_bytes(&words, Vec::new()), vec![4, 3, 2, 1]);
    assert!(little_endian_bytes(&Vec::new(), Vec::new()).is_empty());
}

#[test]
fn index_bytes_match_the_standard_encoding() {
    let indices = create_indices();
    let expected: Vec<u8> = indices.iter().flat_map(|i: &u32| i.to_le_bytes()).collect();
    assert_eq!(index_bytes(&indices), expected);
}
