use shapes_renderer::geometry::{
    circle_index_count, generate_circle_indices, buffer_bytes, triangle_vertices,
    DomainError, TRIANGLE_VERTEX_COUNT,
};

#[test]
fn indices_of_a_triangle_loop() {
    assert_eq!(generate_circle_indices(3), vec![0, 1, 2, 0]);
}

#[test]
fn indices_of_a_single_segment() {
    assert_eq!(generate_circle_indices(1), vec![0, 0]);
}

#[test]
fn indices_without_segments_hold_only_the_closing_zero() {
    assert_eq!(generate_circle_indices(0), vec![0]);
}

#[test]
fn indices_count_up_and_close_the_loop() {
    for segments in [3usize, 4, 17, 64, 1000] {
        let indices = generate_circle_indices(segments);
        assert_eq!(indices.len(), segments + 1);
        for i in 0..segments {
            assert_eq!(indices[i], i as u32);
        }
        assert_eq!(indices[segments], 0);
        assert_eq!(indices[0], indices[segments]);
    }
}

#[test]
fn index_count_of_sixty_four_segments() {
    assert_eq!(circle_index_count(64), Ok(65));
    assert_eq!(circle_index_count(64).unwrap() as usize, generate_circle_indices(64).len());
}

#[test]
fn index_count_of_one_segment() {
    assert_eq!(circle_index_count(1), Ok(2));
}

#[test]
fn index_count_rejects_zero_segments() {
    assert_eq!(circle_index_count(0), Err(DomainError::ZeroSegments));
}

#[test]
fn index_count_rejects_a_loop_too_long_for_one_draw() {
    assert_eq!(circle_index_count(u32::MAX as usize), Err(DomainError::TooManySegments));
    assert_eq!(circle_index_count(usize::MAX), Err(DomainError::TooManySegments));
}

#[test]
fn index_count_accepts_the_longest_loop() {
    assert_eq!(circle_index_count(u32::MAX as usize - 1), Ok(u32::MAX));
}

#[test]
fn triangle_has_three_counter_clockwise_vertices() {
    let positions: Vec<f32> = triangle_vertices().iter().map(|bits| f32::from_bits(*bits)).collect();
    assert_eq!(positions, vec![0.0, 0.5, 0.0, -0.5, -0.5, 0.0, 0.5, -0.5, 0.0]);
    assert_eq!(positions.len(), 3 * TRIANGLE_VERTEX_COUNT as usize);
    // Twice the signed area is positive for a counter-clockwise triangle.
    let (ax, ay) = (positions[0], positions[1]);
    let (bx, by) = (positions[3], positions[4]);
    let (cx, cy) = (positions[6], positions[7]);
    assert!((bx - ax) * (cy - ay) - (cx - ax) * (by - ay) > 0.0);
}

#[test]
fn index_bytes_are_the_memory_image_of_the_indices() {
    let indices = vec![0u32, 1, 2, 0x0102_0304, u32::MAX, 0];
    let mut expected: Vec<u8> = Vec::new();
    for index in &indices {
        expected.extend_from_slice(&index.to_ne_bytes());
    }
    assert_eq!(buffer_bytes(&indices), expected);
}

#[test]
fn index_bytes_match_a_direct_cast() {
    let indices = generate_circle_indices(64);
    let bytes = buffer_bytes(&indices);
    assert_eq!(bytes.len(), 65 * 4);
    assert_eq!(bytes.as_slice(), bytemuck::cast_slice::<u32, u8>(&indices));
}

#[test]
fn index_bytes_of_nothing_are_empty() {
    assert_eq!(buffer_bytes(&Vec::new()), Vec::<u8>::new());
}
