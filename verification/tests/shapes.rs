use nightmare_engine::shapes::Shapes;

#[test]
fn box_indices_are_two_triangles_per_face() {
    let idx = Shapes::create_box_indices();
    assert_eq!(
        idx,
        vec![
            0, 1, 2, 2, 3, 0, 4, 5, 6, 6, 7, 4, 8, 9, 10, 10, 11, 8, 12, 13, 14, 14, 15, 12, 16,
            17, 18, 18, 19, 16, 20, 21, 22, 22, 23, 20,
        ]
    );
    assert_eq!(idx.len(), 36);
    assert!(idx.iter().all(|&i| i < 24));
}

#[test]
fn pyramid_indices_are_bottom_then_sides() {
    let idx = Shapes::create_pyramid_indices();
    assert_eq!(idx, vec![0, 1, 2, 2, 3, 0, 4, 5, 6, 7, 8, 9, 10, 11, 12, 13, 14, 15]);
    assert_eq!(idx.len() % 3, 0);
    assert!(idx.iter().all(|&i| i < 16));
}

#[test]
fn uv_sphere_indices_small_grid() {
    let idx = Shapes::create_uv_sphere_indices(2, 3);
    assert_eq!(
        idx,
        vec![
            1, 3, 4, 2, 4, 5, // top stack: one triangle per cell
            3, 6, 4, 4, 6, 7, 4, 7, 5, 5, 7, 8, // middle stack: two per cell
            6, 9, 7, 7, 10, 8, // bottom stack: one per cell
        ]
    );
}

#[test]
fn uv_sphere_index_count_formula() {
    // 6 * sectors * (stacks - 1)
    assert_eq!(Shapes::create_uv_sphere_indices(36, 18).len(), 6 * 36 * 17);
    assert_eq!(Shapes::create_uv_sphere_indices(4, 2).len(), 6 * 4);
}

#[test]
fn uv_sphere_indices_in_range_of_vertices() {
    let (sectors, stacks) = (36usize, 18usize);
    let idx = Shapes::create_uv_sphere_indices(sectors, stacks);
    let vertices = ((stacks + 1) * (sectors + 1)) as u32;
    assert!(idx.iter().all(|&i| i < vertices));
    assert_eq!(idx.iter().copied().max(), Some(vertices - 2));
}

#[test]
fn uv_sphere_degenerate_grids_have_no_triangles() {
    assert!(Shapes::create_uv_sphere_indices(5, 1).is_empty());
    assert!(Shapes::create_uv_sphere_indices(5, 0).is_empty());
    assert!(Shapes::create_uv_sphere_indices(0, 7).is_empty());
}
