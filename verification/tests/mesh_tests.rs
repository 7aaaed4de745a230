use rect_render::mesh::{generate_mesh, MeshError, Vertex};
use rect_render::scene::{Fill, Rect, Rgb, Rgba, Stroke};

fn rgba(r: f32, g: f32, b: f32, a: f32) -> Rgba {
    Rgba { r: r.to_bits(), g: g.to_bits(), b: b.to_bits(), a: a.to_bits() }
}

fn filled_rect(cx: i32, cy: i32, w: u32, h: u32, radius: u32, color: Rgba, z: f32, soft: f32) -> Rect {
    Rect {
        center_x: cx,
        center_y: cy,
        width: w,
        height: h,
        border_radius: radius,
        fill: Some(Fill { color }),
        stroke: None,
        z_index: z.to_bits(),
        softness: soft.to_bits(),
    }
}

#[test]
fn empty_scene_gives_empty_mesh() {
    let scene: Vec<Rect> = vec![];
    let mesh = generate_mesh(&scene).unwrap();
    assert_eq!(mesh.vertices.len(), 0);
    assert_eq!(mesh.indices.len(), 0);
}

#[test]
fn counts_are_four_and_six_per_rectangle() {
    let mut scene: Vec<Rect> = vec![];
    for i in 0..5 {
        scene.push(filled_rect(10 * i, 0, 4, 4, 1, rgba(1.0, 1.0, 1.0, 1.0), 0.0, 1.0));
    }
    let mesh = generate_mesh(&scene).unwrap();
    assert_eq!(mesh.vertices.len(), 20);
    assert_eq!(mesh.indices.len(), 30);
}

#[test]
fn corners_sit_at_center_plus_minus_half_size() {
    // Odd size on purpose: in half-pixel units the corners stay exact.
    // center (10, 20), size (5, 7): x spans 10 +/- 2.5, y spans 20 +/- 3.5,
    // i.e. 25/15 and 47/33 in half-pixels.
    let scene = vec![filled_rect(10, 20, 5, 7, 2, rgba(0.5, 0.5, 0.5, 1.0), 0.0, 1.0)];
    let mesh = generate_mesh(&scene).unwrap();
    let pos: Vec<(i64, i64)> = mesh.vertices.iter().map(|v| (v.pos_x, v.pos_y)).collect();
    assert_eq!(pos, vec![(25, 33), (25, 47), (15, 47), (15, 33)]);
}

#[test]
fn vertices_carry_their_rectangles_shading_parameters() {
    let color = rgba(0.25, 0.5, 0.75, 1.0);
    let scene = vec![filled_rect(100, 50, 40, 30, 8, color, 0.25, 2.0)];
    let mesh = generate_mesh(&scene).unwrap();
    for v in &mesh.vertices {
        assert_eq!(v.color, color);
        assert_eq!(v.border_radius, 8);
        assert_eq!(v.rect_pos_x, 200);
        assert_eq!(v.rect_pos_y, 100);
        assert_eq!(v.rect_size_x, 80);
        assert_eq!(v.rect_size_y, 60);
        assert_eq!(v.z_index, 0.25f32.to_bits());
        assert_eq!(v.softness, 2.0f32.to_bits());
    }
}

#[test]
fn indices_form_two_triangles_over_own_quad() {
    let scene = vec![
        filled_rect(0, 0, 2, 2, 0, rgba(1.0, 0.0, 0.0, 1.0), 0.0, 1.0),
        filled_rect(9, 9, 2, 2, 0, rgba(0.0, 1.0, 0.0, 1.0), 0.0, 1.0),
    ];
    let mesh = generate_mesh(&scene).unwrap();
    assert_eq!(mesh.indices, vec![0, 2, 1, 0, 3, 2, 4, 6, 5, 4, 7, 6]);
    // The second rectangle's six indices reference only its own vertices.
    for &ix in &mesh.indices[6..12] {
        assert!((4..8).contains(&ix));
    }
}

#[test]
fn missing_fill_reports_first_offending_rectangle() {
    let stroke_only = Rect {
        center_x: 0,
        center_y: 0,
        width: 10,
        height: 10,
        border_radius: 0,
        fill: None,
        stroke: Some(Stroke { color: Rgb { r: 0, g: 0, b: 0 }, width: 1 }),
        z_index: 0,
        softness: 0,
    };
    let scene = vec![
        filled_rect(0, 0, 2, 2, 0, rgba(1.0, 1.0, 1.0, 1.0), 0.0, 1.0),
        stroke_only,
        stroke_only,
    ];
    assert_eq!(generate_mesh(&scene), Err(MeshError::MissingFill { index: 1 }));
}

#[test]
fn scenario_two_overlapping_rectangles() {
    // Two overlapping squares; the second sits on top because buffer order,
    // not z_index, decides compositing order (no depth test is configured).
    let scene = vec![
        filled_rect(200, 200, 100, 100, 30, rgba(0.0, 0.0, 0.0, 0.7), 0.5, 5.0),
        filled_rect(198, 198, 100, 100, 30, rgba(1.0, 0.0, 0.0, 1.0), 0.0, 1.0),
    ];
    let mesh = generate_mesh(&scene).unwrap();
    assert_eq!(mesh.vertices.len(), 8);
    assert_eq!(mesh.indices.len(), 12);
    for v in &mesh.vertices[0..4] {
        assert_eq!((v.rect_pos_x, v.rect_pos_y), (400, 400)); // (200, 200) px
        assert_eq!((v.rect_size_x, v.rect_size_y), (200, 200)); // (100, 100) px
    }
    // Buffer order follows scene order even though the first rectangle has
    // the HIGHER z_index: the first rectangle's pixels are composited first,
    // the second's on top.
    assert_eq!(mesh.vertices[0].z_index, 0.5f32.to_bits());
    assert_eq!(mesh.vertices[4].z_index, 0.0f32.to_bits());
    assert!(f32::from_bits(mesh.vertices[0].z_index) > f32::from_bits(mesh.vertices[4].z_index));
    // The draw walks indices in order: the first rectangle's quad (vertices
    // 0..4) is entirely addressed before the second's (vertices 4..8).
    for &ix in &mesh.indices[0..6] {
        assert!(ix < 4);
    }
    for &ix in &mesh.indices[6..12] {
        assert!((4..8).contains(&ix));
    }
}

#[test]
fn scene_length_at_index_buffer_limit() {
    // The largest scene a 16-bit index buffer admits.
    let mut scene: Vec<Rect> = vec![];
    for _ in 0..16384 {
        scene.push(filled_rect(0, 0, 2, 2, 0, rgba(1.0, 1.0, 1.0, 1.0), 0.0, 1.0));
    }
    let mesh = generate_mesh(&scene).unwrap();
    assert_eq!(mesh.vertices.len(), 65536);
    assert_eq!(mesh.indices.len(), 98304);
    assert_eq!(*mesh.indices.last().unwrap(), 65534);
    assert_eq!(mesh.indices[98302], 65535);
}

#[test]
fn vertex_is_plain_data() {
    let v = Vertex {
        pos_x: 1,
        pos_y: 2,
        z_index: 3,
        color: rgba(0.0, 0.0, 0.0, 0.0),
        border_radius: 4,
        rect_pos_x: 5,
        rect_pos_y: 6,
        rect_size_x: 7,
        rect_size_y: 8,
        softness: 9,
    };
    let w = v;
    assert_eq!(v, w);
}
