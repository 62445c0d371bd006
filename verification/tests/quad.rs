use gui::quad::{quad_corners, quad_indices};

#[test]
fn quad_has_the_four_corners_of_the_window() {
    assert_eq!(quad_corners(), vec![(-1, -1), (1, -1), (1, 1), (-1, 1)]);
}

#[test]
fn quad_is_two_triangles_over_its_corners() {
    assert_eq!(quad_indices(), vec![0, 1, 2, 2, 3, 0]);
}

#[test]
fn quad_triangles_are_counter_clockwise() {
    let corners = quad_corners();
    let indices = quad_indices();
    assert_eq!(indices.len() % 3, 0);
    for triangle in indices.chunks(3) {
        let a = corners[triangle[0] as usize];
        let b = corners[triangle[1] as usize];
        let c = corners[triangle[2] as usize];
        let doubled_area = (b.0 - a.0) * (c.1 - a.1) - (c.0 - a.0) * (b.1 - a.1);
        assert_eq!(doubled_area, 4);
    }
}

#[test]
fn quad_corners_become_device_coordinates() {
    let positions: Vec<[f32; 2]> = quad_corners().iter().map(|c| [c.0 as f32, c.1 as f32]).collect();
    assert_eq!(positions, vec![[-1.0, -1.0], [1.0, -1.0], [1.0, 1.0], [-1.0, 1.0]]);
}
