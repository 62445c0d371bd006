use gui::window::{WindowGeometry, INITIAL_HEIGHT, INITIAL_WIDTH};

#[test]
fn window_opens_at_640_by_480() {
    assert_eq!(INITIAL_WIDTH, 640);
    assert_eq!(INITIAL_HEIGHT, 480);
    let geometry = WindowGeometry::initial();
    assert_eq!(geometry.width, 640);
    assert_eq!(geometry.height, 480);
    assert_eq!(geometry, WindowGeometry { width: 640, height: 480 });
}
