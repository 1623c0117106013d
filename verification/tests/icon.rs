use teary_eyes::icon::{generate_icon, ICON_SIZE};

fn pixel(rgba: &[u8], x: usize, y: usize) -> [u8; 4] {
    let i = (y * 32 + x) * 4;
    [rgba[i], rgba[i + 1], rgba[i + 2], rgba[i + 3]]
}

#[test]
fn icon_is_32_square() {
    let icon = generate_icon();
    assert_eq!(ICON_SIZE, 32);
    assert_eq!(icon.width, 32);
    assert_eq!(icon.height, 32);
    assert_eq!(icon.rgba.len(), 32 * 32 * 4);
}

#[test]
fn icon_margin_is_clear() {
    let icon = generate_icon();
    for (x, y) in [(0, 0), (1, 15), (30, 5), (31, 31), (15, 0), (15, 30)] {
        assert_eq!(pixel(&icon.rgba, x, y), [0, 0, 0, 0]);
    }
}

#[test]
fn icon_outline_is_dark_gray() {
    let icon = generate_icon();
    for (x, y) in [(2, 2), (29, 29), (2, 14), (15, 2), (29, 5), (20, 29)] {
        assert_eq!(pixel(&icon.rgba, x, y), [100, 100, 100, 255]);
    }
}

#[test]
fn icon_binding_lines_and_page() {
    let icon = generate_icon();
    assert_eq!(pixel(&icon.rgba, 3, 3), [100, 150, 255, 255]);
    assert_eq!(pixel(&icon.rgba, 28, 9), [100, 150, 255, 255]);
    assert_eq!(pixel(&icon.rgba, 5, 14), [200, 200, 200, 255]);
    assert_eq!(pixel(&icon.rgba, 27, 20), [200, 200, 200, 255]);
    assert_eq!(pixel(&icon.rgba, 16, 26), [200, 200, 200, 255]);
    assert_eq!(pixel(&icon.rgba, 4, 14), [240, 240, 240, 255]);
    assert_eq!(pixel(&icon.rgba, 28, 26), [240, 240, 240, 255]);
    assert_eq!(pixel(&icon.rgba, 10, 10), [240, 240, 240, 255]);
    assert_eq!(pixel(&icon.rgba, 10, 15), [240, 240, 240, 255]);
}
