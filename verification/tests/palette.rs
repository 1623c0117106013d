use teary_eyes::palette::{from_rgb, Color, Palette};

#[test]
fn palette_colors() {
    assert_eq!(Palette::Gray.color(), Color { r: 192, g: 192, b: 192, a: 255 });
    assert_eq!(Palette::Navy.color(), Color { r: 0, g: 0, b: 128, a: 255 });
    assert_eq!(Palette::DarkGray.color(), Color { r: 128, g: 128, b: 128, a: 255 });
    assert_eq!(Palette::LightGray.color(), Color { r: 223, g: 223, b: 223, a: 255 });
    assert_eq!(Palette::White.color(), Color { r: 255, g: 255, b: 255, a: 255 });
    assert_eq!(Palette::Black.color(), Color { r: 0, g: 0, b: 0, a: 255 });
    assert_eq!(from_rgb(1, 2, 3), Color { r: 1, g: 2, b: 3, a: 255 });
}
