use typepaste::tray::{pixel_color, tray_icon_rgba};

fn px(rgba: &[u8], x: usize, y: usize) -> [u8; 4] {
    let i = (y * 32 + x) * 4;
    [rgba[i], rgba[i + 1], rgba[i + 2], rgba[i + 3]]
}

#[test]
fn icon_has_clip_body_and_transparent_edge() {
    let rgba = tray_icon_rgba();
    assert_eq!(rgba.len(), 32 * 32 * 4);
    assert_eq!(px(&rgba, 0, 0), [0, 0, 0, 0]);
    assert_eq!(px(&rgba, 31, 31), [0, 0, 0, 0]);
    assert_eq!(px(&rgba, 16, 0), [100, 100, 100, 255]);
    assert_eq!(px(&rgba, 22, 6), [100, 100, 100, 255]);
    assert_eq!(px(&rgba, 16, 16), [220, 220, 240, 255]);
    assert_eq!(px(&rgba, 4, 28), [220, 220, 240, 255]);
    assert_eq!(px(&rgba, 3, 16), [0, 0, 0, 0]);
    assert_eq!(px(&rgba, 29, 16), [0, 0, 0, 0]);
}

#[test]
fn icon_matches_pixel_colors() {
    let rgba = tray_icon_rgba();
    for y in 0..32u32 {
        for x in 0..32u32 {
            let (r, g, b, a) = pixel_color(x, y);
            assert_eq!(px(&rgba, x as usize, y as usize), [r, g, b, a]);
        }
    }
}
