use obs_rs::graphics::display::Color;
use obs_rs::graphics::GraphicsColorFormat;

#[test]
fn named_colors() {
    assert_eq!(Color::black(), Color::new(0, 0, 0, 255));
    assert_eq!(Color::white(), Color::new(255, 255, 255, 255));
    assert_eq!(Color::red(), Color::new(255, 0, 0, 255));
    assert_eq!(Color::green(), Color::new(0, 255, 0, 255));
    assert_eq!(Color::blue(), Color::new(0, 0, 255, 255));
}

#[test]
fn packed_words_use_machine_byte_order() {
    let c = Color::new(0x11, 0x22, 0x33, 0x44);
    assert_eq!(c.as_rgba(), u32::from_ne_bytes([0x11, 0x22, 0x33, 0x44]));
    assert_eq!(c.as_bgra(), u32::from_ne_bytes([0x33, 0x22, 0x11, 0x44]));
    assert_eq!(c.as_rgba().to_ne_bytes(), [0x11, 0x22, 0x33, 0x44]);
}

#[test]
fn as_format_picks_layout() {
    let c = Color::new(1, 2, 3, 4);
    assert_eq!(c.as_format(GraphicsColorFormat::RGBA), c.as_rgba());
    assert_eq!(c.as_format(GraphicsColorFormat::BGRA), c.as_bgra());
    assert_ne!(c.as_rgba(), c.as_bgra());
}

#[test]
fn graphics_color_format_raw_values() {
    assert_eq!(GraphicsColorFormat::UNKNOWN.as_raw(), 0);
    assert_eq!(GraphicsColorFormat::from_raw(GraphicsColorFormat::RGBA.as_raw()), Ok(GraphicsColorFormat::RGBA));
    assert_eq!(GraphicsColorFormat::from_raw(1000).unwrap_err().raw, 1000);
}
