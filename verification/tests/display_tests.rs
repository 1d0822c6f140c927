use rust_of_life::display::{color_to_rgb_tuple, Character, Color, SimpleTerminal};

#[test]
fn hex_color_splits_into_bytes() {
    assert_eq!(color_to_rgb_tuple(&Color::Hex(0x69D2E7)), (0x69, 0xD2, 0xE7));
    assert_eq!(color_to_rgb_tuple(&Color::Hex(0)), (0, 0, 0));
    assert_eq!(color_to_rgb_tuple(&Color::Hex(0xFFFFFF)), (255, 255, 255));
}

#[test]
fn rgb_color_passes_components_through() {
    assert_eq!(color_to_rgb_tuple(&Color::RGB(1, 2, 3)), (1, 2, 3));
    assert_eq!(color_to_rgb_tuple(&Color::RGB(255, 0, 128)), (255, 0, 128));
}

#[test]
fn color_from_tuple_clamps_negatives() {
    assert_eq!(Color::from((-5, 300, 20)), Color::RGB(0, 44, 20));
    assert_eq!(Color::from((0, 255, -1)), Color::RGB(0, 255, 0));
}

#[test]
fn character_packs_all_parts() {
    let character = Character {
        color: Some(0xF0),
        character: Some('A'),
        attributes: Some(vec![0x100, 0x200]),
    };
    assert_eq!(character.to_chtype(), 0xF0 | 0x41 | 0x300);
}

#[test]
fn character_missing_parts_contribute_nothing() {
    let empty = Character { color: None, character: None, attributes: None };
    assert_eq!(empty.to_chtype(), 0);
    let glyph_only = Character { color: None, character: Some('#'), attributes: None };
    assert_eq!(glyph_only.to_chtype(), '#' as u32);
    let empty_attributes = Character { color: Some(7), character: None, attributes: Some(vec![]) };
    assert_eq!(empty_attributes.to_chtype(), 7);
}

#[test]
fn simple_terminal_constructs() {
    let _terminal: SimpleTerminal = SimpleTerminal::new();
}
