use hotkey_overlay::styling::{overlay_ex_style, StyleBits};

const BITS: StyleBits = StyleBits {
    app_window: 0x0004_0000,
    tool_window: 0x0000_0080,
    topmost: 0x0000_0008,
    layered: 0x0008_0000,
    transparent: 0x0000_0020,
};

#[test]
fn application_window_becomes_tool_overlay() {
    assert_eq!(overlay_ex_style(0x0004_0100, BITS), 0x0008_01A8);
    assert_eq!(overlay_ex_style(0, BITS), 0x0008_00A8);
}

#[test]
fn styling_twice_changes_nothing() {
    for current in [0u32, 0x0004_0000, 0xFFFF_FFFF, 0x1234_5678] {
        let once = overlay_ex_style(current, BITS);
        assert_eq!(overlay_ex_style(once, BITS), once);
    }
    assert_eq!(overlay_ex_style(0xFFFF_FFFF, BITS), 0xFFFB_FFFF);
}
