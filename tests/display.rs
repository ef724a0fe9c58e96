use sonify_k8s::display::{colorize, hex_to_rgb};

#[test]
fn test_hex_to_rgb() {
    assert_eq!(hex_to_rgb("#FF0000"), Some((255, 0, 0)));
    assert_eq!(hex_to_rgb("#00FF00"), Some((0, 255, 0)));
    assert_eq!(hex_to_rgb("#0000FF"), Some((0, 0, 255)));
    assert_eq!(hex_to_rgb("invalid"), None);
}

#[test]
fn test_colorize_disabled() {
    let text = "Hello";
    let colored = colorize(text, "#FF0000", false);
    assert_eq!(colored, "Hello");
}

#[test]
fn test_colorize_enabled() {
    let text = "Hello";
    let colored = colorize(text, "#FF0000", true);
    assert!(colored.contains("Hello"));
    assert!(colored.contains("\x1b["));
}

#[test]
fn hex_to_rgb_edge_cases() {
    assert_eq!(hex_to_rgb("12ab3C"), Some((0x12, 0xab, 0x3c)));
    assert_eq!(hex_to_rgb("##126E82"), Some((0x12, 0x6e, 0x82)));
    assert_eq!(hex_to_rgb("+F0000"), Some((15, 0, 0)));
    assert_eq!(hex_to_rgb("#FF000"), None);
    assert_eq!(hex_to_rgb("#FF00000"), None);
    assert_eq!(hex_to_rgb("#GG0000"), None);
    assert_eq!(hex_to_rgb(""), None);
}

#[test]
fn colorize_exact_sequence() {
    assert_eq!(colorize("Hello", "#FF0000", true), "\x1b[38;2;255;0;0mHello\x1b[0m");
    assert_eq!(colorize("x", "#126E82", true), "\x1b[38;2;18;110;130mx\x1b[0m");
    assert_eq!(colorize("plain", "not a colour", true), "plain");
}
