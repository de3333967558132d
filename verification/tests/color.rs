use auv_cli::color::{parse_color, ColorChannels};

#[test]
fn colors_decode_with_or_without_alpha() {
    assert_eq!(
        parse_color("overlay.outline", "stroke-color", "#FF8000"),
        Ok(ColorChannels { red: 255, green: 128, blue: 0, alpha: 255 })
    );
    assert_eq!(
        parse_color("overlay.outline", "stroke-color", "0a0B0c80"),
        Ok(ColorChannels { red: 10, green: 11, blue: 12, alpha: 128 })
    );
}

#[test]
fn malformed_colors_are_refused() {
    assert_eq!(
        parse_color("overlay.outline", "stroke-color", "#FFF"),
        Err("overlay.outline requires --stroke-color as #RRGGBB or #RRGGBBAA".to_string())
    );
    assert_eq!(
        parse_color("overlay.outline", "stroke-color", "#GG0000"),
        Err("overlay.outline received invalid --stroke-color color \"#GG0000\"".to_string())
    );
}
