//! Tests for chat placement, anchors, element identifiers and skin decoding.

use ghost_ui::commands::set_dock_icon;
use ghost_ui::config::{
    calculate_callout_offset, default_chat_align, default_chat_anchor, default_chat_size, Anchor,
    ChatConfig, ConfigError,
};
use ghost_ui::elements::{button_id_from_string, get_button_id, ButtonId, ButtonState, Origin};
use ghost_ui::layer::{LayerAnchor, TextAlign, TextVAlign};
use ghost_ui::skin::{skin_bytes, SkinData, SkinError};

#[test]
fn chat_offset_docks_right_bottom_by_default() {
    let cfg = ChatConfig::default();
    assert_eq!(cfg.anchor, "right");
    assert_eq!(cfg.align, "bottom");
    // main 300 x 600, chat 400 x 500: base (300, 0), aligned to the bottom
    // at 600 - 500 = 100.
    let off = cfg.calculate_offset(300, 600);
    assert_eq!(off, [300, 100]);
}

#[test]
fn chat_offset_applies_alignment_and_extra_offset() {
    let mut cfg = ChatConfig::default();
    cfg.offset = [10, 5];
    cfg.align = "center".to_string();
    // centered along the right side: (600 - 500) / 2 = 50.
    assert_eq!(cfg.calculate_offset(300, 600), [310, 55]);

    cfg.anchor = "TOP".to_string();
    cfg.align = "center".to_string();
    // base (0, -500); horizontally centered: (300 - 400) / 2 = -50.
    assert_eq!(cfg.calculate_offset(300, 600), [-40, -495]);

    cfg.anchor = "left".to_string();
    cfg.align = "top".to_string();
    assert_eq!(cfg.calculate_offset(300, 600), [-390, 5]);

    cfg.anchor = "bottom".to_string();
    cfg.align = "right".to_string();
    // base (0, 600); right-aligned: 300 - 400 = -100.
    assert_eq!(cfg.calculate_offset(300, 600), [-90, 605]);
}

#[test]
fn unknown_chat_keywords_fall_back() {
    let mut cfg = ChatConfig::default();
    cfg.anchor = "diagonal".to_string();
    cfg.align = "sideways".to_string();
    // An unknown anchor docks right with no alignment shift at all.
    assert_eq!(cfg.calculate_offset(300, 600), [300, 0]);

    // A known side anchor with an unknown alignment falls to the bottom.
    cfg.anchor = "right".to_string();
    assert_eq!(cfg.calculate_offset(300, 600), [300, 100]);
}

#[test]
fn chat_defaults_are_the_documented_values() {
    assert_eq!(default_chat_anchor(), "right");
    assert_eq!(default_chat_align(), "bottom");
    assert_eq!(default_chat_size(), [400, 500]);
}

#[test]
fn anchor_names_parse_with_aliases_and_fallback() {
    assert_eq!(Anchor::from_str("top-left"), Anchor::TopLeft);
    assert_eq!(Anchor::from_str("TopLeft"), Anchor::TopLeft);
    assert_eq!(Anchor::from_str("top"), Anchor::TopCenter);
    assert_eq!(Anchor::from_str("center"), Anchor::CenterCenter);
    assert_eq!(Anchor::from_str("RIGHT"), Anchor::CenterRight);
    assert_eq!(Anchor::from_str("bottom-right"), Anchor::BottomRight);
    assert_eq!(Anchor::from_str("somewhere"), Anchor::TopRight);
}

#[test]
fn callout_offset_comes_from_the_anchor_point() {
    // 100 x 80 skin, anchored top-right with a (-10, 5) shift.
    assert_eq!(calculate_callout_offset(Anchor::TopRight, 100, 80, -10, 5), (90, 5));
    assert_eq!(calculate_callout_offset(Anchor::BottomCenter, 100, 80, 0, 0), (50, 80));
    assert_eq!(calculate_callout_offset(Anchor::CenterLeft, 100, 80, 0, 0), (0, 40));
}

#[test]
fn layer_and_text_alignment_names_parse() {
    assert_eq!(TextAlign::from_str("LEFT"), TextAlign::Left);
    assert_eq!(TextAlign::from_str("weird"), TextAlign::Center);
    assert_eq!(TextVAlign::from_str("Bottom"), TextVAlign::Bottom);
    assert_eq!(TextVAlign::from_str("weird"), TextVAlign::Center);
    assert_eq!(LayerAnchor::from_str("bottom"), LayerAnchor::BottomCenter);
    assert_eq!(LayerAnchor::from_str("Center-Right"), LayerAnchor::CenterRight);
    assert_eq!(LayerAnchor::from_str("weird"), LayerAnchor::BottomCenter);
    assert_eq!(LayerAnchor::TopLeft.as_half_fraction(), (0, 0));
    assert_eq!(LayerAnchor::Center.as_half_fraction(), (1, 1));
    assert_eq!(LayerAnchor::BottomRight.as_half_fraction(), (2, 2));
}

#[test]
fn button_ids_hash_names_stably() {
    // hash("greet") folds g, r, e, e, t through acc * 31 + byte mod 2^32.
    assert_eq!(button_id_from_string("greet"), ButtonId::new(98619145));
    assert_eq!(button_id_from_string("think"), ButtonId::new(110331122));
    assert_eq!(button_id_from_string("scream"), ButtonId::new(3387277295));
    assert_eq!(button_id_from_string(""), ButtonId::new(0));
    assert_eq!(get_button_id("greet"), button_id_from_string("greet"));
    assert_ne!(get_button_id("greet"), get_button_id("think"));
}

#[test]
fn element_defaults_are_the_documented_ones() {
    assert_eq!(Origin::default(), Origin::BottomLeft);
    assert_eq!(ButtonState::default(), ButtonState::Normal);
}

#[test]
fn config_errors_carry_their_message() {
    let e = ConfigError::Parse("bad toml".to_string());
    assert_eq!(e.message(), "bad toml");
    let e = ConfigError::Io("missing".to_string());
    assert_eq!(e.message(), "missing");
}

#[test]
fn skin_data_reports_decoded_dimensions() {
    let img = image::RgbaImage::from_pixel(3, 2, image::Rgba([1, 2, 3, 77]));
    let mut buf = std::io::Cursor::new(Vec::new());
    img.write_to(&mut buf, image::ImageFormat::Png).unwrap();
    let bytes = buf.into_inner();

    let skin = SkinData::from_bytes(&bytes).unwrap();
    assert_eq!(skin.width(), 3);
    assert_eq!(skin.height(), 2);
    assert_eq!(skin.dimensions(), (3, 2));
    assert_eq!(skin.bytes(), &bytes[..]);

    let again = skin_bytes(&bytes).unwrap();
    assert_eq!(again.dimensions(), (3, 2));
}

#[test]
fn skin_alpha_mask_holds_the_decoded_alpha_plane() {
    let mut img = image::RgbaImage::new(2, 2);
    img.put_pixel(0, 0, image::Rgba([9, 9, 9, 0]));
    img.put_pixel(1, 0, image::Rgba([9, 9, 9, 60]));
    img.put_pixel(0, 1, image::Rgba([9, 9, 9, 128]));
    img.put_pixel(1, 1, image::Rgba([9, 9, 9, 255]));
    let mut buf = std::io::Cursor::new(Vec::new());
    img.write_to(&mut buf, image::ImageFormat::Png).unwrap();

    let skin = SkinData::from_bytes(&buf.into_inner()).unwrap();
    let mask = skin.alpha_mask().unwrap();
    assert_eq!((mask.width(), mask.height()), (2, 2));
    assert!(!mask.hit_test(0, 0, 10));
    assert!(mask.hit_test(1, 0, 10));
    assert!(!mask.hit_test(1, 0, 60)); // exactly the threshold: transparent
    assert!(mask.hit_test(0, 1, 10));
    assert!(mask.hit_test(1, 1, 254));
}

#[test]
fn undecodable_bytes_are_rejected() {
    let r = SkinData::from_bytes(b"this is not an image");
    assert!(matches!(r, Err(SkinError::ImageLoadError(_))));
}

#[test]
fn dock_icon_is_accepted_everywhere() {
    assert!(set_dock_icon(&[1, 2, 3]).is_ok());
}
