use led_service2::display::DisplayMode;
use led_service2::mime::{detect_mime, is_gif, is_ppm, mime_kind_for_path, resolve_display_mode, KnownMime, ProtoDisplayMode};

#[test]
fn gif_is_recognised_in_any_ascii_case() {
    assert!(is_gif("image/gif"));
    assert!(is_gif("IMAGE/GIF"));
    assert!(is_gif("Image/Gif"));
    assert!(!is_gif("image/gifx"));
    assert!(!is_gif("image/png"));
    assert!(!is_gif(""));
}

#[test]
fn ppm_is_recognised_by_substring() {
    assert!(is_ppm("image/x-portable-pixmap"));
    assert!(is_ppm("image/x-ppm"));
    assert!(is_ppm("image/x-portable-anymap; pnm"));
    assert!(!is_ppm("image/png"));
    assert!(!is_ppm("image/PPM"));
}

#[test]
fn explicit_mode_wins_and_unspecified_scrolls_only_ppm() {
    assert_eq!(resolve_display_mode(ProtoDisplayMode::Static, "image/x-portable-pixmap"), DisplayMode::Static);
    assert_eq!(resolve_display_mode(ProtoDisplayMode::Scroll, "image/png"), DisplayMode::ScrollHorizontal);
    assert_eq!(
        resolve_display_mode(ProtoDisplayMode::Unspecified, "image/x-portable-pixmap"),
        DisplayMode::ScrollHorizontal
    );
    assert_eq!(resolve_display_mode(ProtoDisplayMode::Unspecified, "image/png"), DisplayMode::Static);
}

#[test]
fn wire_values_of_display_modes() {
    assert_eq!(ProtoDisplayMode::from_wire(0), Some(ProtoDisplayMode::Unspecified));
    assert_eq!(ProtoDisplayMode::from_wire(1), Some(ProtoDisplayMode::Static));
    assert_eq!(ProtoDisplayMode::from_wire(2), Some(ProtoDisplayMode::Scroll));
    assert_eq!(ProtoDisplayMode::from_wire(99), None);
    assert_eq!(ProtoDisplayMode::from_wire(-1), None);
    assert_eq!(ProtoDisplayMode::Scroll.to_wire(), 2);
}

#[test]
fn mime_is_detected_from_the_extension() {
    assert_eq!(detect_mime("banner.ppm"), Some("image/x-portable-pixmap"));
    assert_eq!(detect_mime("banner.PNM"), Some("image/x-portable-pixmap"));
    assert_eq!(detect_mime("gray.pgm"), Some("image/x-portable-pixmap"));
    assert_eq!(detect_mime("cat.Gif"), Some("image/gif"));
    assert_eq!(detect_mime("photo.jpg"), Some("image/jpeg"));
    assert_eq!(detect_mime("photo.JPEG"), Some("image/jpeg"));
    assert_eq!(detect_mime("image.png"), Some("image/png"));
    assert_eq!(detect_mime("notes.txt"), None);
    assert_eq!(detect_mime("png"), None);
    assert_eq!(detect_mime(""), None);
    assert_eq!(mime_kind_for_path("dir.gif/file.png"), Some(KnownMime::Png));
}
