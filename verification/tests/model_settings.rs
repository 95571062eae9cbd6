use frontend::model::{
    bulk_safety_choice, format_api_error, mime_display, parse_avatar_style, parse_rank, parse_safety, ApiError,
    AvatarStyle, MimeType, PostSafety, UserRank,
};
use frontend::settings::{posts_per_page_input, Settings};

#[test]
fn default_settings_values() {
    let s = Settings::default();
    assert_eq!(s.posts_per_page, 42);
    assert!(s.tag_suggestions_enabled);
    assert!(!s.dark_theme);
    assert!(s.list_posts_safe);
    assert!(s.list_posts_sketchy);
    assert!(!s.list_posts_unsafe);
    assert!(!s.upscale_small_posts);
    assert!(!s.endless_scroll);
    assert!(!s.tag_underscores);
    assert!(s.keyboard_shortcuts);
    assert_eq!(s.fit_mode, "fit-both");
    assert!(!s.post_flow);
    assert!(s.transparency_grid);
    assert!(!s.autoplay_videos);
}

#[test]
fn display_name_with_and_without_underscores() {
    let mut s = Settings::default();
    assert_eq!(s.display_name("blue_sky_day"), "blue_sky_day");
    s.tag_underscores = true;
    assert_eq!(s.display_name("blue_sky_day"), "blue sky day");
    assert_eq!(s.display_name("__"), "  ");
    assert_eq!(s.display_name(""), "");
}

#[test]
fn posts_per_page_field() {
    assert_eq!(posts_per_page_input("10"), Some(10));
    assert_eq!(posts_per_page_input("100"), Some(100));
    assert_eq!(posts_per_page_input("+50"), Some(50));
    assert_eq!(posts_per_page_input("9"), None);
    assert_eq!(posts_per_page_input("101"), None);
    assert_eq!(posts_per_page_input("-20"), None);
    assert_eq!(posts_per_page_input("abc"), None);
    assert_eq!(posts_per_page_input(""), None);
    assert_eq!(posts_per_page_input(" 20"), None);
    assert_eq!(posts_per_page_input("99999999999999999999"), None);
}

#[test]
fn ranks_round_trip() {
    for r in [UserRank::Restricted, UserRank::Regular, UserRank::Power, UserRank::Moderator, UserRank::Administrator] {
        assert_eq!(parse_rank(r.name()), Some(r));
    }
    assert_eq!(UserRank::Moderator.name(), "moderator");
    assert_eq!(parse_rank("Administrator"), None);
    assert_eq!(parse_rank(""), None);
}

#[test]
fn avatar_styles_round_trip() {
    for a in [AvatarStyle::Gravatar, AvatarStyle::Manual] {
        assert_eq!(parse_avatar_style(a.name()), Some(a));
    }
    assert_eq!(AvatarStyle::Manual.name(), "manual");
    assert_eq!(parse_avatar_style("url"), None);
}

#[test]
fn safeties_round_trip() {
    for s in [PostSafety::Safe, PostSafety::Sketchy, PostSafety::Unsafe] {
        assert_eq!(parse_safety(s.name()), Some(s));
    }
    assert_eq!(PostSafety::Sketchy.name(), "sketchy");
    assert_eq!(parse_safety("nsfw"), None);
    assert_eq!(bulk_safety_choice("unsafe"), PostSafety::Unsafe);
    assert_eq!(bulk_safety_choice("sketchy"), PostSafety::Sketchy);
    assert_eq!(bulk_safety_choice("safe"), PostSafety::Safe);
    assert_eq!(bulk_safety_choice("anything"), PostSafety::Safe);
}

#[test]
fn mime_labels() {
    assert_eq!(mime_display(MimeType::Mp4), "MPEG-4");
    assert_eq!(mime_display(MimeType::Jpeg), "JPEG");
    assert_eq!(mime_display(MimeType::Avif), "AVIF");
    assert_eq!(mime_display(MimeType::Swf), "SWF");
}

#[test]
fn api_error_texts() {
    let e = ApiError::Server { description: "Tag not found".to_string() };
    assert_eq!(format_api_error(&e), "Tag not found");
    let e = ApiError::Network("connection refused".to_string());
    assert_eq!(format_api_error(&e), "connection refused");
}
