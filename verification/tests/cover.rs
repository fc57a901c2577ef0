use music_minder::cover::{cached_extension, 
    cache_extension, cached_mime, equal_ignoring_ascii_case, is_cover_stem, is_image_extension,
    sidecar_candidates, sidecar_mime, CoverArt, CoverCache, CoverSource,
};

#[test]
fn test_cover_art_matches() {
    let cover = CoverArt {
        data: vec![],
        mime_type: "image/jpeg".to_string(),
        source: CoverSource::Embedded,
        album: Some("Back in Black".to_string()),
        artist: Some("AC/DC".to_string()),
    };

    assert!(cover.matches(Some("Back in Black"), Some("AC/DC")));
    assert!(cover.matches(Some("back in black"), Some("ac/dc")));
    assert!(cover.matches(None, None));
    assert!(!cover.matches(Some("Highway to Hell"), Some("AC/DC")));
}

#[test]
fn test_cover_art_matches_partial_metadata() {
    let cover = CoverArt {
        data: vec![],
        mime_type: "image/jpeg".to_string(),
        source: CoverSource::Embedded,
        album: None,
        artist: Some("Queen".to_string()),
    };

    assert!(cover.matches(Some("A Night at the Opera"), Some("Queen")));
}

#[test]
fn case_folding_is_ascii_only() {
    assert!(equal_ignoring_ascii_case("ÉCOLE abc", "ÉCOLE ABC"));
    assert!(!equal_ignoring_ascii_case("école", "ÉCOLE"));
    assert!(!equal_ignoring_ascii_case("abc", "abcd"));
}

#[test]
fn cache_names_and_types() {
    let cache = CoverCache::in_dir("/cache/covers".to_string());
    assert_eq!(cache.file_for("release-123", "jpg"), "/cache/covers/release-123.jpg");
    assert_eq!(cache_extension("image/png"), "png");
    assert_eq!(cache_extension("image/jpeg"), "jpg");
    assert_eq!(cached_mime(Some("png")), "image/png");
    assert_eq!(cached_mime(None), "image/jpeg");
    assert!(!cache.contains("release-that-is-not-cached"));
}

#[test]
fn sidecar_names_are_tried_in_order() {
    let names = sidecar_candidates();
    assert_eq!(names.len(), 35);
    assert_eq!(names[0], "cover.jpg");
    assert_eq!(names[1], "cover.jpeg");
    assert_eq!(names[5], "folder.jpg");
    assert_eq!(names[34], "albumartsmall.webp");
    assert!(is_cover_stem("albumart"));
    assert!(!is_cover_stem("back"));
    assert!(is_image_extension("webp"));
    assert!(!is_image_extension("bmp"));
    assert_eq!(sidecar_mime(Some("jpeg")), "image/jpeg");
    assert_eq!(sidecar_mime(Some("gif")), "image/gif");
    assert_eq!(sidecar_mime(Some("tga")), "image/jpeg");
}

#[test]
fn cached_cover_prefers_jpg_then_png() {
    assert_eq!(cached_extension(true, true), "jpg");
    assert_eq!(cached_extension(true, false), "jpg");
    assert_eq!(cached_extension(false, true), "png");
    assert_eq!(cached_extension(false, false), "jpg");
}
