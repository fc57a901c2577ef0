use music_minder::enrichment::domain::IdentifiedTrack;
use music_minder::metadata::{
    cover_mime, plan_tag_write, preview_write, CoverMime, ExistingTags, FieldChange,
    WriteOptions2, WritePreview, WriteResult,
};

#[test]
fn test_write_options_default() {
    let options = WriteOptions2::default();
    assert!(!options.only_fill_empty);
    assert!(!options.write_musicbrainz_ids);
}

#[test]
fn test_write_result_fields() {
    let result = WriteResult { fields_updated: 3, fields_skipped: vec!["title".to_string()] };
    assert_eq!(result.fields_updated, 3);
    assert_eq!(result.fields_skipped.len(), 1);
}

#[test]
fn test_write_preview_changes() {
    let change = FieldChange {
        field: "title".to_string(),
        current_value: "Unknown Title".to_string(),
        new_value: "Real Title".to_string(),
    };
    assert_eq!(change.field, "title");
    assert_eq!(change.current_value, "Unknown Title");
    assert_eq!(change.new_value, "Real Title");
}

#[test]
fn test_write_preview_struct() {
    let preview = WritePreview {
        changes: vec![FieldChange {
            field: "artist".to_string(),
            current_value: "".to_string(),
            new_value: "Queen".to_string(),
        }],
    };
    assert_eq!(preview.changes.len(), 1);
    assert_eq!(preview.changes[0].new_value, "Queen");
}

fn identified() -> IdentifiedTrack {
    IdentifiedTrack {
        title: Some("Bohemian Rhapsody".to_string()),
        artist: Some("Queen".to_string()),
        album: Some("A Night at the Opera".to_string()),
        track_number: Some(11),
        year: Some(1975),
        ..Default::default()
    }
}

#[test]
fn preview_lists_every_change_when_overwriting() {
    let preview = preview_write(&existing(), &identified(), &WriteOptions2::default());
    let fields: Vec<&str> = preview.changes.iter().map(|c| c.field.as_str()).collect();
    assert_eq!(fields, vec!["title", "artist", "album", "track_number", "year"]);
    assert_eq!(preview.changes[0].current_value, "Unknown Title");
    assert_eq!(preview.changes[3].current_value, "3");
    assert_eq!(preview.changes[3].new_value, "11");
    assert_eq!(preview.changes[4].current_value, "");
    assert_eq!(preview.changes[4].new_value, "1975");
}

#[test]
fn preview_only_fills_unknown_fields() {
    let options = WriteOptions2 { only_fill_empty: true, write_musicbrainz_ids: false };
    let preview = preview_write(&existing(), &identified(), &options);
    let fields: Vec<&str> = preview.changes.iter().map(|c| c.field.as_str()).collect();
    assert_eq!(fields, vec!["title", "album", "year"]);
}

#[test]
fn preview_and_write_agree_on_real_values() {
    let options = WriteOptions2 { only_fill_empty: true, write_musicbrainz_ids: false };
    let mut tags = existing();
    tags.album = Some("Unknown Pleasures".to_string());
    tags.year = Some(1979);
    tags.title = None;
    let preview = preview_write(&tags, &identified(), &options);
    let fields: Vec<&str> = preview.changes.iter().map(|c| c.field.as_str()).collect();
    assert_eq!(fields, vec!["title"]);
    assert_eq!(preview.changes[0].current_value, "Unknown Title");
    let plan = plan_tag_write(&tags, &identified(), &options);
    assert!(plan.title.is_some());
    assert!(plan.album.is_none());
    assert!(plan.year.is_none());
    let overwrite = preview_write(&tags, &identified(), &WriteOptions2::default());
    assert_eq!(overwrite.changes[4].current_value, "1979");
}

fn existing() -> ExistingTags {
    ExistingTags {
        title: Some("Unknown Title".to_string()),
        artist: Some("Queen".to_string()),
        album_artist: None,
        album: Some("".to_string()),
        track: Some(3),
        track_total: None,
        year: None,
        disk: None,
        disk_total: None,
        genre: Some("Rock".to_string()),
    }
}

#[test]
fn write_plan_fills_only_empty_fields_and_reports_skips() {
    let mut track = identified();
    track.genres = vec!["Rock".to_string(), "Opera".to_string()];
    track.recording_id = Some("rec".to_string());
    let options = WriteOptions2 { only_fill_empty: true, write_musicbrainz_ids: true };
    let plan = plan_tag_write(&existing(), &track, &options);
    assert_eq!(plan.title, Some("Bohemian Rhapsody".to_string()));
    assert_eq!(plan.artist, None);
    assert_eq!(plan.album, Some("A Night at the Opera".to_string()));
    assert_eq!(plan.track_number, None);
    assert_eq!(plan.year, Some(1975));
    assert_eq!(plan.genre, None);
    assert_eq!(plan.recording_id, Some("rec".to_string()));
    assert_eq!(plan.result.fields_skipped, vec!["artist", "track_number", "genre"]);
    assert_eq!(plan.result.fields_updated, 4);
}

#[test]
fn write_plan_overwrites_everything_present() {
    let mut track = identified();
    track.genres = vec!["Rock".to_string(), "Opera".to_string()];
    let plan = plan_tag_write(&existing(), &track, &WriteOptions2::default());
    assert_eq!(plan.artist, Some("Queen".to_string()));
    assert_eq!(plan.track_number, Some(11));
    assert_eq!(plan.genre, Some("Rock; Opera".to_string()));
    assert_eq!(plan.recording_id, None);
    assert!(plan.result.fields_skipped.is_empty());
    assert_eq!(plan.result.fields_updated, 6);
}

#[test]
fn cover_mime_defaults_to_jpeg() {
    assert_eq!(cover_mime("image/png"), CoverMime::Png);
    assert_eq!(cover_mime("image/tiff"), CoverMime::Tiff);
    assert_eq!(cover_mime("image/webp"), CoverMime::Jpeg);
}
