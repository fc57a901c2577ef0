use music_minder::enrichment::acoustid::adapter::{check_lookup_status, lookup_identifications, recording_identifications};
use music_minder::enrichment::acoustid::dto as acoustid_dto;
use music_minder::enrichment::domain::{EnrichmentError, IdentifiedTrack};
use music_minder::enrichment::musicbrainz::adapter::{
    build_artist_string, extract_genres, extract_release_info, extract_release_types,
    format_genre, parse_i32_chars, to_identified_track, year_from_date,
};
use music_minder::enrichment::musicbrainz::client::{
    classify_status, failure_error, recording_url, MusicBrainzClient, ReplyKind, USER_AGENT,
};
use music_minder::enrichment::musicbrainz::dto;

fn make_recording(id: &str, title: &str) -> dto::RecordingResponse {
    dto::RecordingResponse {
        id: id.to_string(),
        title: title.to_string(),
        length: None,
        disambiguation: None,
        artist_credit: vec![],
        releases: vec![],
        tags: vec![],
    }
}

fn make_artist_credit(name: &str, join: Option<&str>) -> dto::ArtistCredit {
    dto::ArtistCredit {
        artist: dto::Artist {
            id: format!("{}-id", name.to_lowercase()),
            name: name.to_string(),
            sort_name: None,
            artist_type: None,
        },
        name: Some(name.to_string()),
        joinphrase: join.map(String::from),
    }
}

fn release(id: &str, title: &str, status: Option<&str>, group_type: Option<&str>) -> dto::Release {
    dto::Release {
        id: id.to_string(),
        title: title.to_string(),
        status: status.map(String::from),
        date: None,
        country: None,
        release_group: group_type.map(|t| dto::ReleaseGroup {
            id: format!("rg-{}", id),
            title: title.to_string(),
            primary_type: Some(t.to_string()),
            first_release_date: None,
        }),
        media: vec![],
        artist_credit: None,
    }
}

#[test]
fn test_identified_track_merge() {
    let mut track = IdentifiedTrack {
        title: Some("Song".to_string()),
        artist: None,
        ..Default::default()
    };

    let other = IdentifiedTrack {
        title: Some("Other Title".to_string()),
        artist: Some("Artist".to_string()),
        album: Some("Album".to_string()),
        ..Default::default()
    };

    track.merge(&other);

    assert_eq!(track.title, Some("Song".to_string()));
    assert_eq!(track.artist, Some("Artist".to_string()));
    assert_eq!(track.album, Some("Album".to_string()));
}

#[test]
fn merge_leaves_unmerged_fields_alone() {
    let mut track = IdentifiedTrack { genres: vec!["Rock".to_string()], ..Default::default() };
    let other = IdentifiedTrack {
        genres: vec!["Jazz".to_string()],
        album_artist: Some("Other".to_string()),
        year: Some(1999),
        ..Default::default()
    };
    track.merge(&other);
    assert_eq!(track.genres, vec!["Rock".to_string()]);
    assert_eq!(track.album_artist, None);
    assert_eq!(track.year, Some(1999));
}

#[test]
fn test_convert_minimal_recording() {
    let recording = make_recording("rec-123", "Test Song");
    let track = to_identified_track(recording);
    assert_eq!(track.recording_id, Some("rec-123".to_string()));
    assert_eq!(track.title, Some("Test Song".to_string()));
    assert_eq!(track.artist, None);
    assert_eq!(track.album, None);
    assert!(track.genres.is_empty());
}

#[test]
fn recording_length_is_in_milliseconds() {
    let mut recording = make_recording("rec-1", "Song");
    recording.length = Some(215_500);
    let track = to_identified_track(recording);
    assert_eq!(track.duration, Some(std::time::Duration::from_millis(215_500)));
    assert_eq!(to_identified_track(make_recording("rec-2", "Other")).duration, None);
}

#[test]
fn test_build_single_artist() {
    let credits = vec![make_artist_credit("Queen", None)];
    let artist = build_artist_string(&credits);
    assert_eq!(artist, Some("Queen".to_string()));
}

#[test]
fn test_build_collaboration_artist() {
    let credits = vec![
        make_artist_credit("Queen", Some(" & ")),
        make_artist_credit("David Bowie", None),
    ];
    let artist = build_artist_string(&credits);
    assert_eq!(artist, Some("Queen & David Bowie".to_string()));
}

#[test]
fn no_credits_give_no_artist() {
    assert_eq!(build_artist_string(&[]), None);
}

#[test]
fn test_extract_year_from_date() {
    let releases = vec![dto::Release {
        id: "rel-123".to_string(),
        title: "Test Album".to_string(),
        status: Some("Official".to_string()),
        date: Some("1975-10-31".to_string()),
        country: None,
        release_group: None,
        media: vec![],
        artist_credit: None,
    }];

    let info = extract_release_info(&releases);

    assert_eq!(info.year, Some(1975));
}

#[test]
fn test_prefer_official_album() {
    let releases = vec![
        release("single", "Single", Some("Official"), Some("Single")),
        release("album", "Album", Some("Official"), Some("Album")),
    ];

    let info = extract_release_info(&releases);

    assert_eq!(info.album, Some("Album".to_string()));
    assert_eq!(info.release_id, Some("album".to_string()));
    assert_eq!(info.release_group_id, Some("rg-album".to_string()));
}

#[test]
fn falls_back_to_official_then_first_release() {
    let releases = vec![
        release("boot", "Bootleg", Some("Bootleg"), Some("Album")),
        release("off", "Official Single", Some("Official"), Some("Single")),
    ];
    assert_eq!(extract_release_info(&releases).album, Some("Official Single".to_string()));
    let bootlegs = vec![release("b1", "First", None, None), release("b2", "Second", None, None)];
    assert_eq!(extract_release_info(&bootlegs).album, Some("First".to_string()));
    let none = extract_release_info(&[]);
    assert_eq!(none.album, None);
    assert_eq!(none.year, None);
}

#[test]
fn track_position_comes_from_first_medium_with_tracks() {
    let mut r = release("r", "Double", Some("Official"), Some("Album"));
    r.media = vec![
        dto::Medium { position: Some(1), format: None, track_count: Some(10), tracks: vec![] },
        dto::Medium {
            position: Some(2),
            format: None,
            track_count: Some(12),
            tracks: vec![dto::Track { position: Some(7), number: None, title: None, length: None }],
        },
    ];
    let info = extract_release_info(&[r]);
    assert_eq!(info.track_number, Some(7));
    assert_eq!(info.total_tracks, Some(12));
    assert_eq!(info.disc_number, Some(2));
    assert_eq!(info.total_discs, Some(2));
}

#[test]
fn year_parsing_follows_integer_rules() {
    assert_eq!(year_from_date(&Some("1975".to_string())), Some(1975));
    assert_eq!(year_from_date(&Some("2001-05".to_string())), Some(2001));
    assert_eq!(year_from_date(&Some("+1999-01-01".to_string())), Some(1999));
    assert_eq!(year_from_date(&Some("-05".to_string())), None);
    assert_eq!(year_from_date(&Some("19x5".to_string())), None);
    assert_eq!(year_from_date(&Some("99999999999".to_string())), None);
    assert_eq!(year_from_date(&None), None);
    let chars: Vec<char> = "-2147483648".chars().collect();
    assert_eq!(parse_i32_chars(&chars), Some(i32::MIN));
    let chars: Vec<char> = "2147483648".chars().collect();
    assert_eq!(parse_i32_chars(&chars), None);
}

#[test]
fn release_type_comes_from_first_release() {
    let releases = vec![release("a", "A", None, Some("EP")), release("b", "B", None, Some("Album"))];
    let (kind, secondary) = extract_release_types(&releases);
    assert_eq!(kind, Some("EP".to_string()));
    assert!(secondary.is_none());
}

#[test]
fn genres_are_top_five_positive_tags_capitalized() {
    let tag = |name: &str, count: i32| dto::Tag { name: name.to_string(), count };
    let tags = vec![
        tag("rock", 5),
        tag("classic  rock", 9),
        tag("pop", 5),
        tag("glam rock", 7),
        tag("opera", 1),
        tag("spam", 0),
        tag("british", 3),
    ];
    let genres = extract_genres(&tags);
    assert_eq!(genres, vec!["Classic Rock", "Glam Rock", "Rock", "Pop", "British"]);
    let few = vec![tag("noise", -2), tag("jazz", 0)];
    assert!(extract_genres(&few).is_empty());
    assert_eq!(format_genre("  hip   hop "), "Hip Hop");
}

#[test]
fn test_user_agent_format() {
    assert!(USER_AGENT.starts_with("MusicMinder/"));
}

#[test]
fn lookup_address_and_reply_status() {
    assert_eq!(
        recording_url("https://musicbrainz.org/ws/2", "abc"),
        "https://musicbrainz.org/ws/2/recording/abc?fmt=json&inc=artists+releases+media"
    );
    assert_eq!(classify_status(404), ReplyKind::NotFound);
    assert_eq!(classify_status(429), ReplyKind::RateLimited);
    assert_eq!(classify_status(503), ReplyKind::Failure);
    assert_eq!(classify_status(200), ReplyKind::Success);
    let body = dto::ApiError { error: "Not Found".to_string(), help: None };
    assert!(matches!(failure_error(Some(body), "500", "x"), EnrichmentError::ApiError(m) if m == "Not Found"));
    match failure_error(None, "502 Bad Gateway", "Bad Gateway") {
        EnrichmentError::Network(m) => assert_eq!(m, "HTTP 502 Bad Gateway: Bad Gateway"),
        other => panic!("unexpected {:?}", other),
    }
}

#[test]
fn enrichment_error_messages() {
    assert_eq!(EnrichmentError::NoMatches.message(), "No matches found for fingerprint");
    let e = EnrichmentError::ContractViolation { expected: "a".to_string(), actual: "b".to_string() };
    assert_eq!(e.message(), "API contract violation: expected a, got b");
}

#[test]
fn test_convert_error_response() {
    let err = acoustid_dto::ApiError { code: 4, message: "rate limit".to_string() };
    let result = check_lookup_status("error", Some(err.clone()));
    assert!(matches!(result, Err(EnrichmentError::ApiError(_))));
    assert!(matches!(lookup_identifications("error", Some(err), &[]), Err(EnrichmentError::ApiError(_))));
    assert!(check_lookup_status("ok", None).is_ok());
    match check_lookup_status("error", None) {
        Err(EnrichmentError::ApiError(m)) => assert_eq!(m, "Unknown error"),
        _ => panic!("expected an API error"),
    }
}

#[test]
fn recording_expands_to_one_identification_per_release_group() {
    let artists = vec![acoustid_dto::Artist { id: "art-1".to_string(), name: "Queen".to_string() }];
    let groups = vec![
        acoustid_dto::ReleaseGroup {
            id: "rg-1".to_string(),
            title: Some("A Night at the Opera".to_string()),
            release_type: Some("Album".to_string()),
            secondarytypes: vec![],
            artists: vec![],
        },
        acoustid_dto::ReleaseGroup {
            id: "rg-2".to_string(),
            title: Some("Greatest Hits".to_string()),
            release_type: Some("Album".to_string()),
            secondarytypes: vec!["Compilation".to_string()],
            artists: vec![],
        },
    ];
    let id = "rec-1".to_string();
    let title = Some("Bohemian Rhapsody".to_string());
    let tracks = recording_identifications(&id, &title, None, &artists, &groups);
    assert_eq!(tracks.len(), 2);
    assert_eq!(tracks[1].album, Some("Greatest Hits".to_string()));
    assert_eq!(tracks[1].release_id, Some("rg-2".to_string()));
    assert_eq!(tracks[1].secondary_types, vec!["Compilation".to_string()]);
    assert_eq!(tracks[0].artist, Some("Queen".to_string()));
    let bare = recording_identifications(&id, &title, None, &[], &[]);
    assert_eq!(bare.len(), 1);
    assert_eq!(bare[0].album, None);
    assert_eq!(bare[0].artist_id, None);
}

#[test]
fn test_client_creation() {
    let client = MusicBrainzClient::new();
    assert_eq!(client.base_url(), "https://musicbrainz.org/ws/2");
}

#[test]
fn test_client_with_custom_url() {
    let client = MusicBrainzClient::with_base_url("http://localhost:8080");
    assert_eq!(client.base_url(), "http://localhost:8080");
    assert_eq!(
        client.recording_request_url("r1"),
        "http://localhost:8080/recording/r1?fmt=json&inc=artists+releases+media"
    );
    assert_eq!(MusicBrainzClient::default().base_url(), "https://musicbrainz.org/ws/2");
}

fn acoustid_recording(id: &str, title: Option<&str>) -> acoustid_dto::Recording {
    acoustid_dto::Recording {
        id: id.to_string(),
        title: title.map(String::from),
        duration_secs: None,
        artists: vec![],
        releasegroups: vec![],
    }
}

fn acoustid_result(id: &str, recordings: Vec<acoustid_dto::Recording>) -> acoustid_dto::LookupResult {
    acoustid_dto::LookupResult { id: id.to_string(), recordings }
}

#[test]
fn test_convert_successful_response() {
    let scores = [0.9f32];
    let results = vec![acoustid_result("aid-1", vec![acoustid_recording("mbid-1", Some("Test Song"))])];
    let identifications = lookup_identifications("ok", None, &results).unwrap();
    assert_eq!(identifications.len(), 1);
    assert_eq!(identifications[0].1.title, Some("Test Song".to_string()));
    assert_eq!(scores[identifications[0].0], 0.9);
}

#[test]
fn test_skip_empty_recordings() {
    let scores = [0.9f32, 0.8f32];
    let results = vec![
        acoustid_result("aid-1", vec![]),
        acoustid_result("aid-2", vec![acoustid_recording("mbid-2", Some("Song"))]),
    ];
    let identifications = lookup_identifications("ok", None, &results).unwrap();
    assert_eq!(identifications.len(), 1);
    assert_eq!(scores[identifications[0].0], 0.8);
}

#[test]
fn lookup_keeps_result_order_and_durations() {
    let mut long = acoustid_recording("mbid-3", Some("Long"));
    long.duration_secs = Some(353);
    long.releasegroups = vec![
        acoustid_dto::ReleaseGroup { id: "rg-a".to_string(), title: Some("A".to_string()), release_type: None, secondarytypes: vec![], artists: vec![] },
        acoustid_dto::ReleaseGroup { id: "rg-b".to_string(), title: Some("B".to_string()), release_type: None, secondarytypes: vec![], artists: vec![] },
    ];
    let results = vec![
        acoustid_result("aid-1", vec![acoustid_recording("mbid-1", None), long]),
        acoustid_result("aid-2", vec![acoustid_recording("mbid-2", Some("Two"))]),
    ];
    let ids = lookup_identifications("ok", None, &results).unwrap();
    let tags: Vec<(usize, Option<String>, Option<String>)> =
        ids.iter().map(|(k, t)| (*k, t.recording_id.clone(), t.album.clone())).collect();
    assert_eq!(
        tags,
        vec![
            (0, Some("mbid-1".to_string()), None),
            (0, Some("mbid-3".to_string()), Some("A".to_string())),
            (0, Some("mbid-3".to_string()), Some("B".to_string())),
            (1, Some("mbid-2".to_string()), None),
        ]
    );
    assert_eq!(ids[1].1.duration, Some(std::time::Duration::from_secs(353)));
    assert_eq!(ids[0].1.duration, None);
}
