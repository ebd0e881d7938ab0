use player_core::metadata::{collect_music_info, MetaTag, MetaVisual, TagKind};

fn tag(kind: TagKind, value: &str) -> MetaTag {
    MetaTag { kind, value: value.to_string() }
}

#[test]
fn collects_tag_texts_with_later_duplicates_winning() {
    let tags = vec![
        tag(TagKind::TrackTitle, "Working Title"),
        tag(TagKind::Artist, "Some Artist"),
        tag(TagKind::Album, "Some Album"),
        tag(TagKind::Other, "ignored"),
        tag(TagKind::TrackTitle, "Final Title"),
        tag(TagKind::Lyrics, "la la la"),
    ];
    let info = collect_music_info(&tags, &Vec::new(), 441_000, 1, 44_100);
    assert_eq!(info.name, "Final Title");
    assert_eq!(info.artist, "Some Artist");
    assert_eq!(info.album, "Some Album");
    assert_eq!(info.lyric, "la la la");
    assert_eq!(info.cover, "");
    assert_eq!(info.duration_ms, 10_000);
}

#[test]
fn missing_tags_stay_empty() {
    let info = collect_music_info(&Vec::new(), &Vec::new(), 0, 1, 48_000);
    assert_eq!(info.name, "");
    assert_eq!(info.artist, "");
    assert_eq!(info.album, "");
    assert_eq!(info.lyric, "");
    assert_eq!(info.cover, "");
    assert_eq!(info.duration_ms, 0);
}

#[test]
fn front_cover_is_base64_encoded() {
    let visuals = vec![
        MetaVisual { front_cover: false, data: b"not me".to_vec() },
        MetaVisual { front_cover: true, data: b"abc".to_vec() },
    ];
    let info = collect_music_info(&Vec::new(), &visuals, 0, 1, 1);
    assert_eq!(info.cover, "YWJj");
}

#[test]
fn base64_pads_partial_groups() {
    let visuals = vec![MetaVisual { front_cover: true, data: b"fo".to_vec() }];
    let info = collect_music_info(&Vec::new(), &visuals, 0, 1, 1);
    assert_eq!(info.cover, "Zm8=");
}

#[test]
fn later_front_cover_wins() {
    let visuals = vec![
        MetaVisual { front_cover: true, data: b"first".to_vec() },
        MetaVisual { front_cover: true, data: b"f".to_vec() },
    ];
    let info = collect_music_info(&Vec::new(), &visuals, 0, 1, 1);
    assert_eq!(info.cover, "Zg==");
}

#[test]
fn duration_comes_from_frames_and_time_base() {
    let info = collect_music_info(&Vec::new(), &Vec::new(), 123_456_789, 1, 90_000);
    // 123456789 * 1000 / 90000 milliseconds, rounded down.
    assert_eq!(info.duration_ms, 1_371_742);
}
