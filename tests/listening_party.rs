use lp_tracker::{
    album_info, announced_album_id, check_album_id, clamp_millis, display_duration,
    join_artists, mentions_role, playlist_duration, status_message, AlbumInfo, CurrentLP,
    FetchError, LPInfo, PlayState, TrackInfo, LP, LP_ROLE,
};

const NOW: i64 = 1_700_000_000_000;

fn track(number: u32, name: &str, secs: u64) -> TrackInfo {
    TrackInfo { number, name: name.to_string(), uri: None, duration: secs * 1000 }
}

fn album(name: &str, secs: &[u64]) -> AlbumInfo {
    let tracks = secs
        .iter()
        .enumerate()
        .map(|(i, s)| track(i as u32 + 1, &format!("Track{}", i + 1), *s))
        .collect();
    AlbumInfo {
        artist: "Artist".to_string(),
        name: name.to_string(),
        uri: Some(format!("https://open.spotify.com/album/{}", name)),
        tracks,
    }
}

fn record(secs: &[u64], started: Option<i64>) -> LPInfo {
    LPInfo { playlist: album("A1", secs), started }
}

#[test]
fn format_zero() {
    assert_eq!(display_duration(0), "00:00");
}

#[test]
fn format_one_minute_one_second() {
    assert_eq!(display_duration(61_000), "01:01");
}

#[test]
fn format_one_hour() {
    assert_eq!(display_duration(3_661_000), "1:01:01");
}

#[test]
fn format_drops_fractions_and_pads() {
    assert_eq!(display_duration(59_999), "00:59");
    assert_eq!(display_duration(5_000), "00:05");
    assert_eq!(display_duration(3_599_000), "59:59");
    assert_eq!(display_duration(36_000_000 + 60_000 * 9 + 9_000), "10:09:09");
}

#[test]
fn format_largest_span() {
    let s = display_duration(u64::MAX);
    assert_eq!(s, "5124095576030:25:51");
}

#[test]
fn clamp_negative_span() {
    assert_eq!(clamp_millis(-5), 0);
    assert_eq!(clamp_millis(1234), 1234);
}

#[test]
fn resolver_playing_second_track() {
    let info = record(&[60, 60], Some(NOW - 90_000));
    assert_eq!(info.now_playing(NOW), PlayState::Playing { track: 1, position: 30_000 });
    assert_eq!(info.playlist.tracks[1].number, 2);
}

#[test]
fn resolver_finished() {
    let info = record(&[60, 60], Some(NOW - 200_000));
    assert_eq!(info.now_playing(NOW), PlayState::Finished(80_000));
}

#[test]
fn resolver_not_started() {
    assert_eq!(record(&[60, 60], None).now_playing(NOW), PlayState::NotStarted);
    assert_eq!(record(&[], None).now_playing(NOW), PlayState::NotStarted);
}

#[test]
fn resolver_start_in_future() {
    let info = record(&[60, 60], Some(NOW + 1));
    assert_eq!(info.now_playing(NOW), PlayState::NotStarted);
}

#[test]
fn resolver_empty_album_is_finished() {
    let info = record(&[], Some(NOW - 7_000));
    assert_eq!(info.now_playing(NOW), PlayState::Finished(7_000));
}

#[test]
fn resolver_track_boundary() {
    let info = record(&[60, 60], Some(NOW - 60_000));
    assert_eq!(info.now_playing(NOW), PlayState::Playing { track: 1, position: 0 });
    let info = record(&[60, 60], Some(NOW));
    assert_eq!(info.now_playing(NOW), PlayState::Playing { track: 0, position: 0 });
}

#[test]
fn resolver_extreme_instants() {
    let info = record(&[60], Some(i64::MIN));
    assert_eq!(info.now_playing(i64::MAX), PlayState::Finished(u64::MAX - 60_000));
}

#[test]
fn total_duration_sums_and_caps() {
    assert_eq!(playlist_duration(&album("A", &[60, 90, 30]).tracks), 180_000);
    let mut big = album("A", &[]).tracks;
    big.push(TrackInfo { number: 1, name: String::new(), uri: None, duration: u64::MAX });
    big.push(track(2, "x", 1));
    assert_eq!(playlist_duration(&big), u64::MAX);
}

#[test]
fn registry_overwrite_resets_start() {
    let mut lp = LP::new();
    lp.record_announcement(7, album("A1", &[60]));
    lp.start_lp(7, NOW);
    assert_eq!(lp.get(7).unwrap().started, Some(NOW));
    lp.record_announcement(7, album("A2", &[30]));
    let rec = lp.get(7).unwrap();
    assert_eq!(rec.playlist.name, "A2");
    assert_eq!(rec.started, None);
}

#[test]
fn registry_start_without_record() {
    let mut lp = LP::new();
    lp.start_lp(7, NOW);
    assert!(lp.get(7).is_none());
    lp.record_announcement(8, album("A1", &[60]));
    lp.start_lp(7, NOW);
    assert!(lp.get(7).is_none());
    assert_eq!(lp.get(8).unwrap().started, None);
}

#[test]
fn registry_channels_are_separate() {
    let mut lp = LP::new();
    lp.record_announcement(1, album("A1", &[60]));
    lp.record_announcement(2, album("A2", &[60]));
    lp.start_lp(2, NOW);
    assert_eq!(lp.get(1).unwrap().started, None);
    assert_eq!(lp.get(2).unwrap().started, Some(NOW));
    assert_eq!(lp.get(1).unwrap().playlist.name, "A1");
}

#[test]
fn detector_needs_role() {
    let text = "LP now! https://open.spotify.com/album/ABC123";
    assert_eq!(announced_album_id(text, &vec![]), None);
    assert_eq!(announced_album_id(text, &vec![42, 43]), None);
}

#[test]
fn detector_needs_link() {
    assert_eq!(announced_album_id("no link here", &vec![LP_ROLE]), None);
    assert_eq!(announced_album_id("https://open.spotify.com/track/ABC123", &vec![LP_ROLE]), None);
    assert_eq!(announced_album_id("HTTPS://OPEN.SPOTIFY.COM/ALBUM/ABC123", &vec![LP_ROLE]), None);
}

#[test]
fn detector_extracts_identifier() {
    let text = "Join us https://open.spotify.com/album/ABC123 tonight";
    assert_eq!(announced_album_id(text, &vec![5, LP_ROLE]), Some("ABC123".to_string()));
    let text = "https://open.spotify.com/album/4aawyAB9vmqN3uQ7FjRGTy?si=abc";
    assert_eq!(announced_album_id(text, &vec![LP_ROLE]), Some("4aawyAB9vmqN3uQ7FjRGTy".to_string()));
}

#[test]
fn detector_first_link_wins() {
    let text = "https://open.spotify.com/album/First1 and https://open.spotify.com/album/Second2";
    assert_eq!(announced_album_id(text, &vec![LP_ROLE]), Some("First1".to_string()));
}

#[test]
fn role_mention_check() {
    assert!(mentions_role(&vec![1, LP_ROLE]));
    assert!(!mentions_role(&vec![]));
    assert!(!mentions_role(&vec![1, 2]));
}

#[test]
fn album_identifier_check() {
    assert!(check_album_id("ABC123").is_ok());
    assert!(matches!(check_album_id("ABC-123"), Err(FetchError::InvalidIdentifier)));
    assert!(matches!(check_album_id("AB C"), Err(FetchError::InvalidIdentifier)));
}

#[test]
fn artists_joined() {
    assert_eq!(join_artists(&vec![]), "");
    assert_eq!(join_artists(&vec!["Solo".to_string()]), "Solo");
    assert_eq!(join_artists(&vec!["A".to_string(), "B".to_string(), "C".to_string()]), "A, B, C");
}

#[test]
fn album_assembled() {
    let a = album_info(
        &vec!["X".to_string(), "Y".to_string()],
        "Name".to_string(),
        None,
        vec![track(1, "t", 10)],
    );
    assert_eq!(a.artist, "X, Y");
    assert_eq!(a.name, "Name");
    assert_eq!(a.uri, None);
    assert_eq!(a.tracks.len(), 1);
}

#[test]
fn failed_fetch_changes_nothing() {
    let mut lp = LP::new();
    lp.handle_message(3, Err(FetchError::FetchFailed("timeout".to_string())));
    assert!(lp.get(3).is_none());
    lp.handle_message(3, Ok(album("A1", &[60])));
    lp.handle_message(3, Err(FetchError::InvalidIdentifier));
    assert_eq!(lp.get(3).unwrap().playlist.name, "A1");
}

#[test]
fn status_without_party() {
    let lp = LP::new();
    assert_eq!(CurrentLP {}.run(&lp, 1, NOW), "There is no listening party at the moment.");
}

#[test]
fn status_is_repeatable() {
    let mut lp = LP::new();
    lp.record_announcement(1, album("A1", &[60, 60]));
    lp.start_lp(1, NOW - 90_000);
    let first = CurrentLP {}.run(&lp, 1, NOW);
    let second = CurrentLP {}.run(&lp, 1, NOW);
    assert_eq!(first, second);
}

#[test]
fn status_not_started_and_finished() {
    let mut info = record(&[60, 60], None);
    info.playlist.uri = None;
    assert_eq!(
        status_message(Some(&info), NOW),
        "Ongoing Listening Party:\n Artist - A1 (02:00) \n Not yet started. \n No album link available"
    );
    info.started = Some(NOW - 200_000);
    assert_eq!(
        status_message(Some(&info), NOW),
        "Ongoing Listening Party:\n Artist - A1 (02:00) \n LP ended 01:20 ago \n No album link available"
    );
}

#[test]
fn end_to_end_announcement() {
    let mut lp = LP::new();
    let channel: u64 = 99;
    let text = "<@&role> party! https://open.spotify.com/album/ABC123";
    let id = announced_album_id(text, &vec![LP_ROLE]).unwrap();
    assert_eq!(id, "ABC123");
    assert!(check_album_id(&id).is_ok());
    let fetched = album_info(
        &vec!["Band".to_string()],
        "Record".to_string(),
        Some("https://open.spotify.com/album/ABC123".to_string()),
        vec![track(1, "Opener", 180), track(2, "Closer", 200)],
    );
    lp.handle_message(channel, Ok(fetched));
    assert_eq!(lp.get(channel).unwrap().started, None);
    let t1 = NOW;
    lp.start_lp(channel, t1);
    assert_eq!(lp.get(channel).unwrap().started, Some(t1));
    let msg = CurrentLP {}.run(&lp, channel, t1 + 45_000);
    assert_eq!(
        msg,
        "Ongoing Listening Party:\n Band - Record (06:20) \n Playing Track 1: `Opener` at **00:45** / 03:00 \n Album: <https://open.spotify.com/album/ABC123>"
    );
}

#[test]
fn resolver_finished_exactly_at_end() {
    let info = record(&[60, 60], Some(NOW - 120_000));
    assert_eq!(info.now_playing(NOW), PlayState::Finished(0));
    let info = record(&[60, 60], Some(NOW - 119_999));
    assert_eq!(info.now_playing(NOW), PlayState::Playing { track: 1, position: 59_999 });
}

#[test]
fn status_at_current_instant() {
    let mut lp = LP::new();
    assert_eq!(CurrentLP {}.run_now(&lp, 4), "There is no listening party at the moment.");
    lp.record_announcement(4, album("A1", &[60]));
    let msg = CurrentLP {}.run_now(&lp, 4);
    assert!(msg.starts_with("Ongoing Listening Party:\n Artist - A1 (01:00) \n Not yet started."));
}
