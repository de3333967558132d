use auv_cli::media::{media_control_report, now_playing_report, now_playing_summary, playback_state, MediaControlOutcome, NowPlaying};

fn playing(title: Option<&str>, artist: Option<&str>, source: Option<&str>) -> NowPlaying {
    NowPlaying {
        present: true,
        is_playing: true,
        title: title.map(str::to_string),
        artist: artist.map(str::to_string),
        album: None,
        source_bundle_id: source.map(str::to_string),
    }
}

fn nothing() -> NowPlaying {
    NowPlaying { present: false, is_playing: false, title: None, artist: None, album: None, source_bundle_id: None }
}

#[test]
fn summaries_name_what_is_playing() {
    assert_eq!(now_playing_summary(&nothing()), "nothing playing");
    assert_eq!(
        now_playing_summary(&playing(Some("Song"), Some("Band"), Some("com.apple.Music"))),
        "playing: Song — Band (com.apple.Music)"
    );
    let mut paused = playing(Some(" "), Some(""), None);
    paused.is_playing = false;
    assert_eq!(now_playing_summary(&paused), "paused: (unknown title)");
    assert_eq!(playback_state(&paused), "paused");
}

#[test]
fn now_playing_reports_list_the_known_fields() {
    let report = now_playing_report(&playing(Some("Song"), None, Some("com.apple.Music")), Some("1.500 s".to_string()), None);
    let lines: Vec<(&str, &str)> = report.fields.iter().map(|f| (f.label.as_str(), f.value.as_str())).collect();
    assert_eq!(lines, vec![("State", "playing"), ("Title", "Song"), ("Source", "com.apple.Music"), ("Elapsed", "1.500 s")]);
    let empty = now_playing_report(&nothing(), Some("9.000 s".to_string()), None);
    assert_eq!(empty.fields.len(), 1);
    assert_eq!(empty.fields[0].value, "nothing playing");
}

#[test]
fn media_control_reports_compare_before_and_after() {
    let outcome = MediaControlOutcome {
        command: "next".to_string(),
        verified: true,
        before: playing(Some("A"), None, None),
        after: playing(Some("B"), None, None),
    };
    let report = media_control_report(&outcome);
    let lines: Vec<(&str, &str)> = report.fields.iter().map(|f| (f.label.as_str(), f.value.as_str())).collect();
    assert_eq!(lines, vec![("Command", "next"), ("Verified", "yes"), ("Before", "playing: A"), ("After", "playing: B")]);
}
