//! The reports of the system media commands: what is playing now, and what
//! a media control changed.

use vstd::prelude::*;
use crate::invoke::{field_is, InvokeReport, InvokeReportField};
use crate::text::{is_blank, is_blank_text, owned};

verus! {

/// What the system reports as playing now; playback times are formatted
/// by the caller.
#[derive(Clone, Debug, PartialEq, Eq)]
pub struct NowPlaying {
    pub present: bool,
    pub is_playing: bool,
    pub title: Option<String>,
    pub artist: Option<String>,
    pub album: Option<String>,
    pub source_bundle_id: Option<String>,
}

/// A value that is present and not blank.
pub open spec fn non_empty(value: Option<String>) -> Option<Seq<char>> {
    match value {
        Some(text) => if is_blank(text@) {
            None
        } else {
            Some(text@)
        },
        None => None,
    }
}

fn non_empty_text(value: &Option<String>) -> (r: Option<String>)
    ensures
        match non_empty(*value) {
            Some(text) => r matches Some(t) && t@ == text,
            None => r is None,
        },
{
    match value {
        Some(text) => if is_blank_text(text.as_str()) {
            None
        } else {
            Some(text.clone())
        },
        None => None,
    }
}

pub open spec fn playback_state_text(now: NowPlaying) -> Seq<char> {
    if !now.present {
        "nothing playing"@
    } else if now.is_playing {
        "playing"@
    } else {
        "paused"@
    }
}

pub fn playback_state(now: &NowPlaying) -> (r: String)
    ensures
        r@ == playback_state_text(*now),
{
    if !now.present {
        owned("nothing playing")
    } else if now.is_playing {
        owned("playing")
    } else {
        owned("paused")
    }
}

/// The title, or a placeholder when it is missing or blank.
pub open spec fn title_text(now: NowPlaying) -> Seq<char> {
    match non_empty(now.title) {
        Some(title) => title,
        None => "(unknown title)"@,
    }
}

fn title(now: &NowPlaying) -> (r: String)
    ensures
        r@ == title_text(*now),
{
    match non_empty_text(&now.title) {
        Some(t) => t,
        None => owned("(unknown title)"),
    }
}

/// One line on what is playing: state and title, then the artist and the
/// source application where they are known.
pub open spec fn summary_text(now: NowPlaying) -> Seq<char> {
    if !now.present {
        "nothing playing"@
    } else {
        let head = playback_state_text(now) + ": "@ + title_text(now);
        let with_artist = match non_empty(now.artist) {
            Some(artist) => head + " — "@ + artist,
            None => head,
        };
        match non_empty(now.source_bundle_id) {
            Some(source) => with_artist + " ("@ + source + ")"@,
            None => with_artist,
        }
    }
}

pub fn now_playing_summary(now: &NowPlaying) -> (r: String)
    ensures
        r@ == summary_text(*now),
{
    if !now.present {
        return owned("nothing playing");
    }
    let mut summary = playback_state(now);
    summary.append(": ");
    let t = title(now);
    summary.append(t.as_str());
    match non_empty_text(&now.artist) {
        Some(artist) => {
            summary.append(" — ");
            summary.append(artist.as_str());
        },
        None => {},
    }
    match non_empty_text(&now.source_bundle_id) {
        Some(source) => {
            summary.append(" (");
            summary.append(source.as_str());
            summary.append(")");
        },
        None => {},
    }
    summary
}

pub open spec fn field_texts(fields: Seq<InvokeReportField>) -> Seq<(Seq<char>, Seq<char>)> {
    fields.map_values(|f: InvokeReportField| (f.label@, f.value@))
}

/// A labelled line when the value is present and not blank.
pub open spec fn optional_line(label: Seq<char>, value: Option<String>) -> Seq<(Seq<char>, Seq<char>)> {
    match non_empty(value) {
        Some(text) => seq![(label, text)],
        None => Seq::empty(),
    }
}

/// A labelled line when the text is present.
pub open spec fn timing_line(label: Seq<char>, text: Option<String>) -> Seq<(Seq<char>, Seq<char>)> {
    match text {
        Some(t) => seq![(label, t@)],
        None => Seq::empty(),
    }
}

/// The report of what is playing: its state, then, when something is
/// playing, its title and whichever of artist, album, source, elapsed time
/// and duration are known.
pub open spec fn now_playing_lines(now: NowPlaying, elapsed: Option<String>, duration: Option<String>) -> Seq<(Seq<char>, Seq<char>)> {
    let state = seq![("State"@, playback_state_text(now))];
    if !now.present {
        state
    } else {
        state + seq![("Title"@, title_text(now))] + optional_line("Artist"@, now.artist) + optional_line("Album"@, now.album)
            + optional_line("Source"@, now.source_bundle_id) + timing_line("Elapsed"@, elapsed) + timing_line(
            "Duration"@,
            duration,
        )
    }
}

fn push_optional_field(fields: &mut Vec<InvokeReportField>, label: &str, value: &Option<String>)
    ensures
        field_texts(final(fields)@) == field_texts(old(fields)@) + optional_line(label@, *value),
{
    let ghost before = fields@;
    match non_empty_text(value) {
        Some(text) => {
            fields.push(InvokeReportField::new(label, text));
            assert(field_texts(fields@) =~= field_texts(before) + optional_line(label@, *value));
        },
        None => {
            assert(field_texts(fields@) =~= field_texts(before) + optional_line(label@, *value));
        },
    }
}

fn push_timing_field(fields: &mut Vec<InvokeReportField>, label: &str, text: Option<String>)
    ensures
        field_texts(final(fields)@) == field_texts(old(fields)@) + timing_line(label@, text),
{
    let ghost before = fields@;
    let ghost given = text;
    match text {
        Some(t) => {
            fields.push(InvokeReportField::new(label, t));
            assert(field_texts(fields@) =~= field_texts(before) + timing_line(label@, given));
        },
        None => {
            assert(field_texts(fields@) =~= field_texts(before) + timing_line(label@, given));
        },
    }
}

/// The report of `mediaControl.nowPlaying`; `elapsed` and `duration` are
/// the formatted playback times, where known.
pub fn now_playing_report(now: &NowPlaying, elapsed: Option<String>, duration: Option<String>) -> (report: InvokeReport)
    ensures
        field_texts(report.fields@) == now_playing_lines(*now, elapsed, duration),
{
    let mut fields: Vec<InvokeReportField> = Vec::new();
    let state = playback_state(now);
    fields.push(InvokeReportField::new("State", state));
    assert(field_texts(fields@) =~= seq![("State"@, playback_state_text(*now))]);
    if now.present {
        let t = title(now);
        fields.push(InvokeReportField::new("Title", t));
        assert(field_texts(fields@) =~= seq![("State"@, playback_state_text(*now))] + seq![("Title"@, title_text(*now))]);
        push_optional_field(&mut fields, "Artist", &now.artist);
        push_optional_field(&mut fields, "Album", &now.album);
        push_optional_field(&mut fields, "Source", &now.source_bundle_id);
        push_timing_field(&mut fields, "Elapsed", elapsed);
        push_timing_field(&mut fields, "Duration", duration);
    }
    InvokeReport { fields }
}

/// What one media control did: the command sent, whether the change was
/// observed, and what was playing before and after.
#[derive(Clone, Debug, PartialEq, Eq)]
pub struct MediaControlOutcome {
    pub command: String,
    pub verified: bool,
    pub before: NowPlaying,
    pub after: NowPlaying,
}

/// The report of a media control command.
pub fn media_control_report(outcome: &MediaControlOutcome) -> (report: InvokeReport)
    ensures
        report.fields@.len() == 4,
        field_is(report.fields@[0], "Command"@, outcome.command@),
        field_is(report.fields@[1], "Verified"@, if outcome.verified { "yes"@ } else { "no"@ }),
        field_is(report.fields@[2], "Before"@, summary_text(outcome.before)),
        field_is(report.fields@[3], "After"@, summary_text(outcome.after)),
{
    let mut fields: Vec<InvokeReportField> = Vec::new();
    fields.push(InvokeReportField::new("Command", outcome.command.clone()));
    fields.push(InvokeReportField::new("Verified", if outcome.verified { owned("yes") } else { owned("no") }));
    fields.push(InvokeReportField::new("Before", now_playing_summary(&outcome.before)));
    fields.push(InvokeReportField::new("After", now_playing_summary(&outcome.after)));
    InvokeReport { fields }
}

} // verus!
