//! The answer to "is a listening party going on here?".

use vstd::prelude::*;
use vstd::string::StringExecFns;

use crate::duration::{decimal, display_duration, duration_text, push_decimal};
use crate::model::{
    clock_millis, lemma_playing_track_in_album, play_state, playlist_duration, total_duration,
    LPInfo, PlayState, TrackInfo,
};
use crate::registry::LP;

verus! {

/// The record of `channel` in the store `m`, if any.
pub open spec fn record_of(m: Map<u64, LPInfo>, channel: u64) -> Option<LPInfo> {
    if m.contains_key(channel) {
        Some(m[channel])
    } else {
        None
    }
}

/// The total duration of `tracks` as it is displayed: capped at `u64::MAX`.
pub open spec fn shown_total(tracks: Seq<TrackInfo>) -> nat {
    if total_duration(tracks) > u64::MAX {
        u64::MAX as nat
    } else {
        total_duration(tracks)
    }
}

/// The line that tells where playback stands.
pub open spec fn state_line(tracks: Seq<TrackInfo>, state: PlayState) -> Seq<char> {
    match state {
        PlayState::NotStarted => "Not yet started."@,
        PlayState::Finished(ago) => "LP ended "@ + duration_text(ago as nat) + " ago"@,
        PlayState::Playing { track, position } => "Playing Track "@ + decimal(
            tracks[track as int].number as nat,
        ) + ": `"@ + tracks[track as int].name@ + "` at **"@ + duration_text(position as nat)
            + "** / "@ + duration_text(tracks[track as int].duration as nat),
    }
}

/// The line with the album's link.
pub open spec fn link_line(uri: Option<String>) -> Seq<char> {
    match uri {
        None => "No album link available"@,
        Some(u) => "Album: <"@ + u@ + ">"@,
    }
}

/// The status message for a channel whose record is `record`, at `now`.
pub open spec fn status_text(record: Option<LPInfo>, now: i64) -> Seq<char> {
    match record {
        None => "There is no listening party at the moment."@,
        Some(info) => {
            let album = info.playlist;
            "Ongoing Listening Party:\n "@ + album.artist@ + " - "@ + album.name@ + " ("@
                + duration_text(shown_total(album.tracks@)) + ") \n "@ + state_line(
                album.tracks@,
                play_state(info, now),
            ) + " \n "@ + link_line(album.uri)
        },
    }
}

fn push_state_line(out: &mut String, tracks: &Vec<TrackInfo>, state: PlayState)
    requires
        state matches PlayState::Playing { track, .. } ==> track < tracks@.len(),
    ensures
        final(out)@ == old(out)@ + state_line(tracks@, state),
{
    proof {
        reveal_strlit("Not yet started.");
        reveal_strlit("LP ended ");
        reveal_strlit(" ago");
        reveal_strlit("Playing Track ");
        reveal_strlit(": `");
        reveal_strlit("` at **");
        reveal_strlit("** / ");
    }
    match state {
        PlayState::NotStarted => {
            out.append("Not yet started.");
        },
        PlayState::Finished(ago) => {
            out.append("LP ended ");
            out.append(display_duration(ago).as_str());
            out.append(" ago");
        },
        PlayState::Playing { track, position } => {
            let t = &tracks[track];
            out.append("Playing Track ");
            push_decimal(out, t.number as u64);
            out.append(": `");
            out.append(t.name.as_str());
            out.append("` at **");
            out.append(display_duration(position).as_str());
            out.append("** / ");
            out.append(display_duration(t.duration).as_str());
        },
    }
    assert(final(out)@ =~= old(out)@ + state_line(tracks@, state));
}

/// The status message for a channel whose record is `record`, at instant
/// `now` (milliseconds since the epoch): the album and its total length,
/// where playback stands, and the album's link.
pub fn status_message(record: Option<&LPInfo>, now: i64) -> (r: String)
    ensures
        r@ == status_text(
            match record {
                Some(info) => Some(*info),
                None => None,
            },
            now,
        ),
{
    proof {
        reveal_strlit("There is no listening party at the moment.");
        reveal_strlit("Ongoing Listening Party:\n ");
        reveal_strlit(" - ");
        reveal_strlit(" (");
        reveal_strlit(") \n ");
        reveal_strlit(" \n ");
        reveal_strlit("No album link available");
        reveal_strlit("Album: <");
        reveal_strlit(">");
    }
    match record {
        None => "There is no listening party at the moment.".to_string(),
        Some(info) => {
            let album = &info.playlist;
            let state = info.now_playing(now);
            proof {
                lemma_playing_track_in_album(*info, now);
            }
            let mut out = String::new();
            out.append("Ongoing Listening Party:\n ");
            out.append(album.artist.as_str());
            out.append(" - ");
            out.append(album.name.as_str());
            out.append(" (");
            out.append(display_duration(playlist_duration(&album.tracks)).as_str());
            out.append(") \n ");
            push_state_line(&mut out, &album.tracks, state);
            out.append(" \n ");
            match &album.uri {
                None => {
                    out.append("No album link available");
                },
                Some(u) => {
                    out.append("Album: <");
                    out.append(u.as_str());
                    out.append(">");
                },
            }
            assert(out@ =~= status_text(Some(*info), now));
            out
        },
    }
}

/// The command that asks whether a listening party is going on in a channel.
pub struct CurrentLP {}

impl CurrentLP {
    /// The status message for `channel` at instant `now`.
    pub fn run(self, lp: &LP, channel: u64, now: i64) -> (r: String)
        ensures
            r@ == status_text(record_of(lp@, channel), now),
    {
        status_message(lp.get(channel), now)
    }

    /// The status message for `channel` at the current instant.
    pub fn run_now(self, lp: &LP, channel: u64) -> (r: String)
        ensures
            exists|now: i64| r@ == #[trigger] status_text(record_of(lp@, channel), now),
    {
        let now = clock_millis();
        self.run(lp, channel, now)
    }
}

} // verus!
