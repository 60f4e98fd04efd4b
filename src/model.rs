//! Albums, their tracks, the record kept per channel, and the derivation of
//! what is playing at a given instant.

use vstd::prelude::*;

verus! {

/// One track of an album. Durations are in milliseconds.
pub struct TrackInfo {
    pub number: u32,
    pub name: String,
    pub uri: Option<String>,
    pub duration: u64,
}

/// An album with its tracks in playing order.
pub struct AlbumInfo {
    pub artist: String,
    pub name: String,
    pub uri: Option<String>,
    pub tracks: Vec<TrackInfo>,
}

/// What is remembered of a channel: the last announced album and, once the
/// party has begun, the instant it began (milliseconds since the epoch).
pub struct LPInfo {
    pub playlist: AlbumInfo,
    pub started: Option<i64>,
}

/// Where playback stands at some instant.
#[derive(PartialEq, Eq, Structural, Clone, Copy, Debug)]
pub enum PlayState {
    NotStarted,
    /// The album ended this many milliseconds ago.
    Finished(u64),
    /// The track at this index of the album is playing, this many
    /// milliseconds in.
    Playing { track: usize, position: u64 },
}

/// The sum of the durations of `tracks`.
pub open spec fn total_duration(tracks: Seq<TrackInfo>) -> nat
    decreases tracks.len(),
{
    if tracks.len() == 0 {
        0
    } else {
        (tracks[0].duration + total_duration(tracks.subrange(1, tracks.len() as int))) as nat
    }
}

/// The play state once `elapsed` milliseconds of `tracks` have gone by:
/// the first track not yet through, or how far past the end playback is.
pub open spec fn state_after(tracks: Seq<TrackInfo>, elapsed: nat) -> PlayState
    decreases tracks.len(),
{
    if tracks.len() == 0 {
        PlayState::Finished(elapsed as u64)
    } else if elapsed < tracks[0].duration {
        PlayState::Playing { track: 0, position: elapsed as u64 }
    } else {
        shifted(state_after(tracks.subrange(1, tracks.len() as int), (elapsed - tracks[0].duration) as nat), 1)
    }
}

/// `s` with its track index moved on by `by`.
pub open spec fn shifted(s: PlayState, by: nat) -> PlayState {
    match s {
        PlayState::Playing { track, position } => PlayState::Playing {
            track: (track + by) as usize,
            position,
        },
        _ => s,
    }
}

/// The play state of a record at instant `now`. A start in the future is
/// treated as not started.
pub open spec fn play_state(info: LPInfo, now: i64) -> PlayState {
    match info.started {
        None => PlayState::NotStarted,
        Some(started) => if started > now {
            PlayState::NotStarted
        } else {
            state_after(info.playlist.tracks@, (now - started) as nat)
        },
    }
}

proof fn lemma_state_after_step(tracks: Seq<TrackInfo>, i: int, remain: nat)
    requires
        0 <= i < tracks.len(),
        remain >= tracks[i].duration,
    ensures
        state_after(tracks.subrange(i, tracks.len() as int), remain) == shifted(
            state_after(tracks.subrange(i + 1, tracks.len() as int), (remain - tracks[i].duration) as nat),
            1,
        ),
{
    let s = tracks.subrange(i, tracks.len() as int);
    assert(s.subrange(1, s.len() as int) =~= tracks.subrange(i + 1, tracks.len() as int));
}

proof fn lemma_state_after_index(tracks: Seq<TrackInfo>, elapsed: nat)
    ensures
        state_after(tracks, elapsed) matches PlayState::Playing { track, .. } ==> track
            < tracks.len(),
    decreases tracks.len(),
{
    if tracks.len() > 0 && elapsed >= tracks[0].duration {
        lemma_state_after_index(
            tracks.subrange(1, tracks.len() as int),
            (elapsed - tracks[0].duration) as nat,
        );
    }
}

/// A playing track is always one of the album's tracks.
pub proof fn lemma_playing_track_in_album(info: LPInfo, now: i64)
    ensures
        play_state(info, now) matches PlayState::Playing { track, .. } ==> track
            < info.playlist.tracks@.len(),
{
    if let Some(started) = info.started {
        if started <= now {
            lemma_state_after_index(info.playlist.tracks@, (now - started) as nat);
        }
    }
}

/// Playback is over exactly when the elapsed time reaches the album's total
/// duration, and then it ended the difference ago; before that a track is
/// playing.
pub proof fn lemma_finished_past_end(tracks: Seq<TrackInfo>, elapsed: nat)
    ensures
        elapsed >= total_duration(tracks) ==> state_after(tracks, elapsed) == PlayState::Finished(
            (elapsed - total_duration(tracks)) as u64,
        ),
        elapsed < total_duration(tracks) ==> state_after(tracks, elapsed) is Playing,
    decreases tracks.len(),
{
    if tracks.len() > 0 && elapsed >= tracks[0].duration {
        lemma_finished_past_end(
            tracks.subrange(1, tracks.len() as int),
            (elapsed - tracks[0].duration) as nat,
        );
    }
}

/// A record without a start instant, or with one after `now`, is not
/// playing, whatever its album holds.
pub proof fn lemma_not_started(info: LPInfo, now: i64)
    requires
        info.started matches Some(started) ==> started > now,
    ensures
        play_state(info, now) == PlayState::NotStarted,
{
}

/// Once playback has begun, its state depends on the time elapsed alone:
/// the same elapsed time gives the same state.
pub proof fn lemma_depends_on_elapsed(a: LPInfo, b: LPInfo, now_a: i64, now_b: i64)
    requires
        a.playlist.tracks@ == b.playlist.tracks@,
        a.started matches Some(sa) && b.started matches Some(sb) && sa <= now_a && sb <= now_b
            && now_a - sa == now_b - sb,
    ensures
        play_state(a, now_a) == play_state(b, now_b),
{
}

proof fn lemma_shifted_twice(s: PlayState, a: nat, b: nat)
    requires
        s matches PlayState::Playing { track, .. } ==> track + a + b <= usize::MAX,
    ensures
        shifted(shifted(s, b), a) == shifted(s, a + b),
{
}

/// Relies on `chrono::Utc::now` and `DateTime::timestamp_millis`: the time
/// now, which nothing can promise anything of.
#[verifier::external_body]
pub(crate) fn clock_millis() -> i64 {
    chrono::Utc::now().timestamp_millis()
}

/// Total duration in milliseconds, capped at `u64::MAX`.
pub fn playlist_duration(tracks: &Vec<TrackInfo>) -> (r: u64)
    ensures
        r == if total_duration(tracks@) > u64::MAX { u64::MAX as nat } else { total_duration(tracks@) },
{
    let mut sum: u64 = 0;
    let mut capped = false;
    let mut i: usize = tracks.len();
    while i > 0
        invariant
            i <= tracks.len(),
            capped ==> total_duration(tracks@.subrange(i as int, tracks.len() as int)) > u64::MAX,
            !capped ==> sum == total_duration(tracks@.subrange(i as int, tracks.len() as int)),
            capped ==> sum == u64::MAX,
        decreases i,
    {
        i = i - 1;
        let ghost s = tracks@.subrange(i as int, tracks.len() as int);
        assert(s.subrange(1, s.len() as int) =~= tracks@.subrange(i + 1, tracks.len() as int));
        let d = tracks[i].duration;
        if !capped {
            if sum > u64::MAX - d {
                capped = true;
                sum = u64::MAX;
            } else {
                sum = sum + d;
            }
        }
    }
    assert(tracks@.subrange(0, tracks.len() as int) =~= tracks@);
    sum
}

impl LPInfo {
    /// What is playing at instant `now` (milliseconds since the epoch).
    pub fn now_playing(&self, now: i64) -> (r: PlayState)
        ensures
            r == play_state(*self, now),
    {
        let started = match self.started {
            None => {
                return PlayState::NotStarted;
            },
            Some(started) => started,
        };
        if started > now {
            return PlayState::NotStarted;
        }
        let elapsed: u64 = (now as i128 - started as i128) as u64;
        let tracks = &self.playlist.tracks;
        let mut remain: u64 = elapsed;
        let mut i: usize = 0;
        assert(tracks@.subrange(0, tracks.len() as int) =~= tracks@);
        while i < tracks.len()
            invariant
                i <= tracks.len(),
                tracks == &self.playlist.tracks,
                elapsed == (now - started) as nat,
                self.started == Some(started),
                started <= now,
                state_after(tracks@, elapsed as nat) == shifted(
                    state_after(tracks@.subrange(i as int, tracks.len() as int), remain as nat),
                    i as nat,
                ),
            decreases tracks.len() - i,
        {
            let d = tracks[i].duration;
            if remain < d {
                let ghost s = tracks@.subrange(i as int, tracks.len() as int);
                assert(s[0] == tracks@[i as int]);
                return PlayState::Playing { track: i, position: remain };
            }
            proof {
                lemma_state_after_step(tracks@, i as int, remain as nat);
                lemma_state_after_index(
                    tracks@.subrange(i + 1, tracks.len() as int),
                    (remain - d) as nat,
                );
                lemma_shifted_twice(
                    state_after(tracks@.subrange(i + 1, tracks.len() as int), (remain - d) as nat),
                    i as nat,
                    1,
                );
            }
            remain = remain - d;
            i = i + 1;
        }
        PlayState::Finished(remain)
    }
}

} // verus!
