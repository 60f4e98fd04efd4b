//! The per-channel store of listening parties.

use std::collections::HashMap;
use vstd::prelude::*;

use crate::model::{AlbumInfo, LPInfo};

verus! {

broadcast use vstd::std_specs::hash::group_hash_axioms;

/// The record stored for a freshly announced album: not started yet.
pub open spec fn fresh_record(album: AlbumInfo) -> LPInfo {
    LPInfo { playlist: album, started: None }
}

/// The store after `album` is announced in `channel`: the channel's record is
/// replaced whole.
pub open spec fn announced(
    m: Map<u64, LPInfo>,
    channel: u64,
    album: AlbumInfo,
) -> Map<u64, LPInfo> {
    m.insert(channel, fresh_record(album))
}

/// The store after a start signal at `now` in `channel`: the start instant
/// of an existing record is set; without a record nothing changes.
pub open spec fn started(m: Map<u64, LPInfo>, channel: u64, now: i64) -> Map<u64, LPInfo> {
    if m.contains_key(channel) {
        m.insert(channel, LPInfo { playlist: m[channel].playlist, started: Some(now) })
    } else {
        m
    }
}

/// The listening parties known so far, by channel identifier.
pub struct LP {
    last_pinged: HashMap<u64, LPInfo>,
}

impl View for LP {
    type V = Map<u64, LPInfo>;

    closed spec fn view(&self) -> Map<u64, LPInfo> {
        self.last_pinged@
    }
}

impl LP {
    /// An empty store.
    pub fn new() -> (r: LP)
        ensures
            r@ == Map::<u64, LPInfo>::empty(),
    {
        LP { last_pinged: HashMap::new() }
    }

    /// The record of `channel`, if an album was announced there.
    pub fn get(&self, channel: u64) -> (r: Option<&LPInfo>)
        ensures
            match r {
                Some(info) => self@.contains_key(channel) && *info == self@[channel],
                None => !self@.contains_key(channel),
            },
    {
        self.last_pinged.get(&channel)
    }

    /// Remembers `album` as the one announced in `channel`, replacing any
    /// earlier record there, start instant included.
    pub fn record_announcement(&mut self, channel: u64, album: AlbumInfo)
        ensures
            final(self)@ == announced(old(self)@, channel, album),
    {
        self.last_pinged.insert(channel, LPInfo { playlist: album, started: None });
    }

    /// Marks the party of `channel` as begun at `now` (milliseconds since the
    /// epoch). A channel without a record is left as it is.
    pub fn start_lp(&mut self, channel: u64, now: i64)
        ensures
            final(self)@ == started(old(self)@, channel, now),
    {
        match self.last_pinged.remove(&channel) {
            Some(info) => {
                let LPInfo { playlist, started: _ } = info;
                self.last_pinged.insert(channel, LPInfo { playlist, started: Some(now) });
                assert(final(self)@ =~= started(old(self)@, channel, now));
            },
            None => {
                assert(final(self)@ =~= old(self)@);
            },
        }
    }
}

/// A later announcement in a channel wins: the earlier album is gone, and so
/// is any start instant, whatever the store held before.
pub proof fn lemma_announcement_overwrites(
    m: Map<u64, LPInfo>,
    channel: u64,
    first: AlbumInfo,
    second: AlbumInfo,
)
    ensures
        announced(announced(m, channel, first), channel, second) == announced(m, channel, second),
        announced(announced(m, channel, first), channel, second)[channel] == fresh_record(second),
{
    assert(announced(announced(m, channel, first), channel, second) =~= announced(
        m,
        channel,
        second,
    ));
}

/// A start signal in a channel without a record changes nothing: the channel
/// still has no record.
pub proof fn lemma_start_without_record(m: Map<u64, LPInfo>, channel: u64, now: i64)
    requires
        !m.contains_key(channel),
    ensures
        started(m, channel, now) == m,
        !started(m, channel, now).contains_key(channel),
{
}

/// A start signal after an announcement applies to that announcement.
pub proof fn lemma_start_after_announcement(
    m: Map<u64, LPInfo>,
    channel: u64,
    album: AlbumInfo,
    now: i64,
)
    ensures
        started(announced(m, channel, album), channel, now)[channel] == (LPInfo {
            playlist: album,
            started: Some(now),
        }),
{
}

} // verus!
