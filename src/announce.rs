//! Recognising album announcements, and assembling the fetched album.

use vstd::prelude::*;
use vstd::string::StringExecFns;

use crate::model::{AlbumInfo, TrackInfo};
use crate::registry::{announced, LP};

verus! {

/// The role whose mention marks a message as an announcement.
pub const LP_ROLE: u64 = 1198354637137391709;

/// An album link: `https://open.spotify.com/album/<id>`, optionally followed
/// by a query, with the identifier as the first group.
pub const ALBUM_LINK_PATTERN: &'static str = "\\bhttps://open\\.spotify\\.com/album/([a-zA-Z0-9]+)(?:\\?[a-zA-Z?=&]*)?\\b";

/// Why an album could not be had.
pub enum FetchError {
    /// The identifier is not one the catalog accepts.
    InvalidIdentifier,
    /// The catalog could not be reached or its answer not read.
    FetchFailed(String),
}

/// The first group of the leftmost match of the regular expression
/// `pattern` in `text`; `None` where there is no match or the pattern does
/// not compile.
pub uninterp spec fn regex_first_group(pattern: Seq<char>, text: Seq<char>) -> Option<Seq<char>>;

/// Relies on `regex::Regex::new` and `regex::Regex::captures`: the text of
/// group 1 of the leftmost match, which depends on the pattern and the text
/// alone.
#[verifier::external_body]
fn first_group(pattern: &str, text: &str) -> (r: Option<String>)
    ensures
        match r {
            Some(g) => regex_first_group(pattern@, text@) == Some(g@),
            None => regex_first_group(pattern@, text@) == None::<Seq<char>>,
        },
{
    match regex::Regex::new(pattern) {
        Ok(re) => re.captures(text).and_then(|c| c.get(1)).map(|m| m.as_str().to_string()),
        Err(_) => None,
    }
}

/// Whether `id` is an album identifier as the catalog accepts them: ASCII
/// letters and digits only.
pub open spec fn is_album_id(id: Seq<char>) -> bool {
    forall|i: int|
        0 <= i < id.len() ==> {
            let c = #[trigger] id[i];
            ('a' <= c && c <= 'z') || ('A' <= c && c <= 'Z') || ('0' <= c && c <= '9')
        }
}

/// Relies on `rspotify::model::AlbumId::id_is_valid`, which accepts exactly
/// the strings whose characters are all ASCII alphanumeric.
#[verifier::external_body]
fn album_id_is_valid(id: &str) -> (r: bool)
    ensures
        r == is_album_id(id@),
{
    rspotify::model::AlbumId::id_is_valid(id)
}

/// Whether the mentioned roles include the announcement role.
pub open spec fn mentions_lp_role(roles: Seq<u64>) -> bool {
    exists|i: int| 0 <= i < roles.len() && #[trigger] roles[i] == LP_ROLE
}

/// The album identifier that a message announces, if any.
pub open spec fn announced_id(content: Seq<char>, roles: Seq<u64>) -> Option<Seq<char>> {
    if mentions_lp_role(roles) {
        regex_first_group(ALBUM_LINK_PATTERN@, content)
    } else {
        None
    }
}

/// Whether `roles` mentions the announcement role.
pub fn mentions_role(roles: &Vec<u64>) -> (r: bool)
    ensures
        r == mentions_lp_role(roles@),
{
    let mut i: usize = 0;
    while i < roles.len()
        invariant
            i <= roles.len(),
            forall|j: int| 0 <= j < i ==> roles@[j] != LP_ROLE,
        decreases roles.len() - i,
    {
        if roles[i] == LP_ROLE {
            return true;
        }
        i = i + 1;
    }
    false
}

/// The album identifier announced by a message with text `content` that
/// mentions the roles `roles`: only a message that mentions the announcement
/// role counts, and then the first album link in its text.
pub fn announced_album_id(content: &str, roles: &Vec<u64>) -> (r: Option<String>)
    ensures
        !mentions_lp_role(roles@) ==> r is None,
        match r {
            Some(id) => announced_id(content@, roles@) == Some(id@),
            None => announced_id(content@, roles@) == None::<Seq<char>>,
        },
{
    if !mentions_role(roles) {
        return None;
    }
    first_group(ALBUM_LINK_PATTERN, content)
}

/// Checks an album identifier before anything is fetched for it.
pub fn check_album_id(id: &str) -> (r: Result<(), FetchError>)
    ensures
        r is Ok <==> is_album_id(id@),
        r is Err ==> r matches Err(FetchError::InvalidIdentifier),
{
    if album_id_is_valid(id) {
        Ok(())
    } else {
        Err(FetchError::InvalidIdentifier)
    }
}

/// Names joined with `", "` between them.
pub open spec fn joined_names(names: Seq<String>) -> Seq<char>
    decreases names.len(),
{
    if names.len() == 0 {
        Seq::empty()
    } else if names.len() == 1 {
        names[0]@
    } else {
        joined_names(names.drop_last()) + ", "@ + names.last()@
    }
}

/// The artist names of an album as one line.
pub fn join_artists(names: &Vec<String>) -> (r: String)
    ensures
        r@ == joined_names(names@),
{
    let mut out = String::new();
    let mut i: usize = 0;
    proof {
        reveal_strlit(", ");
    }
    while i < names.len()
        invariant
            i <= names.len(),
            out@ == joined_names(names@.subrange(0, i as int)),
            ", "@ == seq![',', ' '],
        decreases names.len() - i,
    {
        let ghost prefix = names@.subrange(0, i as int + 1);
        assert(prefix.drop_last() =~= names@.subrange(0, i as int));
        if i > 0 {
            out.append(", ");
        }
        out.append(names[i].as_str());
        i = i + 1;
        assert(out@ =~= joined_names(prefix));
    }
    assert(names@.subrange(0, names.len() as int) =~= names@);
    out
}

/// The album assembled from what the catalog reports of it: its artists'
/// names, its name, its link, and its tracks in order.
pub fn album_info(
    artists: &Vec<String>,
    name: String,
    uri: Option<String>,
    tracks: Vec<TrackInfo>,
) -> (r: AlbumInfo)
    ensures
        r.artist@ == joined_names(artists@),
        r.name == name,
        r.uri == uri,
        r.tracks == tracks,
{
    AlbumInfo { artist: join_artists(artists), name, uri, tracks }
}

impl LP {
    /// Takes the outcome of fetching the album that a message in `channel`
    /// announced: a fetched album replaces the channel's record, a failure
    /// changes nothing.
    pub fn handle_message(&mut self, channel: u64, fetched: Result<AlbumInfo, FetchError>)
        ensures
            match fetched {
                Ok(album) => final(self)@ == announced(old(self)@, channel, album),
                Err(_) => final(self)@ == old(self)@,
            },
    {
        match fetched {
            Ok(album) => self.record_announcement(channel, album),
            Err(_) => {},
        }
    }
}

} // verus!
