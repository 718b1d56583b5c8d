//! The compilation policy: an album that carries only the placeholder name of
//! a compilation is not worth showing.

use crate::text::text_of;
use vstd::prelude::*;

verus! {

/// The placeholder that compilations carry as album artist and, often, as
/// album name.
pub open spec fn placeholder() -> Seq<char> {
    "Various Artists"@
}

/// Whether the policy clears the album: it is switched on and both fields are
/// exactly the placeholder.
pub open spec fn suppresses(
    album_artist: Option<Seq<char>>,
    album: Option<Seq<char>>,
    policy_enabled: bool,
) -> bool {
    policy_enabled && album_artist == Some(placeholder()) && album == Some(placeholder())
}

/// The album after the policy: cleared where `suppresses` holds, passed
/// through otherwise.
pub open spec fn normalized(
    album_artist: Option<Seq<char>>,
    album: Option<Seq<char>>,
    policy_enabled: bool,
) -> Option<Seq<char>> {
    if suppresses(album_artist, album, policy_enabled) {
        None
    } else {
        album
    }
}

/// The policy clears an album just where it is switched on and album artist
/// and album are both the placeholder; in every other case, and always where
/// there is no album artist, the album passes through as it is.
pub proof fn lemma_suppression_needs_both(
    album_artist: Option<Seq<char>>,
    album: Option<Seq<char>>,
    policy_enabled: bool,
)
    ensures
        normalized(album_artist, album, policy_enabled) != album <==> policy_enabled
            && album_artist == Some(placeholder()) && album == Some(placeholder()),
        normalized(album_artist, album, policy_enabled) == album || normalized(
            album_artist,
            album,
            policy_enabled,
        ) is None,
        album_artist is None ==> normalized(album_artist, album, policy_enabled) == album,
{
}

fn is_placeholder(s: &Option<String>) -> (r: bool)
    ensures
        r == (text_of(*s) == Some(placeholder())),
{
    match s {
        Some(t) => {
            let p = String::from_str("Various Artists");
            *t == p
        },
        None => false,
    }
}

/// Applies the compilation policy to an album name.
pub fn normalize(album_artist: &Option<String>, album: Option<String>, policy_enabled: bool) -> (r:
    Option<String>)
    ensures
        text_of(r) == normalized(text_of(*album_artist), text_of(album), policy_enabled),
        r is Some ==> r == album,
{
    if policy_enabled && is_placeholder(album_artist) && is_placeholder(&album) {
        None
    } else {
        album
    }
}

} // verus!
