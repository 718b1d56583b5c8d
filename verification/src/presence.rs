//! What is published of a track, and the steps that find an address for its
//! art: look in the cache, probe what is cached, upload what is missing or
//! gone.

use crate::artwork::UploadError;
use crate::cache::ArtCache;
use crate::metadata::{art_view, AlbumArt, AlbumArtView};
use crate::text::text_of;
use vstd::prelude::*;

verus! {

/// What to do next about the art of a track.
pub enum ArtStep {
    /// Nothing: the track has no art, or there is no account to upload with.
    Skip,
    /// The art has been uploaded before: see whether this address still
    /// answers.
    Probe(String),
    /// The art is not in the cache: upload it.
    Upload,
}

/// A step with its address as text.
pub enum ArtStepView {
    Skip,
    Probe(Seq<char>),
    Upload,
}

impl View for ArtStep {
    type V = ArtStepView;

    open spec fn view(&self) -> ArtStepView {
        match self {
            ArtStep::Skip => ArtStepView::Skip,
            ArtStep::Probe(url) => ArtStepView::Probe(url@),
            ArtStep::Upload => ArtStepView::Upload,
        }
    }
}

/// The images and texts of a published track.
pub struct PresenceAssets {
    pub large_image: String,
    pub large_text: Option<String>,
}

/// The image that stands for a track without art online.
pub open spec fn fallback_image() -> Seq<char> {
    "no_album_art"@
}

/// The first step for a track: none without an account or without art, a
/// probe of the cached address where the art's key is cached, else an upload.
pub open spec fn step_for(
    cache: Map<Seq<char>, Seq<char>>,
    art: Option<AlbumArtView>,
    has_account: bool,
) -> ArtStepView {
    match art {
        Some(a) => if !has_account {
            ArtStepView::Skip
        } else if cache.contains_key(a.filename) {
            ArtStepView::Probe(cache[a.filename])
        } else {
            ArtStepView::Upload
        },
        None => ArtStepView::Skip,
    }
}

/// Decides the first step for the art of a track.
pub fn art_step(cache: &ArtCache, art: &Option<AlbumArt>, has_account: bool) -> (r: ArtStep)
    ensures
        r@ == step_for(cache@, art_view(*art), has_account),
{
    match art {
        Some(a) => {
            if !has_account {
                ArtStep::Skip
            } else {
                match cache.lookup(&a.filename) {
                    Some(url) => ArtStep::Probe(url.clone()),
                    None => ArtStep::Upload,
                }
            }
        },
        None => ArtStep::Skip,
    }
}

/// Whether a probed address still answers: the probe came back, and with
/// status 200. A probe that failed counts as a dead address.
pub fn link_is_live(status: Option<u16>) -> (r: bool)
    ensures
        r == (status == Some(200u16)),
{
    match status {
        Some(code) => code == 200,
        None => false,
    }
}

/// What a probe settles: a live address is the art's address; a dead one is
/// dropped, and the art is uploaded anew.
pub fn link_after_probe(url: String, live: bool) -> (r: Option<String>)
    ensures
        r == if live {
            Some(url)
        } else {
            None
        },
{
    if live {
        Some(url)
    } else {
        None
    }
}

/// Whether the art is to be uploaded now: there was a step to take, and it
/// has not led to an address. That is so for art that is not in the cache,
/// and for art whose cached address was probed and found dead.
pub fn upload_is_due(first: &ArtStep, link: &Option<String>) -> (r: bool)
    ensures
        r == (!(first@ is Skip) && link is None),
{
    match first {
        ArtStep::Skip => false,
        _ => link.is_none(),
    }
}

/// Takes in what an upload came to. An address is cached under the art's key,
/// in place of any older one, and handed back; a failure leaves the cache as
/// it was.
pub fn record_upload(cache: &mut ArtCache, key: String, outcome: Result<String, UploadError>) -> (r:
    Option<String>)
    ensures
        match outcome {
            Ok(url) => text_of(r) == Some(url@) && final(cache)@ == old(cache)@.insert(
                key@,
                url@,
            ),
            Err(_) => r is None && final(cache)@ == old(cache)@,
        },
{
    match outcome {
        Ok(url) => {
            cache.insert(key, url.clone());
            Some(url)
        },
        Err(_) => None,
    }
}

/// The images and texts to publish: the art's address, or the fallback image
/// where there is none; and the album as the image's caption, where the track
/// shows one.
pub fn presence_assets(album: Option<String>, image_link: Option<String>) -> (r: PresenceAssets)
    ensures
        r.large_image@ == match image_link {
            Some(link) => link@,
            None => fallback_image(),
        },
        text_of(r.large_text) == text_of(album),
{
    let large_image = match image_link {
        Some(link) => link,
        None => String::from_str("no_album_art"),
    };
    PresenceAssets { large_image, large_text: album }
}

/// Start and end of a track that started at `now`, in seconds: the end is
/// known where the duration is, and where it can be counted in 64 bits.
pub fn activity_window(now: u64, duration: Option<u64>) -> (r: (Option<u64>, Option<u64>))
    ensures
        r.0 == Some(now),
        r.1 == match duration {
            Some(d) => if now + d <= u64::MAX {
                Some((now + d) as u64)
            } else {
                None
            },
            None => None,
        },
{
    let end = match duration {
        Some(d) => now.checked_add(d),
        None => None,
    };
    (Some(now), end)
}

/// Art that has been uploaded is not uploaded again: once an address is
/// cached under its key, the first step for art of that key is a probe of
/// that address, until another address is cached under the key.
pub proof fn lemma_uploaded_art_is_probed(
    cache: Map<Seq<char>, Seq<char>>,
    art: AlbumArtView,
    url: Seq<char>,
)
    ensures
        step_for(cache.insert(art.filename, url), Some(art), true) == ArtStepView::Probe(url),
        !cache.contains_key(art.filename) ==> step_for(cache, Some(art), true)
            == ArtStepView::Upload,
{
}

} // verus!
