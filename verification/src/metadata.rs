//! What a track shows of itself: artist, title, album and cover art, worked
//! out from the tags that a file carries.
//!
//! The tags arrive as plain values, already read out of the file's tag
//! container. Two families of container are known: Vorbis comments, a list of
//! name and value pairs that may repeat a name, and ID3, which hands out each
//! field on its own.

use crate::fingerprint::{fingerprint_key, hash_filename};
use crate::policy::{normalize, normalized};
use crate::numeral::{signed_decimal, signed_decimal_text};
use crate::text::{
    extension, extension_of, join_values, joined, list_separator, pair_texts, text_is, text_of,
    texts,
};
use vstd::prelude::*;
use vstd::slice::slice_to_vec;

verus! {

/// Cover art taken out of a file, under the key by which it is cached.
pub struct AlbumArt {
    pub filename: String,
    pub data: Vec<u8>,
}

/// What is shown of a track.
pub struct MetadataPackage {
    pub album_artist: Option<String>,
    pub album: Option<String>,
    pub artist: String,
    pub title: String,
    pub album_art: Option<AlbumArt>,
}

/// An image as a tag container holds it: the MIME type it declares and its
/// bytes, not decoded.
pub struct EmbeddedPicture {
    pub mime_type: String,
    pub data: Vec<u8>,
}

/// The content of a Vorbis comment block, and the front cover of the file
/// where it has one.
pub struct VorbisComments {
    pub comments: Vec<(String, String)>,
    pub front_cover: Option<EmbeddedPicture>,
}

/// The fields of an ID3 tag that matter here, and its first picture.
pub struct Id3Tags {
    pub album_artist: Option<String>,
    pub album: Option<String>,
    pub artists: Option<Vec<String>>,
    pub title: Option<String>,
    pub year: Option<i32>,
    pub first_picture: Option<EmbeddedPicture>,
}

/// The tags of a file, by the family of their container; `Unreadable` where
/// the container could not be read at all.
pub enum TagContainer {
    Vorbis(VorbisComments),
    Id3(Id3Tags),
    Unreadable,
}

/// The two families of tag container.
#[derive(Clone, Copy, PartialEq, Eq, Structural, Debug)]
pub enum TagFamily {
    Vorbis,
    Id3,
}

/// Why a file yields no metadata.
#[derive(Clone, Copy, PartialEq, Eq, Structural, Debug)]
pub enum ExtractError {
    /// The file's extension names no supported format.
    UnsupportedFormat,
    /// The tag container could not be read.
    UnreadableTags,
    /// The tags handed over are of another family than the extension calls for.
    WrongContainer,
    /// The file names no artist.
    MissingArtist,
    /// The file has no title.
    MissingTitle,
}

impl ExtractError {
    /// The failure in words.
    pub open spec fn text(self) -> Seq<char> {
        match self {
            ExtractError::UnsupportedFormat => "The file is not in a supported format."@,
            ExtractError::UnreadableTags => "The tags could not be read from the file."@,
            ExtractError::WrongContainer => "The tags are not of the kind that the file's format holds."@,
            ExtractError::MissingArtist => "No artist tag(s) were found in the file."@,
            ExtractError::MissingTitle => "No title tag(s) were found in the file."@,
        }
    }

    /// The failure in words, for the log.
    pub fn message(&self) -> (r: &'static str)
        ensures
            r@ == self.text(),
    {
        match self {
            ExtractError::UnsupportedFormat => "The file is not in a supported format.",
            ExtractError::UnreadableTags => "The tags could not be read from the file.",
            ExtractError::WrongContainer => "The tags are not of the kind that the file's format holds.",
            ExtractError::MissingArtist => "No artist tag(s) were found in the file.",
            ExtractError::MissingTitle => "No title tag(s) were found in the file.",
        }
    }
}

/// Art as a key and bytes.
pub struct AlbumArtView {
    pub filename: Seq<char>,
    pub data: Seq<u8>,
}

/// Metadata as texts.
pub struct MetadataView {
    pub album_artist: Option<Seq<char>>,
    pub album: Option<Seq<char>>,
    pub artist: Seq<char>,
    pub title: Seq<char>,
    pub album_art: Option<AlbumArtView>,
}

/// A picture as a MIME type and bytes.
pub struct PictureView {
    pub mime_type: Seq<char>,
    pub data: Seq<u8>,
}

/// Vorbis comments as pairs of texts, with the front cover.
pub struct VorbisView {
    pub comments: Seq<(Seq<char>, Seq<char>)>,
    pub front_cover: Option<PictureView>,
}

/// The fields of an ID3 tag as texts, with the year as a number.
pub struct Id3View {
    pub album_artist: Option<Seq<char>>,
    pub album: Option<Seq<char>>,
    pub artists: Option<Seq<Seq<char>>>,
    pub title: Option<Seq<char>>,
    pub year: Option<int>,
    pub first_picture: Option<PictureView>,
}

/// The tags of a file as texts.
pub enum ContainerView {
    Vorbis(VorbisView),
    Id3(Id3View),
    Unreadable,
}

impl View for AlbumArt {
    type V = AlbumArtView;

    open spec fn view(&self) -> AlbumArtView {
        AlbumArtView { filename: self.filename@, data: self.data@ }
    }
}

/// The view of optional art.
pub open spec fn art_view(art: Option<AlbumArt>) -> Option<AlbumArtView> {
    match art {
        Some(a) => Some(a@),
        None => None,
    }
}

impl View for MetadataPackage {
    type V = MetadataView;

    open spec fn view(&self) -> MetadataView {
        MetadataView {
            album_artist: text_of(self.album_artist),
            album: text_of(self.album),
            artist: self.artist@,
            title: self.title@,
            album_art: art_view(self.album_art),
        }
    }
}

impl View for EmbeddedPicture {
    type V = PictureView;

    open spec fn view(&self) -> PictureView {
        PictureView { mime_type: self.mime_type@, data: self.data@ }
    }
}

/// The view of an optional picture.
pub open spec fn picture_view(picture: Option<EmbeddedPicture>) -> Option<PictureView> {
    match picture {
        Some(p) => Some(p@),
        None => None,
    }
}

impl View for VorbisComments {
    type V = VorbisView;

    open spec fn view(&self) -> VorbisView {
        VorbisView {
            comments: pair_texts(self.comments@),
            front_cover: picture_view(self.front_cover),
        }
    }
}

impl View for Id3Tags {
    type V = Id3View;

    open spec fn view(&self) -> Id3View {
        Id3View {
            album_artist: text_of(self.album_artist),
            album: text_of(self.album),
            artists: match self.artists {
                Some(v) => Some(texts(v@)),
                None => None,
            },
            title: text_of(self.title),
            year: match self.year {
                Some(y) => Some(y as int),
                None => None,
            },
            first_picture: picture_view(self.first_picture),
        }
    }
}

impl View for TagContainer {
    type V = ContainerView;

    open spec fn view(&self) -> ContainerView {
        match self {
            TagContainer::Vorbis(c) => ContainerView::Vorbis(c@),
            TagContainer::Id3(t) => ContainerView::Id3(t@),
            TagContainer::Unreadable => ContainerView::Unreadable,
        }
    }
}

/// The view of an extraction's outcome.
pub open spec fn outcome_view(r: Result<MetadataPackage, ExtractError>) -> Result<
    MetadataView,
    ExtractError,
> {
    match r {
        Ok(p) => Ok(p@),
        Err(e) => Err(e),
    }
}

/// The view of optional metadata.
pub open spec fn package_view(r: Option<MetadataPackage>) -> Option<MetadataView> {
    match r {
        Some(p) => Some(p@),
        None => None,
    }
}

impl Default for MetadataPackage {
    /// Metadata with nothing in it.
    fn default() -> (r: MetadataPackage)
        ensures
            r@ == (MetadataView {
                album_artist: None,
                album: None,
                artist: Seq::empty(),
                title: Seq::empty(),
                album_art: None,
            }),
    {
        MetadataPackage {
            album_artist: None,
            album: None,
            artist: String::new(),
            title: String::new(),
            album_art: None,
        }
    }
}

/// The family of tag container that a file of this name holds: Vorbis
/// comments for `flac`, ID3 for `mp3` and `wav`, none for any other name.
pub open spec fn family_of(path: Seq<char>) -> Option<TagFamily> {
    match extension(path) {
        Some(e) => if e == "flac"@ {
            Some(TagFamily::Vorbis)
        } else if e == "mp3"@ || e == "wav"@ {
            Some(TagFamily::Id3)
        } else {
            None
        },
        None => None,
    }
}

/// The values of all comments named `name`, in the order of the comments.
pub open spec fn values_named(comments: Seq<(Seq<char>, Seq<char>)>, name: Seq<char>) -> Seq<
    Seq<char>,
>
    decreases comments.len(),
{
    if comments.len() == 0 {
        Seq::empty()
    } else if comments.last().0 == name {
        values_named(comments.drop_last(), name).push(comments.last().1)
    } else {
        values_named(comments.drop_last(), name)
    }
}

/// The value of the last comment named `name`.
pub open spec fn last_named(comments: Seq<(Seq<char>, Seq<char>)>, name: Seq<char>) -> Option<
    Seq<char>,
>
    decreases comments.len(),
{
    if comments.len() == 0 {
        None
    } else if comments.last().0 == name {
        Some(comments.last().1)
    } else {
        last_named(comments.drop_last(), name)
    }
}

/// The values of a repeated tag as one text; `None` where there is no value.
pub open spec fn joined_or_none(values: Seq<Seq<char>>) -> Option<Seq<char>> {
    if values.len() == 0 {
        None
    } else {
        Some(joined(values, list_separator()))
    }
}

/// The suffix of a key for art of this MIME type: JPEG and PNG are supported.
pub open spec fn suffix_for_mime(mime_type: Seq<char>) -> Option<Seq<char>> {
    if mime_type == "image/jpeg"@ {
        Some(".jpg"@)
    } else if mime_type == "image/png"@ {
        Some(".png"@)
    } else {
        None
    }
}

/// The art of a track: the picture's bytes under their key, where there is a
/// picture of a supported type; otherwise none.
pub open spec fn art_for(
    picture: Option<PictureView>,
    album_artist: Option<Seq<char>>,
    album: Option<Seq<char>>,
    year: Option<Seq<char>>,
) -> Option<AlbumArtView> {
    match picture {
        Some(p) => match suffix_for_mime(p.mime_type) {
            Some(suffix) => Some(
                AlbumArtView {
                    filename: fingerprint_key(album_artist, album, year, suffix, p.data),
                    data: p.data,
                },
            ),
            None => None,
        },
        None => None,
    }
}

/// What a block of Vorbis comments yields. The names `album`, `albumartist`,
/// `artist`, `title` and `year` are read, as written here. Artist and title
/// are required, in that order. The key of the art is taken over the album as
/// tagged; the album that is shown has gone through the compilation policy.
pub open spec fn vorbis_outcome(source: VorbisView, policy_enabled: bool) -> Result<
    MetadataView,
    ExtractError,
> {
    let album = last_named(source.comments, "album"@);
    let album_artist = joined_or_none(values_named(source.comments, "albumartist"@));
    let artists = values_named(source.comments, "artist"@);
    let title = last_named(source.comments, "title"@);
    let year = last_named(source.comments, "year"@);
    if artists.len() == 0 {
        Err(ExtractError::MissingArtist)
    } else {
        match title {
            None => Err(ExtractError::MissingTitle),
            Some(t) => Ok(
                MetadataView {
                    album_artist: album_artist,
                    album: normalized(album_artist, album, policy_enabled),
                    artist: joined(artists, list_separator()),
                    title: t,
                    album_art: art_for(source.front_cover, album_artist, album, year),
                },
            ),
        }
    }
}

/// The album of an ID3 tag: an empty album counts as none.
pub open spec fn id3_album(album: Option<Seq<char>>) -> Option<Seq<char>> {
    match album {
        Some(a) => if a.len() == 0 {
            None
        } else {
            Some(a)
        },
        None => None,
    }
}

/// The year of an ID3 tag as text.
pub open spec fn id3_year(year: Option<int>) -> Option<Seq<char>> {
    match year {
        Some(y) => Some(signed_decimal(y)),
        None => None,
    }
}

/// What an ID3 tag yields. Artists and title are required, in that order.
pub open spec fn id3_outcome(source: Id3View, policy_enabled: bool) -> Result<
    MetadataView,
    ExtractError,
> {
    let album = id3_album(source.album);
    match source.artists {
        None => Err(ExtractError::MissingArtist),
        Some(artists) => match source.title {
            None => Err(ExtractError::MissingTitle),
            Some(t) => Ok(
                MetadataView {
                    album_artist: source.album_artist,
                    album: normalized(source.album_artist, album, policy_enabled),
                    artist: joined(artists, list_separator()),
                    title: t,
                    album_art: art_for(
                        source.first_picture,
                        source.album_artist,
                        album,
                        id3_year(source.year),
                    ),
                },
            ),
        },
    }
}

/// What a file yields, from its name and its tags: the name decides the
/// family, and the tags must be of that family.
pub open spec fn extraction(path: Seq<char>, container: ContainerView, policy_enabled: bool) -> Result<
    MetadataView,
    ExtractError,
> {
    match family_of(path) {
        None => Err(ExtractError::UnsupportedFormat),
        Some(family) => match container {
            ContainerView::Unreadable => Err(ExtractError::UnreadableTags),
            ContainerView::Vorbis(c) => if family == TagFamily::Vorbis {
                vorbis_outcome(c, policy_enabled)
            } else {
                Err(ExtractError::WrongContainer)
            },
            ContainerView::Id3(t) => if family == TagFamily::Id3 {
                id3_outcome(t, policy_enabled)
            } else {
                Err(ExtractError::WrongContainer)
            },
        },
    }
}

fn copy_text(s: &Option<String>) -> (r: Option<String>)
    ensures
        text_of(r) == text_of(*s),
{
    match s {
        Some(t) => Some(t.clone()),
        None => None,
    }
}

/// The family of tag container to read from a file of this name.
pub fn tag_family(path: &String) -> (r: Option<TagFamily>)
    ensures
        r == family_of(path@),
{
    match extension_of(path.as_str()) {
        Some(e) => {
            if text_is(&e, "flac") {
                Some(TagFamily::Vorbis)
            } else if text_is(&e, "mp3") || text_is(&e, "wav") {
                Some(TagFamily::Id3)
            } else {
                None
            }
        },
        None => None,
    }
}

fn mime_suffix(mime_type: &String) -> (r: Option<&'static str>)
    ensures
        match r {
            Some(s) => suffix_for_mime(mime_type@) == Some(s@),
            None => suffix_for_mime(mime_type@) is None,
        },
{
    if text_is(mime_type, "image/jpeg") {
        Some(".jpg")
    } else if text_is(mime_type, "image/png") {
        Some(".png")
    } else {
        None
    }
}

/// The art of a track from the picture its tags hold, keyed by the album's
/// identity and the picture's bytes. A picture of a type other than JPEG or
/// PNG counts as no art.
pub fn embedded_art(
    picture: &Option<EmbeddedPicture>,
    album_artist: &Option<String>,
    album: &Option<String>,
    year: Option<String>,
) -> (r: Option<AlbumArt>)
    ensures
        art_view(r) == art_for(
            picture_view(*picture),
            text_of(*album_artist),
            text_of(*album),
            text_of(year),
        ),
{
    match picture {
        Some(p) => match mime_suffix(&p.mime_type) {
            Some(suffix) => {
                let filename = hash_filename(album_artist, album, year, suffix, &p.data);
                Some(AlbumArt { filename, data: slice_to_vec(p.data.as_slice()) })
            },
            None => None,
        },
        None => None,
    }
}

/// Works out the metadata of a track from its Vorbis comments.
pub fn read_vorbis(source: &VorbisComments, va_album_individual: bool) -> (r: Result<
    MetadataPackage,
    ExtractError,
>)
    ensures
        outcome_view(r) == vorbis_outcome(source@, va_album_individual),
{
    let ghost all = pair_texts(source.comments@);
    let mut album: Option<String> = None;
    let mut album_artists: Vec<String> = Vec::new();
    let mut artists: Vec<String> = Vec::new();
    let mut title: Option<String> = None;
    let mut year: Option<String> = None;
    let mut i: usize = 0;
    while i < source.comments.len()
        invariant
            i <= source.comments.len(),
            all == pair_texts(source.comments@),
            text_of(album) == last_named(all.take(i as int), "album"@),
            texts(album_artists@) == values_named(all.take(i as int), "albumartist"@),
            texts(artists@) == values_named(all.take(i as int), "artist"@),
            text_of(title) == last_named(all.take(i as int), "title"@),
            text_of(year) == last_named(all.take(i as int), "year"@),
        decreases source.comments.len() - i,
    {
        let name = &source.comments[i].0;
        let value = &source.comments[i].1;
        proof {
            let next = all.take(i + 1);
            assert(next.drop_last() =~= all.take(i as int));
            assert(next.last() == (name@, value@));
        }
        if text_is(name, "album") {
            album = Some(value.clone());
        }
        if text_is(name, "albumartist") {
            let ghost before = album_artists@;
            album_artists.push(value.clone());
            assert(texts(album_artists@) =~= texts(before).push(value@));
        }
        if text_is(name, "artist") {
            let ghost before = artists@;
            artists.push(value.clone());
            assert(texts(artists@) =~= texts(before).push(value@));
        }
        if text_is(name, "title") {
            title = Some(value.clone());
        }
        if text_is(name, "year") {
            year = Some(value.clone());
        }
        i += 1;
    }
    assert(all.take(i as int) =~= all);
    let album_artist = if album_artists.len() > 0 {
        Some(join_values(&album_artists))
    } else {
        None
    };
    if artists.len() == 0 {
        return Err(ExtractError::MissingArtist);
    }
    let title = match title {
        Some(t) => t,
        None => {
            return Err(ExtractError::MissingTitle);
        },
    };
    let album_art = embedded_art(&source.front_cover, &album_artist, &album, year);
    let shown_album = normalize(&album_artist, album, va_album_individual);
    Ok(
        MetadataPackage {
            album_artist,
            album: shown_album,
            artist: join_values(&artists),
            title,
            album_art,
        },
    )
}

/// Works out the metadata of a track from its ID3 tag.
pub fn read_id3(source: &Id3Tags, va_album_individual: bool) -> (r: Result<
    MetadataPackage,
    ExtractError,
>)
    ensures
        outcome_view(r) == id3_outcome(source@, va_album_individual),
{
    let album_artist = copy_text(&source.album_artist);
    let album = match &source.album {
        Some(a) => if a.as_str().unicode_len() == 0 {
            None
        } else {
            Some(a.clone())
        },
        None => None,
    };
    let artist = match &source.artists {
        Some(artists) => join_values(artists),
        None => {
            return Err(ExtractError::MissingArtist);
        },
    };
    let title = match &source.title {
        Some(t) => t.clone(),
        None => {
            return Err(ExtractError::MissingTitle);
        },
    };
    let year = match source.year {
        Some(y) => Some(signed_decimal_text(y)),
        None => None,
    };
    let album_art = embedded_art(&source.first_picture, &album_artist, &album, year);
    let shown_album = normalize(&album_artist, album, va_album_individual);
    Ok(MetadataPackage { album_artist, album: shown_album, artist, title, album_art })
}

/// Works out the metadata of a track from its file name and its tags, and
/// says why where there is none.
pub fn extract(active_file_path: &String, container: &TagContainer, va_album_individual: bool) -> (r:
    Result<MetadataPackage, ExtractError>)
    ensures
        outcome_view(r) == extraction(active_file_path@, container@, va_album_individual),
{
    match tag_family(active_file_path) {
        None => Err(ExtractError::UnsupportedFormat),
        Some(family) => match container {
            TagContainer::Unreadable => Err(ExtractError::UnreadableTags),
            TagContainer::Vorbis(c) => match family {
                TagFamily::Vorbis => read_vorbis(c, va_album_individual),
                TagFamily::Id3 => Err(ExtractError::WrongContainer),
            },
            TagContainer::Id3(t) => match family {
                TagFamily::Id3 => read_id3(t, va_album_individual),
                TagFamily::Vorbis => Err(ExtractError::WrongContainer),
            },
        },
    }
}

/// The metadata of a track, or nothing where `extract` fails.
pub fn read_metadata(
    active_file_path: &String,
    container: &TagContainer,
    va_album_individual: &bool,
) -> (r: Option<MetadataPackage>)
    ensures
        match extraction(active_file_path@, container@, *va_album_individual) {
            Ok(m) => package_view(r) == Some(m),
            Err(_) => r is None,
        },
{
    match extract(active_file_path, container, *va_album_individual) {
        Ok(p) => Some(p),
        Err(_) => None,
    }
}

/// Two extractions from the same file name and the same tags, under the same
/// policy, come to the same outcome.
pub proof fn lemma_extraction_repeats(
    path_a: String,
    tags_a: TagContainer,
    path_b: String,
    tags_b: TagContainer,
    policy_enabled: bool,
)
    requires
        path_a@ == path_b@,
        tags_a@ == tags_b@,
    ensures
        extraction(path_a@, tags_a@, policy_enabled) == extraction(
            path_b@,
            tags_b@,
            policy_enabled,
        ),
{
}

/// Vorbis comments without an album artist yield metadata without one, and
/// the album as tagged, whatever the policy.
pub proof fn lemma_no_album_artist_keeps_album(source: VorbisView, policy_enabled: bool)
    requires
        values_named(source.comments, "albumartist"@).len() == 0,
    ensures
        vorbis_outcome(source, policy_enabled) matches Ok(m) ==> m.album_artist is None && m.album
            == last_named(source.comments, "album"@),
{
}

/// The album that is shown is the album as tagged or none at all, and the
/// key of the art does not depend on the policy.
pub proof fn lemma_policy_touches_the_album_only(source: VorbisView)
    ensures
        match (vorbis_outcome(source, true), vorbis_outcome(source, false)) {
            (Ok(on), Ok(off)) => {
                &&& on.album_artist == off.album_artist
                &&& on.artist == off.artist
                &&& on.title == off.title
                &&& on.album_art == off.album_art
                &&& on.album == off.album || on.album is None
            },
            (Err(a), Err(b)) => a == b,
            _ => false,
        },
{
}

} // verus!
