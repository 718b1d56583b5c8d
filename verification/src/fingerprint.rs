//! The identity of a piece of embedded cover art: a key made of a checksum of
//! the album's identity and a checksum of the image bytes, so that the same
//! art on every track of an album is one cache entry and different art under
//! the same album is another.

use crate::numeral::{
    decimal, is_digit, lemma_decimal_digits, lemma_decimal_injective, lemma_decimal_nonempty,
    push_decimal,
};
use crate::text::text_of;
use vstd::prelude::*;
use vstd::utf8::encode_utf8;

verus! {

/// The CRC-32/CKSUM checksum of `data`: polynomial `0x04c11db7`, initial value
/// zero, no reflection, final xor `0xffffffff`.
pub uninterp spec fn crc32_cksum(data: Seq<u8>) -> u32;

/// Calls `crc::Crc::<u32>::checksum` of the `crc` crate with the algorithm
/// `CRC_32_CKSUM`. The checksum depends on the bytes alone; the contract
/// gives it the name `crc32_cksum` and claims nothing else of it.
#[verifier::external_body]
fn checksum(data: &[u8]) -> (r: u32)
    ensures
        r == crc32_cksum(data@),
{
    crc::Crc::<u32>::new(&crc::CRC_32_CKSUM).checksum(data)
}

/// What stands in the identity for a field that the file does not carry.
pub open spec fn absent_mark() -> Seq<char> {
    "0"@
}

/// A field of the identity: its text, or the mark of an absent field.
pub open spec fn field_or_mark(field: Option<Seq<char>>) -> Seq<char> {
    match field {
        Some(t) => t,
        None => absent_mark(),
    }
}

/// The identity of an album: album artist, album and year, each replaced by
/// the mark where absent, in that order and with nothing between them.
pub open spec fn identity_text(
    album_artist: Option<Seq<char>>,
    album: Option<Seq<char>>,
    year: Option<Seq<char>>,
) -> Seq<char> {
    field_or_mark(album_artist) + field_or_mark(album) + field_or_mark(year)
}

/// The key for two checksums and a suffix: both checksums in decimal, a
/// hyphen between them, then the suffix.
pub open spec fn key_text(metadata_hash: u32, image_hash: u32, suffix: Seq<char>) -> Seq<char> {
    decimal(metadata_hash as nat) + seq!['-'] + decimal(image_hash as nat) + suffix
}

/// The key of a piece of art: the checksum of the UTF-8 bytes of the album's
/// identity, the checksum of the image bytes, and the suffix of the image's
/// format.
pub open spec fn fingerprint_key(
    album_artist: Option<Seq<char>>,
    album: Option<Seq<char>>,
    year: Option<Seq<char>>,
    suffix: Seq<char>,
    image: Seq<u8>,
) -> Seq<char> {
    key_text(
        crc32_cksum(encode_utf8(identity_text(album_artist, album, year))),
        crc32_cksum(image),
        suffix,
    )
}

/// Whether a suffix can follow a numeral without being read as part of it:
/// it is empty, or it starts with something other than a digit.
pub open spec fn separable(suffix: Seq<char>) -> bool {
    suffix.len() == 0 || !is_digit(suffix[0])
}

proof fn lemma_numeral_then_suffix(a: nat, s: Seq<char>, b: nat, t: Seq<char>)
    requires
        decimal(a) + s == decimal(b) + t,
        separable(s),
        separable(t),
    ensures
        a == b,
        s == t,
{
    let left = decimal(a) + s;
    let right = decimal(b) + t;
    let la = decimal(a).len() as int;
    let lb = decimal(b).len() as int;
    lemma_decimal_nonempty(a);
    lemma_decimal_nonempty(b);
    lemma_decimal_digits(a);
    lemma_decimal_digits(b);
    if la < lb {
        assert(left.len() == right.len());
        assert(s.len() > 0);
        assert(left[la] == s[0]);
        assert(right[la] == decimal(b)[la]);
        assert(false);
    }
    if lb < la {
        assert(left.len() == right.len());
        assert(t.len() > 0);
        assert(right[lb] == t[0]);
        assert(left[lb] == decimal(a)[lb]);
        assert(false);
    }
    assert(decimal(a) =~= left.take(la));
    assert(decimal(b) =~= right.take(lb));
    lemma_decimal_injective(a, b);
    assert(s =~= left.skip(la));
    assert(t =~= right.skip(lb));
}

/// Two keys are the same text only where both checksums and the suffix are
/// the same: a key can be read back into the three parts it was made of.
pub proof fn lemma_key_text_injective(
    metadata_a: u32,
    image_a: u32,
    suffix_a: Seq<char>,
    metadata_b: u32,
    image_b: u32,
    suffix_b: Seq<char>,
)
    requires
        separable(suffix_a),
        separable(suffix_b),
        key_text(metadata_a, image_a, suffix_a) == key_text(metadata_b, image_b, suffix_b),
    ensures
        metadata_a == metadata_b,
        image_a == image_b,
        suffix_a == suffix_b,
{
    let rest_a = seq!['-'] + decimal(image_a as nat) + suffix_a;
    let rest_b = seq!['-'] + decimal(image_b as nat) + suffix_b;
    assert(key_text(metadata_a, image_a, suffix_a) =~= decimal(metadata_a as nat) + rest_a);
    assert(key_text(metadata_b, image_b, suffix_b) =~= decimal(metadata_b as nat) + rest_b);
    assert(rest_a[0] == '-');
    assert(rest_b[0] == '-');
    assert(!is_digit('-'));
    lemma_numeral_then_suffix(metadata_a as nat, rest_a, metadata_b as nat, rest_b);
    assert(decimal(image_a as nat) + suffix_a =~= rest_a.skip(1));
    assert(decimal(image_b as nat) + suffix_b =~= rest_b.skip(1));
    lemma_numeral_then_suffix(image_a as nat, suffix_a, image_b as nat, suffix_b);
}

/// The same album identity and the same image bytes give the same key,
/// whenever and wherever it is computed; and where two keys agree, the
/// checksums of identity and image agree too.
pub proof fn lemma_fingerprint_identifies(
    album_artist_a: Option<Seq<char>>,
    album_a: Option<Seq<char>>,
    year_a: Option<Seq<char>>,
    image_a: Seq<u8>,
    album_artist_b: Option<Seq<char>>,
    album_b: Option<Seq<char>>,
    year_b: Option<Seq<char>>,
    image_b: Seq<u8>,
    suffix: Seq<char>,
)
    requires
        separable(suffix),
    ensures
        album_artist_a == album_artist_b && album_a == album_b && year_a == year_b && image_a
            == image_b ==> fingerprint_key(album_artist_a, album_a, year_a, suffix, image_a)
            == fingerprint_key(album_artist_b, album_b, year_b, suffix, image_b),
        fingerprint_key(album_artist_a, album_a, year_a, suffix, image_a) == fingerprint_key(
            album_artist_b,
            album_b,
            year_b,
            suffix,
            image_b,
        ) <==> crc32_cksum(encode_utf8(identity_text(album_artist_a, album_a, year_a)))
            == crc32_cksum(encode_utf8(identity_text(album_artist_b, album_b, year_b)))
            && crc32_cksum(image_a) == crc32_cksum(image_b),
{
    let ma = crc32_cksum(encode_utf8(identity_text(album_artist_a, album_a, year_a)));
    let mb = crc32_cksum(encode_utf8(identity_text(album_artist_b, album_b, year_b)));
    let ia = crc32_cksum(image_a);
    let ib = crc32_cksum(image_b);
    if key_text(ma, ia, suffix) == key_text(mb, ib, suffix) {
        lemma_key_text_injective(ma, ia, suffix, mb, ib, suffix);
    }
}

fn push_field(out: &mut String, field: &Option<String>)
    ensures
        final(out)@ == old(out)@ + field_or_mark(text_of(*field)),
{
    match field {
        Some(t) => out.append(t.as_str()),
        None => out.append("0"),
    }
}

/// Builds the identity of an album from its three fields.
pub fn composite_identity(
    album_artist: &Option<String>,
    album: &Option<String>,
    year: &Option<String>,
) -> (r: String)
    ensures
        r@ == identity_text(text_of(*album_artist), text_of(*album), text_of(*year)),
{
    let mut out = String::new();
    push_field(&mut out, album_artist);
    push_field(&mut out, album);
    push_field(&mut out, year);
    assert(out@ =~= identity_text(text_of(*album_artist), text_of(*album), text_of(*year)));
    out
}

/// Writes a key from its two checksums and its suffix.
pub fn format_key(metadata_hash: u32, image_hash: u32, suffix: &str) -> (r: String)
    ensures
        r@ == key_text(metadata_hash, image_hash, suffix@),
{
    let mut out = String::new();
    push_decimal(&mut out, metadata_hash);
    proof {
        reveal_strlit("-");
    }
    out.append("-");
    push_decimal(&mut out, image_hash);
    out.append(suffix);
    assert(out@ =~= key_text(metadata_hash, image_hash, suffix@));
    out
}

/// The key under which a piece of embedded art is cached: a pure function of
/// album artist, album, year, the image's suffix and the image bytes.
pub fn hash_filename(
    album_artist: &Option<String>,
    album: &Option<String>,
    year: Option<String>,
    mime_type: &str,
    image_data: &Vec<u8>,
) -> (r: String)
    ensures
        r@ == fingerprint_key(
            text_of(*album_artist),
            text_of(*album),
            text_of(year),
            mime_type@,
            image_data@,
        ),
{
    let identity = composite_identity(album_artist, album, &year);
    let metadata_hash = checksum(identity.as_str().as_bytes());
    let image_hash = checksum(image_data.as_slice());
    format_key(metadata_hash, image_hash, mime_type)
}

} // verus!
