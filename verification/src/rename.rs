//! Content-addressed names for stored images.
//!
//! The stored name of an image is derived from its source string alone: the
//! hexadecimal BLAKE3 digest of the string's UTF-8 bytes, a `.`, and the
//! string's own extension. The bytes of the image play no part.

use crate::digest::{
    blake3_digest, blake3_hash, hex_digits, hex_encode, hex_lower, lemma_hex_lower_digits,
};
use crate::reason::SkipReason;
use crate::text::{
    after_last, ends_with, is_suffix, last_position, lemma_last_position, lemma_last_position_is,
};
use vstd::prelude::*;
use vstd::utf8::encode_utf8;

verus! {

/// `source` ends in `.jpg`, `.png` or `.webp`, letter for letter.
pub open spec fn has_allowed_extension(source: Seq<char>) -> bool {
    is_suffix(".jpg"@, source) || is_suffix(".png"@, source) || is_suffix(".webp"@, source)
}

/// The text after the last `.` of `source`; all of `source` where it has no
/// `.`.
pub open spec fn extension_of(source: Seq<char>) -> Seq<char> {
    source.skip(last_position(source, '.') + 1)
}

/// The text before the last `.` of `source`; empty where it has no `.`.
pub open spec fn stem_of(source: Seq<char>) -> Seq<char> {
    if last_position(source, '.') < 0 {
        Seq::empty()
    } else {
        source.take(last_position(source, '.'))
    }
}

/// The hexadecimal digest of the UTF-8 bytes of `source`.
pub open spec fn hex_digest(source: Seq<char>) -> Seq<char> {
    hex_lower(blake3_digest(encode_utf8(source)))
}

/// The name under which the image found at `source` is stored.
pub open spec fn stored_name(source: Seq<char>) -> Seq<char> {
    hex_digest(source) + seq!['.'] + extension_of(source)
}

/// What renaming `source` gives: its stored name where the extension is
/// allowed, and `UnsupportedExtension` where it is not.
pub open spec fn rename_outcome(source: Seq<char>) -> Result<Seq<char>, SkipReason> {
    if has_allowed_extension(source) {
        Ok(stored_name(source))
    } else {
        Err(SkipReason::UnsupportedExtension)
    }
}

/// A source with an allowed extension holds a `.`, and its extension is
/// `jpg`, `png` or `webp`.
pub proof fn lemma_allowed_extension(source: Seq<char>)
    requires
        has_allowed_extension(source),
    ensures
        last_position(source, '.') >= 0,
        extension_of(source) == "jpg"@ || extension_of(source) == "png"@ || extension_of(source)
            == "webp"@,
{
    reveal_strlit(".jpg");
    reveal_strlit(".png");
    reveal_strlit(".webp");
    reveal_strlit("jpg");
    reveal_strlit("png");
    reveal_strlit("webp");
    let suffix = if is_suffix(".jpg"@, source) {
        ".jpg"@
    } else if is_suffix(".png"@, source) {
        ".png"@
    } else {
        ".webp"@
    };
    let at = source.len() - suffix.len();
    let tail = source.subrange(at, source.len() as int);
    assert(tail == suffix);
    assert(source[at] == tail[0]);
    assert forall|j: int| at < j < source.len() implies source[j] != '.' by {
        assert(source[j] == tail[j - at]);
    }
    lemma_last_position_is(source, '.', at);
    assert(extension_of(source) == suffix.skip(1)) by {
        assert(source.skip(at + 1) =~= tail.skip(1));
    }
    assert(".jpg"@.skip(1) =~= "jpg"@);
    assert(".png"@.skip(1) =~= "png"@);
    assert(".webp"@.skip(1) =~= "webp"@);
}

/// Renaming a source with an allowed extension depends on the source alone:
/// it gives the stored name, which keeps the extension of the source, and
/// whose stem is the hexadecimal digest of the source's bytes. The stored name
/// has an allowed extension itself.
pub proof fn lemma_stored_name_parts(source: Seq<char>)
    requires
        has_allowed_extension(source),
    ensures
        rename_outcome(source) == Ok::<Seq<char>, SkipReason>(stored_name(source)),
        extension_of(stored_name(source)) == extension_of(source),
        stem_of(stored_name(source)) == hex_digest(source),
        has_allowed_extension(stored_name(source)),
{
    let hex = hex_digest(source);
    let ext = extension_of(source);
    let name = stored_name(source);
    lemma_allowed_extension(source);
    lemma_last_position(source, '.');
    lemma_hex_lower_digits(blake3_digest(encode_utf8(source)));
    assert(name[hex.len() as int] == '.');
    assert forall|j: int| hex.len() < j < name.len() implies name[j] != '.' by {
        assert(name[j] == ext[j - hex.len() - 1]);
        assert(ext[j - hex.len() - 1] == source[last_position(source, '.') + 1 + (j - hex.len()
            - 1)]);
    }
    assert forall|j: int| 0 <= j < hex.len() implies name[j] != '.' by {
        assert(name[j] == hex[j]);
        assert(hex_digits().contains(hex[j]));
    }
    lemma_last_position_is(name, '.', hex.len() as int);
    assert(name.skip(hex.len() as int + 1) =~= ext);
    assert(name.take(hex.len() as int) =~= hex);
    reveal_strlit(".jpg");
    reveal_strlit(".png");
    reveal_strlit(".webp");
    reveal_strlit("jpg");
    reveal_strlit("png");
    reveal_strlit("webp");
    let dotted = seq!['.'] + ext;
    assert(name.subrange(name.len() - dotted.len(), name.len() as int) =~= dotted);
    assert(dotted =~= ".jpg"@ || dotted =~= ".png"@ || dotted =~= ".webp"@);
}

/// Whether `source` ends in an allowed extension.
pub fn is_allowed(source: &str) -> (allowed: bool)
    ensures
        allowed == has_allowed_extension(source@),
{
    ends_with(source, ".jpg") || ends_with(source, ".png") || ends_with(source, ".webp")
}

/// The extension of `source`: the text after its last `.`. Fails with
/// `MissingExtensionSeparator` where `source` holds no `.`.
pub fn extension(source: &str) -> (found: Result<String, SkipReason>)
    ensures
        match found {
            Ok(ext) => last_position(source@, '.') >= 0 && ext@ == extension_of(source@),
            Err(reason) => last_position(source@, '.') < 0 && reason
                == SkipReason::MissingExtensionSeparator,
        },
{
    match after_last(source, '.') {
        Some(ext) => Ok(ext),
        None => Err(SkipReason::MissingExtensionSeparator),
    }
}

/// The stored name for a digest and an extension: the hexadecimal form of
/// the digest, a `.`, and the extension.
pub fn name_from_digest(digest: &[u8], extension: &str) -> (name: String)
    ensures
        name@ == hex_lower(digest@) + seq!['.'] + extension@,
{
    let mut name = hex_encode(digest);
    name.append(".");
    name.append(extension);
    proof {
        reveal_strlit(".");
        assert("."@ =~= seq!['.']);
    }
    name
}

/// The name under which the image found at `source` is stored. Fails with
/// `UnsupportedExtension` unless `source` ends in `.jpg`, `.png` or `.webp`;
/// then the name is the 64 hexadecimal digits of the digest of `source`,
/// a `.`, and the extension of `source`.
pub fn rename(source: &str) -> (stored: Result<String, SkipReason>)
    ensures
        match stored {
            Ok(name) => rename_outcome(source@) == Ok::<Seq<char>, SkipReason>(name@),
            Err(reason) => rename_outcome(source@) == Err::<Seq<char>, SkipReason>(reason),
        },
        stored matches Ok(name) ==> name@.len() == 65 + extension_of(source@).len(),
{
    if !is_allowed(source) {
        return Err(SkipReason::UnsupportedExtension);
    }
    proof {
        lemma_allowed_extension(source@);
    }
    let ext = match extension(source) {
        Ok(ext) => ext,
        Err(reason) => {
            return Err(reason);
        },
    };
    let digest = blake3_hash(source.as_bytes());
    Ok(name_from_digest(digest.as_slice(), ext.as_str()))
}

} // verus!
