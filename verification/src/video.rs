//! Resolving an embedded frame to the identifier of its video.

use crate::reason::SkipReason;
use crate::record::VideoRecord;
use crate::text::{is_prefix, starts_with};
use crate::weburl::{path_segments, url_parses, url_path_segments};
use vstd::prelude::*;

verus! {

/// `src` begins with one of the known embed prefixes.
pub open spec fn has_embed_prefix(src: Seq<char>) -> bool {
    is_prefix("https://www.youtube.com/embed/"@, src) || is_prefix(
        "https://www.youtube-nocookie.com/embed/"@,
        src,
    )
}

/// The identifier among the path segments of an embed URL. The first
/// segment marks the embed and is passed over; the second is the identifier,
/// taken as it stands. Without any segment the path is malformed; with one
/// only, the identifier is missing.
pub open spec fn id_among(segments: Option<Seq<Seq<char>>>) -> Result<Seq<char>, SkipReason> {
    match segments {
        None => Err(SkipReason::MalformedPath),
        Some(parts) => if parts.len() == 0 {
            Err(SkipReason::MalformedPath)
        } else if parts.len() == 1 {
            Err(SkipReason::MissingVideoId)
        } else {
            Ok(parts[1])
        },
    }
}

/// What a frame with the attribute `src` gives: the source and the identifier
/// of the video.
pub open spec fn video_outcome(src: Option<Seq<char>>) -> Result<
    (Seq<char>, Seq<char>),
    SkipReason,
> {
    match src {
        None => Err(SkipReason::MissingAttribute),
        Some(source) => if !has_embed_prefix(source) {
            Err(SkipReason::UnrecognizedEmbedHost)
        } else if !url_parses(source) {
            Err(SkipReason::MalformedPath)
        } else {
            match id_among(url_path_segments(source)) {
                Ok(id) => Ok((source, id)),
                Err(reason) => Err(reason),
            }
        },
    }
}

/// A source without a known embed prefix is rejected as
/// `UnrecognizedEmbedHost`, whatever else it holds.
pub proof fn lemma_unknown_host_rejected(source: Seq<char>)
    requires
        !has_embed_prefix(source),
    ensures
        video_outcome(Some(source)) == Err::<(Seq<char>, Seq<char>), SkipReason>(
            SkipReason::UnrecognizedEmbedHost,
        ),
{
}

/// Whether `src` begins with one of the known embed prefixes.
pub fn is_embed(src: &str) -> (known: bool)
    ensures
        known == has_embed_prefix(src@),
{
    starts_with(src, "https://www.youtube.com/embed/") || starts_with(
        src,
        "https://www.youtube-nocookie.com/embed/",
    )
}

/// The identifier among the path segments of an embed URL: the second
/// segment. Fails with `MalformedPath` where there is no segment and with
/// `MissingVideoId` where there is one only.
pub fn video_id(segments: Option<Vec<String>>) -> (found: Result<String, SkipReason>)
    ensures
        match found {
            Ok(id) => id_among(segments.deep_view()) == Ok::<Seq<char>, SkipReason>(id@),
            Err(reason) => id_among(segments.deep_view()) == Err::<Seq<char>, SkipReason>(
                reason,
            ),
        },
{
    match segments {
        None => Err(SkipReason::MalformedPath),
        Some(parts) => {
            if parts.len() == 0 {
                Err(SkipReason::MalformedPath)
            } else if parts.len() == 1 {
                Err(SkipReason::MissingVideoId)
            } else {
                Ok(parts[1].clone())
            }
        },
    }
}

/// The identifier in what parsing an embed URL came to. A source that did
/// not parse has no path segments, and so a malformed path.
pub fn video_id_from(parsed: Result<Option<Vec<String>>, url::ParseError>) -> (found: Result<
    String,
    SkipReason,
>)
    ensures
        match parsed {
            Ok(segments) => match found {
                Ok(id) => id_among(segments.deep_view()) == Ok::<Seq<char>, SkipReason>(id@),
                Err(reason) => id_among(segments.deep_view()) == Err::<Seq<char>, SkipReason>(
                    reason,
                ),
            },
            Err(_) => found == Err::<String, SkipReason>(SkipReason::MalformedPath),
        },
{
    match parsed {
        Ok(segments) => video_id(segments),
        Err(_) => Err(SkipReason::MalformedPath),
    }
}

/// The record of one embedded frame, from its `src` attribute. Fails with
/// `MissingAttribute` where the frame has no `src`, with
/// `UnrecognizedEmbedHost` unless the source begins with a known embed
/// prefix, with `MalformedPath` where the source has no path segments, and
/// with `MissingVideoId` where it has one only. The record keeps the source
/// as it stands, query parameters included.
pub fn resolve_video(src: Option<String>) -> (found: Result<VideoRecord, SkipReason>)
    ensures
        match found {
            Ok(record) => video_outcome(src.deep_view()) == Ok::<
                (Seq<char>, Seq<char>),
                SkipReason,
            >(record@),
            Err(reason) => video_outcome(src.deep_view()) == Err::<
                (Seq<char>, Seq<char>),
                SkipReason,
            >(reason),
        },
{
    let source = match src {
        None => {
            return Err(SkipReason::MissingAttribute);
        },
        Some(source) => source,
    };
    if !is_embed(source.as_str()) {
        return Err(SkipReason::UnrecognizedEmbedHost);
    }
    match video_id_from(path_segments(source.as_str())) {
        Ok(id) => Ok(VideoRecord { src: source, id }),
        Err(reason) => Err(reason),
    }
}

} // verus!
