//! Resolving an image element: what to fetch for it, and what to store once
//! the fetch has answered.
//!
//! The fetch itself is not made here. `begin_image` says what to fetch, the
//! caller fetches, and `finish_image` takes the response.

use crate::link::{resolution, resolve};
use crate::reason::SkipReason;
use crate::record::ImageRecord;
use crate::rename::{has_allowed_extension, is_allowed, rename, rename_outcome};
use crate::text::{is_prefix, starts_with};
use vstd::prelude::*;

verus! {

/// The one status that counts as a successful fetch.
pub const STATUS_OK: u16 = 200;

/// An image that passed validation: its source string and the absolute URL
/// to fetch its bytes from.
#[derive(Clone, Debug, PartialEq, Eq)]
pub struct ImageRequest {
    /// The source string of the image element, as the page gave it.
    pub src: String,
    /// The absolute URL that the source stands for.
    pub url: String,
}

/// What the byte fetcher answered.
#[derive(Clone, Debug, PartialEq, Eq)]
pub struct FetchResponse {
    /// The status code of the response.
    pub status: u16,
    /// The body of the response.
    pub body: Vec<u8>,
}

/// The bytes of one image, with the record that names the file to hold them.
#[derive(Clone, Debug, PartialEq, Eq)]
pub struct StoredAsset {
    /// The record for the images manifest.
    pub record: ImageRecord,
    /// The bytes to write under `record.img`.
    pub bytes: Vec<u8>,
}

impl View for ImageRequest {
    type V = (Seq<char>, Seq<char>);

    /// The source and the URL to fetch, in that order.
    open spec fn view(&self) -> (Seq<char>, Seq<char>) {
        (self.src@, self.url@)
    }
}

impl View for FetchResponse {
    type V = (u16, Seq<u8>);

    /// The status and the body, in that order.
    open spec fn view(&self) -> (u16, Seq<u8>) {
        (self.status, self.body@)
    }
}

impl View for StoredAsset {
    type V = ((Seq<char>, Seq<char>), Seq<u8>);

    /// The view of the record, and the bytes.
    open spec fn view(&self) -> ((Seq<char>, Seq<char>), Seq<u8>) {
        (self.record@, self.bytes@)
    }
}

/// The view of a response, where there is one.
pub open spec fn response_view(response: Option<FetchResponse>) -> Option<(u16, Seq<u8>)> {
    match response {
        None => None,
        Some(answer) => Some(answer@),
    }
}

/// `src` is a data URI: it holds its bytes inline and cannot be fetched.
pub open spec fn is_data_uri(src: Seq<char>) -> bool {
    is_prefix("data:"@, src)
}

/// Whether an image source can be fetched and stored at all: not a data URI,
/// and with an allowed extension.
pub open spec fn source_check(src: Seq<char>) -> Result<(), SkipReason> {
    if is_data_uri(src) {
        Err(SkipReason::UnsupportedScheme)
    } else if !has_allowed_extension(src) {
        Err(SkipReason::UnsupportedExtension)
    } else {
        Ok(())
    }
}

/// What an image element with the attribute `src` asks for on a page at
/// `base`: its source and the URL to fetch.
pub open spec fn image_plan(src: Option<Seq<char>>, base: Seq<char>) -> Result<
    (Seq<char>, Seq<char>),
    SkipReason,
> {
    match src {
        None => Err(SkipReason::MissingAttribute),
        Some(source) => match source_check(source) {
            Err(reason) => Err(reason),
            Ok(_) => match resolution(base, source) {
                Ok(url) => Ok((source, url)),
                Err(reason) => Err(reason),
            },
        },
    }
}

/// What the image found at `src` comes to once the fetcher has answered:
/// without a response, or with a status other than 200, a `FetchError`;
/// otherwise the record under the stored name of `src`, and the body.
pub open spec fn image_result(src: Seq<char>, response: Option<(u16, Seq<u8>)>) -> Result<
    ((Seq<char>, Seq<char>), Seq<u8>),
    SkipReason,
> {
    match response {
        None => Err(SkipReason::FetchError),
        Some((status, body)) => if status != STATUS_OK {
            Err(SkipReason::FetchError)
        } else {
            match rename_outcome(src) {
                Ok(name) => Ok(((src, name), body)),
                Err(reason) => Err(reason),
            }
        },
    }
}

/// A request that `image_plan` made never fails to be renamed: once the
/// fetch answers with status 200, the image is stored.
pub proof fn lemma_planned_image_is_stored(
    src: Seq<char>,
    base: Seq<char>,
    status: u16,
    body: Seq<u8>,
)
    requires
        image_plan(Some(src), base) is Ok,
        status == STATUS_OK,
    ensures
        image_plan(Some(src), base)->Ok_0.0 == src,
        image_result(src, Some((status, body))) is Ok,
        image_result(src, Some((status, body)))->Ok_0.1 == body,
{
}

/// Validates an image source. Fails with `UnsupportedScheme` for a data URI,
/// and with `UnsupportedExtension` unless the source ends in `.jpg`, `.png`
/// or `.webp`.
pub fn check_source(src: &str) -> (checked: Result<(), SkipReason>)
    ensures
        checked == source_check(src@),
{
    if starts_with(src, "data:") {
        Err(SkipReason::UnsupportedScheme)
    } else if !is_allowed(src) {
        Err(SkipReason::UnsupportedExtension)
    } else {
        Ok(())
    }
}

/// Whether a response with this status carries the image.
pub fn is_success(status: u16) -> (success: bool)
    ensures
        success == (status == STATUS_OK),
{
    status == STATUS_OK
}

/// What to fetch for one image element, from its `src` attribute and the URL
/// of the page. Fails with `MissingAttribute` where the element has no
/// `src`, with `UnsupportedScheme` for a data URI, with
/// `UnsupportedExtension` for an extension that is not allowed, and with
/// `MalformedBase` or `JoinError` where the source cannot be resolved against
/// the base.
pub fn begin_image(src: Option<String>, base: &str) -> (planned: Result<ImageRequest, SkipReason>)
    ensures
        match planned {
            Ok(request) => image_plan(src.deep_view(), base@) == Ok::<
                (Seq<char>, Seq<char>),
                SkipReason,
            >(request@),
            Err(reason) => image_plan(src.deep_view(), base@) == Err::<
                (Seq<char>, Seq<char>),
                SkipReason,
            >(reason),
        },
{
    let source = match src {
        None => {
            return Err(SkipReason::MissingAttribute);
        },
        Some(source) => source,
    };
    match check_source(source.as_str()) {
        Err(reason) => {
            return Err(reason);
        },
        Ok(_) => {},
    }
    match resolve(base, source.clone()) {
        Ok(url) => Ok(ImageRequest { src: source, url }),
        Err(reason) => Err(reason),
    }
}

/// What to store for a requested image, once the fetcher has answered.
/// Fails with `FetchError` where there is no response or its status is not
/// 200, and with `UnsupportedExtension` where the source of the request has
/// no allowed extension. Otherwise the asset holds the body of the response
/// and the record that pairs the source with its stored name.
pub fn finish_image(request: ImageRequest, response: Option<FetchResponse>) -> (stored: Result<
    StoredAsset,
    SkipReason,
>)
    ensures
        match stored {
            Ok(asset) => image_result(request.src@, response_view(response)) == Ok::<
                ((Seq<char>, Seq<char>), Seq<u8>),
                SkipReason,
            >(asset@),
            Err(reason) => image_result(request.src@, response_view(response)) == Err::<
                ((Seq<char>, Seq<char>), Seq<u8>),
                SkipReason,
            >(reason),
        },
{
    let answer = match response {
        None => {
            return Err(SkipReason::FetchError);
        },
        Some(answer) => answer,
    };
    if !is_success(answer.status) {
        return Err(SkipReason::FetchError);
    }
    match rename(request.src.as_str()) {
        Ok(name) => Ok(
            StoredAsset { record: ImageRecord { src: request.src, img: name }, bytes: answer.body },
        ),
        Err(reason) => Err(reason),
    }
}

} // verus!
