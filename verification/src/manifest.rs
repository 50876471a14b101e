//! The text of the three manifests: for each category, a JSON array with one
//! entry for each record, in the order in which the records were collected.

use crate::json::{json_pretty_objects, json_pretty_strings, pretty_objects, pretty_strings};
use crate::reason::FatalError;
use crate::record::{image_rows, video_rows, ImageRecord, VideoRecord};
use vstd::prelude::*;

verus! {

/// A manifest that could not be serialised ends the run.
pub open spec fn manifest_outcome(written: Option<Seq<char>>) -> Result<Seq<char>, FatalError> {
    match written {
        Some(text) => Ok(text),
        None => Err(FatalError::ManifestSerialization),
    }
}

/// The images manifest: for each record an object with the source under
/// `src` and the stored name under `img`.
pub open spec fn images_manifest_text(rows: Seq<(Seq<char>, Seq<char>)>) -> Result<
    Seq<char>,
    FatalError,
> {
    manifest_outcome(json_pretty_objects("src"@, "img"@, rows))
}

/// The videos manifest: for each record an object with the source under
/// `src` and the identifier under `id`.
pub open spec fn videos_manifest_text(rows: Seq<(Seq<char>, Seq<char>)>) -> Result<
    Seq<char>,
    FatalError,
> {
    manifest_outcome(json_pretty_objects("src"@, "id"@, rows))
}

/// The links manifest: the links as an array of strings.
pub open spec fn links_manifest_text(links: Seq<Seq<char>>) -> Result<Seq<char>, FatalError> {
    manifest_outcome(json_pretty_strings(links))
}

/// The text of a manifest, with the text taken by its view.
pub open spec fn manifest_view(manifest: Result<String, FatalError>) -> Result<
    Seq<char>,
    FatalError,
> {
    match manifest {
        Ok(text) => Ok(text@),
        Err(error) => Err(error),
    }
}

/// Maps what serialising a manifest came to: a failure is
/// `ManifestSerialization`.
pub fn manifest_from(written: Result<String, serde_json::Error>) -> (manifest: Result<
    String,
    FatalError,
>)
    ensures
        match written {
            Ok(text) => manifest == Ok::<String, FatalError>(text),
            Err(_) => manifest == Err::<String, FatalError>(FatalError::ManifestSerialization),
        },
{
    match written {
        Ok(text) => Ok(text),
        Err(_) => Err(FatalError::ManifestSerialization),
    }
}

/// The source and the stored name of each record, in order.
fn rows_of_images(records: &Vec<ImageRecord>) -> (rows: Vec<(String, String)>)
    ensures
        rows.deep_view() == image_rows(records@),
{
    let mut rows: Vec<(String, String)> = Vec::new();
    let mut i: usize = 0;
    while i < records.len()
        invariant
            i <= records.len(),
            rows.len() == i,
            forall|j: int| 0 <= j < i ==> (#[trigger] rows[j]).0@ == records[j].src@ && rows[j].1@
                == records[j].img@,
        decreases records.len() - i,
    {
        rows.push((records[i].src.clone(), records[i].img.clone()));
        i += 1;
    }
    assert(rows.deep_view() =~= image_rows(records@));
    rows
}

/// The source and the identifier of each record, in order.
fn rows_of_videos(records: &Vec<VideoRecord>) -> (rows: Vec<(String, String)>)
    ensures
        rows.deep_view() == video_rows(records@),
{
    let mut rows: Vec<(String, String)> = Vec::new();
    let mut i: usize = 0;
    while i < records.len()
        invariant
            i <= records.len(),
            rows.len() == i,
            forall|j: int| 0 <= j < i ==> (#[trigger] rows[j]).0@ == records[j].src@ && rows[j].1@
                == records[j].id@,
        decreases records.len() - i,
    {
        rows.push((records[i].src.clone(), records[i].id.clone()));
        i += 1;
    }
    assert(rows.deep_view() =~= video_rows(records@));
    rows
}

/// The text of the images manifest for `records`, in their order. Fails
/// with `ManifestSerialization` where the records cannot be serialised.
pub fn images_manifest(records: &Vec<ImageRecord>) -> (manifest: Result<String, FatalError>)
    ensures
        manifest_view(manifest) == images_manifest_text(image_rows(records@)),
{
    let rows = rows_of_images(records);
    manifest_from(pretty_objects("src", "img", &rows))
}

/// The text of the videos manifest for `records`, in their order. Fails
/// with `ManifestSerialization` where the records cannot be serialised.
pub fn videos_manifest(records: &Vec<VideoRecord>) -> (manifest: Result<String, FatalError>)
    ensures
        manifest_view(manifest) == videos_manifest_text(video_rows(records@)),
{
    let rows = rows_of_videos(records);
    manifest_from(pretty_objects("src", "id", &rows))
}

/// The text of the links manifest for `links`, in their order. Fails with
/// `ManifestSerialization` where the links cannot be serialised.
pub fn links_manifest(links: &Vec<String>) -> (manifest: Result<String, FatalError>)
    ensures
        manifest_view(manifest) == links_manifest_text(links.deep_view()),
{
    manifest_from(pretty_strings(links))
}

} // verus!
