//! Where the output of a run goes: one directory per site under `output`,
//! with the stored images, the three manifests and the snapshot of the page
//! at its root.

use vstd::prelude::*;

verus! {

/// The directory for the site `site`.
pub open spec fn directory_of(site: Seq<char>) -> Seq<char> {
    "output/"@ + site
}

/// The path of the file `file` in the directory for the site `site`.
pub open spec fn path_of(site: Seq<char>, file: Seq<char>) -> Seq<char> {
    directory_of(site) + "/"@ + file
}

/// The directory for the site `site`: `output/<site>`.
pub fn directory(site: &str) -> (path: String)
    ensures
        path@ == directory_of(site@),
{
    let mut path = "output/".to_owned();
    path.append(site);
    path
}

/// The path of the file `file` for the site `site`: `output/<site>/<file>`.
pub fn file_path(site: &str, file: &str) -> (path: String)
    ensures
        path@ == path_of(site@, file@),
{
    let mut path = directory(site);
    path.append("/");
    path.append(file);
    path
}

/// The path of a stored image: its stored name, at the root of the
/// directory.
pub fn asset_path(site: &str, stored_name: &str) -> (path: String)
    ensures
        path@ == path_of(site@, stored_name@),
{
    file_path(site, stored_name)
}

/// The path of the images manifest.
pub fn images_manifest_path(site: &str) -> (path: String)
    ensures
        path@ == path_of(site@, "images.json"@),
{
    file_path(site, "images.json")
}

/// The path of the videos manifest.
pub fn videos_manifest_path(site: &str) -> (path: String)
    ensures
        path@ == path_of(site@, "videos.json"@),
{
    file_path(site, "videos.json")
}

/// The path of the links manifest.
pub fn links_manifest_path(site: &str) -> (path: String)
    ensures
        path@ == path_of(site@, "links.json"@),
{
    file_path(site, "links.json")
}

/// The path of the snapshot of the page's markup.
pub fn snapshot_path(site: &str) -> (path: String)
    ensures
        path@ == path_of(site@, "index.html"@),
{
    file_path(site, "index.html")
}

} // verus!
