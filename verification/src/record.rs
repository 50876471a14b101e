//! The records that a run collects, one per element that resolved.

use vstd::prelude::*;

verus! {

/// One stored image: where it was found and the name it is stored under.
#[derive(Clone, Debug, PartialEq, Eq)]
pub struct ImageRecord {
    /// The source string of the image element, as the page gave it.
    pub src: String,
    /// The content-addressed name of the stored file.
    pub img: String,
}

/// One embedded video: the source of its frame and the identifier in it.
#[derive(Clone, Debug, PartialEq, Eq)]
pub struct VideoRecord {
    /// The source string of the frame, query parameters included.
    pub src: String,
    /// The identifier of the video.
    pub id: String,
}

impl View for ImageRecord {
    type V = (Seq<char>, Seq<char>);

    /// The source and the stored name, in that order.
    open spec fn view(&self) -> (Seq<char>, Seq<char>) {
        (self.src@, self.img@)
    }
}

impl View for VideoRecord {
    type V = (Seq<char>, Seq<char>);

    /// The source and the identifier, in that order.
    open spec fn view(&self) -> (Seq<char>, Seq<char>) {
        (self.src@, self.id@)
    }
}

/// The views of `records`, in order.
pub open spec fn image_rows(records: Seq<ImageRecord>) -> Seq<(Seq<char>, Seq<char>)> {
    records.map_values(|record: ImageRecord| record@)
}

/// The views of `records`, in order.
pub open spec fn video_rows(records: Seq<VideoRecord>) -> Seq<(Seq<char>, Seq<char>)> {
    records.map_values(|record: VideoRecord| record@)
}

/// The views of `links`, in order.
pub open spec fn link_rows(links: Seq<String>) -> Seq<Seq<char>> {
    links.map_values(|link: String| link@)
}

} // verus!
