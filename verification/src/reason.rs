//! Why an element was skipped, and why a run was given up.

use vstd::prelude::*;

verus! {

/// Why one element of the page yields no record. None of these ends the run:
/// the element is skipped and the next one is taken up.
#[derive(Clone, Copy, Debug, PartialEq, Eq, Structural)]
pub enum SkipReason {
    /// The element has no source attribute.
    MissingAttribute,
    /// The image source is a data URI, which holds its bytes inline.
    UnsupportedScheme,
    /// The image source does not end in `.jpg`, `.png` or `.webp`.
    UnsupportedExtension,
    /// The source holds no `.` to part the extension from the name.
    MissingExtensionSeparator,
    /// The fetch got no response, or one whose status is not 200.
    FetchError,
    /// The frame source does not begin with a known embed prefix.
    UnrecognizedEmbedHost,
    /// The frame source has no path segments.
    MalformedPath,
    /// The frame source has fewer than two path segments.
    MissingVideoId,
    /// The base of a relative reference does not parse as a URL.
    MalformedBase,
    /// The reference cannot be joined to the base.
    JoinError,
}

/// Why a run was given up.
#[derive(Clone, Copy, Debug, PartialEq, Eq, Structural)]
pub enum FatalError {
    /// The target does not parse as a URL.
    InvalidTarget,
    /// The target's host is not a domain name, so no site identifier exists.
    NoSiteIdentifier,
    /// The page accessor gave no session.
    SessionAcquisition,
    /// Navigation failed, or the page never reported the target's URL.
    Navigation,
    /// The output directory could not be created.
    OutputDirectory,
    /// The page accessor could not enumerate the elements of a category.
    Enumeration,
    /// An asset, a manifest or the snapshot could not be written.
    Persistence,
    /// A manifest could not be serialised.
    ManifestSerialization,
    /// The session could not be released.
    SessionRelease,
}

/// The outcome of resolving one element to a text, with the text taken by
/// its view.
pub open spec fn text_outcome(outcome: Result<String, SkipReason>) -> Result<
    Seq<char>,
    SkipReason,
> {
    match outcome {
        Ok(text) => Ok(text@),
        Err(reason) => Err(reason),
    }
}

impl SkipReason {
    /// The warning that names this reason.
    pub open spec fn text(self) -> Seq<char> {
        match self {
            SkipReason::MissingAttribute => "could not find the source attribute"@,
            SkipReason::UnsupportedScheme => "could not handle data url"@,
            SkipReason::UnsupportedExtension => "unsupported file"@,
            SkipReason::MissingExtensionSeparator => "could not find file extension"@,
            SkipReason::FetchError => "failed to fetch image"@,
            SkipReason::UnrecognizedEmbedHost => "could not find video src"@,
            SkipReason::MalformedPath => "could not find path segments"@,
            SkipReason::MissingVideoId => "could not find video id segment"@,
            SkipReason::MalformedBase => "could not parse the base url"@,
            SkipReason::JoinError => "could not join the reference to the base url"@,
        }
    }

    /// The warning that names this reason.
    pub fn describe(&self) -> (warning: &'static str)
        ensures
            warning@ == self.text(),
    {
        match self {
            SkipReason::MissingAttribute => "could not find the source attribute",
            SkipReason::UnsupportedScheme => "could not handle data url",
            SkipReason::UnsupportedExtension => "unsupported file",
            SkipReason::MissingExtensionSeparator => "could not find file extension",
            SkipReason::FetchError => "failed to fetch image",
            SkipReason::UnrecognizedEmbedHost => "could not find video src",
            SkipReason::MalformedPath => "could not find path segments",
            SkipReason::MissingVideoId => "could not find video id segment",
            SkipReason::MalformedBase => "could not parse the base url",
            SkipReason::JoinError => "could not join the reference to the base url",
        }
    }
}

impl FatalError {
    /// The message that names this error.
    pub open spec fn text(self) -> Seq<char> {
        match self {
            FatalError::InvalidTarget => "failed to parse the target url"@,
            FatalError::NoSiteIdentifier => "failed to get domain"@,
            FatalError::SessionAcquisition => "failed to acquire a browser session"@,
            FatalError::Navigation => "failed to reach the target page"@,
            FatalError::OutputDirectory => "failed to create the output directory"@,
            FatalError::Enumeration => "failed to enumerate the page's elements"@,
            FatalError::Persistence => "failed to write an output file"@,
            FatalError::ManifestSerialization => "failed to serialise a manifest"@,
            FatalError::SessionRelease => "failed to release the browser session"@,
        }
    }

    /// The message that names this error.
    pub fn describe(&self) -> (message: &'static str)
        ensures
            message@ == self.text(),
    {
        match self {
            FatalError::InvalidTarget => "failed to parse the target url",
            FatalError::NoSiteIdentifier => "failed to get domain",
            FatalError::SessionAcquisition => "failed to acquire a browser session",
            FatalError::Navigation => "failed to reach the target page",
            FatalError::OutputDirectory => "failed to create the output directory",
            FatalError::Enumeration => "failed to enumerate the page's elements",
            FatalError::Persistence => "failed to write an output file",
            FatalError::ManifestSerialization => "failed to serialise a manifest",
            FatalError::SessionRelease => "failed to release the browser session",
        }
    }
}

} // verus!
