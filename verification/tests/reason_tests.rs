use page_assets::reason::{FatalError, SkipReason};

#[test]
fn each_skip_reason_has_its_warning() {
    assert_eq!(SkipReason::MissingAttribute.describe(), "could not find the source attribute");
    assert_eq!(SkipReason::UnsupportedScheme.describe(), "could not handle data url");
    assert_eq!(SkipReason::UnsupportedExtension.describe(), "unsupported file");
    assert_eq!(
        SkipReason::MissingExtensionSeparator.describe(),
        "could not find file extension"
    );
    assert_eq!(SkipReason::FetchError.describe(), "failed to fetch image");
    assert_eq!(SkipReason::UnrecognizedEmbedHost.describe(), "could not find video src");
    assert_eq!(SkipReason::MalformedPath.describe(), "could not find path segments");
    assert_eq!(SkipReason::MissingVideoId.describe(), "could not find video id segment");
    assert_eq!(SkipReason::MalformedBase.describe(), "could not parse the base url");
    assert_eq!(
        SkipReason::JoinError.describe(),
        "could not join the reference to the base url"
    );
}

#[test]
fn each_fatal_error_has_its_message() {
    assert_eq!(FatalError::InvalidTarget.describe(), "failed to parse the target url");
    assert_eq!(FatalError::NoSiteIdentifier.describe(), "failed to get domain");
    assert_eq!(
        FatalError::SessionAcquisition.describe(),
        "failed to acquire a browser session"
    );
    assert_eq!(FatalError::Navigation.describe(), "failed to reach the target page");
    assert_eq!(
        FatalError::OutputDirectory.describe(),
        "failed to create the output directory"
    );
    assert_eq!(
        FatalError::Enumeration.describe(),
        "failed to enumerate the page's elements"
    );
    assert_eq!(FatalError::Persistence.describe(), "failed to write an output file");
    assert_eq!(
        FatalError::ManifestSerialization.describe(),
        "failed to serialise a manifest"
    );
    assert_eq!(
        FatalError::SessionRelease.describe(),
        "failed to release the browser session"
    );
}
