use page_assets::manifest::{images_manifest, links_manifest, manifest_from, videos_manifest};
use page_assets::reason::FatalError;
use page_assets::record::{ImageRecord, VideoRecord};

#[test]
fn images_manifest_lists_source_and_stored_name() {
    let records = vec![
        ImageRecord { src: String::from("/a/pic.png"), img: String::from("00ff.png") },
        ImageRecord { src: String::from("b \"q\".jpg"), img: String::from("abcd.jpg") },
    ];
    assert_eq!(
        images_manifest(&records),
        Ok(String::from(
            "[\n  {\n    \"img\": \"00ff.png\",\n    \"src\": \"/a/pic.png\"\n  },\n  {\n    \"img\": \"abcd.jpg\",\n    \"src\": \"b \\\"q\\\".jpg\"\n  }\n]"
        ))
    );
}

#[test]
fn videos_manifest_lists_source_and_identifier() {
    let records = vec![VideoRecord {
        src: String::from("https://www.youtube.com/embed/abc123?x=1"),
        id: String::from("abc123"),
    }];
    assert_eq!(
        videos_manifest(&records),
        Ok(String::from(
            "[\n  {\n    \"id\": \"abc123\",\n    \"src\": \"https://www.youtube.com/embed/abc123?x=1\"\n  }\n]"
        ))
    );
}

#[test]
fn links_manifest_is_an_array_of_strings() {
    let links = vec![
        String::from("https://other.org/x"),
        String::from("https://example.com/about"),
    ];
    assert_eq!(
        links_manifest(&links),
        Ok(String::from(
            "[\n  \"https://other.org/x\",\n  \"https://example.com/about\"\n]"
        ))
    );
}

#[test]
fn manifests_keep_the_order_of_the_records() {
    let forward = vec![String::from("b"), String::from("a"), String::from("b")];
    assert_eq!(
        links_manifest(&forward),
        Ok(String::from("[\n  \"b\",\n  \"a\",\n  \"b\"\n]"))
    );
}

#[test]
fn empty_manifests_are_empty_arrays() {
    assert_eq!(images_manifest(&Vec::new()), Ok(String::from("[]")));
    assert_eq!(videos_manifest(&Vec::new()), Ok(String::from("[]")));
    assert_eq!(links_manifest(&Vec::new()), Ok(String::from("[]")));
}

#[test]
fn manifest_from_maps_a_failure() {
    assert_eq!(manifest_from(Ok(String::from("[]"))), Ok(String::from("[]")));
    let failure = serde_json::from_str::<serde_json::Value>("[").unwrap_err();
    assert_eq!(manifest_from(Err(failure)), Err(FatalError::ManifestSerialization));
}
