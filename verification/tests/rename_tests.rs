use page_assets::reason::SkipReason;
use page_assets::rename::{extension, is_allowed, name_from_digest, rename};

const PIC_DIGEST: &str = "579ceb446e1b66e14160e615818195e4aa7ed1b9f061aaf1ab4f66778128799e";

#[test]
fn rename_png_is_digest_and_extension() {
    assert_eq!(
        rename("https://example.com/a/pic.png"),
        Ok(format!("{}.png", PIC_DIGEST))
    );
}

#[test]
fn rename_jpg_and_webp() {
    assert_eq!(
        rename("/img/photo.jpg"),
        Ok(String::from(
            "56f600b1b19033241bb052d9d052b08300011e26db5235142a5571be42a4335c.jpg"
        ))
    );
    assert_eq!(
        rename("h\u{fc}tte.webp"),
        Ok(String::from(
            "ef7c52c7007dc884953e5845b5024ab3eb39ebdb5ca54d2c3cc9dc19684f3e29.webp"
        ))
    );
}

#[test]
fn rename_of_a_bare_extension() {
    assert_eq!(
        rename(".png"),
        Ok(String::from(
            "a612414026ea8c61c7b3aa159e7db8d1002fd523baabffad93fa9555d2d55e48.png"
        ))
    );
}

#[test]
fn rename_twice_gives_the_same_name() {
    let first = rename("https://example.com/a/pic.png");
    let second = rename("https://example.com/a/pic.png");
    assert!(first.is_ok());
    assert_eq!(first, second);
}

#[test]
fn rename_depends_on_the_whole_source() {
    let first = rename("https://example.com/a/pic.png").unwrap();
    let second = rename("https://example.com/b/pic.png").unwrap();
    assert_ne!(first, second);
}

#[test]
fn rename_stem_is_the_hex_digest_of_the_bytes() {
    let source = "https://example.com/gallery/\u{e9}t\u{e9}.jpg";
    let stored = rename(source).unwrap();
    let expected = hex::encode(blake3::hash(source.as_bytes()).as_bytes());
    assert_eq!(stored.len(), 64 + 4);
    assert_eq!(&stored[..64], expected.as_str());
    assert_eq!(extension(&stored), extension(source));
    assert_eq!(extension(&stored), Ok(String::from("jpg")));
}

#[test]
fn rename_keeps_the_extension_after_the_last_dot() {
    let stored = rename("archive.tar.old.webp").unwrap();
    assert!(stored.ends_with(".webp"));
    assert_eq!(stored.matches('.').count(), 1);
}

#[test]
fn rename_rejects_other_extensions() {
    assert_eq!(rename("pic.gif"), Err(SkipReason::UnsupportedExtension));
    assert_eq!(rename("pic.jpeg"), Err(SkipReason::UnsupportedExtension));
    assert_eq!(rename("pic.svg"), Err(SkipReason::UnsupportedExtension));
    assert_eq!(rename("pic.png?w=100"), Err(SkipReason::UnsupportedExtension));
    assert_eq!(rename("pic.png "), Err(SkipReason::UnsupportedExtension));
}

#[test]
fn rename_is_case_sensitive() {
    assert_eq!(rename("pic.PNG"), Err(SkipReason::UnsupportedExtension));
    assert_eq!(rename("pic.Jpg"), Err(SkipReason::UnsupportedExtension));
    assert_eq!(rename("pic.WEBP"), Err(SkipReason::UnsupportedExtension));
}

#[test]
fn rename_rejects_sources_without_a_dot() {
    assert_eq!(rename(""), Err(SkipReason::UnsupportedExtension));
    assert_eq!(rename("png"), Err(SkipReason::UnsupportedExtension));
    assert_eq!(rename("picpng"), Err(SkipReason::UnsupportedExtension));
}

#[test]
fn extension_is_the_text_after_the_last_dot() {
    assert_eq!(extension("a.b.c"), Ok(String::from("c")));
    assert_eq!(extension("pic.png"), Ok(String::from("png")));
    assert_eq!(extension("trailing."), Ok(String::new()));
    assert_eq!(extension(".hidden"), Ok(String::from("hidden")));
    assert_eq!(extension("\u{e9}.\u{e8}\u{e0}"), Ok(String::from("\u{e8}\u{e0}")));
}

#[test]
fn extension_needs_a_separator() {
    assert_eq!(extension("abc"), Err(SkipReason::MissingExtensionSeparator));
    assert_eq!(extension(""), Err(SkipReason::MissingExtensionSeparator));
}

#[test]
fn allowed_extensions_are_three() {
    assert!(is_allowed("a.jpg"));
    assert!(is_allowed("a.png"));
    assert!(is_allowed("a.webp"));
    assert!(is_allowed(".jpg"));
    assert!(!is_allowed("jpg"));
    assert!(!is_allowed("a.jpg.bak"));
    assert!(!is_allowed("a.gif"));
    assert!(!is_allowed(""));
}

#[test]
fn name_from_digest_writes_two_lowercase_digits_per_byte() {
    assert_eq!(
        name_from_digest(&[0x00, 0x0f, 0xa5, 0xff, 0x10], "png"),
        String::from("000fa5ff10.png")
    );
    assert_eq!(name_from_digest(&[], "jpg"), String::from(".jpg"));
    assert_eq!(
        name_from_digest(&[0x01, 0x23, 0x45, 0x67, 0x89, 0xab, 0xcd, 0xef], ""),
        String::from("0123456789abcdef.")
    );
}
