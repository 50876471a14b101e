use page_assets::image::{
    begin_image, check_source, finish_image, is_success, FetchResponse, ImageRequest, StoredAsset,
    STATUS_OK,
};
use page_assets::reason::SkipReason;
use page_assets::record::ImageRecord;
use page_assets::run::{Action, Event, Phase, Run};

const BASE: &str = "https://example.com/dir/page.html";

fn some(text: &str) -> Option<String> {
    Some(String::from(text))
}

fn request(src: &str, url: &str) -> ImageRequest {
    ImageRequest { src: String::from(src), url: String::from(url) }
}

fn answer(status: u16, body: &[u8]) -> Option<FetchResponse> {
    Some(FetchResponse { status, body: body.to_vec() })
}

#[test]
fn image_without_src_is_skipped() {
    assert_eq!(begin_image(None, BASE), Err(SkipReason::MissingAttribute));
}

#[test]
fn data_uri_is_skipped() {
    assert_eq!(
        begin_image(some("data:image/png;base64,iVBORw0KGgo="), BASE),
        Err(SkipReason::UnsupportedScheme)
    );
}

#[test]
fn data_uri_is_checked_before_the_extension() {
    assert_eq!(
        begin_image(some("data:image/png;base64,AAAA.png"), BASE),
        Err(SkipReason::UnsupportedScheme)
    );
    assert_eq!(check_source("data:.jpg"), Err(SkipReason::UnsupportedScheme));
}

#[test]
fn other_extensions_are_skipped() {
    assert_eq!(
        begin_image(some("/a/pic.gif"), BASE),
        Err(SkipReason::UnsupportedExtension)
    );
    assert_eq!(
        begin_image(some("/a/pic.PNG"), BASE),
        Err(SkipReason::UnsupportedExtension)
    );
    assert_eq!(
        begin_image(some("/a/pic.png?w=300"), BASE),
        Err(SkipReason::UnsupportedExtension)
    );
    assert_eq!(begin_image(some(""), BASE), Err(SkipReason::UnsupportedExtension));
}

#[test]
fn relative_source_is_resolved_against_the_page() {
    assert_eq!(
        begin_image(some("/a/pic.png"), BASE),
        Ok(request("/a/pic.png", "https://example.com/a/pic.png"))
    );
    assert_eq!(
        begin_image(some("thumbs/one.jpg"), BASE),
        Ok(request("thumbs/one.jpg", "https://example.com/dir/thumbs/one.jpg"))
    );
    assert_eq!(
        begin_image(some("//cdn.example.org/i/two.webp"), BASE),
        Ok(request("//cdn.example.org/i/two.webp", "https://cdn.example.org/i/two.webp"))
    );
}

#[test]
fn absolute_source_is_fetched_as_it_stands() {
    assert_eq!(
        begin_image(some("https://cdn.example.org/i/p.webp"), BASE),
        Ok(request("https://cdn.example.org/i/p.webp", "https://cdn.example.org/i/p.webp"))
    );
    assert_eq!(
        begin_image(some("http://cdn.example.org/i/p.jpg"), "not a url"),
        Ok(request("http://cdn.example.org/i/p.jpg", "http://cdn.example.org/i/p.jpg"))
    );
}

#[test]
fn source_that_cannot_be_resolved_is_skipped() {
    assert_eq!(
        begin_image(some("/a/pic.png"), "not a url"),
        Err(SkipReason::MalformedBase)
    );
    assert_eq!(
        begin_image(some("pic.png"), "mailto:someone@example.com"),
        Err(SkipReason::JoinError)
    );
}

#[test]
fn check_source_accepts_the_three_extensions() {
    assert_eq!(check_source("a.jpg"), Ok(()));
    assert_eq!(check_source("a.png"), Ok(()));
    assert_eq!(check_source("a.webp"), Ok(()));
    assert_eq!(check_source("a.bmp"), Err(SkipReason::UnsupportedExtension));
    assert_eq!(check_source("Data:a.png"), Ok(()));
}

#[test]
fn only_status_200_is_a_success() {
    assert_eq!(STATUS_OK, 200);
    assert!(is_success(200));
    assert!(!is_success(201));
    assert!(!is_success(204));
    assert!(!is_success(301));
    assert!(!is_success(404));
    assert!(!is_success(500));
    assert!(!is_success(0));
}

#[test]
fn fetched_image_is_stored_under_its_digest() {
    let stored = finish_image(
        request("https://example.com/a/pic.png", "https://example.com/a/pic.png"),
        answer(200, &[1, 2, 3]),
    );
    assert_eq!(
        stored,
        Ok(StoredAsset {
            record: ImageRecord {
                src: String::from("https://example.com/a/pic.png"),
                img: String::from(
                    "579ceb446e1b66e14160e615818195e4aa7ed1b9f061aaf1ab4f66778128799e.png"
                ),
            },
            bytes: vec![1, 2, 3],
        })
    );
}

#[test]
fn stored_name_comes_from_the_source_not_the_url_or_the_bytes() {
    let first = finish_image(
        request("/img/photo.jpg", "https://example.com/img/photo.jpg"),
        answer(200, &[9, 9]),
    )
    .unwrap();
    let second = finish_image(
        request("/img/photo.jpg", "https://mirror.example.net/img/photo.jpg"),
        answer(200, &[]),
    )
    .unwrap();
    assert_eq!(
        first.record.img,
        "56f600b1b19033241bb052d9d052b08300011e26db5235142a5571be42a4335c.jpg"
    );
    assert_eq!(first.record, second.record);
    assert_eq!(first.bytes, vec![9, 9]);
    assert_eq!(second.bytes, Vec::<u8>::new());
}

#[test]
fn failed_fetch_is_skipped() {
    let wanted = request("/a/pic.png", "https://example.com/a/pic.png");
    assert_eq!(finish_image(wanted.clone(), None), Err(SkipReason::FetchError));
    assert_eq!(
        finish_image(wanted.clone(), answer(404, b"not found")),
        Err(SkipReason::FetchError)
    );
    assert_eq!(
        finish_image(wanted.clone(), answer(204, &[])),
        Err(SkipReason::FetchError)
    );
    assert_eq!(
        finish_image(wanted, answer(500, &[])),
        Err(SkipReason::FetchError)
    );
}

#[test]
fn extension_is_checked_again_when_storing() {
    assert_eq!(
        finish_image(request("/a/pic.gif", "https://example.com/a/pic.gif"), answer(200, &[1])),
        Err(SkipReason::UnsupportedExtension)
    );
    assert_eq!(
        finish_image(request("/a/pic.gif", "https://example.com/a/pic.gif"), answer(404, &[1])),
        Err(SkipReason::FetchError)
    );
}

#[test]
fn one_valid_image_among_three_gives_one_record_and_one_file() {
    let mut run = Run::new(BASE).unwrap();
    assert_eq!(run.handle(Event::StageDone), Action::Navigate);
    assert_eq!(run.handle(Event::StageDone), Action::ProcessImages);
    let elements = vec![
        some("data:image/png;base64,iVBORw0KGgo="),
        some("/a/pic.gif"),
        some("/a/pic.png"),
    ];
    let mut written: Vec<(String, Vec<u8>)> = Vec::new();
    let mut skipped: Vec<SkipReason> = Vec::new();
    for src in elements {
        let base = String::from(run.target());
        let outcome = match begin_image(src, &base) {
            Ok(wanted) => {
                assert_eq!(wanted.url, "https://example.com/a/pic.png");
                finish_image(wanted, answer(200, &[0x89, 0x50, 0x4e, 0x47]))
            }
            Err(reason) => Err(reason),
        };
        match outcome {
            Ok(asset) => {
                written.push((asset.record.img.clone(), asset.bytes));
                run.handle(Event::ImageStored(asset.record));
            }
            Err(reason) => {
                skipped.push(reason);
                run.handle(Event::Skipped(reason));
            }
        }
        assert_eq!(run.phase(), Phase::Navigated);
    }
    assert_eq!(
        skipped,
        vec![SkipReason::UnsupportedScheme, SkipReason::UnsupportedExtension]
    );
    assert_eq!(run.images().len(), 1);
    assert_eq!(run.images()[0].src, "/a/pic.png");
    assert_eq!(written.len(), 1);
    assert_eq!(written[0].0, run.images()[0].img);
    assert_eq!(written[0].1, vec![0x89, 0x50, 0x4e, 0x47]);
    assert!(written[0].0.ends_with(".png"));
    assert_eq!(written[0].0.len(), 68);
}
