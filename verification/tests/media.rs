use weiback::error::Error;
use weiback::media_pipeline::{
    begin_preview, bounded_retry_count, check_completed, complete_claim_from_file,
    content_type_for_path, decoding_of, deterministic_file_prefix, deterministic_relative_path,
    extend_preview, fetch_preview, is_part_file, is_preview_content_type, is_public,
    is_sensitive_url_key, judge_image_file, judge_preview, normalize_preview_content_type,
    part_path, path_for_database, place_step, preview_max_bytes, repair_from_existing_final,
    resolved_addresses, supervise_pipeline, validate_media_contents, validate_media_file,
    worker_join_summary, Decoding, MediaPipeline, MediaPipelineConfig, MediaTarget, PlaceStep,
    RedirectChain, PREVIEW_MAX_BYTES,
};
use weiback::web::{Address, UrlHost, UrlParts};

const PIXEL: [u8; 69] = [
    0x89, 0x50, 0x4e, 0x47, 0x0d, 0x0a, 0x1a, 0x0a, 0x00, 0x00, 0x00, 0x0d, 0x49, 0x48,
    0x44, 0x52, 0x00, 0x00, 0x00, 0x01, 0x00, 0x00, 0x00, 0x01, 0x08, 0x02, 0x00, 0x00,
    0x00, 0x90, 0x77, 0x53, 0xde, 0x00, 0x00, 0x00, 0x0c, 0x49, 0x44, 0x41, 0x54, 0x78,
    0x9c, 0x63, 0xf8, 0xcf, 0xc0, 0x00, 0x00, 0x03, 0x01, 0x01, 0x00, 0xc9, 0xfe, 0x92,
    0xef, 0x00, 0x00, 0x00, 0x00, 0x49, 0x45, 0x4e, 0x44, 0xae, 0x42, 0x60, 0x82,
];

fn pipeline(allow_http: bool, allow_private_network: bool) -> MediaPipeline {
    MediaPipeline::new(MediaPipelineConfig {
        media_root: "/media".into(),
        max_bytes: 100,
        poll_interval_ms: 50,
        allow_http,
        allow_private_network,
        max_redirects: 2,
    })
}

fn format_error<T>(r: Result<T, Error>) -> String {
    match r {
        Err(Error::FormatError(m)) => m,
        _ => panic!("expected a format error"),
    }
}

#[test]
fn retries_are_bounded() {
    assert_eq!(bounded_retry_count(-1), 0);
    assert_eq!(bounded_retry_count(3), 3);
    assert_eq!(bounded_retry_count(99), 5);
}

#[test]
fn credentials_in_queries_are_found() {
    for key in ["SUB", "access_token", "X-Auth", "GSID", "my.Session.Id", "_sub_", "pass-word"] {
        assert!(is_sensitive_url_key(key), "{key}");
    }
    for key in ["subject", "id", "size", "tok_en2x", ""] {
        assert_eq!(is_sensitive_url_key(key), key == "tok_en2x", "{key}");
    }
}

#[test]
fn private_networks_are_not_public() {
    for octets in [
        [127, 0, 0, 1],
        [10, 1, 2, 3],
        [192, 168, 0, 1],
        [172, 16, 0, 1],
        [172, 31, 255, 255],
        [169, 254, 1, 1],
        [100, 64, 0, 1],
        [0, 0, 0, 0],
        [192, 0, 2, 1],
        [198, 19, 0, 1],
        [198, 51, 100, 7],
        [203, 0, 113, 9],
        [224, 0, 0, 1],
        [255, 255, 255, 255],
    ] {
        assert!(!is_public(Address::V4(octets)), "{octets:?}");
        let high = u16::from(octets[0]) * 256 + u16::from(octets[1]);
        let low = u16::from(octets[2]) * 256 + u16::from(octets[3]);
        assert!(!is_public(Address::V6([0, 0, 0, 0, 0, 0xffff, high, low])));
    }
    for octets in [[8, 8, 8, 8], [172, 32, 0, 1], [100, 63, 0, 1], [192, 1, 0, 1]] {
        assert!(is_public(Address::V4(octets)), "{octets:?}");
    }
    assert!(!is_public(Address::V6([0, 0, 0, 0, 0, 0, 0, 1])));
    assert!(!is_public(Address::V6([0, 0, 0, 0, 0, 0, 0, 0])));
    assert!(!is_public(Address::V6([0xfc00, 0, 0, 0, 0, 0, 0, 1])));
    assert!(!is_public(Address::V6([0xfe80, 0, 0, 0, 0, 0, 0, 1])));
    assert!(!is_public(Address::V6([0x2001, 0xdb8, 0, 0, 0, 0, 0, 1])));
    assert!(!is_public(Address::V6([0xff02, 0, 0, 0, 0, 0, 0, 1])));
    assert!(is_public(Address::V6([0x2606, 0x4700, 0, 0, 0, 0, 0, 1])));
    assert!(is_public(Address::V6([0, 0, 0, 0, 0, 0xffff, 0x0808, 0x0808])));
}

#[test]
fn urls_are_judged_with_their_reason() {
    let strict = pipeline(false, false);
    let (url, target) = strict.validate_url("https://WX1.example.com/a/../b.jpg?id=1").unwrap();
    assert_eq!(url, "https://wx1.example.com/b.jpg?id=1");
    assert_eq!(target, MediaTarget::Lookup { domain: "wx1.example.com".into(), port: 443 });
    let cases = [
        ("http://example.com/", "media URL must use HTTPS"),
        ("ftp://example.com/", "media URL must use HTTPS"),
        ("https://a@example.com/", "media URL must not contain userinfo"),
        ("https://:b@example.com/", "media URL must not contain userinfo"),
        ("https://example.com/#x", "media URL must not contain sensitive credentials"),
        ("https://example.com/?SUB=1", "media URL must not contain sensitive credentials"),
        ("https://example.com/?a=1&to%6ben=2", "media URL must not contain sensitive credentials"),
        ("https://localhost/", "localhost media URL is forbidden"),
        ("https://a.localhost/", "localhost media URL is forbidden"),
        ("https://8.8.8.8/", "literal media host is forbidden"),
        ("https://[::1]/", "literal media host is forbidden"),
        ("not a url", "relative URL without a base"),
    ];
    for (url, why) in cases {
        assert_eq!(format_error(strict.validate_url(url)), why, "{url}");
    }
    let open = pipeline(true, true);
    assert_eq!(
        open.validate_url("http://127.0.0.1:8080/x").unwrap().1,
        MediaTarget::Literal { address: Address::V4([127, 0, 0, 1]), port: 8080 }
    );
    assert_eq!(
        open.validate_url("http://[2001:db8::2]/x").unwrap().1,
        MediaTarget::Literal {
            address: Address::V6([0x2001, 0xdb8, 0, 0, 0, 0, 0, 2]),
            port: 80
        }
    );
}

#[test]
fn parts_without_host_or_port_are_refused() {
    let parts = |host_text: Option<&str>, host: Option<UrlHost>, port: Option<u16>| UrlParts {
        text: "https://x/".into(),
        scheme: "https".into(),
        username: String::new(),
        has_password: false,
        has_fragment: false,
        query_keys: Vec::new(),
        host_text: host_text.map(str::to_owned),
        host,
        port,
    };
    let strict = pipeline(false, false);
    assert_eq!(
        format_error(strict.check_url(&parts(None, None, Some(443)))),
        "media URL has no host"
    );
    assert_eq!(
        format_error(strict.check_url(&parts(Some("x"), None, None))),
        "media URL has no usable port"
    );
    assert_eq!(
        format_error(strict.check_url(&parts(Some("x"), None, Some(443)))),
        "media URL has no host"
    );
    let domain = Some(UrlHost::Domain("x".into()));
    assert!(strict.check_url(&parts(Some("x"), domain, Some(443))).is_ok());
}

#[test]
fn looked_up_addresses_must_all_be_public() {
    let strict = pipeline(false, false);
    let public = Address::V4([8, 8, 8, 8]);
    let private = Address::V4([10, 0, 0, 1]);
    assert!(strict.check_addresses(&vec![public, public]).is_ok());
    assert_eq!(
        format_error(strict.check_addresses(&vec![public, private])),
        "media host resolved to a non-public address"
    );
    assert!(pipeline(false, true).check_addresses(&vec![private]).is_ok());
    assert_eq!(
        format_error(resolved_addresses(Vec::new())),
        "media host resolved no addresses"
    );
    assert_eq!(resolved_addresses(vec![public]).unwrap(), vec![public]);
}

#[test]
fn downloads_stay_within_their_size() {
    let p = pipeline(false, false);
    assert!(p.check_declared_length(None).is_ok());
    assert!(p.check_declared_length(Some(100)).is_ok());
    assert_eq!(
        format_error(p.check_declared_length(Some(101))),
        "media exceeds configured maximum size"
    );
    assert_eq!(p.add_chunk(60, 40).unwrap(), 100);
    assert_eq!(format_error(p.add_chunk(60, 41)), "media exceeds configured maximum size");
    assert!(p.add_chunk(u64::MAX, u64::MAX).is_err());
}

#[test]
fn redirects_are_followed_within_their_limit() {
    let mut chain = RedirectChain::new("https://a.example/x/y");
    let url = "https://a.example/x/y";
    assert!(chain.on_response(2, 200, url, None).unwrap());
    assert!(!chain.on_response(2, 302, url, Some("../z?q=1")).unwrap());
    assert_eq!(chain.current, "https://a.example/z?q=1");
    assert_eq!(chain.followed, 1);
    assert_eq!(
        format_error(chain.on_response(2, 300, url, Some("z"))),
        "unsupported media redirect"
    );
    assert_eq!(
        format_error(chain.on_response(2, 301, url, None)),
        "media redirect has no valid location"
    );
    assert!(format_error(chain.on_response(2, 301, url, Some("https://"))).len() > 0);
    assert_eq!(chain.followed, 1);
    assert!(!chain.on_response(2, 308, url, Some("https://b.example")).unwrap());
    assert_eq!(chain.current, "https://b.example/");
    assert_eq!(
        format_error(chain.on_response(2, 301, url, Some("z"))),
        "media redirect limit exceeded"
    );
    assert!(chain.on_response(2, 404, url, None).unwrap());
}

#[test]
fn previews_need_a_fitting_type_and_size() {
    assert_eq!(
        normalize_preview_content_type(" Image/PNG ; charset=x").as_deref(),
        Some("image/png")
    );
    assert_eq!(normalize_preview_content_type(" ; x"), None);
    assert_eq!(normalize_preview_content_type(&"x".repeat(129)), None);
    assert!(is_preview_content_type("image/webp", "picture"));
    assert!(!is_preview_content_type("image/webp", "video"));
    assert!(is_preview_content_type("video/quicktime", "video"));
    assert_eq!(preview_max_bytes("video"), PREVIEW_MAX_BYTES);
    assert_eq!(
        begin_preview(Some(5), Some("image/GIF"), "picture").unwrap(),
        "image/gif"
    );
    assert_eq!(
        format_error(begin_preview(Some(0), Some("image/gif"), "picture")),
        "media preview size is invalid"
    );
    assert_eq!(
        format_error(begin_preview(Some(PREVIEW_MAX_BYTES + 1), Some("image/gif"), "picture")),
        "media preview size is invalid"
    );
    for header in [None, Some("text/html"), Some("video/mp4")] {
        assert_eq!(
            format_error(begin_preview(None, header, "picture")),
            "media preview has invalid content type"
        );
    }
}

#[test]
fn previews_grow_to_their_limit() {
    let mut bytes = vec![1, 2];
    extend_preview(&mut bytes, &vec![3]).unwrap();
    assert_eq!(bytes, vec![1, 2, 3]);
    let mut full = vec![0; PREVIEW_MAX_BYTES as usize];
    assert_eq!(
        format_error(extend_preview(&mut full, &vec![1])),
        "media preview exceeds size limit"
    );
    assert_eq!(full.len() as u64, PREVIEW_MAX_BYTES);
    assert!(extend_preview(&mut full, &Vec::new()).is_ok());
}

#[test]
fn previews_must_decode_unless_they_are_videos() {
    let preview = fetch_preview("image/png".into(), PIXEL.to_vec(), "picture").unwrap();
    assert_eq!(preview.content_type, "image/png");
    assert_eq!(preview.bytes, PIXEL.to_vec());
    let why = format_error(fetch_preview("image/png".into(), vec![1, 2, 3], "picture"));
    assert!(why.starts_with("invalid preview image: ") && why.len() > 24, "{why}");
    let mut broken = PIXEL.to_vec();
    broken.truncate(40);
    assert!(fetch_preview("image/png".into(), broken, "picture").is_err());
    assert!(fetch_preview("video/mp4".into(), vec![1, 2, 3], "video").is_ok());
    assert_eq!(
        format_error(fetch_preview("video/mp4".into(), Vec::new(), "video")),
        "media preview is empty"
    );
    assert_eq!(
        format_error(judge_preview("t".into(), vec![1], "avatar", Err("bad".into()))),
        "invalid preview image: bad"
    );
}

#[test]
fn files_are_named_by_row_and_url() {
    let url = "https://wx1.example.com/a.jpg";
    assert_eq!(deterministic_file_prefix(12, url), "12-5095bc233b01204e.");
    assert_eq!(
        deterministic_relative_path(12, url, "picture", Some("image/png; q=1")),
        "pictures/12-5095bc233b01204e.png"
    );
    let kinds = [
        ("picture", None, "pictures", "jpg"),
        ("picture", Some("image/gif"), "pictures", "gif"),
        ("avatar", Some("image/webp"), "pictures", "webp"),
        ("video", None, "videos", "mp4"),
        ("video", Some("video/webm"), "videos", "webm"),
        ("video", Some("video/quicktime"), "videos", "mov"),
        ("picture", Some("video/x"), "pictures", "mp4"),
    ];
    for (media_type, content_type, directory, extension) in kinds {
        let path = deterministic_relative_path(-1, "https://e.com/p.png", media_type, content_type);
        assert_eq!(path, format!("{directory}/-1-96203ac1c58be454.{extension}"));
        let name = path.rsplit('/').next().unwrap();
        assert!(repair_from_existing_final(name, -1, "https://e.com/p.png"));
        assert!(!repair_from_existing_final(name, 1, "https://e.com/p.png"));
        assert!(!repair_from_existing_final(&part_path(name), -1, "https://e.com/p.png"));
    }
}

#[test]
fn files_are_judged_by_their_contents() {
    let pixel = PIXEL.to_vec();
    assert!(validate_media_contents("a.png", "picture", &pixel, 4096).is_ok());
    assert!(validate_media_contents("a.jpg.part", "picture", &pixel, 4096).is_ok());
    assert!(validate_media_contents("a", "avatar", &pixel, 4096).is_ok());
    assert!(validate_media_contents("a.mp4", "video", &vec![1, 2, 3], 4096).is_ok());
    assert_eq!(
        format_error(validate_media_contents("a.png", "video", &pixel, 4096)),
        "invalid video extension"
    );
    assert_eq!(
        format_error(validate_media_contents("a.png", "picture", &pixel, 3)),
        "media file size is invalid"
    );
    assert_eq!(
        format_error(validate_media_contents("a.png", "picture", &Vec::new(), 4096)),
        "media file size is invalid"
    );
    let unknown = format_error(validate_media_contents("a.part", "picture", &vec![1, 2], 4096));
    assert!(unknown.starts_with("invalid image: ") && unknown.contains("part"));
    let broken = format_error(validate_media_contents("a.png", "picture", &vec![1, 2], 4096));
    assert!(broken.starts_with("invalid image: ") && broken != unknown);
    let nameless = format_error(validate_media_contents("a.", "picture", &vec![1, 2], 4096));
    assert_eq!(nameless, format_error(validate_media_contents("a", "avatar", &vec![1, 2], 4096)));
    assert_eq!(decoding_of("a.png", false), Decoding::ByName);
    assert_eq!(decoding_of("a.png", true), Decoding::BySignature);
    assert_eq!(decoding_of("a.", false), Decoding::BySignature);
}

#[test]
fn files_are_judged_by_name_and_size() {
    assert_eq!(content_type_for_path("a/b.jpeg").as_deref(), Some("image/jpeg"));
    assert_eq!(content_type_for_path("a/b.mov").as_deref(), Some("video/quicktime"));
    assert_eq!(content_type_for_path("a/b.txt"), None);
    assert_eq!(content_type_for_path("png"), None);
    assert_eq!(part_path("a/b.jpg"), "a/b.jpg.part");
    assert!(is_part_file("a/b.jpg.part") && !is_part_file("a/b.jpg"));
    assert_eq!(path_for_database("pictures\\a.jpg"), "pictures/a.jpg");
    assert!(validate_media_file("a.jpg", "picture", 5, 10).unwrap());
    assert!(!validate_media_file("a.mp4", "video", 5, 10).unwrap());
    assert_eq!(
        format_error(validate_media_file("a.jpg", "video", 5, 10)),
        "invalid video extension"
    );
    assert_eq!(
        format_error(validate_media_file("a.jpg", "picture", 0, 10)),
        "media file size is invalid"
    );
    assert_eq!(
        format_error(validate_media_file("a.jpg", "picture", 11, 10)),
        "media file size is invalid"
    );
    assert!(judge_image_file(Ok(())).is_ok());
    assert_eq!(format_error(judge_image_file(Err("x".into()))), "invalid image: x");
    assert_eq!(place_step(None), PlaceStep::Rename);
    assert_eq!(place_step(Some(true)), PlaceStep::KeepExisting);
    assert_eq!(place_step(Some(false)), PlaceStep::ReplaceExisting);
}

#[test]
fn completed_downloads_are_recorded() {
    let done = complete_claim_from_file("videos\\1.mp4", Some("video/mp4".into()), 7, "now");
    assert_eq!(done.local_path, "videos/1.mp4");
    assert_eq!(done.content_length, 7);
    assert_eq!(
        complete_claim_from_file("a", None, u64::MAX, "now").content_length,
        i64::MAX
    );
    assert!(check_completed(true).is_ok());
    assert!(matches!(
        check_completed(false),
        Err(Error::InconsistentTask(m)) if m == "media claim became stale"
    ));
}

#[test]
fn failing_workers_wait_longer() {
    let mut failures = 0;
    let waits: Vec<u64> = (0..8).map(|_| supervise_pipeline(50, &mut failures)).collect();
    assert_eq!(waits, vec![100, 200, 400, 800, 1600, 3200, 3200, 3200]);
    assert_eq!(failures, 8);
    let mut failures = 0;
    assert_eq!(supervise_pipeline(0, &mut failures), 20);
    assert_eq!(supervise_pipeline(20_000, &mut failures), 30_000);
    let summary = worker_join_summary(Ok(Ok(())));
    assert!(summary.stopped && summary.join_failed.is_none());
    let summary = worker_join_summary(Ok(Err("disk".into())));
    assert_eq!(summary.join_failed.as_deref(), Some("disk"));
    let summary = worker_join_summary(Err("panicked".into()));
    assert_eq!(summary.join_failed.as_deref(), Some("panicked"));
}
