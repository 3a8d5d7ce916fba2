use weiback::error::Error;
use weiback::legacy::fingerprint::{
    append_fingerprint_value, fingerprint_tables, hex_digits, snapshot_of,
    source_snapshot_fingerprint, TableSnapshot,
};
use weiback::legacy::import::{
    import_legacy_source, import_step, import_summary, insert_media_reference, media_type_name,
    upsert_import_media, CopyOutcome, ImportEvent, ImportManifest, ImportMediaRow, ImportRun,
    ImportStage, ImportStep,
    LegacyImportStatus, ManifestItem, MediaKind, MediaStep,
};
use weiback::legacy::publish::{
    after_link, check_inside_media_root, compare_existing, is_recoverable, publish_manifest,
    publish_media_row, release_media_row, safe_media_destination, safe_relative_path,
    safe_staged_file, update_import_status, validate_batch_dir, validate_manifest,
    without_staged_file, ImportRecord, LinkOutcome, LinkStep, PublishStep, StagedProbe,
};
use weiback::legacy::source::{
    classify_source, detect_legacy_sources, has_signature, inspect_legacy_source,
    legacy_source_paths, read_sqlite_user_version, source_kind_name, LegacyDetection,
    LegacyImportRequest, LegacySourceKind, SourceProbe, TableInfo,
};
use weiback::sync_executor::FinalizationBarrier;

fn format_error<T>(r: Result<T, Error>) -> String {
    match r {
        Err(Error::FormatError(m)) => m,
        _ => panic!("expected a format error"),
    }
}

fn table(name: &str, columns: &[&str]) -> TableInfo {
    TableInfo { name: name.into(), columns: columns.iter().map(|c| c.to_string()).collect() }
}

fn rust_tables() -> Vec<TableInfo> {
    vec![
        table("posts", &["id", "text", "uid", "more"]),
        table("users", &["id", "screen_name"]),
        table("picture", &["url", "path", "post_id"]),
        table("video", &["url", "path", "post_id"]),
    ]
}

fn python_tables() -> Vec<TableInfo> {
    vec![
        table("weibo", &["id", "text", "uid"]),
        table("user", &["id", "screen_name"]),
        table("image", &["url", "post_id"]),
    ]
}

fn header(version: [u8; 4]) -> Vec<u8> {
    let mut bytes = b"SQLite format 3\0".to_vec();
    bytes.resize(60, 0);
    bytes.extend(version);
    bytes.resize(100, 0);
    bytes
}

fn probe(tables: Vec<TableInfo>) -> SourceProbe {
    SourceProbe {
        source: Some("/old/weiback.db".into()),
        current: "/new/weiback.db".into(),
        is_file: true,
        header: header([0, 0, 1, 2]),
        tables,
        has_pictures: true,
        has_videos: false,
        has_images: true,
    }
}

fn detection() -> LegacyDetection {
    inspect_legacy_source(&probe(rust_tables())).unwrap()
}

#[test]
fn sources_are_classified_by_their_tables() {
    assert_eq!(classify_source(&rust_tables()), Some(LegacySourceKind::RustV1));
    assert_eq!(classify_source(&python_tables()), Some(LegacySourceKind::PythonV2));
    let mut both = rust_tables();
    both.extend(python_tables());
    assert_eq!(classify_source(&both), None);
    assert_eq!(classify_source(&Vec::new()), None);
    let mut incomplete = rust_tables();
    incomplete[0] = table("posts", &["id", "text"]);
    assert_eq!(classify_source(&incomplete), None);
    assert!(has_signature(&rust_tables(), "users", &vec!["id"]));
    assert!(!has_signature(&rust_tables(), "user", &vec!["id"]));
    assert_eq!(source_kind_name(LegacySourceKind::RustV1), "rust_v1");
    assert_eq!(source_kind_name(LegacySourceKind::PythonV2), "python_v2");
}

#[test]
fn versions_are_read_from_the_head() {
    assert_eq!(read_sqlite_user_version(&header([0, 0, 1, 2])), Some(258));
    assert_eq!(read_sqlite_user_version(&header([255, 0, 0, 1])), Some(0xff00_0001));
    assert_eq!(read_sqlite_user_version(&vec![0; 100]), None);
    let mut short = header([0, 0, 0, 1]);
    short.truncate(63);
    assert_eq!(read_sqlite_user_version(&short), None);
}

#[test]
fn inspection_reports_what_is_there() {
    let found = detection();
    assert_eq!(found.kind, LegacySourceKind::RustV1);
    assert_eq!(found.schema_version, 258);
    assert_eq!(found.media_root, "/old");
    assert_eq!(found.picture_dir.as_deref(), Some("/old/pictures"));
    assert_eq!(found.video_dir, None);
    let found = inspect_legacy_source(&probe(python_tables())).unwrap();
    assert_eq!(found.picture_dir.as_deref(), Some("/old/images"));
    assert_eq!(detect_legacy_sources(Ok(found)).len(), 1);
    assert!(detect_legacy_sources(Err(Error::FormatError("x".into()))).is_empty());
}

#[test]
fn unusable_sources_are_refused() {
    let mut missing = probe(rust_tables());
    missing.source = None;
    assert_eq!(format_error(inspect_legacy_source(&missing)), "legacy source is unavailable");
    let mut same = probe(rust_tables());
    same.current = "/old/weiback.db".into();
    assert_eq!(
        format_error(inspect_legacy_source(&same)),
        "legacy source cannot be the current database"
    );
    let mut directory = probe(rust_tables());
    directory.is_file = false;
    assert_eq!(
        format_error(inspect_legacy_source(&directory)),
        "legacy source is not a supported SQLite database"
    );
    let mut text = probe(rust_tables());
    text.header = b"hello".to_vec();
    assert_eq!(
        format_error(inspect_legacy_source(&text)),
        "legacy source is not a supported SQLite database"
    );
    assert_eq!(
        format_error(inspect_legacy_source(&probe(Vec::new()))),
        "legacy source schema is unknown or ambiguous"
    );
    let mut both = rust_tables();
    both.extend(python_tables());
    assert!(inspect_legacy_source(&probe(both)).is_err());
    let mut root = probe(rust_tables());
    root.source = Some("/".into());
    assert_eq!(format_error(inspect_legacy_source(&root)), "legacy source has no parent");
}

#[test]
fn requests_carry_their_faults() {
    let request = LegacyImportRequest::new("s".into(), "m".into(), "i".into())
        .with_publish_failure_after_for_test(2)
        .with_commit_failure_for_test()
        .with_fingerprint_gap_for_test(FinalizationBarrier::new(), FinalizationBarrier::new());
    assert_eq!(request.publish_failure_after_for_test, Some(2));
    assert!(request.commit_failure_for_test);
    assert!(request.fingerprint_gap_for_test.is_some());
    let (db, media) = legacy_source_paths("/data");
    assert!(db.starts_with("/data/") && media.starts_with("/data/"));
}

fn snapshot() -> Vec<TableSnapshot> {
    vec![
        TableSnapshot {
            name: "users".into(),
            schema: Some("CREATE TABLE users(id,screen_name)".into()),
            rows: vec![vec!["1".into(), "'小明'".into()]],
        },
        TableSnapshot { name: "posts".into(), schema: None, rows: Vec::new() },
    ]
}

#[test]
fn fingerprints_tell_contents_apart() {
    assert_eq!(
        source_snapshot_fingerprint(LegacySourceKind::RustV1, &snapshot()),
        "sha256:07da2d4bb76a04cd037e4a23b1a4de0a5a1f74a5a70163b477efd04f02a4b9f8"
    );
    let mut changed = snapshot();
    changed[0].rows[0][0] = "2".into();
    assert_ne!(
        source_snapshot_fingerprint(LegacySourceKind::RustV1, &changed),
        source_snapshot_fingerprint(LegacySourceKind::RustV1, &snapshot())
    );
    assert_ne!(
        snapshot_of(LegacySourceKind::RustV1, &snapshot()),
        snapshot_of(LegacySourceKind::PythonV2, &snapshot())
    );
    assert_eq!(hex_digits(&[0, 15, 255]), "000fff");
    assert!(fingerprint_tables(LegacySourceKind::PythonV2).contains(&"weibo".to_string()));
}

#[test]
fn values_are_delimited_by_their_length() {
    let encode = |values: &[&str]| {
        let mut bytes = Vec::new();
        for value in values {
            append_fingerprint_value(&mut bytes, value);
        }
        bytes
    };
    assert_ne!(encode(&["ab", "c"]), encode(&["a", "bc"]));
    assert_ne!(encode(&["", "a"]), encode(&["a", ""]));
    assert_eq!(encode(&["é", ""]), "2:é,0:,".as_bytes());
}

#[test]
fn media_rows_are_copied_or_left_pending() {
    let url = "https://wx1.example.com/a.jpg";
    let mut run = ImportRun::new();
    assert_eq!(
        format_error(run.import_rust(MediaKind::Pictures, "", None, true, false, false)),
        "legacy media URL is invalid"
    );
    assert_eq!(
        run.import_rust(MediaKind::Pictures, url, Some("a.jpg"), true, true, false).unwrap(),
        MediaStep::Record
    );
    assert_eq!(run.pending, 0);
    run.import_rust(MediaKind::Pictures, url, None, true, false, false).unwrap();
    run.import_rust(MediaKind::Pictures, url, Some("a.jpg"), false, false, false).unwrap();
    assert_eq!(run.pending, 2);
    for path in ["../a.jpg", "/a.jpg", "x/../../a.jpg"] {
        assert_eq!(
            format_error(run.import_rust(MediaKind::Pictures, url, Some(path), true, false, false)),
            "legacy media path escapes its root"
        );
    }
    match run.import_rust(MediaKind::Videos, url, Some("x/a.mp4"), true, false, false).unwrap() {
        MediaStep::Copy { staged_path, final_path } => {
            assert_eq!(final_path, "videos/5095bc233b01204e.mp4");
            assert_eq!(staged_path, "files/videos/5095bc233b01204e.mp4");
            assert_eq!(
                format_error(run.copy_legacy_media(
                    MediaKind::Videos,
                    url,
                    staged_path.clone(),
                    final_path.clone(),
                    CopyOutcome::Missing,
                )),
                "legacy media path is unavailable"
            );
            assert_eq!(
                format_error(run.copy_legacy_media(
                    MediaKind::Videos,
                    url,
                    staged_path.clone(),
                    final_path.clone(),
                    CopyOutcome::Outside,
                )),
                "legacy media path escapes its root"
            );
            run.copy_legacy_media(
                MediaKind::Videos,
                url,
                staged_path,
                final_path,
                CopyOutcome::Copied,
            )
            .unwrap();
        }
        MediaStep::Record => panic!("not copied"),
    }
    assert_eq!(run.copied, 1);
    assert_eq!(run.manifest.items[0].media_type, "video");
    validate_manifest(&run.manifest, false).unwrap();
    run.import_python(3);
    assert_eq!(run.pending, 5);
    assert_eq!(media_type_name(MediaKind::Pictures), "picture");
}

#[test]
fn files_without_extension_get_one() {
    let mut run = ImportRun::new();
    match run
        .import_rust(MediaKind::Pictures, "https://e.com/p.png", Some("raw"), true, false, false)
        .unwrap()
    {
        MediaStep::Copy { final_path, .. } => {
            assert_eq!(final_path, "pictures/96203ac1c58be454.bin")
        }
        MediaStep::Record => panic!("not copied"),
    }
}

fn row(media_type: &str, status: &str, local_path: Option<&str>) -> ImportMediaRow {
    ImportMediaRow {
        media_type: media_type.into(),
        local_path: local_path.map(str::to_owned),
        status: status.into(),
        content_length: Some(9),
        import_hold: false,
        import_batch: None,
    }
}

#[test]
fn rows_are_held_for_the_import() {
    let made = upsert_import_media(None, "picture", "b");
    assert_eq!(made.status, "pending");
    assert!(made.import_hold);
    assert_eq!(made.import_batch.as_deref(), Some("b"));
    let kept = upsert_import_media(Some(row("video", "downloaded", Some("v"))), "picture", "b");
    assert_eq!(kept, row("video", "downloaded", Some("v")));
    let turned = upsert_import_media(Some(row("picture", "downloaded", Some("p"))), "video", "b");
    assert_eq!(turned.media_type, "video");
    assert_eq!(turned.local_path, None);
    assert_eq!(turned.status, "pending");
    assert_eq!(turned.content_length, None);
    assert!(turned.import_hold);
    let held = upsert_import_media(Some(row("picture", "downloaded", Some("p"))), "picture", "b");
    assert_eq!(held.local_path.as_deref(), Some("p"));
    assert!(held.import_hold);
}

#[test]
fn references_are_new_once() {
    assert!(insert_media_reference(&Vec::new(), None));
    assert!(insert_media_reference(&vec!["".into()], Some("large")));
    assert!(!insert_media_reference(&vec!["".into()], None));
    assert!(!insert_media_reference(&vec!["thumb".into()], Some("large")));
    assert!(!insert_media_reference(&vec!["large".into()], Some("large")));
}

#[test]
fn imports_commit_before_they_publish() {
    let (stage, step) = import_step(ImportStage::Importing, ImportEvent::Imported(Ok(())), false);
    assert!(matches!(step, ImportStep::Commit));
    let (stage, step) = import_step(stage, ImportEvent::Committed(Ok(())), false);
    assert!(matches!(step, ImportStep::Publish));
    let (stage, step) = import_step(stage, ImportEvent::Published(true), false);
    assert!(matches!(step, ImportStep::Record { published: true }));
    let (stage, step) = import_step(stage, ImportEvent::Recorded, false);
    assert!(matches!(step, ImportStep::Finish { published: true }));
    assert_eq!(stage, ImportStage::Ended { committed: true });
    let partial = ImportStage::Recording { published: false };
    let (_, step) = import_step(partial, ImportEvent::Recorded, false);
    assert!(matches!(step, ImportStep::Finish { published: false }));
}

#[test]
fn staging_is_kept_once_an_import_is_committed() {
    let error = || Error::Io("x".into());
    let fail = |stage, event, flag| match import_step(stage, event, flag).1 {
        ImportStep::Fail { error, roll_back, discard_staging } => {
            (error.message(), roll_back, discard_staging)
        }
        _ => panic!("the import goes on"),
    };
    let importing = ImportStage::Importing;
    assert_eq!(
        fail(importing, ImportEvent::Imported(Err(error())), true),
        (error().message(), true, true)
    );
    let (why, roll_back, discard) = fail(importing, ImportEvent::Imported(Ok(())), true);
    assert!(why.contains("test commit failure") && roll_back && discard);
    assert_eq!(
        fail(ImportStage::Committing, ImportEvent::Committed(Err(error())), false),
        (error().message(), false, true)
    );
    for stage in [ImportStage::Publishing, ImportStage::Recording { published: true }] {
        assert_eq!(
            fail(stage, ImportEvent::Stopped(error()), false),
            (error().message(), false, false)
        );
    }
}

#[test]
fn imports_report_how_they_ended() {
    let mut run = ImportRun::new();
    run.import_python(4);
    let summary = import_summary(detection(), &run, 2, 3, "backup".into(), true);
    assert_eq!(summary.status, LegacyImportStatus::Completed);
    assert_eq!((summary.posts, summary.users, summary.media_pending), (2, 3, 4));
    assert_eq!(summary.diagnostic_code, None);
    let summary = import_summary(detection(), &run, 2, 3, "backup".into(), false);
    assert_eq!(summary.status, LegacyImportStatus::PartialRecoverable);
    assert_eq!(
        summary.diagnostic_code.as_deref(),
        Some("LEGACY_IMPORT_POSTCOMMIT_PUBLISH_FAILED")
    );
    assert!(import_legacy_source(&detection(), false).is_none());
    let again = import_legacy_source(&detection(), true).unwrap();
    assert_eq!(again.status, LegacyImportStatus::AlreadyCompleted);
    assert_eq!(again.posts, 0);
}

#[test]
fn batches_are_named_by_identifiers() {
    for id in [
        "0198c0de-0000-7000-8000-000000000001",
        "0198c0de000070008000000000000001",
        "{0198c0de-0000-7000-8000-000000000001}",
    ] {
        assert!(validate_batch_dir(&format!("/i/import-media-{id}"), true).is_ok(), "{id}");
    }
    for name in ["import-media-", "import-media-x", "media-0198c0de000070008000000000000001", ""] {
        assert_eq!(
            format_error(validate_batch_dir(&format!("/i/{name}"), true)),
            "legacy import batch name is invalid"
        );
    }
    assert_eq!(
        format_error(validate_batch_dir(
            "/i/import-media-0198c0de000070008000000000000001",
            false
        )),
        "legacy import batch escapes imports root"
    );
}

#[test]
fn manifest_paths_stay_inside() {
    assert!(safe_relative_path("a/b", "final", false).is_ok());
    assert_eq!(
        format_error(safe_relative_path("../a", "final", false)),
        "legacy manifest final path is invalid"
    );
    assert!(safe_staged_file("files/a", StagedProbe::Inside, false).is_ok());
    assert_eq!(
        format_error(safe_staged_file("other/a", StagedProbe::Inside, false)),
        "legacy manifest staged path is invalid"
    );
    assert_eq!(
        format_error(safe_staged_file("files/a", StagedProbe::Outside, false)),
        "legacy manifest staged path escapes batch"
    );
    assert!(matches!(
        safe_staged_file("files/a", StagedProbe::Unresolved("gone".into()), false),
        Err(Error::Io(m)) if m == "gone"
    ));
    assert_eq!(safe_media_destination("pictures/x/a.jpg", false), vec!["pictures", "pictures/x"]);
    assert!(safe_media_destination("a.jpg", false).is_empty());
    assert!(check_inside_media_root(true).is_ok());
    assert_eq!(
        format_error(check_inside_media_root(false)),
        "legacy manifest final path escapes media root"
    );
}

fn manifest(staged: &str, target: &str) -> ImportManifest {
    ImportManifest {
        items: vec![
            ManifestItem {
                url: "u".into(),
                media_type: "picture".into(),
                staged_path: "files/pictures/a".into(),
                final_path: "pictures/a".into(),
            },
            ManifestItem {
                url: "v".into(),
                media_type: "picture".into(),
                staged_path: staged.into(),
                final_path: target.into(),
            },
        ],
    }
}

#[test]
fn manifests_are_checked_before_they_are_published() {
    assert!(validate_manifest(&manifest("files/b", "pictures/b"), false).is_ok());
    assert_eq!(
        format_error(validate_manifest(&manifest("b", "pictures/b"), false)),
        "legacy manifest staged path is invalid"
    );
    assert_eq!(
        format_error(validate_manifest(&manifest("files/b", "/b"), false)),
        "legacy manifest final path is invalid"
    );
    let m = manifest("files/b", "pictures/b");
    assert_eq!(publish_manifest(&m, 0, None).unwrap(), PublishStep::Item(0));
    assert_eq!(publish_manifest(&m, 1, Some(0)).unwrap(), PublishStep::Item(1));
    assert!(matches!(
        publish_manifest(&m, 1, Some(1)),
        Err(Error::InconsistentTask(why)) if why == "test publish failure"
    ));
    assert_eq!(publish_manifest(&m, 2, Some(2)).unwrap(), PublishStep::Release);
}

#[test]
fn files_are_linked_or_copied_into_place() {
    assert!(matches!(after_link(LinkOutcome::Done, false), LinkStep::Placed));
    assert!(matches!(
        after_link(LinkOutcome::CrossesDevices("x".into()), false),
        LinkStep::Copy
    ));
    assert!(matches!(
        after_link(LinkOutcome::CrossesDevices("x".into()), true),
        LinkStep::Fail(Error::Io(_))
    ));
    assert!(matches!(after_link(LinkOutcome::AlreadyExists, true), LinkStep::Compare));
    assert!(matches!(
        after_link(LinkOutcome::Failed("x".into()), false),
        LinkStep::Fail(Error::Io(_))
    ));
    assert!(compare_existing(true).is_ok());
    assert_eq!(
        format_error(compare_existing(false)),
        "legacy media destination already exists"
    );
    assert!(without_staged_file(true).is_ok());
    assert_eq!(
        format_error(without_staged_file(false)),
        "legacy media staging file is unavailable"
    );
}

#[test]
fn held_rows_are_published_and_released() {
    let item = &manifest("files/b", "pictures/b").items[0];
    let held = || upsert_import_media(None, "picture", "b");
    let published = publish_media_row(held(), item, 12, "b");
    assert_eq!(published.status, "downloaded");
    assert_eq!(published.local_path.as_deref(), Some("pictures/a"));
    assert_eq!(published.content_length, Some(12));
    assert!(!published.import_hold && published.import_batch.is_none());
    assert_eq!(publish_media_row(held(), item, 12, "other"), held());
    assert_eq!(
        publish_media_row(upsert_import_media(None, "video", "b"), item, 12, "b").status,
        "pending"
    );
    let released = release_media_row(held(), "b");
    assert!(!released.import_hold);
    assert_eq!(released.status, "pending");
    assert!(release_media_row(held(), "other").import_hold);
}

#[test]
fn records_follow_the_publication() {
    let record =
        || ImportRecord { status: "pending_publish".into(), updated_at: "a".into(), completed_at: None };
    let done = update_import_status(record(), true, "now");
    assert_eq!(done.status, "completed");
    assert_eq!(done.completed_at.as_deref(), Some("now"));
    let partial = update_import_status(record(), false, "now");
    assert_eq!(partial.status, "partial_recoverable");
    assert_eq!(partial.completed_at, None);
    assert!(is_recoverable("pending_publish") && is_recoverable("partial_recoverable"));
    assert!(!is_recoverable("completed"));
}

#[test]
fn imports_on_windows_stay_inside_too() {
    let url = "https://e.com/a.png";
    let mut run = ImportRun::new();
    for path in ["..\\a.jpg", "C:a.jpg", "\\a.jpg"] {
        assert_eq!(
            format_error(run.import_rust(
                MediaKind::Pictures,
                url,
                Some(path),
                true,
                false,
                true
            )),
            "legacy media path escapes its root"
        );
        assert_eq!(
            format_error(safe_relative_path(path, "final", true)),
            "legacy manifest final path is invalid"
        );
    }
    match run.import_rust(MediaKind::Videos, url, Some("x.y\\a.mp4"), true, false, true).unwrap() {
        MediaStep::Copy { final_path, .. } => assert!(final_path.ends_with(".mp4")),
        MediaStep::Record => panic!("not copied"),
    }
    assert!(safe_staged_file("files\\a", StagedProbe::Inside, true).is_ok());
    assert!(safe_staged_file("files\\a", StagedProbe::Inside, false).is_err());
    assert_eq!(safe_media_destination("pictures\\x\\a.jpg", true), vec!["pictures", "pictures/x"]);
}
