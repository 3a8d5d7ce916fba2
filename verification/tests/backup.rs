use weiback::error::Error;
use weiback::user_backup::manifest::{
    backup_root, checked_media_path, create_user_backup, insert_media_file, is_backup_id,
    list_user_backups, manifest_file, safe_relative, sha256_file, user_backup_paths,
    validate_media_roots, verify_manifest, verify_sqlite, verify_user_backup, EntryProbe,
    FoundBackup, Manifest, ManifestFile, MediaFile, UserBackupPaths,
};
use weiback::user_backup::restore::{
    check_database_entry, cleanup_steps, move_steps, operation_paths, place_steps,
    restore_user_backup, restore_user_backup_with_fault_for_test, rollback_roots, undo_steps,
    RestoreRoots, RestoreStep, Root,
};

const ID: &str = "0198c0de-0000-7000-8000-000000000001";

fn format_error<T>(r: Result<T, Error>) -> String {
    match r {
        Err(Error::FormatError(m)) => m,
        _ => panic!("expected a format error"),
    }
}

fn paths() -> UserBackupPaths {
    UserBackupPaths::new("/d/weiback.db".into(), "/d/media".into(), "/d/imports".into())
}

#[test]
fn paths_follow_the_configuration() {
    let p = paths();
    assert_eq!(p.backups_dir(), "/d/imports/backups");
    assert!(!p.uses_external_picture_root() && !p.uses_external_video_root());
    assert_eq!(p.legacy_picture_namespace(), "media/pictures");
    let p = p.with_legacy_media_roots("/x/pics".into(), "/d/media/videos/".into());
    assert!(p.uses_external_picture_root() && !p.uses_external_video_root());
    assert_eq!(p.legacy_picture_namespace(), "legacy/pictures");
    assert_eq!(p.legacy_video_namespace(), "media/videos");
    let p = user_backup_paths("/d/w.db".into(), "/m".into(), "/p".into(), "/v".into()).unwrap();
    assert_eq!(p.imports_dir, "/d/imports");
    assert_eq!(p.video_dir, "/v");
    assert_eq!(
        format_error(user_backup_paths("/".into(), "/m".into(), "/p".into(), "/v".into())),
        "configured data root is invalid"
    );
}

#[test]
fn media_roots_must_be_apart() {
    assert!(validate_media_roots(&paths()).is_ok());
    let apart = paths().with_legacy_media_roots("/p".into(), "/v".into());
    assert!(validate_media_roots(&apart).is_ok());
    for (pictures, videos) in [
        ("/d/media", "/v"),
        ("/d/media/pictures/x", "/v"),
        ("/d", "/v"),
        ("/p", "/p/videos"),
        ("/p", "/p"),
    ] {
        let p = paths().with_legacy_media_roots(pictures.into(), videos.into());
        assert_eq!(
            format_error(validate_media_roots(&p)),
            "legacy media roots must be distinct from the unified media root"
        );
    }
}

#[test]
fn files_are_listed_with_their_digest() {
    assert_eq!(
        sha256_file(&b"abc".to_vec()),
        "ba7816bf8f01cfea414140de5dae2223b00361a396177a9cb410ff61f20015ad"
    );
    let file = manifest_file("media\\a.jpg", &Vec::new());
    assert_eq!(file.path, "media/a.jpg");
    assert_eq!(file.length, 0);
    assert_eq!(
        file.sha256,
        "e3b0c44298fc1c149afbf4c8996fb92427ae41e4649b934ca495991b7852b855"
    );
}

#[test]
fn identifiers_are_names_below_the_backups() {
    assert!(is_backup_id(ID));
    for id in ["", "../../../../../../../../../../etc/pa", "0198c0de-0000-7000-8000-00000000000g"] {
        assert!(!is_backup_id(id));
        assert_eq!(format_error(backup_root(&paths(), id)), "invalid backup identifier");
    }
    assert_eq!(
        backup_root(&paths(), ID).unwrap(),
        format!("/d/imports/backups/{ID}")
    );
    assert!(safe_relative("media/a.jpg", false).is_ok());
    for path in ["", "/a", "../a", "a/../b", "a\0b"] {
        assert_eq!(format_error(safe_relative(path, false)), "unsafe backup path");
    }
    assert_eq!(checked_media_path("/m", "a/b", false).unwrap(), "/m/a/b");
    assert!(checked_media_path("/m", "../b", false).is_err());
}

#[test]
fn media_files_are_listed_once_and_in_order() {
    let mut files: Vec<MediaFile> = Vec::new();
    for (raw, regular) in [
        ("b.jpg", true),
        ("a/x.jpg", true),
        ("a.jpg", true),
        ("c.part", true),
        ("gone.jpg", false),
        ("b.jpg", true),
        ("./b.jpg", true),
    ] {
        let _ = insert_media_file(&mut files, "/m", "media", raw, regular, false);
    }
    let destinations: Vec<&str> = files.iter().map(|f| f.destination.as_str()).collect();
    assert_eq!(destinations, vec!["media/a/x.jpg", "media/a.jpg", "media/b.jpg"]);
    assert_eq!(files[2].source, "/m/b.jpg");
    assert_eq!(
        format_error(insert_media_file(&mut files, "/m", "media", "../x", true, false)),
        "unsafe backup path"
    );
}

fn file(path: &str, length: u64, sha256: &str) -> ManifestFile {
    ManifestFile { path: path.into(), length, sha256: sha256.into() }
}

fn regular(length: u64, sha256: &str) -> EntryProbe {
    EntryProbe::Regular { length, sha256: sha256.into() }
}

fn manifest(files: Vec<ManifestFile>) -> Manifest {
    Manifest { schema_version: 1, created_at: "2026-07-31".into(), files }
}

fn database() -> ManifestFile {
    file("database/weiback.db", 5, "d")
}

#[test]
fn backups_are_trusted_only_when_they_match() {
    let good = manifest(vec![database(), file("media/a.jpg", 3, "m")]);
    let probes = vec![regular(5, "d"), regular(3, "m")];
    assert!(verify_manifest(true, &good, &probes, false).is_ok());
    assert_eq!(format_error(verify_manifest(false, &good, &probes, false)), "backup is incomplete");
    let mut newer = manifest(vec![database()]);
    newer.schema_version = 2;
    assert_eq!(
        format_error(verify_manifest(true, &newer, &vec![regular(5, "d")], false)),
        "unsupported or empty backup manifest"
    );
    assert_eq!(
        format_error(verify_manifest(true, &manifest(Vec::new()), &Vec::new(), false)),
        "unsupported or empty backup manifest"
    );
    let wrong = |second: ManifestFile, probe: EntryProbe| {
        verify_manifest(true, &manifest(vec![database(), second]), &vec![regular(5, "d"), probe], false)
    };
    assert_eq!(
        format_error(wrong(database(), regular(5, "d"))),
        "backup manifest has duplicate paths"
    );
    assert_eq!(
        format_error(wrong(file("media/../x", 1, "x"), regular(1, "x"))),
        "unsafe backup path"
    );
    assert_eq!(
        format_error(wrong(file("other/x", 1, "x"), regular(1, "x"))),
        "backup manifest has an unexpected path"
    );
    assert_eq!(
        format_error(wrong(file("media/x.part", 1, "x"), regular(1, "x"))),
        "backup manifest contains partial media"
    );
    assert!(matches!(
        wrong(file("media/x", 1, "x"), EntryProbe::Unreadable("gone".into())),
        Err(Error::Io(m)) if m == "gone"
    ));
    for probe in [EntryProbe::Irregular, regular(2, "x")] {
        assert_eq!(
            format_error(wrong(file("legacy/videos/x", 1, "x"), probe)),
            "backup file metadata does not match manifest"
        );
    }
    assert_eq!(
        format_error(wrong(file("legacy/pictures/x", 1, "x"), regular(1, "y"))),
        "backup file hash does not match manifest"
    );
    let media_only = manifest(vec![file("media/a.jpg", 3, "m")]);
    assert_eq!(
        format_error(verify_manifest(true, &media_only, &vec![regular(3, "m")], false)),
        "backup has no database snapshot"
    );
    assert!(verify_sqlite("ok").is_ok());
    assert_eq!(
        format_error(verify_sqlite("*** in database main ***")),
        "SQLite integrity check failed"
    );
}

#[test]
fn backups_are_summed_up() {
    let m = manifest(vec![database(), file("media/a.jpg", 3, "m")]);
    let summary = create_user_backup(ID.into(), &m);
    assert_eq!(summary.relative_path, format!("backups/{ID}"));
    assert_eq!(summary.file_count, 2);
    assert_eq!(summary.created_at, "2026-07-31");
    let verification = verify_user_backup(ID, &m);
    assert!(verification.valid);
    assert_eq!(verification.file_count, 2);
}

#[test]
fn newest_backups_come_first() {
    let found = |name: &str, created_at: &str| FoundBackup {
        name: name.into(),
        manifest: Some(Manifest {
            schema_version: 1,
            created_at: created_at.into(),
            files: Vec::new(),
        }),
    };
    let other = "0198c0de-0000-7000-8000-000000000002";
    let third = "0198c0de-0000-7000-8000-000000000003";
    let list = list_user_backups(&vec![
        found(ID, "2026-01-01"),
        found("not-a-backup", "2027-01-01"),
        found(other, "2026-03-01"),
        FoundBackup { name: third.into(), manifest: None },
        found(third, "2026-02-01"),
    ]);
    let ids: Vec<&str> = list.iter().map(|b| b.id.as_str()).collect();
    assert_eq!(ids, vec![other, third, ID]);
}

fn roots() -> RestoreRoots {
    RestoreRoots {
        database_exists: true,
        media_exists: true,
        pictures_external: true,
        pictures_exist: true,
        videos_external: false,
        videos_exist: false,
    }
}

#[test]
fn restores_move_place_and_clean_up() {
    let moves = move_steps(roots());
    assert_eq!(
        moves,
        vec![
            RestoreStep::MoveOut(Root::Database),
            RestoreStep::MoveOut(Root::Media),
            RestoreStep::MoveOut(Root::Pictures),
        ]
    );
    assert_eq!(
        rollback_roots(&moves, 2),
        vec![RestoreStep::MoveBack(Root::Database), RestoreStep::MoveBack(Root::Media)]
    );
    assert!(rollback_roots(&moves, 0).is_empty());
    assert_eq!(place_steps()[0], RestoreStep::Place(Root::Database));
    assert_eq!(
        undo_steps(roots()),
        vec![
            RestoreStep::Remove(Root::Database),
            RestoreStep::Remove(Root::Media),
            RestoreStep::Remove(Root::Pictures),
            RestoreStep::MoveBack(Root::Database),
            RestoreStep::MoveBack(Root::Media),
            RestoreStep::MoveBack(Root::Pictures),
            RestoreStep::MoveBack(Root::Videos),
        ]
    );
    assert_eq!(cleanup_steps().len(), 4);
}

#[test]
fn restores_need_a_database_and_ask_for_a_restart() {
    assert!(check_database_entry(&manifest(vec![database()])).is_ok());
    assert!(check_database_entry(&manifest(vec![file("media/a", 1, "x")])).is_err());
    assert!(restore_user_backup_with_fault_for_test(false).is_ok());
    assert!(restore_user_backup_with_fault_for_test(true).is_err());
    let summary = restore_user_backup(ID, true);
    assert!(summary.rollback_created && summary.restart_required);
    assert!(!restore_user_backup(ID, false).rollback_created);
    let operation = operation_paths(&paths(), "op");
    let all = [
        operation.stage,
        operation.old_db,
        operation.old_media,
        operation.old_pictures,
        operation.old_videos,
        operation.rollback_dir,
    ];
    for (i, a) in all.iter().enumerate() {
        assert!(a.starts_with('/'), "{a}");
        for b in &all[i + 1..] {
            assert_ne!(a, b);
        }
    }
}

#[test]
fn backups_of_windows_stay_inside_too() {
    for path in ["..\\x", "media\\..\\x", "C:x", "\\\\host\\x"] {
        assert_eq!(format_error(safe_relative(path, true)), "unsafe backup path");
        assert!(safe_relative(path, false).is_ok(), "{path:?}");
    }
    assert_eq!(checked_media_path("/m", "a\\b", true).unwrap(), "/m/a/b");
    let mut files = Vec::new();
    insert_media_file(&mut files, "/m", "media", "a.b\\c", true, true).unwrap();
    insert_media_file(&mut files, "/m", "media", "a.b/c", true, true).unwrap();
    insert_media_file(&mut files, "/m", "media", "x\\y.part", true, true).unwrap();
    assert_eq!(files.len(), 1);
    assert_eq!(files[0].destination, "media/a.b/c");
}
