//! Backups: that nothing is left out of one, that a damaged one is noticed, and that a restore puts
//! all data in place or leaves all of it alone.
use vstd::prelude::*;

use crate::error::Result;
use crate::paths;
use crate::text;
use crate::user_backup::manifest;
use crate::user_backup::manifest::{
    backup_root, checked_media_path, create_user_backup, insert_media_file, is_backup_id,
    list_user_backups, manifest_file, safe_relative, sha256_file, user_backup_paths,
    validate_media_roots, verify_manifest, verify_sqlite, verify_user_backup, EntryProbe,
    FoundBackup, Manifest, ManifestFile, MediaFile, UserBackupPaths, UserBackupSummary,
    UserBackupVerification,
};
use crate::user_backup::restore;
use crate::user_backup::restore::{
    check_database_entry, cleanup_steps, move_steps, operation_paths, place_steps,
    restore_user_backup, rollback_roots, undo_steps, Disk, OperationPaths, RestoreRoots,
    RestoreStep, Root, UserRestoreSummary,
};

verus! {

/// Whether a file of a backup goes to a path.
pub open spec fn goes_to(files: Seq<MediaFile>, destination: Seq<char>) -> bool {
    exists|i: int|
        0 <= i < files.len() && paths::normal_form((#[trigger] files[i]).destination@)
            == paths::normal_form(destination)
}

/// A backup is complete: every medium that is a regular file on the disk is among its files, from
/// where it is to where it belongs, unless its name says that its download is not finished. What was
/// among the files stays among them.
pub proof fn no_file_is_left_out(
    files: &mut Vec<MediaFile>,
    root: &str,
    destination_root: &str,
    raw: &str,
    regular: bool,
    r: Result<()>,
)
    requires
        manifest::in_order(old(files)@),
        call_ensures(
            insert_media_file,
            (files, root, destination_root, raw, regular, false),
            r,
        ),
    ensures
        r is Ok <==> paths::plain_relative(raw@) && !raw@.contains('\0'),
        r is Ok && regular && paths::extension_of(raw@) != Some("part"@) ==> goes_to(
            final(files)@,
            paths::joined(destination_root@, raw@),
        ),
        final(files)@ != old(files)@ ==> regular && paths::extension_of(raw@) != Some("part"@),
        forall|i: int|
            0 <= i < old(files)@.len() ==> final(files)@.contains(#[trigger] old(files)@[i]),
        forall|i: int|
            0 <= i < final(files)@.len() ==> old(files)@.contains(#[trigger] final(files)@[i]) || (
            final(files)@[i].destination@ == paths::joined(destination_root@, raw@)
                && final(files)@[i].source@ == paths::joined(root@, raw@)),
        final(files)@.len() <= old(files)@.len() + 1,
        manifest::in_order(final(files)@),
        forall|i: int, j: int|
            0 <= i < j < final(files)@.len() ==> text::precedes(
                paths::normal_form((#[trigger] final(files)@[i]).destination@),
                paths::normal_form((#[trigger] final(files)@[j]).destination@),
                '/',
            ),
{
    lemma_null(raw@);
    let before = old(files)@;
    let after = final(files)@;
    let destination = paths::joined(destination_root@, raw@);
    if r is Ok && after != before {
        let file = choose|file: MediaFile|
            {
                &&& #[trigger] manifest::inserted(before, after, file)
                &&& file.destination@ == destination
                &&& file.source@ == paths::joined(root@, raw@)
            };
        let at = choose|at: int|
            0 <= at <= before.len() && after == #[trigger] before.insert(at, file);
        assert(after[at] == file);
        assert(paths::normal_form(after[at].destination@) == paths::normal_form(destination));
        assert forall|i: int| 0 <= i < before.len() implies after.contains(#[trigger] before[i]) by {
            if i < at {
                assert(after[i] == before[i]);
            } else {
                assert(after[i + 1] == before[i]);
            }
        }
        assert forall|i: int| 0 <= i < after.len() implies before.contains(#[trigger] after[i]) || (
        after[i].destination@ == destination && after[i].source@ == paths::joined(root@, raw@)) by {
            if i < at {
                assert(after[i] == before[i]);
            } else if i > at {
                assert(after[i] == before[i - 1]);
            }
        }
    } else {
        assert forall|i: int| 0 <= i < before.len() implies after.contains(#[trigger] before[i]) by {
            assert(after[i] == before[i]);
        }
        assert forall|i: int| 0 <= i < after.len() implies before.contains(#[trigger] after[i]) by {
            assert(after[i] == before[i]);
        }
        if r is Ok && regular && paths::extension_of(raw@) != Some("part"@) {
            if !manifest::has_destination(before, destination) {
                let file = choose|file: MediaFile|
                    {
                        &&& #[trigger] manifest::inserted(before, after, file)
                        &&& file.destination@ == destination
                        &&& file.source@ == paths::joined(root@, raw@)
                    };
                let at = choose|at: int|
                    0 <= at <= before.len() && after == #[trigger] before.insert(at, file);
                assert(after.len() == before.len() + 1);
            }
            let i = choose|i: int|
                0 <= i < before.len() && manifest::file_key((#[trigger] before[i]).destination@)
                    == manifest::file_key(destination);
            assert(paths::normal_form(after[i].destination@) == paths::normal_form(destination));
        }
    }
}

proof fn lemma_null(raw: Seq<char>)
    ensures
        text::has_part(raw, seq!['\0']) <==> raw.contains('\0'),
{
    let null = seq!['\0'];
    if raw.contains('\0') {
        let i = choose|i: int| 0 <= i < raw.len() && raw[i] == '\0';
        assert(raw.subrange(i, i + 1) =~= null);
        assert(text::occurs_at(raw, null, i));
    }
    if text::has_part(raw, null) {
        let at = choose|at: int| #[trigger] text::occurs_at(raw, null, at);
        assert(raw.subrange(at, at + 1)[0] == raw[at]);
    }
}

/// A path may occur in a backup exactly when it stays inside: it is relative, does not lead upwards,
/// and holds no null character. The same goes for the place of a media file below its root.
pub proof fn paths_of_backups_stay_inside(
    root: &str,
    raw: &str,
    windows: bool,
    r: Result<()>,
    s: Result<String>,
)
    requires
        call_ensures(safe_relative, (raw, windows), r),
        call_ensures(checked_media_path, (root, raw, windows), s),
    ensures
        r is Ok <==> s is Ok,
        r is Ok ==> !raw@.contains('\0') && raw@.len() > 0,
        raw@.len() > 0 && raw@[0] == '/' ==> r is Err,
        windows && raw@.len() > 0 && raw@[0] == '\\' ==> r is Err,
        windows && raw@.len() >= 2 && raw@[1] == ':' && ('a' <= raw@[0] <= 'z' || 'A' <= raw@[0]
            <= 'Z') ==> r is Err,
        !windows && r is Ok ==> forall|i: int|
            0 <= i < paths::split_of(raw@, '/', '/').len() ==> #[trigger] paths::split_of(
                raw@,
                '/',
                '/',
            )[i] != ".."@,
        !windows ==> (s matches Ok(path) ==> path@ == paths::joined(root@, raw@)),
{
    lemma_null(raw@);
    if r is Ok {
        paths::names_begin_with_no_separator(raw@, windows);
        if !windows {
            let pieces = paths::split_of(raw@, '/', '/');
            assert forall|i: int| 0 <= i < pieces.len() implies #[trigger] pieces[i] != ".."@ by {
                if pieces[i] == ".."@ {
                    lemma_parent_counts(pieces, i, pieces.len() as int);
                    let parts = paths::parts_from(pieces, pieces.len() as int);
                    let k = choose|k: int| 0 <= k < parts.len() && parts[k] is Parent;
                    assert(paths::parts_of(raw@)[k] is Parent);
                }
            }
        }
    }
}

proof fn lemma_parent_counts(pieces: Seq<Seq<char>>, i: int, n: int)
    requires
        0 <= i < n <= pieces.len(),
        pieces[i] == ".."@,
    ensures
        exists|k: int|
            0 <= k < paths::parts_from(pieces, n).len() && paths::parts_from(pieces, n)[k] is Parent,
    decreases n,
{
    reveal_strlit("..");
    reveal_strlit(".");
    let parts = paths::parts_from(pieces, n);
    let before = paths::parts_from(pieces, n - 1);
    if i == n - 1 {
        assert(parts[parts.len() - 1] is Parent);
    } else {
        lemma_parent_counts(pieces, i, n - 1);
        let k = choose|k: int| 0 <= k < before.len() && before[k] is Parent;
        assert(parts[k] == before[k]);
    }
}

/// Whether the disk holds a file as it is listed.
pub open spec fn undamaged(file: ManifestFile, probe: EntryProbe) -> bool {
    probe matches EntryProbe::Regular { length, sha256 } && length == file.length && sha256@
        == file.sha256@
}

/// Whether a text begins with another.
pub open spec fn begins(whole: Seq<char>, part: Seq<char>) -> bool {
    whole.len() >= part.len() && whole.subrange(0, part.len() as int) == part
}

/// Whether a text ends with another.
pub open spec fn ends(whole: Seq<char>, part: Seq<char>) -> bool {
    whole.len() >= part.len() && whole.subrange(whole.len() - part.len(), whole.len() as int)
        == part
}

/// Whether a listed path is one of a backup.
pub open spec fn belongs(path: Seq<char>) -> bool {
    (path == "database/weiback.db"@ || begins(path, "media/"@) || begins(path, "legacy/pictures/"@)
        || begins(path, "legacy/videos/"@)) && !ends(path, ".part"@)
}

/// A backup is trusted exactly when it is complete and of this version, lists its database, lists
/// every file once and under a path of a backup, and when the disk holds each of them with the length
/// and the digest that are listed.
pub proof fn damaged_backups_are_noticed(
    complete: bool,
    m: Manifest,
    probes: Vec<EntryProbe>,
    r: Result<()>,
)
    requires
        probes@.len() == m.files@.len(),
        call_ensures(verify_manifest, (complete, &m, &probes, false), r),
    ensures
        r is Ok <==> {
            &&& complete
            &&& m.schema_version == 1
            &&& exists|i: int|
                0 <= i < m.files@.len() && (#[trigger] m.files@[i]).path@ == "database/weiback.db"@
            &&& forall|i: int|
                0 <= i < m.files@.len() ==> undamaged(#[trigger] m.files@[i], probes@[i])
                    && belongs(m.files@[i].path@) && paths::plain_relative(m.files@[i].path@)
                    && !m.files@[i].path@.contains('\0')
            &&& forall|i: int, j: int|
                0 <= i < j < m.files@.len() ==> (#[trigger] m.files@[i]).path@ != (
                #[trigger] m.files@[j]).path@
        },
{
    let files = m.files@;
    assert forall|i: int| 0 <= i < files.len() implies (manifest::entry_ok(
        files,
        i,
        probes@[i],
        false,
    ) <==> {
        &&& undamaged(#[trigger] files[i], probes@[i])
        &&& belongs(files[i].path@)
        &&& paths::plain_relative(files[i].path@)
        &&& !files[i].path@.contains('\0')
        &&& forall|j: int| 0 <= j < i ==> (#[trigger] files[j]).path@ != files[i].path@
    }) by {
        lemma_null(files[i].path@);
    }
    let all = manifest::entries_ok(files, probes@, files.len() as int, false);
    if all {
        assert forall|i: int| 0 <= i < files.len() implies undamaged(
            #[trigger] files[i],
            probes@[i],
        ) && belongs(files[i].path@) && paths::plain_relative(files[i].path@)
            && !files[i].path@.contains('\0') by {
            assert(manifest::entry_ok(files, i, probes@[i], false));
        }
        assert forall|i: int, j: int| 0 <= i < j < files.len() implies (#[trigger] files[i]).path@
            != (#[trigger] files[j]).path@ by {
            assert(manifest::entry_ok(files, j, probes@[j], false));
        }
    }
}

/// A file that is unchanged agrees with its entry, and one of another length does not.
pub proof fn entries_describe_their_files(
    relative: &str,
    contents: Vec<u8>,
    found: Vec<u8>,
    entry: ManifestFile,
    digest: String,
)
    requires
        call_ensures(manifest_file, (relative, &contents), entry),
        call_ensures(sha256_file, (&found,), digest),
        !relative@.contains('\\'),
    ensures
        entry.path@ == relative@,
        found@ == contents@ ==> undamaged(
            entry,
            EntryProbe::Regular { length: found@.len() as u64, sha256: digest },
        ),
        found@.len() != contents@.len() && found@.len() <= u64::MAX ==> !undamaged(
            entry,
            EntryProbe::Regular { length: found@.len() as u64, sha256: digest },
        ),
{
    vstd::std_specs::vec::axiom_spec_len(&contents);
    assert forall|i: int| 0 <= i < relative@.len() implies relative@[i] != '\\' by {
        assert(relative@.contains(relative@[i]));
    }
    assert(text::with_char(relative@, '\\', '/') =~= relative@);
}

/// A database passes exactly when its own check says so, and a verified backup is reported as valid
/// with all of its files.
pub proof fn verdicts_are_reported(
    said: &str,
    r: Result<()>,
    name: &str,
    id: String,
    m: Manifest,
    made: UserBackupSummary,
    verified: UserBackupVerification,
)
    requires
        call_ensures(verify_sqlite, (said,), r),
        call_ensures(create_user_backup, (id, &m), made),
        call_ensures(verify_user_backup, (name, &m), verified),
    ensures
        r is Ok <==> said@ == "ok"@,
        made.id@ == id@,
        made.relative_path@ == "backups/"@ + id@,
        made.created_at@ == m.created_at@,
        made.file_count == m.files@.len(),
        verified.id@ == name@,
        verified.valid,
        verified.file_count == m.files@.len(),
{
}

/// Whether a text has the form of a backup's identifier.
pub open spec fn identifies(name: Seq<char>) -> bool {
    name.len() == 36 && forall|i: int|
        0 <= i < 36 ==> ('0' <= #[trigger] name[i] <= '9' || 'a' <= name[i] <= 'f' || 'A' <= name[i]
            <= 'F' || name[i] == '-')
}

/// A backup lies below the directory of the backups, under its identifier; what is none has no
/// place.
pub proof fn backups_have_their_place(
    p: UserBackupPaths,
    id: &str,
    known: bool,
    r: Result<String>,
)
    requires
        call_ensures(is_backup_id, (id,), known),
        call_ensures(backup_root, (&p, id), r),
    ensures
        known <==> identifies(id@),
        r is Ok <==> identifies(id@),
        r matches Ok(place) ==> place@ == paths::joined(
            paths::joined(p.imports_dir@, "backups"@),
            id@,
        ),
{
    if identifies(id@) {
        assert(manifest::backup_id(id@)) by {
            assert forall|i: int| 0 <= i < 36 implies manifest::id_char(#[trigger] id@[i]) by {}
        }
    } else if id@.len() == 36 {
        if manifest::backup_id(id@) {
            assert forall|i: int| 0 <= i < 36 implies ('0' <= #[trigger] id@[i] <= '9' || 'a'
                <= id@[i] <= 'f' || 'A' <= id@[i] <= 'F' || id@[i] == '-') by {
                assert(manifest::id_char(id@[i]));
            }
        }
    }
}

/// Whether a found directory is a backup.
pub open spec fn readable(found: FoundBackup) -> bool {
    identifies(found.name@) && found.manifest is Some
}

/// Whether a listed backup is a found directory.
pub open spec fn stands_for(s: UserBackupSummary, found: FoundBackup) -> bool {
    s.id@ == found.name@ && (found.manifest matches Some(m) && s.created_at@ == m.created_at@
        && s.file_count == m.files@.len())
}

proof fn lemma_readable(found: FoundBackup)
    ensures
        manifest::is_backup(found) <==> readable(found),
{
    if identifies(found.name@) {
        assert forall|i: int| 0 <= i < 36 implies manifest::id_char(#[trigger] found.name@[i]) by {}
    }
    if manifest::backup_id(found.name@) {
        assert forall|i: int| 0 <= i < 36 implies ('0' <= #[trigger] found.name@[i] <= '9' || 'a'
            <= found.name@[i] <= 'f' || 'A' <= found.name@[i] <= 'F' || found.name@[i] == '-') by {
            assert(manifest::id_char(found.name@[i]));
        }
    }
}

proof fn lemma_inserted_once(list: Seq<UserBackupSummary>, x: UserBackupSummary)
    ensures
        manifest::ordered_insert(list, x).len() == list.len() + 1,
        manifest::ordered_insert(list, x).contains(x),
        forall|y: UserBackupSummary| #[trigger]
            list.contains(y) ==> manifest::ordered_insert(list, x).contains(y),
    decreases list.len(),
{
    let r = manifest::ordered_insert(list, x);
    if list.len() == 0 {
        assert(r[0] == x);
    } else if manifest::newer(x, list[0]) {
        assert(r[0] == x);
        assert forall|y: UserBackupSummary| #[trigger] list.contains(y) implies r.contains(y) by {
            let k = choose|k: int| 0 <= k < list.len() && list[k] == y;
            assert(r[k + 1] == y);
        }
    } else {
        let tail = list.subrange(1, list.len() as int);
        lemma_inserted_once(tail, x);
        let inner = manifest::ordered_insert(tail, x);
        let k = choose|k: int| 0 <= k < inner.len() && inner[k] == x;
        assert(r[k + 1] == x);
        assert forall|y: UserBackupSummary| #[trigger] list.contains(y) implies r.contains(y) by {
            let k = choose|k: int| 0 <= k < list.len() && list[k] == y;
            if k == 0 {
                assert(r[0] == y);
            } else {
                assert(tail[k - 1] == y);
                assert(tail.contains(y));
                let j = choose|j: int| 0 <= j < inner.len() && inner[j] == y;
                assert(r[j + 1] == y);
            }
        }
    }
}

proof fn lemma_listed(r: Seq<UserBackupSummary>, found: Seq<FoundBackup>)
    requires
        manifest::lists(r, found),
    ensures
        r.len() == found.filter(|f: FoundBackup| readable(f)).len(),
        forall|i: int|
            0 <= i < found.len() && readable(#[trigger] found[i]) ==> exists|j: int|
                0 <= j < r.len() && stands_for(#[trigger] r[j], found[i]),
    decreases found.len(),
{
    reveal(Seq::filter);
    if found.len() > 0 {
        let rest = found.drop_last();
        lemma_readable(found.last());
        if manifest::is_backup(found.last()) {
            let (before, s) = choose|before: Seq<UserBackupSummary>, s: UserBackupSummary|
                {
                    &&& manifest::lists(before, found.drop_last())
                    &&& manifest::is_summary_of(s, found.last())
                    &&& r == #[trigger] manifest::ordered_insert(before, s)
                };
            lemma_listed(before, rest);
            lemma_inserted_once(before, s);
            assert forall|i: int| 0 <= i < found.len() && readable(#[trigger] found[i]) implies exists|
                j: int,
            | 0 <= j < r.len() && stands_for(#[trigger] r[j], found[i]) by {
                if i < rest.len() {
                    assert(rest[i] == found[i]);
                    let j = choose|j: int|
                        0 <= j < before.len() && stands_for(#[trigger] before[j], rest[i]);
                    assert(before.contains(before[j]));
                    let k = choose|k: int| 0 <= k < r.len() && r[k] == before[j];
                    assert(stands_for(r[k], found[i]));
                } else {
                    let k = choose|k: int| 0 <= k < r.len() && r[k] == s;
                    assert(stands_for(r[k], found[i]));
                }
            }
        } else {
            lemma_listed(r, rest);
            assert forall|i: int| 0 <= i < found.len() && readable(#[trigger] found[i]) implies exists|
                j: int,
            | 0 <= j < r.len() && stands_for(#[trigger] r[j], found[i]) by {
                assert(rest[i] == found[i]);
            }
        }
    }
}

/// The list of the backups holds each of them once and nothing else, the newest first.
pub proof fn all_backups_are_listed(found: Vec<FoundBackup>, r: Vec<UserBackupSummary>)
    requires
        call_ensures(list_user_backups, (&found,), r),
    ensures
        r@.len() == found@.filter(|f: FoundBackup| readable(f)).len(),
        forall|i: int|
            0 <= i < found@.len() && readable(#[trigger] found@[i]) ==> exists|j: int|
                0 <= j < r@.len() && stands_for(#[trigger] r@[j], found@[i]),
        forall|i: int, j: int|
            0 <= i < j < r@.len() ==> !text::precedes(
                (#[trigger] r@[i]).created_at@,
                (#[trigger] r@[j]).created_at@,
                '\0',
            ),
{
    lemma_listed(r@, found@);
    manifest::listed_backups_are_ordered(r@, found@);
    assert forall|i: int, j: int| 0 <= i < j < r@.len() implies !text::precedes(
        (#[trigger] r@[i]).created_at@,
        (#[trigger] r@[j]).created_at@,
        '\0',
    ) by {
        assert(!manifest::newer(r@[j], r@[i]));
    }
}

/// Media outside of the media directory are kept apart from it and from each other: no directory is
/// both, or lies within the other.
pub proof fn media_roots_are_apart(p: UserBackupPaths, r: Result<()>)
    requires
        call_ensures(validate_media_roots, (&p,), r),
    ensures
        ({
            let pictures_in_place = paths::parts_of(p.picture_dir@) == paths::parts_of(
                paths::joined(p.media_dir@, "pictures"@),
            );
            let videos_in_place = paths::parts_of(p.video_dir@) == paths::parts_of(
                paths::joined(p.media_dir@, "videos"@),
            );
            r is Ok <==> {
                &&& pictures_in_place || !paths::within(p.picture_dir@, p.media_dir@)
                    && !paths::within(p.media_dir@, p.picture_dir@)
                &&& videos_in_place || !paths::within(p.video_dir@, p.media_dir@) && !paths::within(
                    p.media_dir@,
                    p.video_dir@,
                )
                &&& pictures_in_place || videos_in_place || !paths::within(
                    p.picture_dir@,
                    p.video_dir@,
                ) && !paths::within(p.video_dir@, p.picture_dir@)
            }
        }),
{
}

/// The backups of a user's data stand beside its database.
pub proof fn backups_stand_beside_the_database(
    db: String,
    media: String,
    pictures: String,
    videos: String,
    r: Result<UserBackupPaths>,
)
    requires
        call_ensures(user_backup_paths, (db, media, pictures, videos), r),
    ensures
        r is Ok <==> paths::parent_of(db@) is Some,
        r matches Ok(p) ==> p.db_path@ == db@ && p.media_dir@ == media@ && p.picture_dir@
            == pictures@ && p.video_dir@ == videos@ && p.imports_dir@ == paths::joined(
            paths::parent_of(db@)->Some_0,
            "imports"@,
        ),
{
}

/// A restore that runs to its end puts the backup in place of all data.
pub proof fn restores_replace_everything(
    roots: RestoreRoots,
    disk: Disk,
    moves: Vec<RestoreStep>,
    places: Vec<RestoreStep>,
    cleanups: Vec<RestoreStep>,
)
    requires
        restore::describes(roots, disk),
        call_ensures(move_steps, (roots,), moves),
        call_ensures(place_steps, (), places),
        call_ensures(cleanup_steps, (), cleanups),
    ensures
        ({
            let end = restore::run(
                roots,
                restore::run(roots, restore::run(roots, disk, moves@), places@),
                cleanups@,
            );
            &&& end.old == Map::<Root, Seq<nat>>::empty()
            &&& end.live.contains_key(Root::Database) && end.live[Root::Database]
                == restore::staged_for(disk, Root::Database)
            &&& end.live.contains_key(Root::Media)
            &&& roots.pictures_external && roots.videos_external ==> end.live[Root::Media]
                == restore::staged_for(disk, Root::Media)
            &&& roots.pictures_external ==> end.live.contains_key(Root::Pictures)
                && end.live[Root::Pictures] == restore::staged_for(disk, Root::Pictures)
            &&& roots.videos_external ==> end.live.contains_key(Root::Videos)
                && end.live[Root::Videos] == restore::staged_for(disk, Root::Videos)
            &&& !roots.pictures_external && !roots.videos_external ==> end.live[Root::Media]
                == restore::staged_for(disk, Root::Media) + restore::staged_for(
                disk,
                Root::Pictures,
            ) + restore::staged_for(disk, Root::Videos)
        }),
{
    restore::restored_data_is_in_place(roots, disk);
    assert(restore::staged_for(disk, Root::Media) + Seq::<nat>::empty() + Seq::<nat>::empty()
        =~= restore::staged_for(disk, Root::Media));
}

/// A restore that fails, while data is moved out of the way or while the backup is put in place,
/// leaves all data as it was.
pub proof fn failed_restores_change_nothing(
    roots: RestoreRoots,
    disk: Disk,
    moves: Vec<RestoreStep>,
    moved: usize,
    backs: Vec<RestoreStep>,
    places: Vec<RestoreStep>,
    placed: usize,
    undos: Vec<RestoreStep>,
)
    requires
        restore::describes(roots, disk),
        call_ensures(move_steps, (roots,), moves),
        moved <= moves@.len(),
        call_ensures(rollback_roots, (&moves, moved), backs),
        call_ensures(place_steps, (), places),
        placed <= places@.len(),
        call_ensures(undo_steps, (roots,), undos),
    ensures
        restore::run(
            roots,
            restore::run(roots, disk, moves@.subrange(0, moved as int)),
            backs@,
        ) == disk,
        ({
            let failed = restore::run(
                roots,
                restore::run(roots, disk, moves@),
                places@.subrange(0, placed as int),
            );
            &&& restore::run(roots, failed, undos@).live == disk.live
            &&& restore::run(roots, failed, undos@).old == disk.old
        }),
{
    restore::failed_move_is_undone(roots, disk, moved as int);
    restore::failed_swap_is_undone(roots, disk, placed as int);
}

/// A backup is restored only with a database that is not empty; whatever is moved out of the way is
/// kept apart for that operation; and the application has to be started again.
pub proof fn restores_need_a_database(
    m: Manifest,
    r: Result<()>,
    p: UserBackupPaths,
    operation: &str,
    kept: OperationPaths,
    id: &str,
    existed: bool,
    summary: UserRestoreSummary,
)
    requires
        call_ensures(check_database_entry, (&m,), r),
        call_ensures(operation_paths, (&p, operation), kept),
        call_ensures(restore_user_backup, (id, existed), summary),
    ensures
        r is Ok ==> exists|i: int|
            0 <= i < m.files@.len() && (#[trigger] m.files@[i]).path@ == "database/weiback.db"@
                && m.files@[i].length > 0,
        (forall|i: int|
            0 <= i < m.files@.len() && (#[trigger] m.files@[i]).path@ == "database/weiback.db"@
                ==> m.files@[i].length == 0) ==> r is Err,
        (exists|i: int|
            0 <= i < m.files@.len() && (#[trigger] m.files@[i]).path@ == "database/weiback.db"@) && (
        forall|i: int|
            0 <= i < m.files@.len() && (#[trigger] m.files@[i]).path@ == "database/weiback.db"@
                ==> m.files@[i].length > 0) ==> r is Ok,
        kept.stage@ != kept.old_db@ && kept.stage@ != kept.old_media@ && kept.stage@
            != kept.old_pictures@ && kept.stage@ != kept.old_videos@ && kept.stage@
            != kept.rollback_dir@,
        kept.old_db@ != kept.old_media@ && kept.old_db@ != kept.old_pictures@ && kept.old_db@
            != kept.old_videos@ && kept.old_media@ != kept.old_pictures@ && kept.old_media@
            != kept.old_videos@ && kept.old_pictures@ != kept.old_videos@,
        summary.id@ == id@,
        summary.rollback_created == existed,
        summary.restart_required,
{
    let base = manifest::backups_root(p);
    lemma_apart(base, operation@);
    if r is Err && exists|i: int|
        0 <= i < m.files@.len() && (#[trigger] m.files@[i]).path@ == "database/weiback.db"@ {
        assert(manifest::occurs_before(m.files@, m.files@.len() as int, "database/weiback.db"@));
    }
}

proof fn lemma_joined_apart(base: Seq<char>, a: Seq<char>, b: Seq<char>)
    requires
        a != b,
        a.len() > 0 && a[0] != '/',
        b.len() > 0 && b[0] != '/',
    ensures
        paths::joined(base, a) != paths::joined(base, b),
{
    let x = paths::joined(base, a);
    let y = paths::joined(base, b);
    if x == y {
        let lead = x.len() - a.len();
        assert(x.len() - b.len() == lead);
        assert(x.subrange(lead as int, x.len() as int) =~= a);
        assert(y.subrange(lead as int, y.len() as int) =~= b);
    }
}

proof fn lemma_apart(base: Seq<char>, operation: Seq<char>)
    ensures
        ({
            let stage = paths::joined(base, ".restore-"@ + operation);
            let db = paths::joined(base, ".old-db-"@ + operation);
            let media = paths::joined(base, ".old-media-"@ + operation);
            let pictures = paths::joined(base, ".old-pictures-"@ + operation);
            let videos = paths::joined(base, ".old-videos-"@ + operation);
            let rollback = paths::joined(base, "rollback-"@ + operation);
            &&& stage != db && stage != media && stage != pictures && stage != videos && stage
                != rollback
            &&& db != media && db != pictures && db != videos
            &&& media != pictures && media != videos && pictures != videos
        }),
{
    reveal_strlit(".restore-");
    reveal_strlit(".old-db-");
    reveal_strlit(".old-media-");
    reveal_strlit(".old-pictures-");
    reveal_strlit(".old-videos-");
    reveal_strlit("rollback-");
    let stage = ".restore-"@ + operation;
    let db = ".old-db-"@ + operation;
    let media = ".old-media-"@ + operation;
    let pictures = ".old-pictures-"@ + operation;
    let videos = ".old-videos-"@ + operation;
    let rollback = "rollback-"@ + operation;
    assert(stage[1] == 'r' && db[1] == 'o' && media[1] == 'o' && pictures[1] == 'o' && videos[1]
        == 'o');
    assert(stage[0] == '.' && rollback[0] == 'r');
    assert(db[5] == 'd' && media[5] == 'm' && pictures[5] == 'p' && videos[5] == 'v');
    lemma_joined_apart(base, stage, db);
    lemma_joined_apart(base, stage, media);
    lemma_joined_apart(base, stage, pictures);
    lemma_joined_apart(base, stage, videos);
    lemma_joined_apart(base, stage, rollback);
    lemma_joined_apart(base, db, media);
    lemma_joined_apart(base, db, pictures);
    lemma_joined_apart(base, db, videos);
    lemma_joined_apart(base, media, pictures);
    lemma_joined_apart(base, media, videos);
    lemma_joined_apart(base, pictures, videos);
}

} // verus!
