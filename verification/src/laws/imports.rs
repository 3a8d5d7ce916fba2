//! Imports: how a source is recognised, what is taken from it, and how its files come into place.
use vstd::prelude::*;

use crate::error::{Error, Result};
use crate::hash;
use crate::legacy::fingerprint;
use crate::legacy::fingerprint::{
    append_fingerprint_value, fingerprint_tables, hex_digits, snapshot_of,
    source_snapshot_fingerprint, TableSnapshot,
};
use crate::legacy::import;
use crate::legacy::import::{
    import_legacy_source, import_step, import_summary, insert_media_reference,
    upsert_import_media, CopyOutcome, ImportEvent, ImportManifest, ImportMediaRow, ImportRun,
    ImportStage, ImportStep, LegacyImportStatus, LegacyImportSummary, ManifestItem, MediaKind,
    MediaStep,
};
use crate::legacy::publish;
use crate::legacy::publish::{
    after_link, check_inside_media_root, compare_existing, is_recoverable, publish_manifest,
    publish_media_row, release_media_row, safe_media_destination, safe_relative_path,
    safe_staged_file, update_import_status, validate_batch_dir, validate_manifest,
    without_staged_file, ImportRecord, LinkOutcome, LinkStep, PublishStep, StagedProbe,
};
use crate::legacy::source;
use crate::legacy::source::{
    classify_source, detect_legacy_sources, has_signature, inspect_legacy_source,
    legacy_source_paths, read_sqlite_user_version, source_kind_name, LegacyDetection,
    LegacyImportRequest, LegacySourceKind, SourceProbe, TableInfo,
};
use crate::laws::media::faulted;
use crate::paths;
use crate::sync_executor::FinalizationBarrier;
use crate::text;

verus! {

/// An import begins with nothing, and every row of a source without files is pending.
pub proof fn imports_begin_empty(
    run: &mut ImportRun,
    made: ImportRun,
    rows: u64,
)
    requires
        call_ensures(ImportRun::new, (), made),
        call_ensures(ImportRun::import_python, (run, rows), ()),
    ensures
        made.copied == 0 && made.pending == 0 && made.manifest.items@.len() == 0,
        final(run).pending == old(run).pending + rows || old(run).pending + rows > u64::MAX,
        final(run).copied == old(run).copied,
        final(run).manifest == old(run).manifest,
{
}

/// Media without an address ends an import, downloaded media is left alone, and media without a
/// file becomes pending; none of these is copied.
pub proof fn media_without_a_file_is_pending(
    run: &mut ImportRun,
    kind: MediaKind,
    url: &str,
    path: Option<&str>,
    has_directory: bool,
    already_downloaded: bool,
    windows: bool,
    r: Result<MediaStep>,
)
    requires
        call_ensures(
            ImportRun::import_rust,
            (run, kind, url, path, has_directory, already_downloaded, windows),
            r,
        ),
    ensures
        final(run).copied == old(run).copied,
        final(run).manifest == old(run).manifest,
        url@.len() == 0 ==> faulted(r, "legacy media URL is invalid"@),
        url@.len() > 0 && (already_downloaded || path is None || !has_directory) ==> r == Ok::<
            MediaStep,
            Error,
        >(MediaStep::Record),
        final(run).pending == old(run).pending + 1 <==> url@.len() > 0 && !already_downloaded && (
        path is None || !has_directory),
        final(run).pending != old(run).pending ==> final(run).pending == old(run).pending + 1,
        (r matches Ok(MediaStep::Copy { .. })) ==> url@.len() > 0 && !already_downloaded
            && path is Some && has_directory,
{
}

/// A file is copied to a name made of the hash of its address and its own extension, in the directory
/// of its kind, unless its path begins at the root or leads upwards.
pub proof fn files_are_copied_below_their_kind(
    run: &mut ImportRun,
    kind: MediaKind,
    url: &str,
    path: &str,
    relative: String,
    read: &str,
    parts: Vec<paths::PathPart>,
    drive: bool,
    windows: bool,
    ext: Option<String>,
    hashed: u64,
    digits: String,
    r: Result<MediaStep>,
)
    requires
        url@.len() > 0,
        call_ensures(paths::with_slashes, (path, windows), relative),
        read@ == relative@,
        call_ensures(paths::components, (read,), parts),
        call_ensures(paths::has_drive, (path,), drive),
        call_ensures(paths::extension, (read,), ext),
        call_ensures(hash::stable_hash, (url,), hashed),
        call_ensures(text::hex_text, (hashed, 16), digits),
        call_ensures(ImportRun::import_rust, (run, kind, url, Some(path), true, false, windows), r),
    ensures
        r is Err <==> (windows && drive) || exists|i: int|
            0 <= i < parts@.len() && (#[trigger] parts@[i] is Root || parts@[i] is Parent),
        r is Err ==> faulted(r, "legacy media path escapes its root"@),
        r is Ok ==> (r matches Ok(MediaStep::Copy { staged_path, final_path }) && staged_path@
            == "files/"@ + final_path@ && final_path@ == (if kind == MediaKind::Videos {
            "videos"@
        } else {
            "pictures"@
        }) + "/"@ + (digits@ + "."@ + (if ext matches Some(e) && e@.len() > 0 {
            ext->Some_0@
        } else {
            "bin"@
        }))),
{
    let views = paths::parts_of(read@);
    assert forall|i: int| 0 <= i < parts@.len() implies (#[trigger] parts@[i] is Root
        <==> views[i] is Root) && (parts@[i] is Parent <==> views[i] is Parent) by {
        assert(views[i] == paths::part_view(parts@[i]));
    }
    if import::leads_out(read@) {
        let i = choose|i: int|
            0 <= i < views.len() && (#[trigger] views[i] is Root || views[i] is Parent);
        assert(parts@[i] is Root || parts@[i] is Parent);
    }
    if exists|i: int| 0 <= i < parts@.len() && (#[trigger] parts@[i] is Root || parts@[i] is Parent) {
        let i = choose|i: int|
            0 <= i < parts@.len() && (#[trigger] parts@[i] is Root || parts@[i] is Parent);
        assert(views[i] is Root || views[i] is Parent);
    }
}

/// What was copied is in the manifest, last and as it was copied, and may be published; what could
/// not be copied ends the import and leaves the manifest.
pub proof fn copied_files_can_be_published(
    run: &mut ImportRun,
    copying: &mut ImportRun,
    kind: MediaKind,
    url: &str,
    path: &str,
    windows: bool,
    staged_path: String,
    final_path: String,
    outcome: CopyOutcome,
    s: Result<()>,
    v: Result<()>,
)
    requires
        old(run).manifest.items@.len() == 0,
        call_ensures(
            ImportRun::import_rust,
            (run, kind, url, Some(path), true, false, windows),
            Ok::<MediaStep, Error>(MediaStep::Copy { staged_path, final_path }),
        ),
        *old(copying) == *final(run),
        call_ensures(
            ImportRun::copy_legacy_media,
            (copying, kind, url, staged_path, final_path, outcome),
            s,
        ),
        call_ensures(validate_manifest, (&final(copying).manifest, windows), v),
    ensures
        outcome == CopyOutcome::Copied ==> s is Ok && final(copying).copied == old(copying).copied
            + 1 && final(copying).manifest.items@.len() == 1 && ({
            let item = final(copying).manifest.items@[0];
            &&& item.url@ == url@
            &&& item.staged_path@ == staged_path@
            &&& item.final_path@ == final_path@
            &&& kind == MediaKind::Videos ==> item.media_type@ == "video"@
            &&& kind == MediaKind::Pictures ==> item.media_type@ == "picture"@
        }),
        outcome == CopyOutcome::Missing ==> faulted(s, "legacy media path is unavailable"@),
        outcome == CopyOutcome::Outside ==> faulted(s, "legacy media path escapes its root"@),
        s is Err ==> *final(copying) == *old(copying),
        final(copying).pending == old(copying).pending,
        v is Ok,
{
    let items = final(copying).manifest.items@;
    if outcome == CopyOutcome::Copied {
        assert(items.drop_last().len() == 0);
        assert(items[0] == items.last());
        publish::staged_items_are_safe(items[0], kind, url@, path@, windows);
    }
    if v is Err {
        let i = choose|i: int|
            0 <= i < items.len() && publish::item_fault(#[trigger] items[i], windows) is Some;
        assert(i == 0);
    }
}

/// A new row is pending and held for its import; a row that turns out to be a video starts again;
/// a downloaded video is left alone; any other row keeps its file and is held.
pub proof fn rows_are_held_for_their_import(
    row: ImportMediaRow,
    media_type: &str,
    batch: &str,
    fresh: ImportMediaRow,
    r: ImportMediaRow,
)
    requires
        call_ensures(upsert_import_media, (None, media_type, batch), fresh),
        call_ensures(upsert_import_media, (Some(row), media_type, batch), r),
    ensures
        fresh.media_type@ == media_type@ && fresh.local_path is None && fresh.status@ == "pending"@
            && fresh.content_length is None && fresh.import_hold && (
        fresh.import_batch matches Some(b) && b@ == batch@),
        row.media_type@ == "video"@ && row.status@ == "downloaded"@ ==> r.media_type@ == "video"@
            && r.status@ == "downloaded"@ && r.local_path == row.local_path && r.content_length
            == row.content_length && r.import_hold == row.import_hold && text::opt_view(
            r.import_batch,
        ) == text::opt_view(row.import_batch),
        !(row.media_type@ == "video"@ && row.status@ == "downloaded"@) ==> r.import_hold && (
        r.import_batch matches Some(b) && b@ == batch@),
        row.media_type@ != "video"@ && media_type@ == "video"@ ==> r.media_type@ == "video"@
            && r.status@ == "pending"@ && r.local_path is None && r.content_length is None,
        row.media_type@ == "video"@ || media_type@ != "video"@ ==> r.media_type@ == row.media_type@
            && r.status@ == row.status@ && r.local_path == row.local_path && r.content_length
            == row.content_length,
{
}

/// A post refers to imported media once: a reference is added if there is none, or only ones without
/// a definition while it has one.
pub proof fn references_are_made_once(
    existing: Vec<String>,
    definition: Option<&str>,
    r: bool,
)
    requires
        call_ensures(insert_media_reference, (&existing, definition), r),
    ensures
        existing@.len() == 0 ==> r,
        (exists|i: int| 0 <= i < existing@.len() && (#[trigger] existing@[i])@.len() > 0) ==> !r,
        definition is None && existing@.len() > 0 ==> !r,
        (definition matches Some(d) && d@.len() == 0) && existing@.len() > 0 ==> !r,
        (definition matches Some(d) && d@.len() > 0) && (forall|i: int|
            0 <= i < existing@.len() ==> (#[trigger] existing@[i])@.len() == 0) ==> r,
{
    let views = text::list_view(existing@);
    let wanted = match definition {
        Some(d) => d@,
        None => Seq::empty(),
    };
    assert forall|i: int| 0 <= i < views.len() implies #[trigger] views[i] == existing@[i]@ by {}
    if exists|i: int| 0 <= i < existing@.len() && (#[trigger] existing@[i])@.len() > 0 {
        let i = choose|i: int| 0 <= i < existing@.len() && (#[trigger] existing@[i])@.len() > 0;
        assert(views[i].len() > 0);
    }
    if wanted.len() == 0 && existing@.len() > 0 {
        assert(views[0] == existing@[0]@);
        if views[0].len() == 0 {
            assert(views[0] =~= wanted);
            assert(views.contains(wanted));
        }
    }
    if wanted.len() > 0 && forall|i: int|
        0 <= i < existing@.len() ==> (#[trigger] existing@[i])@.len() == 0 {
        assert forall|i: int| 0 <= i < views.len() implies (#[trigger] views[i]).len() == 0 by {
            assert(existing@[i]@.len() == 0);
        }
    }
}

/// An import that succeeds commits, publishes, records and finishes, in this order, and tells in
/// the end whether its files came into place.
pub proof fn successful_imports_take_four_steps(
    published: bool,
    a: (ImportStage, ImportStep),
    b: (ImportStage, ImportStep),
    c: (ImportStage, ImportStep),
    d: (ImportStage, ImportStep),
)
    requires
        call_ensures(
            import_step,
            (ImportStage::Importing, ImportEvent::Imported(Ok(())), false),
            a,
        ),
        call_ensures(import_step, (a.0, ImportEvent::Committed(Ok(())), false), b),
        call_ensures(import_step, (b.0, ImportEvent::Published(published), false), c),
        call_ensures(import_step, (c.0, ImportEvent::Recorded, false), d),
    ensures
        a.1 is Commit,
        b.1 is Publish,
        c.1 matches ImportStep::Record { published: p } && p == published,
        d.1 matches ImportStep::Finish { published: p } && p == published,
        d.0 == (ImportStage::Ended { committed: true }),
{
}

/// A failure before the commit discards what was staged and, unless the commit itself failed, rolls
/// back; a failure after it keeps both. The error is the one that happened.
pub proof fn failed_imports_keep_what_is_committed(
    stage: ImportStage,
    e: Error,
    test: bool,
    a: (ImportStage, ImportStep),
    b: (ImportStage, ImportStep),
    c: (ImportStage, ImportStep),
    t: (ImportStage, ImportStep),
)
    requires
        stage is Publishing || stage is Recording,
        call_ensures(import_step, (ImportStage::Importing, ImportEvent::Imported(Err(e)), test), a),
        call_ensures(
            import_step,
            (ImportStage::Committing, ImportEvent::Committed(Err(e)), test),
            b,
        ),
        call_ensures(import_step, (stage, ImportEvent::Stopped(e), test), c),
        call_ensures(
            import_step,
            (ImportStage::Importing, ImportEvent::Imported(Ok(())), true),
            t,
        ),
    ensures
        a == (
            ImportStage::Ended { committed: false },
            ImportStep::Fail { error: e, roll_back: true, discard_staging: true },
        ),
        b == (
            ImportStage::Ended { committed: false },
            ImportStep::Fail { error: e, roll_back: false, discard_staging: true },
        ),
        c == (
            ImportStage::Ended { committed: true },
            ImportStep::Fail { error: e, roll_back: false, discard_staging: false },
        ),
        t.0 == (ImportStage::Ended { committed: false }),
        t.1 matches ImportStep::Fail { roll_back, discard_staging, .. } && roll_back
            && discard_staging,
{
}

/// The summary of an import says what was read and copied, and a code if its files did not come into
/// place. A source that was imported completely before is not imported again.
pub proof fn imports_are_summed_up(
    source: LegacyDetection,
    run: ImportRun,
    posts: u64,
    users: u64,
    rollback_backup: String,
    published: bool,
    r: LegacyImportSummary,
    again: Option<LegacyImportSummary>,
    first: Option<LegacyImportSummary>,
)
    requires
        call_ensures(
            import_summary,
            (source, &run, posts, users, rollback_backup, published),
            r,
        ),
        call_ensures(import_legacy_source, (&source, true), again),
        call_ensures(import_legacy_source, (&source, false), first),
    ensures
        r.source == source && r.posts == posts && r.users == users && r.rollback_backup
            == rollback_backup,
        r.media_copied == run.copied && r.media_pending == run.pending,
        published ==> r.status == LegacyImportStatus::Completed && r.diagnostic_code is None,
        !published ==> r.status == LegacyImportStatus::PartialRecoverable && (
        r.diagnostic_code matches Some(c) && c@ == "LEGACY_IMPORT_POSTCOMMIT_PUBLISH_FAILED"@),
        first is None,
        again matches Some(s) && s.source == source && s.status
            == LegacyImportStatus::AlreadyCompleted && s.posts == 0 && s.users == 0
            && s.media_copied == 0 && s.media_pending == 0 && s.rollback_backup@.len() == 0
            && s.diagnostic_code is None,
{
}

/// A batch is named by the prefix of batches and a UUID, and lies inside the imports.
pub proof fn batches_are_known_by_name(
    staging: &str,
    inside: bool,
    name: Option<String>,
    r: Result<()>,
)
    requires
        call_ensures(paths::file_name, (staging,), name),
        call_ensures(validate_batch_dir, (staging, inside), r),
    ensures
        r is Ok ==> inside && (name matches Some(n) && n@.len() > 13 && n@.subrange(0, 13)
            == "import-media-"@ && publish::uuid_text(n@.subrange(13, n@.len() as int))),
        (name matches Some(n) && n@.len() >= 13 && n@.subrange(0, 13) == "import-media-"@
            && publish::uuid_text(n@.subrange(13, n@.len() as int))) ==> (r is Ok <==> inside) && (
        !inside ==> faulted(r, "legacy import batch escapes imports root"@)),
        name is None ==> faulted(r, "legacy import batch name is invalid"@),
        (name matches Some(n) && !(n@.len() >= 13 && n@.subrange(0, 13) == "import-media-"@))
            ==> faulted(r, "legacy import batch name is invalid"@),
{
    reveal_strlit("import-media-");
    if let Some(n) = name {
        if n@.len() == 13 {
            assert(n@.subrange(13, 13).len() == 0);
            assert(!publish::uuid_text(n@.subrange(13, 13)));
        }
    }
}

/// A text is a UUID only if it holds hexadecimal digits and the marks of its form, and nothing
/// else.
pub proof fn uuids_have_four_forms(s: Seq<char>)
    ensures
        publish::uuid_text(s) ==> s.len() == 32 || s.len() == 36 || s.len() == 38 || s.len() == 45,
        publish::uuid_text(s) && s.len() == 32 ==> forall|i: int|
            0 <= i < 32 ==> ('0' <= #[trigger] s[i] <= '9' || 'a' <= s[i] <= 'f' || 'A' <= s[i]
                <= 'F'),
        s.len() == 32 && (forall|i: int| 0 <= i < 32 ==> '0' <= #[trigger] s[i] <= '9')
            ==> publish::uuid_text(s),
        publish::uuid_text(s) && s.len() == 36 ==> s[8] == '-' && s[13] == '-' && s[18] == '-'
            && s[23] == '-' && s[0] != '-',
{
}

/// A path of a manifest is accepted exactly if it consists of names; a staged one has to lead into
/// the directory of the staged files and to a file inside the batch as well.
pub proof fn manifests_name_inner_paths(
    value: &str,
    field: &str,
    windows: bool,
    why: String,
    names: bool,
    relative: String,
    read: &str,
    parts: Vec<paths::PathPart>,
    r: Result<()>,
    inside: Result<()>,
    outside: Result<()>,
    unresolved: Result<()>,
)
    requires
        call_ensures(paths::is_names_only, (value, windows), names),
        call_ensures(paths::with_slashes, (value, windows), relative),
        read@ == relative@,
        call_ensures(paths::components, (read,), parts),
        call_ensures(safe_relative_path, (value, field, windows), r),
        call_ensures(safe_staged_file, (value, StagedProbe::Inside, windows), inside),
        call_ensures(safe_staged_file, (value, StagedProbe::Outside, windows), outside),
        call_ensures(safe_staged_file, (value, StagedProbe::Unresolved(why), windows), unresolved),
    ensures
        r is Ok <==> names,
        r is Err ==> faulted(r, "legacy manifest "@ + field@ + " path is invalid"@),
        inside is Ok <==> names && parts@.len() > 0 && (
        parts@[0] matches paths::PathPart::Normal(n) && n@ == "files"@),
        inside is Err ==> faulted(inside, "legacy manifest staged path is invalid"@)
            && faulted(outside, "legacy manifest staged path is invalid"@)
            && faulted(unresolved, "legacy manifest staged path is invalid"@),
        inside is Ok ==> faulted(outside, "legacy manifest staged path escapes batch"@)
            && unresolved == Err::<(), Error>(Error::Io(why)),
{
    let views = paths::parts_of(read@);
    if views.len() > 0 {
        assert(views[0] == paths::part_view(parts@[0]));
    }
    assert(views.len() == paths::parts_view(parts@).len());
}

/// A manifest is accepted exactly if each of its items is, and what is told of a refused one is what
/// is wrong with its first bad item.
pub proof fn manifests_are_judged_item_by_item(
    manifest: ImportManifest,
    windows: bool,
    staged: Seq<Result<()>>,
    last: Seq<Result<()>>,
    staged_texts: Seq<&str>,
    last_texts: Seq<&str>,
    r: Result<()>,
)
    requires
        staged.len() == manifest.items@.len(),
        last.len() == manifest.items@.len(),
        forall|i: int|
            0 <= i < staged.len() ==> staged_texts[i]@ == manifest.items@[i].staged_path@
                && call_ensures(
                safe_staged_file,
                (staged_texts[i], StagedProbe::Inside, windows),
                #[trigger] staged[i],
            ),
        forall|i: int|
            0 <= i < last.len() ==> last_texts[i]@ == manifest.items@[i].final_path@
                && call_ensures(
                safe_relative_path,
                (last_texts[i], "final", windows),
                #[trigger] last[i],
            ),
        call_ensures(validate_manifest, (&manifest, windows), r),
    ensures
        r is Ok <==> (forall|i: int|
            0 <= i < staged.len() ==> #[trigger] staged[i] is Ok && last[i] is Ok),
{
    let items = manifest.items@;
    assert forall|i: int| 0 <= i < items.len() implies publish::safe_item(
        #[trigger] items[i],
        windows,
    ) == (staged[i] is Ok && last[i] is Ok) by {
        assert(call_ensures(
            safe_staged_file,
            (staged_texts[i], StagedProbe::Inside, windows),
            staged[i],
        ));
        assert(call_ensures(safe_relative_path, (last_texts[i], "final", windows), last[i]));
    }
    if r is Err {
        let i = choose|i: int|
            0 <= i < items.len() && publish::item_fault(#[trigger] items[i], windows) is Some;
        assert(!publish::safe_item(items[i], windows));
        assert(!(staged[i] is Ok && last[i] is Ok));
    } else {
        assert forall|i: int| 0 <= i < staged.len() implies #[trigger] staged[i] is Ok
            && last[i] is Ok by {
            assert(publish::safe_item(items[i], windows));
        }
    }
}

/// A file below two directories is put there after both have been made, the outer one first.
pub proof fn directories_are_made_from_the_outside(
    value: &str,
    parts: Vec<paths::PathPart>,
    r: Vec<String>,
)
    requires
        paths::names_only(value@, false),
        call_ensures(paths::components, (value,), parts),
        call_ensures(safe_media_destination, (value, false), r),
    ensures
        parts@.len() > 0 ==> r@.len() == parts@.len() - 1,
        parts@.len() > 1 ==> (parts@[0] matches paths::PathPart::Normal(n) && r@[0]@ == n@),
        parts@.len() > 2 ==> (parts@[1] matches paths::PathPart::Normal(n) && r@[1]@
            == paths::joined(r@[0]@, n@)),
{
    let views = paths::parts_of(value@);
    assert(views.len() == paths::parts_view(parts@).len());
    if views.len() > 0 {
        lemma_directories(views, views.len() - 1);
    }
    assert forall|i: int| 0 <= i < parts@.len() implies paths::part_view(#[trigger] parts@[i])
        == views[i] by {}
    assert(text::list_view(r@).len() == r@.len());
    if parts@.len() > 1 {
        assert(views[0] is Normal);
        assert(paths::part_view(parts@[0]) == views[0]);
        lemma_directories(views, 1);
        lemma_directory_at(views, views.len() - 1, 0);
        reveal_with_fuel(publish::directories_to, 2);
        assert(text::list_view(r@)[0] == r@[0]@);
        assert(r@[0]@ == paths::joined(Seq::empty(), parts@[0]->Normal_0@));
    }
    if parts@.len() > 2 {
        assert(views[1] is Normal);
        assert(paths::part_view(parts@[1]) == views[1]);
        lemma_directory_at(views, views.len() - 1, 1);
        reveal_with_fuel(publish::directories_to, 3);
        assert(text::list_view(r@)[1] == r@[1]@);
    }
}

proof fn lemma_directories(parts: Seq<paths::PartView>, n: int)
    requires
        n >= 0,
    ensures
        publish::directories_to(parts, n).len() == n,
    decreases n,
{
    if n > 0 {
        lemma_directories(parts, n - 1);
    }
}

proof fn lemma_directory_at(parts: Seq<paths::PartView>, n: int, i: int)
    requires
        0 <= i < n,
    ensures
        publish::directories_to(parts, n)[i] == publish::directories_to(parts, i + 1)[i],
    decreases n,
{
    lemma_directories(parts, n - 1);
    if i < n - 1 {
        lemma_directory_at(parts, n - 1, i);
    }
}

/// What lies outside of the media root, what has another file in its place and what is not there is
/// refused, and nothing else.
pub proof fn files_come_into_place_once(
    inside: Result<()>,
    outside: Result<()>,
    same: Result<()>,
    other: Result<()>,
    earlier: Result<()>,
    missing: Result<()>,
)
    requires
        call_ensures(check_inside_media_root, (true,), inside),
        call_ensures(check_inside_media_root, (false,), outside),
        call_ensures(compare_existing, (true,), same),
        call_ensures(compare_existing, (false,), other),
        call_ensures(without_staged_file, (true,), earlier),
        call_ensures(without_staged_file, (false,), missing),
    ensures
        inside is Ok && same is Ok && earlier is Ok,
        faulted(outside, "legacy manifest final path escapes media root"@),
        faulted(other, "legacy media destination already exists"@),
        faulted(missing, "legacy media staging file is unavailable"@),
{
}

/// A link that cannot cross devices is replaced by a copy, once; a file that is there is compared;
/// any other failure is passed on.
pub proof fn links_fall_back_to_copies(
    why: String,
    was_copy: bool,
    done: LinkStep,
    there: LinkStep,
    failed: LinkStep,
    crossing: LinkStep,
    copied: LinkStep,
)
    requires
        call_ensures(after_link, (LinkOutcome::Done, was_copy), done),
        call_ensures(after_link, (LinkOutcome::AlreadyExists, was_copy), there),
        call_ensures(after_link, (LinkOutcome::Failed(why), was_copy), failed),
        call_ensures(after_link, (LinkOutcome::CrossesDevices(why), false), crossing),
        call_ensures(after_link, (LinkOutcome::CrossesDevices(why), true), copied),
    ensures
        done is Placed,
        there is Compare,
        failed == LinkStep::Fail(Error::Io(why)),
        crossing is Copy,
        copied == LinkStep::Fail(Error::Io(why)),
{
}

/// The items of a manifest are published one by one, and the rows that are left are released after
/// the last.
pub proof fn items_are_published_one_by_one(
    manifest: ImportManifest,
    done: usize,
    after: usize,
    r: Result<PublishStep>,
    faulty: Result<PublishStep>,
)
    requires
        call_ensures(publish_manifest, (&manifest, done, None), r),
        call_ensures(publish_manifest, (&manifest, done, Some(after)), faulty),
    ensures
        done < manifest.items@.len() ==> r == Ok::<PublishStep, Error>(PublishStep::Item(done)),
        done >= manifest.items@.len() ==> r == Ok::<PublishStep, Error>(PublishStep::Release),
        faulty is Err <==> done < manifest.items@.len() && after == done,
        faulty is Ok ==> faulty == r,
{
}

/// Publishing gives a row of the import that waits for its file this file; releasing lets it be
/// downloaded instead. Rows of another import, or with a file, stay as they are either way.
pub proof fn only_waiting_rows_are_published(
    row: ImportMediaRow,
    item: ManifestItem,
    length: u64,
    batch: &str,
    p: ImportMediaRow,
    r: ImportMediaRow,
    again: ImportMediaRow,
)
    requires
        call_ensures(publish_media_row, (row, &item, length, batch), p),
        call_ensures(release_media_row, (row, batch), r),
        call_ensures(release_media_row, (r, batch), again),
    ensures
        row.status@ != "pending"@ || !row.import_hold || row.local_path is Some || (
        row.import_batch matches Some(b) ==> b@ != batch@) ==> p == row && r == row,
        row.status@ == "pending"@ && row.import_hold && row.local_path is None && (
        row.import_batch matches Some(b) && b@ == batch@) ==> {
            &&& row.media_type@ != item.media_type@ ==> p == row
            &&& row.media_type@ == item.media_type@ ==> p.status@ == "downloaded"@ && (
            p.local_path matches Some(l) && l@ == item.final_path@) && (length <= i64::MAX
                ==> p.content_length == Some(length as i64)) && (length > i64::MAX
                ==> p.content_length == Some(i64::MAX)) && !p.import_hold && p.import_batch is None
                && p.media_type == row.media_type
            &&& !r.import_hold && r.import_batch is None && r.status == row.status && r.media_type
                == row.media_type && r.local_path == row.local_path && r.content_length
                == row.content_length
        },
        again == r,
{
}

/// A published import is completed at that time; one that is not can be published again, and keeps
/// the time of an earlier completion.
pub proof fn unpublished_imports_can_be_recovered(
    record: ImportRecord,
    now: &str,
    done: ImportRecord,
    partial: ImportRecord,
    done_status: &str,
    partial_status: &str,
    d: bool,
    p: bool,
    pending: bool,
)
    requires
        call_ensures(update_import_status, (record, true, now), done),
        call_ensures(update_import_status, (record, false, now), partial),
        done_status@ == done.status@,
        partial_status@ == partial.status@,
        call_ensures(is_recoverable, (done_status,), d),
        call_ensures(is_recoverable, (partial_status,), p),
        call_ensures(is_recoverable, ("pending_publish",), pending),
    ensures
        done.status@ == "completed"@ && done.updated_at@ == now@,
        done.completed_at matches Some(t) && t@ == now@,
        partial.status@ == "partial_recoverable"@ && partial.updated_at@ == now@,
        partial.completed_at == record.completed_at,
        !d && p && pending,
{
    reveal_strlit("completed");
    reveal_strlit("pending_publish");
    reveal_strlit("partial_recoverable");
    assert("completed"@.len() != "pending_publish"@.len());
    assert("completed"@.len() != "partial_recoverable"@.len());
}

/// Whether a table has all of the columns.
pub open spec fn has_columns(table: TableInfo, columns: Seq<Seq<char>>) -> bool {
    forall|j: int|
        0 <= j < columns.len() ==> text::list_view(table.columns@).contains(#[trigger] columns[j])
}

/// Whether a table with the given name is among the tables, and has all of the columns.
pub open spec fn table_with(tables: Seq<TableInfo>, name: Seq<char>, columns: Seq<Seq<char>>) -> bool {
    exists|i: int|
        0 <= i < tables.len() && (#[trigger] tables[i]).name@ == name && has_columns(
            tables[i],
            columns,
        )
}

/// A source is known by its tables: those of exactly one of the two programs, with the columns that
/// an import reads. Tables of both, or of neither, tell nothing.
pub proof fn sources_are_known_by_their_tables(
    tables: Vec<TableInfo>,
    r: Option<LegacySourceKind>,
)
    requires
        call_ensures(classify_source, (&tables,), r),
    ensures
        ({
            let first = table_with(tables@, "posts"@, seq!["id"@, "text"@, "uid"@]) && table_with(
                tables@,
                "users"@,
                seq!["id"@, "screen_name"@],
            ) && table_with(tables@, "picture"@, seq!["url"@, "path"@, "post_id"@]) && table_with(
                tables@,
                "video"@,
                seq!["url"@, "path"@, "post_id"@],
            );
            let second = table_with(tables@, "weibo"@, seq!["id"@, "text"@, "uid"@]) && table_with(
                tables@,
                "user"@,
                seq!["id"@, "screen_name"@],
            ) && table_with(tables@, "image"@, seq!["url"@, "post_id"@]);
            &&& r == Some(LegacySourceKind::RustV1) <==> first && !second
            &&& r == Some(LegacySourceKind::PythonV2) <==> second && !first
        }),
{
}

/// A table is found by its name and by one of the columns that are asked for.
pub proof fn tables_are_found_by_their_columns(
    tables: Vec<TableInfo>,
    name: &str,
    columns: Vec<&str>,
    r: bool,
)
    requires
        call_ensures(has_signature, (&tables, name, &columns), r),
    ensures
        r == table_with(tables@, name@, Seq::new(columns@.len(), |i: int| columns@[i]@)),
        tables@.len() == 0 ==> !r,
{
}

/// The two kinds of sources have different names and are read table by table.
pub proof fn kinds_have_their_names(
    first: &'static str,
    second: &'static str,
    first_tables: Vec<String>,
    second_tables: Vec<String>,
)
    requires
        call_ensures(source_kind_name, (LegacySourceKind::RustV1,), first),
        call_ensures(source_kind_name, (LegacySourceKind::PythonV2,), second),
        call_ensures(fingerprint_tables, (LegacySourceKind::RustV1,), first_tables),
        call_ensures(fingerprint_tables, (LegacySourceKind::PythonV2,), second_tables),
    ensures
        first@ == "rust_v1"@,
        second@ == "python_v2"@,
        first@ != second@,
        text::list_view(first_tables@) == seq!["users"@, "posts"@, "picture"@, "video"@],
        text::list_view(second_tables@) == seq!["user"@, "weibo"@, "image"@],
{
    reveal_strlit("rust_v1");
    reveal_strlit("python_v2");
    assert("rust_v1"@.len() != "python_v2"@.len());
}

/// The version of a database is read from its head, big end first; a file with another beginning, or
/// one that is too short, has none.
pub proof fn versions_are_read_from_the_head(
    header: Vec<u8>,
    r: Option<u32>,
)
    requires
        call_ensures(read_sqlite_user_version, (&header,), r),
    ensures
        header@.len() < 64 ==> r is None,
        header@.len() >= 64 ==> (r is Some <==> header@.subrange(0, 16) == seq![
            83u8,
            81,
            76,
            105,
            116,
            101,
            32,
            102,
            111,
            114,
            109,
            97,
            116,
            32,
            51,
            0,
        ]),
        r matches Some(v) ==> v == header@[60] as int * 0x100_0000 + header@[61] as int * 0x1_0000
            + header@[62] as int * 0x100 + header@[63] as int,
{
}

/// A file is a source if it exists, is not the current database, is a database of one of the two
/// programs, and lies in a directory; what is told of it is what was found.
pub proof fn sources_are_told_as_found(
    probe: SourceProbe,
    version: Option<u32>,
    kind: Option<LegacySourceKind>,
    source: &str,
    root: Option<String>,
    r: Result<LegacyDetection>,
    list: Vec<LegacyDetection>,
)
    requires
        probe.source matches Some(s) ==> s@ == source@,
        call_ensures(read_sqlite_user_version, (&probe.header,), version),
        call_ensures(classify_source, (&probe.tables,), kind),
        call_ensures(paths::parent, (source,), root),
        call_ensures(inspect_legacy_source, (&probe,), r),
        call_ensures(detect_legacy_sources, (r,), list),
    ensures
        r is Ok <==> probe.source is Some && source@ != probe.current@ && probe.is_file
            && version is Some && kind is Some && root is Some,
        probe.source is None ==> faulted(r, "legacy source is unavailable"@),
        probe.source is Some && source@ == probe.current@ ==> faulted(
            r,
            "legacy source cannot be the current database"@,
        ),
        probe.source is Some && source@ != probe.current@ && (!probe.is_file || version is None)
            ==> faulted(r, "legacy source is not a supported SQLite database"@),
        probe.source is Some && source@ != probe.current@ && probe.is_file && version is Some
            && kind is None ==> faulted(r, "legacy source schema is unknown or ambiguous"@),
        r matches Ok(d) ==> {
            &&& Some(d.kind) == kind
            &&& d.db_path@ == source@
            &&& Some(d.schema_version) == version
            &&& d.media_root@ == root->Some_0@
            &&& d.kind == LegacySourceKind::RustV1 ==> (d.picture_dir is Some
                <==> probe.has_pictures) && (d.picture_dir matches Some(p) ==> p@ == paths::joined(
                d.media_root@,
                "pictures"@,
            )) && (d.video_dir is Some <==> probe.has_videos) && (d.video_dir matches Some(v)
                ==> v@ == paths::joined(d.media_root@, "videos"@))
            &&& d.kind == LegacySourceKind::PythonV2 ==> (d.picture_dir is Some
                <==> probe.has_images) && (d.picture_dir matches Some(p) ==> p@ == paths::joined(
                d.media_root@,
                "images"@,
            )) && d.video_dir is None
            &&& list@ == seq![d]
        },
        r is Err ==> list@.len() == 0,
{
}

/// A source is looked for beside the current data, under the name of the earlier programs.
pub proof fn sources_lie_beside_the_data(
    data_root: &str,
    r: (String, String),
    namespace: String,
    folder: &str,
    old_db: String,
    new_db: String,
)
    requires
        call_ensures(legacy_source_paths, (data_root,), r),
        call_ensures(paths::join, (data_root, "weiback"), namespace),
        folder@ == namespace@,
        call_ensures(paths::join, (folder, "weiback.db"), old_db),
        call_ensures(paths::join, (data_root, "weiback-next/weiback.db"), new_db),
    ensures
        r.0@ == old_db@,
        r.1@ == new_db@,
{
}

/// A request has no faults unless they are asked for, and asking for one changes nothing else.
pub proof fn requests_have_no_faults(
    source_path: String,
    media_root: String,
    imports_dir: String,
    after: usize,
    reached: FinalizationBarrier,
    resume: FinalizationBarrier,
    plain: LegacyImportRequest,
    failing: LegacyImportRequest,
    uncommitted: LegacyImportRequest,
    stopped: LegacyImportRequest,
)
    requires
        call_ensures(LegacyImportRequest::new, (source_path, media_root, imports_dir), plain),
        call_ensures(
            LegacyImportRequest::with_publish_failure_after_for_test,
            (plain, after),
            failing,
        ),
        call_ensures(LegacyImportRequest::with_commit_failure_for_test, (plain,), uncommitted),
        call_ensures(
            LegacyImportRequest::with_fingerprint_gap_for_test,
            (plain, reached, resume),
            stopped,
        ),
    ensures
        plain.source_path == source_path && plain.media_root == media_root && plain.imports_dir
            == imports_dir,
        plain.publish_failure_after_for_test is None && !plain.commit_failure_for_test
            && plain.fingerprint_gap_for_test is None,
        failing.publish_failure_after_for_test == Some(after) && failing.source_path == source_path
            && !failing.commit_failure_for_test,
        uncommitted.commit_failure_for_test && uncommitted.publish_failure_after_for_test is None
            && uncommitted.imports_dir == imports_dir,
        stopped.fingerprint_gap_for_test == Some((reached, resume)) && stopped.media_root
            == media_root && !stopped.commit_failure_for_test,
{
}

/// A value is appended as its length in bytes, a colon, its bytes and a comma.
pub proof fn values_are_appended_with_their_length(
    bytes: &mut Vec<u8>,
    value: &str,
    length: u64,
    digits: String,
)
    requires
        length == vstd::utf8::encode_utf8(value@).len(),
        call_ensures(text::u64_text, (length,), digits),
        call_ensures(append_fingerprint_value, (bytes, value), ()),
    ensures
        final(bytes)@ == old(bytes)@ + Seq::new(digits@.len(), |i: int| digits@[i] as u8) + seq![
            58u8,
        ] + vstd::utf8::encode_utf8(value@) + seq![44u8],
{
}

/// A snapshot grows table by table: one more table without rows adds its name and its declaration
/// after a mark, and changes nothing before it.
pub proof fn snapshots_grow_by_tables(
    kind: LegacySourceKind,
    tables: Vec<TableSnapshot>,
    more: Vec<TableSnapshot>,
    table: TableSnapshot,
    declared: &mut Vec<u8>,
    schema: &str,
    a: Vec<u8>,
    b: Vec<u8>,
)
    requires
        more@ == tables@.push(table),
        table.rows@.len() == 0,
        table.schema matches Some(s) ==> s@ == schema@,
        table.schema is None ==> schema@.len() == 0,
        old(declared)@.len() == 0,
        call_ensures(append_fingerprint_value, (declared, schema), ()),
        call_ensures(snapshot_of, (kind, &tables), a),
        call_ensures(snapshot_of, (kind, &more), b),
    ensures
        b@ == a@ + seq![116u8, 97, 98, 108, 101, 58] + vstd::utf8::encode_utf8(table.name@) + seq![
            10u8,
        ] + final(declared)@ + seq![10u8],
{
    assert(more@.drop_last() == tables@);
    if table.schema is None {
        assert(schema@ =~= Seq::<char>::empty());
    }
    assert(final(declared)@ =~= fingerprint::value_bytes(schema@));
}

/// A snapshot grows row by row: one more row of the last table adds its values between a mark and a
/// line end.
pub proof fn snapshots_grow_by_rows(
    kind: LegacySourceKind,
    tables: Vec<TableSnapshot>,
    more: Vec<TableSnapshot>,
    table: TableSnapshot,
    longer: TableSnapshot,
    row: Vec<String>,
    value: &str,
    written: &mut Vec<u8>,
    a: Vec<u8>,
    b: Vec<u8>,
)
    requires
        tables@.len() > 0,
        tables@.last() == table,
        more@ == tables@.update(tables@.len() - 1, longer),
        longer.name == table.name && longer.schema == table.schema,
        longer.rows@ == table.rows@.push(row),
        row@.len() == 1,
        row@[0]@ == value@,
        old(written)@.len() == 0,
        call_ensures(append_fingerprint_value, (written, value), ()),
        call_ensures(snapshot_of, (kind, &tables), a),
        call_ensures(snapshot_of, (kind, &more), b),
    ensures
        b@ == a@ + seq![114u8, 111, 119, 58] + final(written)@ + seq![10u8],
{
    assert(more@.drop_last() == tables@.drop_last());
    assert(more@.last() == longer);
    assert(longer.rows@.drop_last() == table.rows@);
    assert(row@.drop_last() =~= Seq::<String>::empty());
    assert(fingerprint::values_bytes(row@.drop_last()) =~= Seq::<u8>::empty());
    assert(fingerprint::values_bytes(row@) =~= fingerprint::value_bytes(value@));
    assert(final(written)@ =~= fingerprint::value_bytes(value@));
    assert(fingerprint::rows_bytes(longer.rows@) =~= fingerprint::rows_bytes(table.rows@)
        + fingerprint::row_bytes(row@));
}

/// A fingerprint is the digest of the snapshot, in hexadecimal digits after a mark: the same
/// contents have the same fingerprint.
pub proof fn fingerprints_are_digests_of_snapshots(
    kind: LegacySourceKind,
    tables: Vec<TableSnapshot>,
    bytes: Vec<u8>,
    input: &[u8],
    digest: [u8; 32],
    output: &[u8],
    digits: String,
    r: String,
)
    requires
        call_ensures(snapshot_of, (kind, &tables), bytes),
        input@ == bytes@,
        call_ensures(hash::sha256, (input,), digest),
        output@ == digest@,
        call_ensures(hex_digits, (output,), digits),
        call_ensures(source_snapshot_fingerprint, (kind, &tables), r),
    ensures
        r@ == "sha256:"@ + digits@,
{
}

/// Bytes are written as two hexadecimal digits each, in order.
pub proof fn bytes_have_two_digits(a: &[u8], b: &[u8], last: u8, x: String, y: String, digits: String)
    requires
        b@ == a@.push(last),
        call_ensures(hex_digits, (a,), x),
        call_ensures(hex_digits, (b,), y),
        call_ensures(text::hex_text, (last as u64, 2), digits),
    ensures
        a@.len() == 0 ==> x@.len() == 0,
        y@ == x@ + digits@,
{
    assert(b@.drop_last() =~= a@);
}

} // verus!
