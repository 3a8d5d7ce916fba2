//! The import itself: which media is copied, what the rows become, and how it ends.
use vstd::prelude::*;

use crate::error;
use crate::error::{Error, Result};
use crate::hash;
use crate::legacy::source::LegacyDetection;
use crate::paths;
use crate::text;

verus! {

/// How an import ended.
#[derive(Debug, Clone, Copy, PartialEq, Eq, Structural)]
pub enum LegacyImportStatus {
    Completed,
    AlreadyCompleted,
    PartialRecoverable,
}

/// What an import did.
#[derive(Debug, PartialEq, Eq)]
pub struct LegacyImportSummary {
    pub source: LegacyDetection,
    pub status: LegacyImportStatus,
    pub posts: u64,
    pub users: u64,
    pub media_copied: u64,
    pub media_pending: u64,
    pub rollback_backup: String,
    pub diagnostic_code: Option<String>,
}

/// A staged media file and where it goes.
#[derive(Debug, PartialEq, Eq)]
pub struct ManifestItem {
    pub url: String,
    pub media_type: String,
    pub staged_path: String,
    pub final_path: String,
}

/// The staged media files of an import.
#[derive(Debug, PartialEq, Eq)]
pub struct ImportManifest {
    pub items: Vec<ManifestItem>,
}

/// The media of a source, by directory.
#[derive(Debug, Clone, Copy, PartialEq, Eq, Structural)]
pub enum MediaKind {
    Pictures,
    Videos,
}

/// The directory of a kind of media.
pub open spec fn kind_directory(kind: MediaKind) -> Seq<char> {
    match kind {
        MediaKind::Pictures => "pictures"@,
        MediaKind::Videos => "videos"@,
    }
}

/// The name of a kind of media in its rows.
pub open spec fn kind_media_type(kind: MediaKind) -> Seq<char> {
    match kind {
        MediaKind::Pictures => "picture"@,
        MediaKind::Videos => "video"@,
    }
}

fn directory_name(kind: MediaKind) -> (r: &'static str)
    ensures
        r@ == kind_directory(kind),
{
    match kind {
        MediaKind::Pictures => "pictures",
        MediaKind::Videos => "videos",
    }
}

/// The name of a kind of media in its rows.
pub fn media_type_name(kind: MediaKind) -> (r: &'static str)
    ensures
        r@ == kind_media_type(kind),
{
    match kind {
        MediaKind::Pictures => "picture",
        MediaKind::Videos => "video",
    }
}

/// Whether a path with `/` as its only separator leads upwards or begins at the root.
pub open spec fn leads_out(path: Seq<char>) -> bool {
    exists|i: int|
        0 <= i < paths::parts_of(path).len() && (#[trigger] paths::parts_of(path)[i] is Root
            || paths::parts_of(path)[i] is Parent)
}

/// Whether a path of the platform leads out of the directory that it is relative to. On Windows a
/// path with a drive does.
pub open spec fn escapes(path: Seq<char>, windows: bool) -> bool {
    windows && paths::drive_prefixed(path) || leads_out(paths::slashed(path, windows))
}

fn is_leading_out(path: &str) -> (r: bool)
    ensures
        r == leads_out(path@),
{
    let parts = paths::components(path);
    let mut i: usize = 0;
    while i < parts.len()
        invariant
            i <= parts@.len(),
            paths::parts_view(parts@) == paths::parts_of(path@),
            forall|j: int|
                0 <= j < i ==> !(#[trigger] paths::parts_of(path@)[j] is Root) && !(paths::parts_of(
                    path@,
                )[j] is Parent),
        decreases parts@.len() - i,
    {
        assert(paths::parts_of(path@)[i as int] == paths::part_view(parts@[i as int]));
        match &parts[i] {
            paths::PathPart::Root => {
                return true;
            },
            paths::PathPart::Parent => {
                return true;
            },
            _ => {},
        }
        i = i + 1;
    }
    false
}

/// The extension of a copied file.
pub open spec fn copied_extension(path: Seq<char>) -> Seq<char> {
    match paths::extension_of(path) {
        Some(ext) => if ext.len() > 0 {
            ext
        } else {
            "bin"@
        },
        None => "bin"@,
    }
}

/// The file name of a copied file: the hash of its URL and its extension.
pub open spec fn copied_name(url: Seq<char>, path: Seq<char>) -> Seq<char> {
    text::hex(hash::fnv1a_of(vstd::utf8::encode_utf8(url)) as nat, 16) + "."@ + copied_extension(
        path,
    )
}

/// Where a copied file goes below the media root.
pub open spec fn copied_path(kind: MediaKind, url: Seq<char>, path: Seq<char>) -> Seq<char> {
    kind_directory(kind) + "/"@ + copied_name(url, path)
}

/// What to do with a media row of the source.
#[derive(Debug, PartialEq, Eq)]
pub enum MediaStep {
    /// Record the row; there is nothing to copy.
    Record,
    /// Copy the file to the staging directory, and record the row after that.
    Copy { staged_path: String, final_path: String },
}

/// What became of a file that was to be copied.
#[derive(Debug, Clone, Copy, PartialEq, Eq, Structural)]
pub enum CopyOutcome {
    /// The file does not exist.
    Missing,
    /// The path does not denote a file within the directory of the media.
    Outside,
    /// The file has been copied.
    Copied,
}

/// An import that is under way.
#[derive(Debug, PartialEq, Eq)]
pub struct ImportRun {
    pub copied: u64,
    pub pending: u64,
    pub manifest: ImportManifest,
}

impl ImportRun {
    /// Every copied file is in the manifest.
    pub open spec fn wf(&self) -> bool {
        self.copied == self.manifest.items@.len()
    }

    /// An import that has not read any media.
    pub fn new() -> (r: Self)
        ensures
            r.wf(),
            r.copied == 0,
            r.pending == 0,
    {
        ImportRun { copied: 0, pending: 0, manifest: ImportManifest { items: Vec::new() } }
    }

    /// Takes a media row of the source. A row without a URL ends the import. Media that has been
    /// downloaded already is left alone; media without a file becomes pending; and a path that leads
    /// out of its directory ends the import.
    pub fn import_rust(
        &mut self,
        kind: MediaKind,
        url: &str,
        path: Option<&str>,
        has_directory: bool,
        already_downloaded: bool,
        windows: bool,
    ) -> (r: Result<MediaStep>)
        requires
            old(self).wf(),
            old(self).pending < u64::MAX,
        ensures
            final(self).wf(),
            final(self).copied == old(self).copied,
            final(self).manifest == old(self).manifest,
            if url@.len() == 0 {
                final(self).pending == old(self).pending && (r matches Err(e)
                    && error::is_format_error(e, "legacy media URL is invalid"@))
            } else if already_downloaded {
                final(self).pending == old(self).pending && r == Ok::<MediaStep, Error>(
                    MediaStep::Record,
                )
            } else if path is None || !has_directory {
                final(self).pending == old(self).pending + 1 && r == Ok::<MediaStep, Error>(
                    MediaStep::Record,
                )
            } else if escapes(path->Some_0@, windows) {
                final(self).pending == old(self).pending && (r matches Err(e)
                    && error::is_format_error(e, "legacy media path escapes its root"@))
            } else {
                final(self).pending == old(self).pending && (r matches Ok(
                    MediaStep::Copy { staged_path, final_path },
                ) && final_path@ == copied_path(
                    kind,
                    url@,
                    paths::slashed(path->Some_0@, windows),
                ) && staged_path@ == "files/"@ + copied_path(
                    kind,
                    url@,
                    paths::slashed(path->Some_0@, windows),
                ))
            },
    {
        if url.is_empty() {
            return Err(error::format_error("legacy media URL is invalid"));
        }
        if already_downloaded {
            return Ok(MediaStep::Record);
        }
        let path = match path {
            Some(path) => if has_directory {
                path
            } else {
                self.pending = self.pending + 1;
                return Ok(MediaStep::Record);
            },
            None => {
                self.pending = self.pending + 1;
                return Ok(MediaStep::Record);
            },
        };
        let relative = paths::with_slashes(path, windows);
        if windows && paths::has_drive(path) || is_leading_out(relative.as_str()) {
            return Err(error::format_error("legacy media path escapes its root"));
        }
        let extension = match paths::extension(relative.as_str()) {
            Some(ext) => if ext.as_str().is_empty() {
                "bin".to_owned()
            } else {
                ext
            },
            None => "bin".to_owned(),
        };
        let name = text::join3(
            text::hex_text(hash::stable_hash(url), 16).as_str(),
            ".",
            extension.as_str(),
        );
        let final_path = text::join3(directory_name(kind), "/", name.as_str());
        let staged_path = text::join2("files/", final_path.as_str());
        Ok(MediaStep::Copy { staged_path, final_path })
    }

    /// Takes what became of a file that was to be copied. A file that could not be copied ends the
    /// import.
    pub fn copy_legacy_media(
        &mut self,
        kind: MediaKind,
        url: &str,
        staged_path: String,
        final_path: String,
        outcome: CopyOutcome,
    ) -> (r: Result<()>)
        requires
            old(self).wf(),
            old(self).copied < u64::MAX,
        ensures
            final(self).wf(),
            final(self).pending == old(self).pending,
            match outcome {
                CopyOutcome::Missing => *final(self) == *old(self) && (r matches Err(e)
                    && error::is_format_error(e, "legacy media path is unavailable"@)),
                CopyOutcome::Outside => *final(self) == *old(self) && (r matches Err(e)
                    && error::is_format_error(e, "legacy media path escapes its root"@)),
                CopyOutcome::Copied => {
                    &&& r is Ok
                    &&& final(self).copied == old(self).copied + 1
                    &&& final(self).manifest.items@.drop_last() == old(self).manifest.items@
                    &&& final(self).manifest.items@.last().url@ == url@
                    &&& final(self).manifest.items@.last().media_type@ == kind_media_type(kind)
                    &&& final(self).manifest.items@.last().staged_path == staged_path
                    &&& final(self).manifest.items@.last().final_path == final_path
                },
            },
    {
        match outcome {
            CopyOutcome::Missing => Err(error::format_error("legacy media path is unavailable")),
            CopyOutcome::Outside => Err(error::format_error("legacy media path escapes its root")),
            CopyOutcome::Copied => {
                let ghost before = self.manifest.items@;
                self.manifest.items.push(
                    ManifestItem {
                        url: url.to_owned(),
                        media_type: media_type_name(kind).to_owned(),
                        staged_path,
                        final_path,
                    },
                );
                self.copied = self.copied + 1;
                assert(self.manifest.items@.drop_last() =~= before);
                Ok(())
            },
        }
    }

    /// Takes the media rows of a source without files: all of them become pending.
    pub fn import_python(&mut self, rows: u64)
        requires
            old(self).wf(),
            old(self).pending + rows <= u64::MAX,
        ensures
            final(self).wf(),
            *final(self) == (ImportRun {
                pending: (old(self).pending + rows) as u64,
                ..*old(self)
            }),
    {
        self.pending = self.pending + rows;
    }
}

/// A media row as an import sees it.
#[derive(Debug, PartialEq, Eq)]
pub struct ImportMediaRow {
    pub media_type: String,
    pub local_path: Option<String>,
    pub status: String,
    pub content_length: Option<i64>,
    pub import_hold: bool,
    pub import_batch: Option<String>,
}

/// Whether an import turns a row into a video.
pub open spec fn becomes_video(row: ImportMediaRow, media_type: Seq<char>) -> bool {
    row.media_type@ != "video"@ && media_type == "video"@
}

/// Whether a row is a downloaded video, which an import does not hold.
pub open spec fn is_kept_video(row: ImportMediaRow) -> bool {
    row.media_type@ == "video"@ && row.status@ == "downloaded"@
}

/// A media row after an import has recorded its URL. A new row is pending and held for the import. A
/// row that turns out to be a video starts again; any other row keeps its file; and all but
/// downloaded videos are held for the import.
pub fn upsert_import_media(existing: Option<ImportMediaRow>, media_type: &str, batch: &str) -> (r:
    ImportMediaRow)
    ensures
        match existing {
            None => {
                &&& r.media_type@ == media_type@
                &&& r.local_path is None
                &&& r.status@ == "pending"@
                &&& r.content_length is None
                &&& r.import_hold
                &&& text::opt_view(r.import_batch) == Some(batch@)
            },
            Some(row) => {
                &&& r.media_type@ == if becomes_video(row, media_type@) {
                    "video"@
                } else {
                    row.media_type@
                }
                &&& r.local_path == if becomes_video(row, media_type@) {
                    None
                } else {
                    row.local_path
                }
                &&& r.status@ == if becomes_video(row, media_type@) {
                    "pending"@
                } else {
                    row.status@
                }
                &&& r.content_length == if becomes_video(row, media_type@) {
                    None
                } else {
                    row.content_length
                }
                &&& r.import_hold == (row.import_hold || !is_kept_video(row))
                &&& text::opt_view(r.import_batch) == if is_kept_video(row) {
                    text::opt_view(row.import_batch)
                } else {
                    Some(batch@)
                }
            },
        },
{
    match existing {
        None => ImportMediaRow {
            media_type: media_type.to_owned(),
            local_path: None,
            status: "pending".to_owned(),
            content_length: None,
            import_hold: true,
            import_batch: Some(batch.to_owned()),
        },
        Some(row) => {
            let mut row = row;
            let kept = text::same_text(row.media_type.as_str(), "video") && text::same_text(
                row.status.as_str(),
                "downloaded",
            );
            if !text::same_text(row.media_type.as_str(), "video") && text::same_text(
                media_type,
                "video",
            ) {
                row.media_type = "video".to_owned();
                row.local_path = None;
                row.status = "pending".to_owned();
                row.content_length = None;
            }
            if !kept {
                row.import_hold = true;
                row.import_batch = Some(batch.to_owned());
            }
            row
        },
    }
}

/// The definition under which a post refers to imported media, if the reference is new: there is
/// neither the same one nor one with a definition.
pub open spec fn new_reference(existing: Seq<Seq<char>>, definition: Seq<char>) -> bool {
    !text::listed(existing, definition) && forall|i: int|
        0 <= i < existing.len() ==> (#[trigger] existing[i]).len() == 0
}

/// Tests whether a post gets a reference to imported media, by the definitions of the references
/// that it has to the same media.
pub fn insert_media_reference(existing: &Vec<String>, definition: Option<&str>) -> (r: bool)
    ensures
        r == new_reference(
            text::list_view(existing@),
            match definition {
                Some(d) => d@,
                None => Seq::empty(),
            },
        ),
{
    let none = String::new();
    assert(none@ =~= Seq::<char>::empty());
    let wanted = match definition {
        Some(d) => d,
        None => none.as_str(),
    };
    if text::is_listed(existing, wanted) {
        return false;
    }
    let ghost views = text::list_view(existing@);
    let mut i: usize = 0;
    while i < existing.len()
        invariant
            i <= existing@.len(),
            views == text::list_view(existing@),
            forall|j: int| 0 <= j < i ==> (#[trigger] views[j]).len() == 0,
        decreases existing@.len() - i,
    {
        assert(views[i as int] == existing@[i as int]@);
        if !existing[i].as_str().is_empty() {
            return false;
        }
        i = i + 1;
    }
    true
}

/// How far an import has come.
#[derive(Debug, Clone, Copy, PartialEq, Eq, Structural)]
pub enum ImportStage {
    /// Within the transaction: rows are imported, files are staged, and the batch is recorded.
    Importing,
    /// The transaction is about to be committed.
    Committing,
    /// The transaction is committed, and the staged files are put in place.
    Publishing,
    /// How the publication went is recorded.
    Recording { published: bool },
    /// The import is over.
    Ended { committed: bool },
}

/// What has happened to an import.
#[derive(Debug)]
pub enum ImportEvent {
    /// The rows were imported, or could not be.
    Imported(Result<()>),
    /// The transaction was committed, or could not be.
    Committed(Result<()>),
    /// The staged files were put in place, or some were not.
    Published(bool),
    /// How the publication went is recorded.
    Recorded,
    /// Something else went wrong after the commit.
    Stopped(Error),
}

/// What is to be done next for an import.
#[derive(Debug)]
pub enum ImportStep {
    /// Commit the transaction.
    Commit,
    /// Release the source, and put the staged files in place.
    Publish,
    /// Record the batch as completed, or as one that can be recovered.
    Record { published: bool },
    /// The import has succeeded. The staged files of a published batch are no longer needed.
    Finish { published: bool },
    /// The import has failed. Its connections may have to be rolled back, and its staging directory
    /// may have to go, first.
    Fail { error: Error, roll_back: bool, discard_staging: bool },
}

/// Whether an event can happen at a stage.
pub open spec fn fits(stage: ImportStage, event: ImportEvent) -> bool {
    match event {
        ImportEvent::Imported(_) => stage is Importing,
        ImportEvent::Committed(_) => stage is Committing,
        ImportEvent::Published(_) => stage is Publishing,
        ImportEvent::Recorded => stage is Recording,
        ImportEvent::Stopped(_) => stage is Publishing || stage is Recording,
    }
}

/// The stage after an event.
pub open spec fn stage_after(event: ImportEvent, commit_failure_for_test: bool) -> ImportStage {
    match event {
        ImportEvent::Imported(r) => if r is Ok && !commit_failure_for_test {
            ImportStage::Committing
        } else {
            ImportStage::Ended { committed: false }
        },
        ImportEvent::Committed(r) => if r is Ok {
            ImportStage::Publishing
        } else {
            ImportStage::Ended { committed: false }
        },
        ImportEvent::Published(published) => ImportStage::Recording { published },
        ImportEvent::Recorded => ImportStage::Ended { committed: true },
        ImportEvent::Stopped(_) => ImportStage::Ended { committed: true },
    }
}

/// Whether an import discards its staging directory on an event.
pub open spec fn discards_staging(event: ImportEvent, commit_failure_for_test: bool) -> bool {
    match event {
        ImportEvent::Imported(r) => r is Err || commit_failure_for_test,
        ImportEvent::Committed(r) => r is Err,
        _ => false,
    }
}

/// Takes what has happened to an import, and tells what to do next. Until the commit a failure
/// discards the staging directory, and rolls back what the commit itself has not ended; after it
/// the directory is kept, so that the batch can be recovered.
pub fn import_step(stage: ImportStage, event: ImportEvent, commit_failure_for_test: bool) -> (r: (
    ImportStage,
    ImportStep,
))
    requires
        fits(stage, event),
    ensures
        r.0 == stage_after(event, commit_failure_for_test),
        match event {
            ImportEvent::Imported(Err(e)) => r.1 == (ImportStep::Fail {
                error: e,
                roll_back: true,
                discard_staging: true,
            }),
            ImportEvent::Imported(Ok(_)) => if commit_failure_for_test {
                r.1 matches ImportStep::Fail { error: e, roll_back, discard_staging }
                    && error::is_inconsistent(e, "test commit failure"@) && roll_back
                    && discard_staging
            } else {
                r.1 is Commit
            },
            ImportEvent::Committed(Err(e)) => r.1 == (ImportStep::Fail {
                error: e,
                roll_back: false,
                discard_staging: true,
            }),
            ImportEvent::Committed(Ok(_)) => r.1 is Publish,
            ImportEvent::Published(published) => r.1 == (ImportStep::Record { published }),
            ImportEvent::Recorded => r.1 == (ImportStep::Finish {
                published: stage->Recording_published,
            }),
            ImportEvent::Stopped(e) => r.1 == (ImportStep::Fail {
                error: e,
                roll_back: false,
                discard_staging: false,
            }),
        },
        (r.1 matches ImportStep::Fail { discard_staging, .. } && discard_staging)
            == discards_staging(event, commit_failure_for_test),
{
    match event {
        ImportEvent::Imported(Err(error)) => (
            ImportStage::Ended { committed: false },
            ImportStep::Fail { error, roll_back: true, discard_staging: true },
        ),
        ImportEvent::Imported(Ok(_)) => if commit_failure_for_test {
            (
                ImportStage::Ended { committed: false },
                ImportStep::Fail {
                    error: error::inconsistent("test commit failure"),
                    roll_back: true,
                    discard_staging: true,
                },
            )
        } else {
            (ImportStage::Committing, ImportStep::Commit)
        },
        ImportEvent::Committed(Err(error)) => (
            ImportStage::Ended { committed: false },
            ImportStep::Fail { error, roll_back: false, discard_staging: true },
        ),
        ImportEvent::Committed(Ok(_)) => (ImportStage::Publishing, ImportStep::Publish),
        ImportEvent::Published(published) => (
            ImportStage::Recording { published },
            ImportStep::Record { published },
        ),
        ImportEvent::Recorded => {
            let published = match stage {
                ImportStage::Recording { published } => published,
                _ => false,
            };
            (ImportStage::Ended { committed: true }, ImportStep::Finish { published })
        },
        ImportEvent::Stopped(error) => (
            ImportStage::Ended { committed: true },
            ImportStep::Fail { error, roll_back: false, discard_staging: false },
        ),
    }
}

/// The stage that events lead to, one after the other, and whether the staging directory has been
/// discarded by then; nothing where an event cannot happen.
pub open spec fn import_course(
    events: Seq<ImportEvent>,
    commit_failure_for_test: bool,
) -> Option<(ImportStage, bool)>
    decreases events.len(),
{
    if events.len() == 0 {
        Some((ImportStage::Importing, false))
    } else {
        match import_course(events.drop_last(), commit_failure_for_test) {
            Some((stage, discarded)) => if fits(stage, events.last()) {
                Some(
                    (
                        stage_after(events.last(), commit_failure_for_test),
                        discarded || discards_staging(events.last(), commit_failure_for_test),
                    ),
                )
            } else {
                None
            },
            None => None,
        }
    }
}

/// The staging directory of an import is discarded exactly when nothing was committed: whatever
/// happens, an import that is over has discarded it if and only if its transaction was never
/// committed, and one that is under way has not.
pub proof fn staging_is_discarded_unless_committed(
    events: Seq<ImportEvent>,
    commit_failure_for_test: bool,
)
    requires
        import_course(events, commit_failure_for_test) is Some,
    ensures
        ({
            let (stage, discarded) = import_course(events, commit_failure_for_test)->0;
            let committed = events.contains(ImportEvent::Committed(Ok(())));
            &&& match stage {
                ImportStage::Importing | ImportStage::Committing => !committed,
                ImportStage::Publishing | ImportStage::Recording { .. } => committed,
                ImportStage::Ended { committed: c } => committed == c,
            }
            &&& discarded == (stage is Ended && !committed)
        }),
    decreases events.len(),
{
    let done = ImportEvent::Committed(Ok(()));
    if events.len() > 0 {
        let before = events.drop_last();
        staging_is_discarded_unless_committed(before, commit_failure_for_test);
        assert(events == before.push(events.last()));
        assert(events.contains(done) == (before.contains(done) || events.last() == done)) by {
            if before.contains(done) {
                let i = choose|i: int| 0 <= i < before.len() && before[i] == done;
                assert(events[i] == done);
            }
            if events.last() == done {
                assert(events[events.len() - 1] == done);
            }
        }
        if let ImportEvent::Committed(Ok(u)) = events.last() {
            assert(u == ());
        }
    }
}

/// The summary of a committed import. When its files could not be put in place it can be recovered
/// later, and says so.
pub fn import_summary(
    source: LegacyDetection,
    run: &ImportRun,
    posts: u64,
    users: u64,
    rollback_backup: String,
    published: bool,
) -> (r: LegacyImportSummary)
    ensures
        r.source == source,
        r.posts == posts,
        r.users == users,
        r.media_copied == run.copied,
        r.media_pending == run.pending,
        r.rollback_backup == rollback_backup,
        if published {
            r.status == LegacyImportStatus::Completed && r.diagnostic_code is None
        } else {
            r.status == LegacyImportStatus::PartialRecoverable && text::opt_view(r.diagnostic_code)
                == Some("LEGACY_IMPORT_POSTCOMMIT_PUBLISH_FAILED"@)
        },
{
    LegacyImportSummary {
        source,
        status: if published {
            LegacyImportStatus::Completed
        } else {
            LegacyImportStatus::PartialRecoverable
        },
        posts,
        users,
        media_copied: run.copied,
        media_pending: run.pending,
        rollback_backup,
        diagnostic_code: if published {
            None
        } else {
            Some("LEGACY_IMPORT_POSTCOMMIT_PUBLISH_FAILED".to_owned())
        },
    }
}

/// The summary of an import whose source, with the same contents, was imported completely before:
/// nothing is done. Any other import goes on.
pub fn import_legacy_source(source: &LegacyDetection, already_completed: bool) -> (r: Option<
    LegacyImportSummary,
>)
    ensures
        r is Some == already_completed,
        r matches Some(summary) ==> {
            &&& summary.source == *source
            &&& summary.status == LegacyImportStatus::AlreadyCompleted
            &&& summary.posts == 0
            &&& summary.users == 0
            &&& summary.media_copied == 0
            &&& summary.media_pending == 0
            &&& summary.rollback_backup@.len() == 0
            &&& summary.diagnostic_code is None
        },
{
    if !already_completed {
        return None;
    }
    Some(
        LegacyImportSummary {
            source: source.clone(),
            status: LegacyImportStatus::AlreadyCompleted,
            posts: 0,
            users: 0,
            media_copied: 0,
            media_pending: 0,
            rollback_backup: String::new(),
            diagnostic_code: None,
        },
    )
}

} // verus!
