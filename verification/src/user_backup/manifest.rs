//! The contents of a backup: its paths, its manifest, and the check of both.
use vstd::prelude::*;

use crate::error;
use crate::error::{Error, Result};
use crate::hash;
use crate::legacy::fingerprint;
use crate::paths;
use crate::text;

verus! {

/// The version of the manifest.
pub const SCHEMA_VERSION: u32 = 1;

/// Where the user's data is.
#[derive(Debug, PartialEq, Eq)]
pub struct UserBackupPaths {
    pub db_path: String,
    pub media_dir: String,
    pub imports_dir: String,
    pub picture_dir: String,
    pub video_dir: String,
}

/// Where the pictures are by default.
pub open spec fn default_pictures(p: UserBackupPaths) -> Seq<char> {
    paths::joined(p.media_dir@, "pictures"@)
}

/// Where the videos are by default.
pub open spec fn default_videos(p: UserBackupPaths) -> Seq<char> {
    paths::joined(p.media_dir@, "videos"@)
}

/// Where the backups are.
pub open spec fn backups_root(p: UserBackupPaths) -> Seq<char> {
    paths::joined(p.imports_dir@, "backups"@)
}

/// Whether the pictures are outside of the media directory.
pub open spec fn external_pictures(p: UserBackupPaths) -> bool {
    paths::parts_of(p.picture_dir@) != paths::parts_of(default_pictures(p))
}

/// Whether the videos are outside of the media directory.
pub open spec fn external_videos(p: UserBackupPaths) -> bool {
    paths::parts_of(p.video_dir@) != paths::parts_of(default_videos(p))
}

impl UserBackupPaths {
    /// Paths with the pictures and videos in their default places.
    pub fn new(db_path: String, media_dir: String, imports_dir: String) -> (r: Self)
        ensures
            r.db_path == db_path,
            r.media_dir == media_dir,
            r.imports_dir == imports_dir,
            r.picture_dir@ == default_pictures(r),
            r.video_dir@ == default_videos(r),
            !external_pictures(r),
            !external_videos(r),
    {
        let picture_dir = paths::join(media_dir.as_str(), "pictures");
        let video_dir = paths::join(media_dir.as_str(), "videos");
        UserBackupPaths { db_path, media_dir, imports_dir, picture_dir, video_dir }
    }

    /// The same paths with the pictures and videos elsewhere.
    pub fn with_legacy_media_roots(self, picture_dir: String, video_dir: String) -> (r: Self)
        ensures
            r == (UserBackupPaths { picture_dir, video_dir, ..self }),
    {
        let mut r = self;
        r.picture_dir = picture_dir;
        r.video_dir = video_dir;
        r
    }

    /// Where the backups are.
    pub fn backups_dir(&self) -> (r: String)
        ensures
            r@ == backups_root(*self),
    {
        paths::join(self.imports_dir.as_str(), "backups")
    }

    /// Whether the pictures are outside of the media directory.
    pub fn uses_external_picture_root(&self) -> (r: bool)
        ensures
            r == external_pictures(*self),
    {
        !paths::same_path(
            self.picture_dir.as_str(),
            paths::join(self.media_dir.as_str(), "pictures").as_str(),
        )
    }

    /// Whether the videos are outside of the media directory.
    pub fn uses_external_video_root(&self) -> (r: bool)
        ensures
            r == external_videos(*self),
    {
        !paths::same_path(
            self.video_dir.as_str(),
            paths::join(self.media_dir.as_str(), "videos").as_str(),
        )
    }

    /// Where the pictures go within a backup.
    pub fn legacy_picture_namespace(&self) -> (r: &'static str)
        ensures
            r@ == if external_pictures(*self) {
                "legacy/pictures"@
            } else {
                "media/pictures"@
            },
    {
        if self.uses_external_picture_root() {
            "legacy/pictures"
        } else {
            "media/pictures"
        }
    }

    /// Where the videos go within a backup.
    pub fn legacy_video_namespace(&self) -> (r: &'static str)
        ensures
            r@ == if external_videos(*self) {
                "legacy/videos"@
            } else {
                "media/videos"@
            },
    {
        if self.uses_external_video_root() {
            "legacy/videos"
        } else {
            "media/videos"
        }
    }
}

/// The paths of the user's data by the configured ones: the imports stand beside the database.
pub fn user_backup_paths(
    db_path: String,
    media_path: String,
    picture_path: String,
    video_path: String,
) -> (r: Result<UserBackupPaths>)
    ensures
        match paths::parent_of(db_path@) {
            None => r matches Err(e) && error::is_format_error(
                e,
                "configured data root is invalid"@,
            ),
            Some(root) => {
                &&& r matches Ok(p)
                &&& p.db_path == db_path
                &&& p.media_dir == media_path
                &&& p.imports_dir@ == paths::joined(root, "imports"@)
                &&& p.picture_dir == picture_path
                &&& p.video_dir == video_path
            },
        },
{
    match paths::parent(db_path.as_str()) {
        None => Err(error::format_error("configured data root is invalid")),
        Some(root) => {
            let imports_dir = paths::join(root.as_str(), "imports");
            Ok(
                UserBackupPaths::new(db_path, media_path, imports_dir).with_legacy_media_roots(
                    picture_path,
                    video_path,
                ),
            )
        },
    }
}

/// Whether two roots overlap.
pub open spec fn overlap(a: Seq<char>, b: Seq<char>) -> bool {
    paths::within(a, b) || paths::within(b, a)
}

/// Whether the roots of the media are apart: an external one neither holds nor lies within the media
/// directory, and two external ones are apart from each other.
pub open spec fn roots_apart(p: UserBackupPaths) -> bool {
    &&& external_pictures(p) ==> !overlap(p.picture_dir@, p.media_dir@)
    &&& external_videos(p) ==> !overlap(p.video_dir@, p.media_dir@)
    &&& external_pictures(p) && external_videos(p) ==> !overlap(p.picture_dir@, p.video_dir@)
}

fn is_overlap(a: &str, b: &str) -> (r: bool)
    ensures
        r == overlap(a@, b@),
{
    paths::starts_with(a, b) || paths::starts_with(b, a)
}

/// Checks that the roots of the media are apart.
pub fn validate_media_roots(p: &UserBackupPaths) -> (r: Result<()>)
    ensures
        if roots_apart(*p) {
            r is Ok
        } else {
            r matches Err(e) && error::is_format_error(
                e,
                "legacy media roots must be distinct from the unified media root"@,
            )
        },
{
    let pictures = p.uses_external_picture_root();
    let videos = p.uses_external_video_root();
    if (pictures && is_overlap(p.picture_dir.as_str(), p.media_dir.as_str())) || (videos
        && is_overlap(p.video_dir.as_str(), p.media_dir.as_str())) || (pictures && videos
        && is_overlap(p.picture_dir.as_str(), p.video_dir.as_str())) {
        return Err(
            error::format_error("legacy media roots must be distinct from the unified media root"),
        );
    }
    Ok(())
}

/// A backup.
#[derive(Debug, PartialEq, Eq)]
pub struct UserBackupSummary {
    pub id: String,
    pub relative_path: String,
    pub created_at: String,
    pub file_count: u64,
}

/// A verified backup.
#[derive(Debug, PartialEq, Eq)]
pub struct UserBackupVerification {
    pub id: String,
    pub valid: bool,
    pub file_count: u64,
}

/// A file of a backup.
#[derive(Debug, PartialEq, Eq)]
pub struct ManifestFile {
    pub path: String,
    pub length: u64,
    pub sha256: String,
}

/// The list of the files of a backup.
#[derive(Debug, PartialEq, Eq)]
pub struct Manifest {
    pub schema_version: u32,
    pub created_at: String,
    pub files: Vec<ManifestFile>,
}

/// `sha2::Sha256` over the bytes gives their SHA-256 digest.
#[verifier::external_body]
fn digest_of(bytes: &[u8]) -> (r: [u8; 32])
    ensures
        r@ == hash::sha256_of(bytes@),
{
    <sha2::Sha256 as sha2::Digest>::digest(bytes).into()
}

/// The SHA-256 of the contents of a file, in hexadecimal digits.
pub fn sha256_file(contents: &Vec<u8>) -> (r: String)
    ensures
        r@ == fingerprint::hex_of(hash::sha256_of(contents@)),
{
    let digest = digest_of(contents.as_slice());
    fingerprint::hex_digits(digest.as_slice())
}

/// The entry of a file in a manifest.
pub fn manifest_file(relative: &str, contents: &Vec<u8>) -> (r: ManifestFile)
    ensures
        r.path@ == text::with_char(relative@, '\\', '/'),
        r.length == contents@.len(),
        r.sha256@ == fingerprint::hex_of(hash::sha256_of(contents@)),
{
    let size: usize = contents.len();
    ManifestFile {
        path: text::replace_char(relative, '\\', '/'),
        length: size as u64,
        sha256: sha256_file(contents),
    }
}

/// Whether a character may occur in the identifier of a backup.
pub open spec fn id_char(c: char) -> bool {
    '0' <= c <= '9' || 'a' <= c <= 'f' || 'A' <= c <= 'F' || c == '-'
}

/// Whether a text is the identifier of a backup.
pub open spec fn backup_id(id: Seq<char>) -> bool {
    id.len() == 36 && forall|i: int| 0 <= i < 36 ==> id_char(#[trigger] id[i])
}

/// Tests whether a text is the identifier of a backup.
pub fn is_backup_id(id: &str) -> (r: bool)
    ensures
        r == backup_id(id@),
{
    let v = text::chars_of(id);
    if v.len() != 36 {
        return false;
    }
    let mut i: usize = 0;
    while i < 36
        invariant
            i <= 36,
            v@ == id@,
            v@.len() == 36,
            forall|j: int| 0 <= j < i ==> id_char(#[trigger] id@[j]),
        decreases 36 - i,
    {
        let c = v[i];
        if !(('0' <= c && c <= '9') || ('a' <= c && c <= 'f') || ('A' <= c && c <= 'F') || c
            == '-') {
            assert(!id_char(id@[i as int]));
            return false;
        }
        i = i + 1;
    }
    true
}

/// The directory of a backup.
pub fn backup_root(p: &UserBackupPaths, id: &str) -> (r: Result<String>)
    ensures
        if backup_id(id@) {
            r matches Ok(root) && root@ == paths::joined(backups_root(*p), id@)
        } else {
            r matches Err(e) && error::is_format_error(e, "invalid backup identifier"@)
        },
{
    if !is_backup_id(id) {
        return Err(error::format_error("invalid backup identifier"));
    }
    Ok(paths::join(p.backups_dir().as_str(), id))
}

/// The identifier of a backup is a name, so that its directory lies directly below that of the
/// backups.
pub proof fn backup_ids_are_names(id: Seq<char>)
    requires
        backup_id(id),
    ensures
        paths::is_name(id),
{
    reveal_strlit(".");
    reveal_strlit("..");
    assert(!id.contains('/')) by {
        if id.contains('/') {
            let i = choose|i: int| 0 <= i < id.len() && id[i] == '/';
            assert(id_char(id[i]));
        }
    }
}

/// Whether a path of the platform may occur in a backup: it consists of names only and holds no null
/// character.
pub open spec fn safe_path(raw: Seq<char>, windows: bool) -> bool {
    paths::names_only(raw, windows) && !text::has_part(raw, seq!['\0'])
}

fn has_null(raw: &str) -> (r: bool)
    ensures
        r == text::has_part(raw@, seq!['\0']),
{
    let v = text::chars_of(raw);
    let ghost null = seq!['\0'];
    let mut i: usize = 0;
    while i < v.len()
        invariant
            i <= v@.len(),
            v@ == raw@,
            null == seq!['\0'],
            forall|j: int| 0 <= j < i ==> #[trigger] raw@[j] != '\0',
        decreases v@.len() - i,
    {
        if v[i] == '\0' {
            assert(raw@.subrange(i as int, i + 1) =~= null);
            assert(text::occurs_at(raw@, null, i as int));
            return true;
        }
        i = i + 1;
    }
    proof {
        if text::has_part(raw@, null) {
            let at = choose|at: int| #[trigger] text::occurs_at(raw@, null, at);
            assert(raw@.subrange(at, at + 1)[0] == raw@[at]);
        }
    }
    false
}

/// Checks that a path of the platform may occur in a backup.
pub fn safe_relative(raw: &str, windows: bool) -> (r: Result<()>)
    ensures
        if safe_path(raw@, windows) {
            r is Ok
        } else {
            r matches Err(e) && error::is_format_error(e, "unsafe backup path"@)
        },
{
    if !paths::is_names_only(raw, windows) || has_null(raw) {
        return Err(error::format_error("unsafe backup path"));
    }
    Ok(())
}

/// Where the file of a media row is, below its root.
pub fn checked_media_path(root: &str, raw: &str, windows: bool) -> (r: Result<String>)
    ensures
        if safe_path(raw@, windows) {
            r matches Ok(path) && path@ == paths::joined(root@, paths::slashed(raw@, windows))
        } else {
            r matches Err(e) && error::is_format_error(e, "unsafe backup path"@)
        },
{
    match safe_relative(raw, windows) {
        Ok(_) => Ok(paths::join(root, paths::with_slashes(raw, windows).as_str())),
        Err(e) => Err(e),
    }
}

/// A media file that goes into a backup.
#[derive(Debug, PartialEq, Eq)]
pub struct MediaFile {
    /// Its path within the backup.
    pub destination: String,
    pub source: String,
}

/// The order of media files in a backup: that of their paths, component by component.
pub open spec fn file_key(destination: Seq<char>) -> Seq<char> {
    paths::normal_form(destination)
}

/// Whether the files are in order and none occurs twice.
pub open spec fn in_order(files: Seq<MediaFile>) -> bool {
    forall|i: int, j: int|
        0 <= i < j < files.len() ==> text::precedes(
            file_key((#[trigger] files[i]).destination@),
            file_key((#[trigger] files[j]).destination@),
            '/',
        )
}

/// Whether a path is among the files.
pub open spec fn has_destination(files: Seq<MediaFile>, destination: Seq<char>) -> bool {
    exists|i: int|
        0 <= i < files.len() && file_key((#[trigger] files[i]).destination@) == file_key(
            destination,
        )
}

/// Whether a file was put among the others where it belongs.
pub open spec fn inserted(before: Seq<MediaFile>, after: Seq<MediaFile>, file: MediaFile) -> bool {
    exists|at: int| 0 <= at <= before.len() && after == #[trigger] before.insert(at, file)
}

/// Whether a media file goes into a backup: it is complete, and on the disk a file within its root.
pub open spec fn wanted(raw: Seq<char>, regular: bool) -> bool {
    paths::extension_of(raw) != Some("part"@) && regular
}

/// Puts a media file among those of a backup. The first file of a path stays. What is incomplete, or
/// not on the disk, is passed over; an unsafe path is refused.
pub fn insert_media_file(
    files: &mut Vec<MediaFile>,
    root: &str,
    destination_root: &str,
    raw: &str,
    regular: bool,
    windows: bool,
) -> (r: Result<()>)
    requires
        in_order(old(files)@),
    ensures
        in_order(final(files)@),
        if !safe_path(raw@, windows) {
            final(files)@ == old(files)@ && (r matches Err(e) && error::is_format_error(
                e,
                "unsafe backup path"@,
            ))
        } else if !wanted(paths::slashed(raw@, windows), regular) || has_destination(
            old(files)@,
            paths::joined(destination_root@, paths::slashed(raw@, windows)),
        ) {
            final(files)@ == old(files)@ && r is Ok
        } else {
            r is Ok && exists|file: MediaFile|
                {
                    &&& #[trigger] inserted(old(files)@, final(files)@, file)
                    &&& file.destination@ == paths::joined(
                        destination_root@,
                        paths::slashed(raw@, windows),
                    )
                    &&& file.source@ == paths::joined(root@, paths::slashed(raw@, windows))
                }
        },
{
    let source = match checked_media_path(root, raw, windows) {
        Ok(source) => source,
        Err(e) => return Err(e),
    };
    let relative = paths::with_slashes(raw, windows);
    let partial = match paths::extension(relative.as_str()) {
        Some(ext) => text::same_text(ext.as_str(), "part"),
        None => false,
    };
    if partial || !regular {
        return Ok(());
    }
    let destination = paths::join(destination_root, relative.as_str());
    let key = paths::normalize(destination.as_str());
    let ghost before = files@;
    let mut at: usize = 0;
    while at < files.len() && text::is_before(
        paths::normalize(files[at].destination.as_str()).as_str(),
        key.as_str(),
        '/',
    )
        invariant
            at <= files@.len(),
            files@ == before,
            key@ == file_key(destination@),
            forall|i: int|
                0 <= i < at ==> text::precedes(
                    file_key((#[trigger] files@[i]).destination@),
                    key@,
                    '/',
                ),
        decreases files@.len() - at,
    {
        at = at + 1;
    }
    if at < files.len() && text::same_text(
        paths::normalize(files[at].destination.as_str()).as_str(),
        key.as_str(),
    ) {
        assert(file_key(before[at as int].destination@) == key@);
        return Ok(());
    }
    proof {
        if at < before.len() {
            text::order_is_total(file_key(before[at as int].destination@), key@, '/');
        }
        assert forall|i: int| at <= i < before.len() implies text::precedes(
            key@,
            file_key((#[trigger] before[i]).destination@),
            '/',
        ) by {
            if i > at {
                text::order_is_transitive(
                    key@,
                    file_key(before[at as int].destination@),
                    file_key(before[i].destination@),
                    '/',
                );
            }
        }
        assert(!has_destination(before, destination@)) by {
            if has_destination(before, destination@) {
                let i = choose|i: int|
                    0 <= i < before.len() && file_key((#[trigger] before[i]).destination@)
                        == file_key(destination@);
                text::order_is_total(key@, key@, '/');
                if i < at {
                    assert(text::precedes(file_key(before[i].destination@), key@, '/'));
                } else {
                    assert(text::precedes(key@, file_key(before[i].destination@), '/'));
                }
            }
        }
    }
    let file = MediaFile { destination, source };
    let ghost placed = file;
    files.insert(at, file);
    proof {
        assert(files@ == before.insert(at as int, placed));
        assert(inserted(before, files@, placed));
        assert forall|i: int, j: int| 0 <= i < j < files@.len() implies text::precedes(
            file_key((#[trigger] files@[i]).destination@),
            file_key((#[trigger] files@[j]).destination@),
            '/',
        ) by {
            if i < at {
                assert(files@[i] == before[i]);
            } else if i > at {
                assert(files@[i] == before[i - 1]);
            }
            if j < at {
                assert(files@[j] == before[j]);
            } else if j > at {
                assert(files@[j] == before[j - 1]);
            }
        }
    }
    Ok(())
}

/// What the disk says of a file of a backup.
#[derive(Debug, PartialEq, Eq)]
pub enum EntryProbe {
    /// It could not be looked at.
    Unreadable(String),
    /// It is no regular file within the backup.
    Irregular,
    /// It is a regular file with this length and digest.
    Regular { length: u64, sha256: String },
}

/// Whether a path is one that a backup may hold.
pub open spec fn expected_path(path: Seq<char>) -> bool {
    path == "database/weiback.db"@ || text::has_prefix(path, "media/"@) || text::has_prefix(
        path,
        "legacy/pictures/"@,
    ) || text::has_prefix(path, "legacy/videos/"@)
}

/// Whether a path occurs among the first `n` files.
pub open spec fn occurs_before(files: Seq<ManifestFile>, n: int, path: Seq<char>) -> bool {
    exists|i: int| 0 <= i < n && (#[trigger] files[i]).path@ == path
}

/// Why the entry of a file is refused, by the manifest alone.
pub open spec fn entry_fault(files: Seq<ManifestFile>, i: int, windows: bool) -> Option<
    Seq<char>,
> {
    let path = files[i].path@;
    if occurs_before(files, i, path) {
        Some("backup manifest has duplicate paths"@)
    } else if !safe_path(path, windows) {
        Some("unsafe backup path"@)
    } else if !expected_path(path) {
        Some("backup manifest has an unexpected path"@)
    } else if text::has_suffix(path, ".part"@) {
        Some("backup manifest contains partial media"@)
    } else {
        None
    }
}

/// Whether the disk agrees with an entry.
pub open spec fn entry_matches(file: ManifestFile, probe: EntryProbe) -> bool {
    match probe {
        EntryProbe::Regular { length, sha256 } => length == file.length && sha256@
            == file.sha256@,
        _ => false,
    }
}

/// Whether an error is the one of an entry that is refused.
pub open spec fn is_entry_error(
    e: Error,
    files: Seq<ManifestFile>,
    i: int,
    probe: EntryProbe,
    windows: bool,
) -> bool {
    match entry_fault(files, i, windows) {
        Some(why) => error::is_format_error(e, why),
        None => match probe {
            EntryProbe::Unreadable(why) => e == Error::Io(why),
            EntryProbe::Irregular => error::is_format_error(
                e,
                "backup file metadata does not match manifest"@,
            ),
            EntryProbe::Regular { length, sha256 } => if length != files[i].length {
                error::is_format_error(e, "backup file metadata does not match manifest"@)
            } else {
                error::is_format_error(e, "backup file hash does not match manifest"@)
            },
        },
    }
}

/// Whether an entry is in order, by the manifest and on the disk.
pub open spec fn entry_ok(
    files: Seq<ManifestFile>,
    i: int,
    probe: EntryProbe,
    windows: bool,
) -> bool {
    entry_fault(files, i, windows) is None && entry_matches(files[i], probe)
}

/// Whether the first `n` entries are in order.
pub open spec fn entries_ok(
    files: Seq<ManifestFile>,
    probes: Seq<EntryProbe>,
    n: int,
    windows: bool,
) -> bool {
    forall|i: int| 0 <= i < n ==> #[trigger] entry_ok(files, i, probes[i], windows)
}

/// Whether an error is that of a backup which cannot be trusted: it is not complete; its manifest is
/// of another version or empty; its first wrong entry is wrong; or it has no database.
pub open spec fn is_manifest_error(
    e: Error,
    complete: bool,
    manifest: Manifest,
    probes: Seq<EntryProbe>,
    windows: bool,
) -> bool {
    let files = manifest.files@;
    if !complete {
        error::is_format_error(e, "backup is incomplete"@)
    } else if manifest.schema_version != SCHEMA_VERSION || files.len() == 0 {
        error::is_format_error(e, "unsupported or empty backup manifest"@)
    } else if !entries_ok(files, probes, files.len() as int, windows) {
        exists|i: int|
            {
                &&& 0 <= i < files.len()
                &&& #[trigger] entries_ok(files, probes, i, windows)
                &&& !entry_ok(files, i, probes[i], windows)
                &&& is_entry_error(e, files, i, probes[i], windows)
            }
    } else {
        error::is_format_error(e, "backup has no database snapshot"@)
    }
}

/// Whether a backup can be trusted.
pub open spec fn manifest_ok(
    complete: bool,
    manifest: Manifest,
    probes: Seq<EntryProbe>,
    windows: bool,
) -> bool {
    let files = manifest.files@;
    complete && manifest.schema_version == SCHEMA_VERSION && files.len() > 0 && entries_ok(
        files,
        probes,
        files.len() as int,
        windows,
    ) && occurs_before(files, files.len() as int, "database/weiback.db"@)
}

fn is_expected_path(path: &str) -> (r: bool)
    ensures
        r == expected_path(path@),
{
    text::same_text(path, "database/weiback.db") || text::starts_with(path, "media/")
        || text::starts_with(path, "legacy/pictures/") || text::starts_with(path, "legacy/videos/")
}

fn occurs_among(files: &Vec<ManifestFile>, n: usize, path: &str) -> (r: bool)
    requires
        n <= files@.len(),
    ensures
        r == occurs_before(files@, n as int, path@),
{
    let mut i: usize = 0;
    while i < n
        invariant
            i <= n <= files@.len(),
            forall|j: int| 0 <= j < i ==> (#[trigger] files@[j]).path@ != path@,
        decreases n - i,
    {
        if text::same_text(files[i].path.as_str(), path) {
            return true;
        }
        i = i + 1;
    }
    false
}

fn check_entry(files: &Vec<ManifestFile>, at: usize, probe: &EntryProbe, windows: bool) -> (r:
    Result<()>)
    requires
        at < files@.len(),
    ensures
        match r {
            Ok(_) => entry_ok(files@, at as int, *probe, windows),
            Err(e) => !entry_ok(files@, at as int, *probe, windows) && is_entry_error(
                e,
                files@,
                at as int,
                *probe,
                windows,
            ),
        },
{
    let file = &files[at];
    let path = file.path.as_str();
    if occurs_among(files, at, path) {
        return Err(error::format_error("backup manifest has duplicate paths"));
    }
    if let Err(e) = safe_relative(path, windows) {
        return Err(e);
    }
    if !is_expected_path(path) {
        return Err(error::format_error("backup manifest has an unexpected path"));
    }
    if text::ends_with(path, ".part") {
        return Err(error::format_error("backup manifest contains partial media"));
    }
    match probe {
        EntryProbe::Unreadable(why) => Err(Error::Io(why.clone())),
        EntryProbe::Irregular => Err(
            error::format_error("backup file metadata does not match manifest"),
        ),
        EntryProbe::Regular { length, sha256 } => {
            if *length != file.length {
                return Err(error::format_error("backup file metadata does not match manifest"));
            }
            if !text::same_text(sha256.as_str(), file.sha256.as_str()) {
                return Err(error::format_error("backup file hash does not match manifest"));
            }
            Ok(())
        },
    }
}

/// Checks a backup against its manifest: that it is complete, and that every file is listed once,
/// under a path that a backup may hold, with the length and the digest that it has on the disk.
pub fn verify_manifest(
    complete: bool,
    manifest: &Manifest,
    probes: &Vec<EntryProbe>,
    windows: bool,
) -> (r: Result<()>)
    requires
        probes@.len() == manifest.files@.len(),
    ensures
        match r {
            Ok(_) => manifest_ok(complete, *manifest, probes@, windows),
            Err(e) => !manifest_ok(complete, *manifest, probes@, windows) && is_manifest_error(
                e,
                complete,
                *manifest,
                probes@,
                windows,
            ),
        },
{
    if !complete {
        return Err(error::format_error("backup is incomplete"));
    }
    let files = &manifest.files;
    if manifest.schema_version != SCHEMA_VERSION || files.len() == 0 {
        return Err(error::format_error("unsupported or empty backup manifest"));
    }
    let mut i: usize = 0;
    while i < files.len()
        invariant
            i <= files@.len() == probes@.len(),
            files@ == manifest.files@,
            complete,
            manifest.schema_version == SCHEMA_VERSION,
            files@.len() > 0,
            entries_ok(files@, probes@, i as int, windows),
        decreases files@.len() - i,
    {
        if let Err(e) = check_entry(files, i, &probes[i], windows) {
            assert(entries_ok(files@, probes@, i as int, windows));
            assert(!entry_ok(files@, i as int, probes@[i as int], windows));
            return Err(e);
        }
        i = i + 1;
    }
    if !occurs_among(files, files.len(), "database/weiback.db") {
        return Err(error::format_error("backup has no database snapshot"));
    }
    Ok(())
}

/// Judges the integrity check of a database.
pub fn verify_sqlite(result: &str) -> (r: Result<()>)
    ensures
        if result@ == "ok"@ {
            r is Ok
        } else {
            r matches Err(e) && error::is_format_error(e, "SQLite integrity check failed"@)
        },
{
    if text::same_text(result, "ok") {
        Ok(())
    } else {
        Err(error::format_error("SQLite integrity check failed"))
    }
}

/// The summary of a backup that was made.
pub fn create_user_backup(id: String, manifest: &Manifest) -> (r: UserBackupSummary)
    ensures
        r.id == id,
        r.relative_path@ == "backups/"@ + id@,
        r.created_at == manifest.created_at,
        r.file_count == manifest.files@.len(),
{
    let relative_path = text::join2("backups/", id.as_str());
    let count: usize = manifest.files.len();
    UserBackupSummary {
        id,
        relative_path,
        created_at: manifest.created_at.clone(),
        file_count: count as u64,
    }
}

/// The outcome of a verification that found nothing wrong.
pub fn verify_user_backup(id: &str, manifest: &Manifest) -> (r: UserBackupVerification)
    ensures
        r.id@ == id@,
        r.valid,
        r.file_count == manifest.files@.len(),
{
    let count: usize = manifest.files.len();
    UserBackupVerification { id: id.to_owned(), valid: true, file_count: count as u64 }
}

/// A directory among those of the backups.
#[derive(Debug, PartialEq, Eq)]
pub struct FoundBackup {
    pub name: String,
    /// Its manifest, if it could be read.
    pub manifest: Option<Manifest>,
}

/// Whether a backup came after another one.
pub open spec fn newer(a: UserBackupSummary, b: UserBackupSummary) -> bool {
    text::precedes(b.created_at@, a.created_at@, '\0')
}

/// A list with a backup put before the first one that is older.
pub open spec fn ordered_insert(list: Seq<UserBackupSummary>, x: UserBackupSummary) -> Seq<
    UserBackupSummary,
>
    decreases list.len(),
{
    if list.len() == 0 {
        seq![x]
    } else if newer(x, list[0]) {
        seq![x] + list
    } else {
        seq![list[0]] + ordered_insert(list.subrange(1, list.len() as int), x)
    }
}

/// Whether a summary is that of a found directory.
pub open spec fn is_summary_of(s: UserBackupSummary, found: FoundBackup) -> bool {
    &&& found.manifest matches Some(m) && s.created_at@ == m.created_at@ && s.file_count
        == m.files@.len()
    &&& s.id@ == found.name@
    &&& s.relative_path@ == "backups/"@ + found.name@
}

/// Whether a found directory is a backup.
pub open spec fn is_backup(found: FoundBackup) -> bool {
    backup_id(found.name@) && found.manifest is Some
}

/// Whether a list holds the backups of the found directories, the newest first, and those of one
/// time as they were found.
pub open spec fn lists(r: Seq<UserBackupSummary>, found: Seq<FoundBackup>) -> bool
    decreases found.len(),
{
    if found.len() == 0 {
        r.len() == 0
    } else if is_backup(found.last()) {
        exists|before: Seq<UserBackupSummary>, s: UserBackupSummary|
            {
                &&& lists(before, found.drop_last())
                &&& is_summary_of(s, found.last())
                &&& r == #[trigger] ordered_insert(before, s)
            }
    } else {
        lists(r, found.drop_last())
    }
}

fn insert_backup(list: &mut Vec<UserBackupSummary>, x: UserBackupSummary)
    ensures
        final(list)@ == ordered_insert(old(list)@, x),
{
    let ghost before = list@;
    let mut at: usize = 0;
    assert(before.subrange(0, before.len() as int) == before);
    assert(before.subrange(0, 0) + ordered_insert(before, x) =~= ordered_insert(before, x));
    while at < list.len() && !text::is_before(
        list[at].created_at.as_str(),
        x.created_at.as_str(),
        '\0',
    )
        invariant
            at <= list@.len(),
            list@ == before,
            before.subrange(0, at as int) + ordered_insert(
                before.subrange(at as int, before.len() as int),
                x,
            ) == ordered_insert(before, x),
        decreases list@.len() - at,
    {
        proof {
            let rest = before.subrange(at as int, before.len() as int);
            let tail = before.subrange(at + 1, before.len() as int);
            assert(rest.subrange(1, rest.len() as int) =~= tail);
            assert(ordered_insert(rest, x) == seq![rest[0]] + ordered_insert(tail, x));
            assert(before.subrange(0, at + 1) + ordered_insert(tail, x) =~= before.subrange(
                0,
                at as int,
            ) + (seq![rest[0]] + ordered_insert(tail, x)));
        }
        at = at + 1;
    }
    let ghost placed = x;
    list.insert(at, x);
    proof {
        let rest = before.subrange(at as int, before.len() as int);
        if at < before.len() {
            assert(ordered_insert(rest, placed) == seq![placed] + rest);
        } else {
            assert(rest.len() == 0);
            assert(ordered_insert(rest, placed) == seq![placed]);
        }
        assert(list@ =~= before.subrange(0, at as int) + ordered_insert(rest, placed));
    }
}

/// Lists the backups among the found directories, the newest first. What has another name than a
/// backup, or no readable manifest, is passed over.
pub fn list_user_backups(found: &Vec<FoundBackup>) -> (r: Vec<UserBackupSummary>)
    ensures
        lists(r@, found@),
{
    let mut r: Vec<UserBackupSummary> = Vec::new();
    let mut i: usize = 0;
    while i < found.len()
        invariant
            i <= found@.len(),
            lists(r@, found@.subrange(0, i as int)),
        decreases found@.len() - i,
    {
        let entry = &found[i];
        let ghost next = found@.subrange(0, i + 1);
        assert(next.drop_last() =~= found@.subrange(0, i as int));
        assert(next.last() == found@[i as int]);
        if is_backup_id(entry.name.as_str()) {
            if let Some(manifest) = &entry.manifest {
                let summary = create_user_backup(entry.name.clone(), manifest);
                let ghost before = r@;
                let ghost s = summary;
                insert_backup(&mut r, summary);
                assert(lists(before, next.drop_last()) && is_summary_of(s, next.last()) && r@
                    == ordered_insert(before, s));
            }
        }
        i = i + 1;
        assert(lists(r@, next));
    }
    assert(found@.subrange(0, i as int) == found@);
    r
}

/// Whether a list has the newest backups first.
pub open spec fn newest_first(list: Seq<UserBackupSummary>) -> bool {
    forall|i: int, j: int|
        0 <= i < j < list.len() ==> !newer(#[trigger] list[j], #[trigger] list[i])
}

proof fn lemma_insert_keeps_order(list: Seq<UserBackupSummary>, x: UserBackupSummary)
    requires
        newest_first(list),
    ensures
        newest_first(ordered_insert(list, x)),
        forall|y: UserBackupSummary|
            #![trigger ordered_insert(list, x).contains(y)]
            ordered_insert(list, x).contains(y) ==> y == x || list.contains(y),
    decreases list.len(),
{
    let r = ordered_insert(list, x);
    if list.len() == 0 {
    } else if newer(x, list[0]) {
        assert forall|i: int, j: int| 0 <= i < j < r.len() implies !newer(
            #[trigger] r[j],
            #[trigger] r[i],
        ) by {
            assert(r[j] == list[j - 1]);
            if i > 0 {
                assert(r[i] == list[i - 1]);
            } else {
                text::order_is_total(x.created_at@, list[0].created_at@, '\0');
                if newer(r[j], x) {
                    if j - 1 > 0 {
                        assert(!newer(list[j - 1], list[0]));
                    }
                    text::order_is_transitive(
                        list[0].created_at@,
                        x.created_at@,
                        r[j].created_at@,
                        '\0',
                    );
                }
            }
        }
        assert forall|y: UserBackupSummary| #[trigger] r.contains(y) implies y == x
            || list.contains(y) by {
            let k = choose|k: int| 0 <= k < r.len() && r[k] == y;
            if k > 0 {
                assert(list[k - 1] == y);
            }
        }
    } else {
        let tail = list.subrange(1, list.len() as int);
        let inner = ordered_insert(tail, x);
        assert(newest_first(tail)) by {
            assert forall|i: int, j: int| 0 <= i < j < tail.len() implies !newer(
                #[trigger] tail[j],
                #[trigger] tail[i],
            ) by {
                assert(tail[j] == list[j + 1] && tail[i] == list[i + 1]);
            }
        }
        lemma_insert_keeps_order(tail, x);
        assert forall|i: int, j: int| 0 <= i < j < r.len() implies !newer(
            #[trigger] r[j],
            #[trigger] r[i],
        ) by {
            assert(r[j] == inner[j - 1]);
            if i > 0 {
                assert(r[i] == inner[i - 1]);
            } else {
                assert(inner.contains(inner[j - 1]));
                if inner[j - 1] != x {
                    assert(tail.contains(inner[j - 1]));
                    let k = choose|k: int| 0 <= k < tail.len() && tail[k] == inner[j - 1];
                    assert(list[k + 1] == inner[j - 1]);
                }
            }
        }
        assert forall|y: UserBackupSummary| #[trigger] r.contains(y) implies y == x
            || list.contains(y) by {
            let k = choose|k: int| 0 <= k < r.len() && r[k] == y;
            if k == 0 {
                assert(list[0] == y);
            } else {
                assert(inner[k - 1] == y);
                assert(inner.contains(y));
                if y != x {
                    let m = choose|m: int| 0 <= m < tail.len() && tail[m] == y;
                    assert(list[m + 1] == y);
                }
            }
        }
    }
}

/// Listed backups stand with the newest first.
pub proof fn listed_backups_are_ordered(r: Seq<UserBackupSummary>, found: Seq<FoundBackup>)
    requires
        lists(r, found),
    ensures
        newest_first(r),
    decreases found.len(),
{
    if found.len() > 0 {
        if is_backup(found.last()) {
            let (before, s) = choose|before: Seq<UserBackupSummary>, s: UserBackupSummary|
                {
                    &&& lists(before, found.drop_last())
                    &&& is_summary_of(s, found.last())
                    &&& r == #[trigger] ordered_insert(before, s)
                };
            listed_backups_are_ordered(before, found.drop_last());
            lemma_insert_keeps_order(before, s);
        } else {
            listed_backups_are_ordered(r, found.drop_last());
        }
    }
}

/// A backup that is checked holds no file outside of its own directories, and none twice.
pub proof fn verified_files_stay_inside(
    complete: bool,
    manifest: Manifest,
    probes: Seq<EntryProbe>,
    windows: bool,
    i: int,
    j: int,
)
    requires
        manifest_ok(complete, manifest, probes, windows),
        0 <= i < j < manifest.files@.len(),
    ensures
        paths::names_only(manifest.files@[i].path@, windows),
        paths::names_only(manifest.files@[j].path@, windows),
        manifest.files@[i].path@ != manifest.files@[j].path@,
{
    assert(entry_ok(manifest.files@, i, probes[i], windows));
    assert(entry_ok(manifest.files@, j, probes[j], windows));
    assert(!occurs_before(manifest.files@, j, manifest.files@[j].path@));
}

} // verus!
