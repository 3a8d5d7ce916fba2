//! Putting the staged files of an import in place: which paths a manifest may name, and what each
//! item does to its row.
use vstd::prelude::*;

use crate::error;
use crate::error::{Error, Result};
use crate::hash;
use crate::legacy::import;
use crate::legacy::import::{ImportManifest, ImportMediaRow, ManifestItem, MediaKind};
use crate::paths;
use crate::paths::PathPart;
use crate::text;

verus! {

/// Whether a character is a hexadecimal digit.
pub open spec fn hex_digit(c: char) -> bool {
    '0' <= c <= '9' || 'a' <= c <= 'f' || 'A' <= c <= 'F'
}

/// Whether a text is a UUID of 32 digits in five groups that hyphens part.
pub open spec fn hyphenated_uuid(s: Seq<char>) -> bool {
    s.len() == 36 && forall|i: int|
        0 <= i < 36 ==> if i == 8 || i == 13 || i == 18 || i == 23 {
            #[trigger] s[i] == '-'
        } else {
            hex_digit(s[i])
        }
}

/// Whether a text is a UUID: 32 digits, with hyphens or without, and with hyphens also in braces or
/// after `urn:uuid:`.
pub open spec fn uuid_text(s: Seq<char>) -> bool {
    ||| s.len() == 32 && forall|i: int| 0 <= i < 32 ==> hex_digit(#[trigger] s[i])
    ||| hyphenated_uuid(s)
    ||| s.len() == 38 && s[0] == '{' && s[37] == '}' && hyphenated_uuid(s.subrange(1, 37))
    ||| s.len() == 45 && text::lower(s.subrange(0, 9)) == "urn:uuid:"@ && hyphenated_uuid(
        s.subrange(9, 45),
    )
}

/// `uuid::Uuid::parse_str` accepts a text exactly when it is a UUID in one of its four forms.
#[verifier::external_body]
fn is_uuid(id: &str) -> (r: bool)
    ensures
        r == uuid_text(id@),
{
    uuid::Uuid::parse_str(id).is_ok()
}

/// What the names of staging directories begin with.
pub open spec fn batch_prefix() -> Seq<char> {
    "import-media-"@
}

/// Whether a name is that of a staging directory.
pub open spec fn batch_name(name: Seq<char>) -> bool {
    text::has_prefix(name, batch_prefix()) && uuid_text(
        name.subrange(batch_prefix().len() as int, name.len() as int),
    )
}

/// Checks the name of a staging directory, and that it lies below the imports root.
pub fn validate_batch_dir(staging: &str, is_directory_inside: bool) -> (r: Result<()>)
    ensures
        if !(paths::file_name_of(staging@) is Some && batch_name(
            paths::file_name_of(staging@)->Some_0,
        )) {
            r matches Err(e) && error::is_format_error(e, "legacy import batch name is invalid"@)
        } else if !is_directory_inside {
            r matches Err(e) && error::is_format_error(
                e,
                "legacy import batch escapes imports root"@,
            )
        } else {
            r is Ok
        },
{
    let name = match paths::file_name(staging) {
        Some(name) => name,
        None => return Err(error::format_error("legacy import batch name is invalid")),
    };
    if !text::starts_with(name.as_str(), "import-media-") {
        return Err(error::format_error("legacy import batch name is invalid"));
    }
    let v = text::chars_of(name.as_str());
    proof {
        reveal_strlit("import-media-");
        assert(batch_prefix().len() == 13);
    }
    let id = text::slice_text(&v, 13, v.len());
    if !is_uuid(id.as_str()) {
        return Err(error::format_error("legacy import batch name is invalid"));
    }
    if !is_directory_inside {
        return Err(error::format_error("legacy import batch escapes imports root"));
    }
    Ok(())
}

/// Checks that a path of a manifest consists of names only.
pub fn safe_relative_path(value: &str, field: &str, windows: bool) -> (r: Result<()>)
    ensures
        if paths::names_only(value@, windows) {
            r is Ok
        } else {
            r matches Err(e) && error::is_format_error(
                e,
                "legacy manifest "@ + field@ + " path is invalid"@,
            )
        },
{
    if paths::is_names_only(value, windows) {
        Ok(())
    } else {
        Err(Error::FormatError(text::join3("legacy manifest ", field, " path is invalid")))
    }
}

/// Whether a path leads into the directory of the staged files.
pub open spec fn staged_below_files(value: Seq<char>, windows: bool) -> bool {
    let parts = paths::parts_of(paths::slashed(value, windows));
    parts.len() > 0 && parts[0] == paths::PartView::Normal("files"@)
}

/// What the disk says of a staged file.
#[derive(Debug, PartialEq, Eq)]
pub enum StagedProbe {
    /// It could not be resolved.
    Unresolved(String),
    /// It is no file, or resolves to one outside of the staging directory.
    Outside,
    /// It is a file within the staging directory.
    Inside,
}

/// Checks a staged path: names only, the first of them that of the staged files, and on the disk a
/// file within the staging directory.
pub fn safe_staged_file(value: &str, probe: StagedProbe, windows: bool) -> (r: Result<()>)
    ensures
        if !paths::names_only(value@, windows) || !staged_below_files(value@, windows) {
            r matches Err(e) && error::is_format_error(e, "legacy manifest staged path is invalid"@)
        } else {
            match probe {
                StagedProbe::Unresolved(why) => r == Err::<(), Error>(Error::Io(why)),
                StagedProbe::Outside => r matches Err(e) && error::is_format_error(
                    e,
                    "legacy manifest staged path escapes batch"@,
                ),
                StagedProbe::Inside => r is Ok,
            }
        },
{
    if !paths::is_names_only(value, windows) {
        return Err(error::format_error("legacy manifest staged path is invalid"));
    }
    let relative = paths::with_slashes(value, windows);
    let parts = paths::components(relative.as_str());
    if parts.len() == 0 {
        assert(paths::parts_of(relative@).len() == 0);
        return Err(error::format_error("legacy manifest staged path is invalid"));
    }
    assert(paths::parts_of(relative@)[0] == paths::part_view(parts@[0]));
    let below = match &parts[0] {
        PathPart::Normal(name) => text::same_text(name.as_str(), "files"),
        _ => false,
    };
    if !below {
        return Err(error::format_error("legacy manifest staged path is invalid"));
    }
    match probe {
        StagedProbe::Unresolved(why) => Err(Error::Io(why)),
        StagedProbe::Outside => Err(
            error::format_error("legacy manifest staged path escapes batch"),
        ),
        StagedProbe::Inside => Ok(()),
    }
}

/// The directories that lead to a file below the media root, outermost first.
pub open spec fn directories_to(parts: Seq<paths::PartView>, n: int) -> Seq<Seq<char>>
    decreases n,
{
    if n <= 0 {
        Seq::empty()
    } else {
        let before = directories_to(parts, n - 1);
        before.push(
            paths::joined(
                if before.len() > 0 {
                    before.last()
                } else {
                    Seq::empty()
                },
                match parts[n - 1] {
                    paths::PartView::Normal(name) => name,
                    _ => Seq::empty(),
                },
            ),
        )
    }
}

/// The directories that have to be made and checked, one after the other, before a file can be put
/// below the media root.
pub fn safe_media_destination(value: &str, windows: bool) -> (r: Vec<String>)
    requires
        paths::names_only(value@, windows),
    ensures
        ({
            let parts = paths::parts_of(paths::slashed(value@, windows));
            text::list_view(r@) == directories_to(parts, parts.len() - 1)
        }),
{
    let relative = paths::with_slashes(value, windows);
    let parts = paths::components(relative.as_str());
    let ghost views = paths::parts_of(relative@);
    let mut r: Vec<String> = Vec::new();
    let mut current = String::new();
    let mut i: usize = 0;
    assert(text::list_view(r@) =~= directories_to(views, 0));
    assert(current@ =~= Seq::<char>::empty());
    let end: usize = if parts.len() == 0 {
        0
    } else {
        parts.len() - 1
    };
    while i < end
        invariant
            i <= end,
            end <= parts@.len(),
            parts@.len() > 0 ==> end == parts@.len() - 1,
            paths::parts_view(parts@) == views,
            views == paths::parts_of(relative@),
            paths::plain_relative(relative@),
            text::list_view(r@) == directories_to(views, i as int),
            current@ == if r@.len() > 0 {
                r@[r@.len() - 1]@
            } else {
                Seq::empty()
            },
        decreases end - i,
    {
        assert(views[i as int] == paths::part_view(parts@[i as int]));
        assert(views[i as int] is Normal);
        let ghost before = text::list_view(r@);
        assert(before.len() == r@.len());
        match &parts[i] {
            PathPart::Normal(name) => {
                current = paths::join(current.as_str(), name.as_str());
            },
            _ => {},
        }
        r.push(current.clone());
        assert(text::list_view(r@) =~= before.push(current@));
        i = i + 1;
        assert(text::list_view(r@) == directories_to(views, i as int));
    }
    proof {
        if parts@.len() == 0 {
            assert(views.len() == 0);
        }
    }
    r
}

/// Checks that what a path resolved to lies below the media root.
pub fn check_inside_media_root(inside: bool) -> (r: Result<()>)
    ensures
        if inside {
            r is Ok
        } else {
            r matches Err(e) && error::is_format_error(
                e,
                "legacy manifest final path escapes media root"@,
            )
        },
{
    if inside {
        Ok(())
    } else {
        Err(error::format_error("legacy manifest final path escapes media root"))
    }
}

/// Whether the paths of a manifest item are safe by their form.
pub open spec fn safe_item(item: ManifestItem, windows: bool) -> bool {
    paths::names_only(item.staged_path@, windows) && staged_below_files(item.staged_path@, windows)
        && paths::names_only(item.final_path@, windows)
}

/// Why the form of a manifest item is refused.
pub open spec fn item_fault(item: ManifestItem, windows: bool) -> Option<Seq<char>> {
    if !paths::names_only(item.staged_path@, windows) || !staged_below_files(
        item.staged_path@,
        windows,
    ) {
        Some("legacy manifest staged path is invalid"@)
    } else if !paths::names_only(item.final_path@, windows) {
        Some("legacy manifest "@ + "final"@ + " path is invalid"@)
    } else {
        None
    }
}

/// Checks the form of the paths of a manifest: the first item that is refused refuses the manifest.
pub fn validate_manifest(manifest: &ImportManifest, windows: bool) -> (r: Result<()>)
    ensures
        match r {
            Ok(_) => forall|i: int|
                0 <= i < manifest.items@.len() ==> safe_item(#[trigger] manifest.items@[i], windows),
            Err(e) => exists|i: int|
                {
                    &&& 0 <= i < manifest.items@.len()
                    &&& item_fault(#[trigger] manifest.items@[i], windows) is Some
                    &&& error::is_format_error(e, item_fault(manifest.items@[i], windows)->Some_0)
                    &&& forall|j: int|
                        0 <= j < i ==> safe_item(#[trigger] manifest.items@[j], windows)
                },
        },
{
    let mut i: usize = 0;
    while i < manifest.items.len()
        invariant
            i <= manifest.items@.len(),
            forall|j: int| 0 <= j < i ==> safe_item(#[trigger] manifest.items@[j], windows),
        decreases manifest.items@.len() - i,
    {
        let item = &manifest.items[i];
        if let Err(e) = safe_staged_file(item.staged_path.as_str(), StagedProbe::Inside, windows) {
            assert(item_fault(manifest.items@[i as int], windows) is Some);
            return Err(e);
        }
        if let Err(e) = safe_relative_path(item.final_path.as_str(), "final", windows) {
            assert(item_fault(manifest.items@[i as int], windows) is Some);
            return Err(e);
        }
        i = i + 1;
    }
    Ok(())
}

/// How a link or a copy to the place of a file ended.
#[derive(Debug, PartialEq, Eq)]
pub enum LinkOutcome {
    Done,
    CrossesDevices(String),
    AlreadyExists,
    Failed(String),
}

/// What putting a staged file in place asks for.
#[derive(Debug)]
pub enum LinkStep {
    /// The file is in place.
    Placed,
    /// Copy the file, which cannot be linked.
    Copy,
    /// Compare the file with the one that has its place.
    Compare,
    /// Give up.
    Fail(Error),
}

/// What to do after a link, or after the copy that stood in for it: a link across devices is
/// replaced by a copy, a copy is not; and a file that is there already is compared.
pub fn after_link(outcome: LinkOutcome, was_copy: bool) -> (r: LinkStep)
    ensures
        match outcome {
            LinkOutcome::Done => r is Placed,
            LinkOutcome::CrossesDevices(why) => if was_copy {
                r == LinkStep::Fail(Error::Io(why))
            } else {
                r is Copy
            },
            LinkOutcome::AlreadyExists => r is Compare,
            LinkOutcome::Failed(why) => r == LinkStep::Fail(Error::Io(why)),
        },
{
    match outcome {
        LinkOutcome::Done => LinkStep::Placed,
        LinkOutcome::CrossesDevices(why) => if was_copy {
            LinkStep::Fail(Error::Io(why))
        } else {
            LinkStep::Copy
        },
        LinkOutcome::AlreadyExists => LinkStep::Compare,
        LinkOutcome::Failed(why) => LinkStep::Fail(Error::Io(why)),
    }
}

/// Whether a file that is there already can stand for the staged one: only if it is the same.
pub fn compare_existing(same_bytes: bool) -> (r: Result<()>)
    ensures
        if same_bytes {
            r is Ok
        } else {
            r matches Err(e) && error::is_format_error(
                e,
                "legacy media destination already exists"@,
            )
        },
{
    if same_bytes {
        Ok(())
    } else {
        Err(error::format_error("legacy media destination already exists"))
    }
}

/// Whether an item without a staged file has been put in place earlier.
pub fn without_staged_file(destination_is_file: bool) -> (r: Result<()>)
    ensures
        if destination_is_file {
            r is Ok
        } else {
            r matches Err(e) && error::is_format_error(
                e,
                "legacy media staging file is unavailable"@,
            )
        },
{
    if destination_is_file {
        Ok(())
    } else {
        Err(error::format_error("legacy media staging file is unavailable"))
    }
}

/// What the publication of a manifest does next.
#[derive(Debug, PartialEq, Eq)]
pub enum PublishStep {
    /// Look whether the item with this number is still held for the import; if so, put its file in
    /// place and publish its row.
    Item(usize),
    /// Release the rows of the import that are left.
    Release,
}

/// What the publication of a manifest does after so many items.
pub fn publish_manifest(manifest: &ImportManifest, done: usize, fail_after: Option<usize>) -> (r:
    Result<PublishStep>)
    ensures
        if done >= manifest.items@.len() {
            r == Ok::<PublishStep, Error>(PublishStep::Release)
        } else if fail_after == Some(done) {
            r matches Err(e) && error::is_inconsistent(e, "test publish failure"@)
        } else {
            r == Ok::<PublishStep, Error>(PublishStep::Item(done))
        },
{
    if done >= manifest.items.len() {
        return Ok(PublishStep::Release);
    }
    if let Some(after) = fail_after {
        if after == done {
            return Err(error::inconsistent("test publish failure"));
        }
    }
    Ok(PublishStep::Item(done))
}

/// Whether a row is held for an import and has no file.
pub open spec fn held_for(row: ImportMediaRow, batch: Seq<char>) -> bool {
    row.status@ == "pending"@ && row.import_hold && text::opt_view(row.import_batch) == Some(batch)
        && row.local_path is None
}

fn is_held_for(row: &ImportMediaRow, batch: &str) -> (r: bool)
    ensures
        r == held_for(*row, batch@),
{
    let same_batch = match &row.import_batch {
        Some(b) => text::same_text(b.as_str(), batch),
        None => false,
    };
    text::same_text(row.status.as_str(), "pending") && row.import_hold && same_batch
        && row.local_path.is_none()
}

/// The row of an item after its file was put in place: a row that is held for the import and has the
/// kind of the item is downloaded, any other row stays.
pub fn publish_media_row(row: ImportMediaRow, item: &ManifestItem, length: u64, batch: &str) -> (r:
    ImportMediaRow)
    ensures
        if held_for(row, batch@) && row.media_type@ == item.media_type@ {
            &&& r.status@ == "downloaded"@
            &&& text::opt_view(r.local_path) == Some(item.final_path@)
            &&& r.content_length == Some(
                if length > i64::MAX {
                    i64::MAX
                } else {
                    length as i64
                },
            )
            &&& !r.import_hold
            &&& r.import_batch is None
            &&& r.media_type == row.media_type
        } else {
            r == row
        },
{
    if !is_held_for(&row, batch) || !text::same_text(
        row.media_type.as_str(),
        item.media_type.as_str(),
    ) {
        return row;
    }
    let mut row = row;
    row.status = "downloaded".to_owned();
    row.local_path = Some(item.final_path.clone());
    row.content_length = Some(
        if length > 0x7fff_ffff_ffff_ffff {
            i64::MAX
        } else {
            length as i64
        },
    );
    row.import_hold = false;
    row.import_batch = None;
    row
}

/// A row after the publication: no longer held, so that it can be downloaded.
pub fn release_media_row(row: ImportMediaRow, batch: &str) -> (r: ImportMediaRow)
    ensures
        if held_for(row, batch@) {
            r == (ImportMediaRow { import_hold: false, import_batch: None, ..row })
        } else {
            r == row
        },
        !held_for(r, batch@),
{
    if !is_held_for(&row, batch) {
        return row;
    }
    let mut row = row;
    row.import_hold = false;
    row.import_batch = None;
    row
}

/// The state of an import in its record.
#[derive(Debug, PartialEq, Eq)]
pub struct ImportRecord {
    pub status: String,
    pub updated_at: String,
    pub completed_at: Option<String>,
}

/// The record of an import after its publication: completed with the present time, or recoverable
/// with the time of an earlier completion kept.
pub fn update_import_status(record: ImportRecord, published: bool, now: &str) -> (r: ImportRecord)
    ensures
        r.status@ == if published {
            "completed"@
        } else {
            "partial_recoverable"@
        },
        r.updated_at@ == now@,
        if published {
            text::opt_view(r.completed_at) == Some(now@)
        } else {
            r.completed_at == record.completed_at
        },
{
    ImportRecord {
        status: if published {
            "completed".to_owned()
        } else {
            "partial_recoverable".to_owned()
        },
        updated_at: now.to_owned(),
        completed_at: if published {
            Some(now.to_owned())
        } else {
            record.completed_at
        },
    }
}

/// Whether an import has to be published again.
pub fn is_recoverable(status: &str) -> (r: bool)
    ensures
        r == (status@ == "pending_publish"@ || status@ == "partial_recoverable"@),
{
    text::same_text(status, "pending_publish") || text::same_text(status, "partial_recoverable")
}

proof fn lemma_hex_digits(n: nat, width: nat)
    ensures
        text::hex(n, width).len() == width,
        !text::hex(n, width).contains('/'),
        !text::hex(n, width).contains('\\'),
    decreases width,
{
    if width > 0 {
        lemma_hex_digits(n / 16, (width - 1) as nat);
        let before = text::hex(n / 16, (width - 1) as nat);
        let c = text::hex_char((n % 16) as int);
        assert(c != '/' && c != '\\');
        let whole = before.push(c);
        assert forall|i: int| 0 <= i < whole.len() implies whole[i] != '/' && whole[i] != '\\' by {
            if i < before.len() {
                assert(before.contains(before[i]));
            }
        }
    }
}

proof fn lemma_last_dot(name: Seq<char>)
    ensures
        paths::last_dot(name) matches Some(at) ==> 0 <= at < name.len(),
    decreases name.len(),
{
    if name.len() > 0 {
        lemma_last_dot(name.drop_last());
    }
}

proof fn lemma_extension_holds_no_separator(path: Seq<char>, windows: bool)
    ensures
        !import::copied_extension(paths::slashed(path, windows)).contains('/'),
        windows ==> !import::copied_extension(paths::slashed(path, windows)).contains('\\'),
{
    reveal_strlit("bin");
    let read = paths::slashed(path, windows);
    let ext = import::copied_extension(read);
    if paths::extension_of(read) is Some && paths::extension_of(read)->Some_0.len() > 0 {
        let name = paths::file_name_of(read)->Some_0;
        paths::names_hold_no_separator(read);
        if windows {
            paths::slashed_paths_hold_no_backslash(path);
            paths::names_come_from_the_path(read, '\\');
        }
        lemma_last_dot(name);
        assert forall|i: int| 0 <= i < ext.len() implies ext[i] != '/' && (windows ==> ext[i]
            != '\\') by {
            let at = paths::last_dot(name)->Some_0;
            assert(ext[i] == name[at + 1 + i]);
            assert(name.contains(name[at + 1 + i]));
        }
    } else {
        assert(ext == "bin"@);
    }
}

/// What an import stages is accepted when it is published: the paths of a copied file consist of
/// names only, and the staged one leads into the directory of the staged files.
pub proof fn staged_items_are_safe(
    item: ManifestItem,
    kind: MediaKind,
    url: Seq<char>,
    path: Seq<char>,
    windows: bool,
)
    requires
        item.final_path@ == import::copied_path(kind, url, paths::slashed(path, windows)),
        item.staged_path@ == "files/"@ + import::copied_path(
            kind,
            url,
            paths::slashed(path, windows),
        ),
    ensures
        safe_item(item, windows),
{
    let read = paths::slashed(path, windows);
    let name = import::copied_name(url, read);
    let dir = import::kind_directory(kind);
    let files = "files"@;
    reveal_strlit("files");
    reveal_strlit("files/");
    reveal_strlit("pictures");
    reveal_strlit("videos");
    reveal_strlit("/");
    reveal_strlit(".");
    reveal_strlit("..");
    let digits = text::hex(
        hash::fnv1a_of(vstd::utf8::encode_utf8(url)) as nat,
        16,
    );
    let ext = import::copied_extension(read);
    lemma_hex_digits(hash::fnv1a_of(vstd::utf8::encode_utf8(url)) as nat, 16);
    lemma_extension_holds_no_separator(path, windows);
    assert forall|i: int| 0 <= i < name.len() implies name[i] != '/' && (windows ==> name[i]
        != '\\') by {
        if i < 16 {
            assert(name[i] == digits[i]);
            assert(digits.contains(digits[i]));
        } else if i > 16 {
            assert(name[i] == ext[i - 17]);
            assert(ext.contains(ext[i - 17]));
        }
    }
    assert(paths::is_name(name)) by {
        assert(name.len() >= 17);
    }
    assert(paths::is_name(dir)) by {
        assert forall|i: int| 0 <= i < dir.len() implies dir[i] != '/' by {}
        assert(dir.len() >= 6);
    }
    assert(paths::is_name(files)) by {
        assert forall|i: int| 0 <= i < files.len() implies files[i] != '/' by {}
        assert(files.len() == 5);
    }
    let none = Seq::<char>::empty();
    let last = import::copied_path(kind, url, read);
    let staged = item.staged_path@;
    paths::joining_a_name_extends(none, dir);
    assert(paths::joined(none, dir) == dir);
    paths::joining_a_name_extends(dir, name);
    assert(paths::joined(dir, name) =~= last);
    paths::joining_a_name_extends(none, files);
    assert(paths::joined(none, files) == files);
    paths::joining_a_name_extends(files, dir);
    let base = paths::joined(files, dir);
    paths::joining_a_name_extends(base, name);
    assert(paths::joined(base, name) =~= staged);
    assert(paths::parts_of(files)[paths::parts_of(none).len() as int] == paths::PartView::Normal(
        files,
    ));
    assert(paths::parts_of(none) =~= Seq::<paths::PartView>::empty()) by {
        reveal_with_fuel(paths::parts_from, 2);
        reveal_with_fuel(paths::split_of, 2);
    }
    assert(paths::parts_of(staged)[0] == paths::PartView::Normal(files));
    if windows {
        let lead = dir.len() + 1;
        assert forall|i: int| 0 <= i < last.len() implies last[i] != '\\' by {
            if i >= lead {
                assert(last[i] == name[i - lead]);
            }
        }
        assert forall|i: int| 0 <= i < staged.len() implies staged[i] != '\\' by {
            if i >= 6 {
                assert(staged[i] == last[i - 6]);
            }
        }
        paths::slashed_paths_are_portable(last, windows);
        paths::slashed_paths_are_portable(staged, windows);
    }
    assert(last[1] == dir[1]);
}

} // verus!
