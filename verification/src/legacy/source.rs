//! Which database is which: a source is recognised by its tables and columns.
use vstd::prelude::*;

use crate::error;
use crate::error::Result;
use crate::paths;
use crate::sync_executor::FinalizationBarrier;
use crate::text;

verus! {

/// Where earlier programs kept their data, below the data root.
pub open spec fn legacy_namespace() -> Seq<char> {
    "weiback"@
}

/// The program that left a database behind.
#[derive(Debug, Clone, Copy, PartialEq, Eq, Structural)]
pub enum LegacySourceKind {
    RustV1,
    PythonV2,
}

/// The name under which a source is recorded.
pub open spec fn kind_name(kind: LegacySourceKind) -> Seq<char> {
    match kind {
        LegacySourceKind::RustV1 => "rust_v1"@,
        LegacySourceKind::PythonV2 => "python_v2"@,
    }
}

/// The name under which a source is recorded.
pub fn source_kind_name(kind: LegacySourceKind) -> (r: &'static str)
    ensures
        r@ == kind_name(kind),
{
    match kind {
        LegacySourceKind::RustV1 => "rust_v1",
        LegacySourceKind::PythonV2 => "python_v2",
    }
}

/// A recognised source.
#[derive(Debug, PartialEq, Eq)]
pub struct LegacyDetection {
    pub kind: LegacySourceKind,
    pub db_path: String,
    pub schema_version: u32,
    pub media_root: String,
    pub picture_dir: Option<String>,
    pub video_dir: Option<String>,
}

impl Clone for LegacyDetection {
    fn clone(&self) -> (r: Self)
        ensures
            r == *self,
    {
        LegacyDetection {
            kind: self.kind,
            db_path: self.db_path.clone(),
            schema_version: self.schema_version,
            media_root: self.media_root.clone(),
            picture_dir: text::clone_opt(&self.picture_dir),
            video_dir: text::clone_opt(&self.video_dir),
        }
    }
}

/// What to import and where to.
#[derive(Debug)]
pub struct LegacyImportRequest {
    pub source_path: String,
    pub media_root: String,
    pub imports_dir: String,
    /// Fails the publication before the item with this number, so that the recovery can be tried.
    pub publish_failure_after_for_test: Option<usize>,
    /// Fails in place of the commit, so that the rollback can be tried.
    pub commit_failure_for_test: bool,
    /// Stops between the fingerprint and the import, so that changes in between can be tried.
    pub fingerprint_gap_for_test: Option<(FinalizationBarrier, FinalizationBarrier)>,
}

impl LegacyImportRequest {
    /// A request without any of the faults for tests.
    pub fn new(source_path: String, media_root: String, imports_dir: String) -> (r: Self)
        ensures
            r == (LegacyImportRequest {
                source_path,
                media_root,
                imports_dir,
                publish_failure_after_for_test: None,
                commit_failure_for_test: false,
                fingerprint_gap_for_test: None,
            }),
    {
        LegacyImportRequest {
            source_path,
            media_root,
            imports_dir,
            publish_failure_after_for_test: None,
            commit_failure_for_test: false,
            fingerprint_gap_for_test: None,
        }
    }

    /// Fails the publication before the item with the given number.
    pub fn with_publish_failure_after_for_test(self, after: usize) -> (r: Self)
        ensures
            r == (LegacyImportRequest { publish_failure_after_for_test: Some(after), ..self }),
    {
        let mut r = self;
        r.publish_failure_after_for_test = Some(after);
        r
    }

    /// Fails in place of the commit.
    pub fn with_commit_failure_for_test(self) -> (r: Self)
        ensures
            r == (LegacyImportRequest { commit_failure_for_test: true, ..self }),
    {
        let mut r = self;
        r.commit_failure_for_test = true;
        r
    }

    /// Stops between the fingerprint and the import: the first barrier is entered there, the second
    /// one is waited for.
    pub fn with_fingerprint_gap_for_test(
        self,
        reached: FinalizationBarrier,
        resume: FinalizationBarrier,
    ) -> (r: Self)
        ensures
            r == (LegacyImportRequest { fingerprint_gap_for_test: Some((reached, resume)), ..self }),
    {
        let mut r = self;
        r.fingerprint_gap_for_test = Some((reached, resume));
        r
    }
}

/// A table and its columns.
#[derive(Debug, PartialEq, Eq)]
pub struct TableInfo {
    pub name: String,
    pub columns: Vec<String>,
}

/// Whether a table with all the columns is among the tables.
pub open spec fn has_table(tables: Seq<TableInfo>, name: Seq<char>, columns: Seq<Seq<char>>) -> bool {
    exists|i: int|
        {
            &&& 0 <= i < tables.len()
            &&& (#[trigger] tables[i]).name@ == name
            &&& forall|j: int|
                0 <= j < columns.len() ==> text::listed(
                    text::list_view(tables[i].columns@),
                    #[trigger] columns[j],
                )
        }
}

/// Whether the tables hold everything that the first program wrote.
pub open spec fn rust_signature(tables: Seq<TableInfo>) -> bool {
    has_table(tables, "posts"@, seq!["id"@, "text"@, "uid"@]) && has_table(
        tables,
        "users"@,
        seq!["id"@, "screen_name"@],
    ) && has_table(tables, "picture"@, seq!["url"@, "path"@, "post_id"@]) && has_table(
        tables,
        "video"@,
        seq!["url"@, "path"@, "post_id"@],
    )
}

/// Whether the tables hold everything that the second program wrote.
pub open spec fn python_signature(tables: Seq<TableInfo>) -> bool {
    has_table(tables, "weibo"@, seq!["id"@, "text"@, "uid"@]) && has_table(
        tables,
        "user"@,
        seq!["id"@, "screen_name"@],
    ) && has_table(tables, "image"@, seq!["url"@, "post_id"@])
}

/// The program that left the tables behind, if they tell exactly one.
pub open spec fn kind_of(tables: Seq<TableInfo>) -> Option<LegacySourceKind> {
    if rust_signature(tables) && !python_signature(tables) {
        Some(LegacySourceKind::RustV1)
    } else if python_signature(tables) && !rust_signature(tables) {
        Some(LegacySourceKind::PythonV2)
    } else {
        None
    }
}

fn table_matches(table: &TableInfo, name: &str, columns: &Vec<&str>) -> (r: bool)
    ensures
        r == (table.name@ == name@ && forall|j: int|
            0 <= j < columns@.len() ==> text::listed(
                text::list_view(table.columns@),
                #[trigger] columns@[j]@,
            )),
{
    if !text::same_text(table.name.as_str(), name) {
        return false;
    }
    let mut i: usize = 0;
    while i < columns.len()
        invariant
            i <= columns@.len(),
            table.name@ == name@,
            forall|j: int|
                0 <= j < i ==> text::listed(
                    text::list_view(table.columns@),
                    #[trigger] columns@[j]@,
                ),
        decreases columns@.len() - i,
    {
        if !text::is_listed(&table.columns, columns[i]) {
            return false;
        }
        i = i + 1;
    }
    true
}

/// Tests whether a table with all the columns is among the tables.
pub fn has_signature(tables: &Vec<TableInfo>, name: &str, columns: &Vec<&str>) -> (r: bool)
    ensures
        r == has_table(tables@, name@, Seq::new(columns@.len(), |i: int| columns@[i]@)),
{
    let ghost wanted = Seq::new(columns@.len(), |i: int| columns@[i]@);
    let mut i: usize = 0;
    while i < tables.len()
        invariant
            i <= tables@.len(),
            wanted == Seq::new(columns@.len(), |i: int| columns@[i]@),
            forall|k: int|
                0 <= k < i ==> !((#[trigger] tables@[k]).name@ == name@ && forall|j: int|
                    0 <= j < wanted.len() ==> text::listed(
                        text::list_view(tables@[k].columns@),
                        #[trigger] wanted[j],
                    )),
        decreases tables@.len() - i,
    {
        if table_matches(&tables[i], name, columns) {
            assert forall|j: int| 0 <= j < wanted.len() implies text::listed(
                text::list_view(tables@[i as int].columns@),
                #[trigger] wanted[j],
            ) by {
                assert(wanted[j] == columns@[j]@);
            }
            return true;
        }
        proof {
            if forall|j: int|
                0 <= j < wanted.len() ==> text::listed(
                    text::list_view(tables@[i as int].columns@),
                    #[trigger] wanted[j],
                ) {
                assert forall|j: int| 0 <= j < columns@.len() implies text::listed(
                    text::list_view(tables@[i as int].columns@),
                    #[trigger] columns@[j]@,
                ) by {
                    assert(wanted[j] == columns@[j]@);
                }
            }
        }
        i = i + 1;
    }
    false
}

fn columns2<'a>(a: &'a str, b: &'a str) -> (r: Vec<&'a str>)
    ensures
        Seq::new(r@.len(), |i: int| r@[i]@) == seq![a@, b@],
{
    let mut r: Vec<&'a str> = Vec::new();
    r.push(a);
    r.push(b);
    assert(Seq::new(r@.len(), |i: int| r@[i]@) =~= seq![a@, b@]);
    r
}

fn columns3<'a>(a: &'a str, b: &'a str, c: &'a str) -> (r: Vec<&'a str>)
    ensures
        Seq::new(r@.len(), |i: int| r@[i]@) == seq![a@, b@, c@],
{
    let mut r: Vec<&'a str> = Vec::new();
    r.push(a);
    r.push(b);
    r.push(c);
    assert(Seq::new(r@.len(), |i: int| r@[i]@) =~= seq![a@, b@, c@]);
    r
}

/// The program that left the tables behind, if they tell exactly one.
pub fn classify_source(tables: &Vec<TableInfo>) -> (r: Option<LegacySourceKind>)
    ensures
        r == kind_of(tables@),
{
    let media = columns3("url", "path", "post_id");
    let rust = has_signature(tables, "posts", &columns3("id", "text", "uid")) && has_signature(
        tables,
        "users",
        &columns2("id", "screen_name"),
    ) && has_signature(tables, "picture", &media) && has_signature(tables, "video", &media);
    let python = has_signature(tables, "weibo", &columns3("id", "text", "uid")) && has_signature(
        tables,
        "user",
        &columns2("id", "screen_name"),
    ) && has_signature(tables, "image", &columns2("url", "post_id"));
    if rust && !python {
        Some(LegacySourceKind::RustV1)
    } else if python && !rust {
        Some(LegacySourceKind::PythonV2)
    } else {
        None
    }
}

/// The first bytes of a SQLite database.
pub open spec fn sqlite_magic() -> Seq<u8> {
    seq![83u8, 81, 76, 105, 116, 101, 32, 102, 111, 114, 109, 97, 116, 32, 51, 0]
}

/// The version that the head of a SQLite database carries, big end first.
pub open spec fn user_version_of(header: Seq<u8>) -> Option<u32> {
    if header.len() >= 64 && header.subrange(0, 16) == sqlite_magic() {
        Some(
            (header[60] as int * 16777216 + header[61] as int * 65536 + header[62] as int * 256
                + header[63] as int) as u32,
        )
    } else {
        None
    }
}

/// The version that the head of a SQLite database carries; none for another file.
pub fn read_sqlite_user_version(header: &Vec<u8>) -> (r: Option<u32>)
    ensures
        r == user_version_of(header@),
{
    if header.len() < 64 {
        return None;
    }
    let magic: [u8; 16] = [83, 81, 76, 105, 116, 101, 32, 102, 111, 114, 109, 97, 116, 32, 51, 0];
    assert(magic@ =~= sqlite_magic());
    let mut i: usize = 0;
    while i < 16
        invariant
            i <= 16,
            header@.len() >= 64,
            magic@ == sqlite_magic(),
            forall|j: int| 0 <= j < i ==> header@[j] == #[trigger] magic@[j],
        decreases 16 - i,
    {
        if header[i] != magic[i] {
            assert(header@.subrange(0, 16)[i as int] != sqlite_magic()[i as int]);
            return None;
        }
        i = i + 1;
    }
    assert(header@.subrange(0, 16) =~= sqlite_magic());
    Some(
        (header[60] as u32) * 16777216 + (header[61] as u32) * 65536 + (header[62] as u32) * 256 + (
        header[63] as u32),
    )
}

/// What is known of a selected file.
#[derive(Debug)]
pub struct SourceProbe {
    /// Its resolved path, if it exists.
    pub source: Option<String>,
    /// The path of the current database, resolved where it exists.
    pub current: String,
    pub is_file: bool,
    /// Its first bytes, as many as there are up to the size of a head.
    pub header: Vec<u8>,
    /// Its tables, once it is known to be a database.
    pub tables: Vec<TableInfo>,
    /// Whether the directories of the media that it may refer to exist beside it.
    pub has_pictures: bool,
    pub has_videos: bool,
    pub has_images: bool,
}

/// Why a selected file is no source.
pub open spec fn source_fault(probe: SourceProbe) -> Option<Seq<char>> {
    match probe.source {
        None => Some("legacy source is unavailable"@),
        Some(source) => if source@ == probe.current@ {
            Some("legacy source cannot be the current database"@)
        } else if !probe.is_file || user_version_of(probe.header@) is None {
            Some("legacy source is not a supported SQLite database"@)
        } else if kind_of(probe.tables@) is None {
            Some("legacy source schema is unknown or ambiguous"@)
        } else if paths::parent_of(source@) is None {
            Some("legacy source has no parent"@)
        } else {
            None
        },
    }
}

/// A path within a directory, if it is a directory itself.
pub open spec fn directory_if(exists: bool, root: Seq<char>, name: Seq<char>) -> Option<Seq<char>> {
    if exists {
        Some(paths::joined(root, name))
    } else {
        None
    }
}

/// Whether a detection says what is known of a selected file.
pub open spec fn is_detection_of(d: LegacyDetection, probe: SourceProbe) -> bool {
    let source = probe.source->Some_0@;
    let root = paths::parent_of(source)->Some_0;
    &&& probe.source is Some
    &&& Some(d.kind) == kind_of(probe.tables@)
    &&& d.db_path@ == source
    &&& Some(d.schema_version) == user_version_of(probe.header@)
    &&& d.media_root@ == root
    &&& match d.kind {
        LegacySourceKind::RustV1 => text::opt_view(d.picture_dir) == directory_if(
            probe.has_pictures,
            root,
            "pictures"@,
        ) && text::opt_view(d.video_dir) == directory_if(probe.has_videos, root, "videos"@),
        LegacySourceKind::PythonV2 => text::opt_view(d.picture_dir) == directory_if(
            probe.has_images,
            root,
            "images"@,
        ) && d.video_dir is None,
    }
}

fn directory(exists: bool, root: &str, name: &str) -> (r: Option<String>)
    ensures
        text::opt_view(r) == directory_if(exists, root@, name@),
{
    if exists {
        Some(paths::join(root, name))
    } else {
        None
    }
}

/// Inspects a selected file. It is classified by its tables alone; its version is only reported.
pub fn inspect_legacy_source(probe: &SourceProbe) -> (r: Result<LegacyDetection>)
    ensures
        match source_fault(*probe) {
            Some(why) => r matches Err(e) && error::is_format_error(e, why),
            None => r matches Ok(d) && is_detection_of(d, *probe),
        },
{
    let source = match &probe.source {
        Some(source) => source,
        None => return Err(error::format_error("legacy source is unavailable")),
    };
    if text::same_text(source.as_str(), probe.current.as_str()) {
        return Err(error::format_error("legacy source cannot be the current database"));
    }
    let version: Option<u32> = read_sqlite_user_version(&probe.header);
    let schema_version: u32 = match version {
        Some(v) => v,
        None => return Err(
            error::format_error("legacy source is not a supported SQLite database"),
        ),
    };
    if !probe.is_file {
        return Err(error::format_error("legacy source is not a supported SQLite database"));
    }
    let kind = match classify_source(&probe.tables) {
        Some(kind) => kind,
        None => return Err(error::format_error("legacy source schema is unknown or ambiguous")),
    };
    let root = match paths::parent(source.as_str()) {
        Some(root) => root,
        None => return Err(error::format_error("legacy source has no parent")),
    };
    let (picture_dir, video_dir) = match kind {
        LegacySourceKind::RustV1 => (
            directory(probe.has_pictures, root.as_str(), "pictures"),
            directory(probe.has_videos, root.as_str(), "videos"),
        ),
        LegacySourceKind::PythonV2 => (
            directory(probe.has_images, root.as_str(), "images"),
            None,
        ),
    };
    Ok(
        LegacyDetection {
            kind,
            db_path: source.clone(),
            schema_version,
            media_root: root,
            picture_dir,
            video_dir,
        },
    )
}

/// Where a source is looked for below the data root, and where the current database is.
pub fn legacy_source_paths(data_root: &str) -> (r: (String, String))
    ensures
        r.0@ == paths::joined(paths::joined(data_root@, legacy_namespace()), "weiback.db"@),
        r.1@ == paths::joined(data_root@, "weiback-next/weiback.db"@),
{
    let source = paths::join(paths::join(data_root, "weiback").as_str(), "weiback.db");
    (source, paths::join(data_root, "weiback-next/weiback.db"))
}

/// The sources that were found: the inspected one, if it is a source.
pub fn detect_legacy_sources(inspected: Result<LegacyDetection>) -> (r: Vec<LegacyDetection>)
    ensures
        r@ == match inspected {
            Ok(d) => seq![d],
            Err(_) => Seq::empty(),
        },
{
    let mut r: Vec<LegacyDetection> = Vec::new();
    if let Ok(d) = inspected {
        r.push(d);
    }
    r
}

/// A file whose tables fit both programs, or neither, is never a source.
pub proof fn ambiguous_files_are_refused(probe: SourceProbe)
    requires
        rust_signature(probe.tables@) == python_signature(probe.tables@),
    ensures
        source_fault(probe) is Some,
{
}

} // verus!
