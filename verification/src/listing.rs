use vstd::prelude::*;

verus! {

/// A read-only snapshot of one directory entry: no identity beyond the path
/// at enumeration time, and never kept live or watched.
#[derive(Debug)]
pub struct FileInfo {
    pub name: String,
    pub path: String,
    pub size: u64,
    pub is_dir: bool,
    /// The modification instant, rendered in local time to second precision.
    pub modified_time: String,
}

/// What the enumerating caller found for one entry of a directory: either
/// the metadata it could read, with the modification time as seconds since
/// the Unix epoch, or a marker that the metadata was unreadable.
#[derive(Debug)]
pub enum DirEntryRecord {
    Readable { name: String, path: String, size: u64, is_dir: bool, modified_secs: i64 },
    Unreadable,
}

/// The least number of epoch seconds whose local rendering is guaranteed.
pub const MIN_RENDERABLE_SECS: i64 = -8_000_000_000_000;

/// The greatest number of epoch seconds whose local rendering is guaranteed.
pub const MAX_RENDERABLE_SECS: i64 = 8_000_000_000_000;

/// Whether a listing keeps an entry: its metadata was readable and its
/// modification time lies in the renderable range. An entry whose timestamp
/// cannot be rendered is treated like one whose metadata could not be read.
pub open spec fn listable(e: DirEntryRecord) -> bool {
    e matches DirEntryRecord::Readable { modified_secs, .. } && MIN_RENDERABLE_SECS <= modified_secs
        <= MAX_RENDERABLE_SECS
}

/// The subsequence of entries a listing keeps, in enumeration order.
pub open spec fn listables_of(entries: Seq<DirEntryRecord>) -> Seq<DirEntryRecord> {
    entries.filter(|e: DirEntryRecord| listable(e))
}

/// Whether a snapshot faithfully reports one readable entry: every plain
/// field copied exactly, and the timestamp rendered to at least the length
/// of a full date and time. The rendered text itself depends on the
/// machine's time zone, so no more is stated of it.
pub open spec fn reports(f: FileInfo, e: DirEntryRecord) -> bool {
    &&& e matches DirEntryRecord::Readable { name, path, size, is_dir, .. }
    &&& f.name@ == name@
    &&& f.path@ == path@
    &&& f.size == size
    &&& f.is_dir == is_dir
    &&& f.modified_time@.len() >= 19
}

/// Relies on chrono: DateTime::from_timestamp (documented to answer `Some`
/// for every in-range number of seconds, far beyond the renderable bounds
/// here), with_timezone to the local zone, and formatting with
/// "%Y-%m-%d %H:%M:%S", whose rendering has a four-digit-minimum year and
/// two digits for each smaller field, hence at least 19 characters. The text
/// depends on the machine's time zone, so nothing more is stated of it.
#[verifier::external_body]
fn format_local_timestamp(secs: i64) -> (r: Option<String>)
    ensures
        MIN_RENDERABLE_SECS <= secs <= MAX_RENDERABLE_SECS ==> r is Some,
        r matches Some(s) ==> s@.len() >= 19,
{
    match chrono::DateTime::from_timestamp(secs, 0) {
        Some(dt) => Some(dt.with_timezone(&chrono::Local).format("%Y-%m-%d %H:%M:%S").to_string()),
        None => None,
    }
}

/// Builds the snapshots for one enumerated directory level, in order,
/// skipping every entry whose metadata could not be read rather than failing
/// the whole listing. Only the enumeration itself can fail, and that failure
/// stays with the caller that walked the directory.
pub fn read_directory(entries: &Vec<DirEntryRecord>) -> (r: Vec<FileInfo>)
    ensures
        r@.len() == listables_of(entries@).len(),
        forall|i: int| 0 <= i < r@.len() ==> reports(#[trigger] r@[i], listables_of(entries@)[i]),
{
    let mut result: Vec<FileInfo> = Vec::new();
    let mut idx: usize = 0;
    while idx < entries.len()
        invariant
            idx <= entries@.len(),
            result@.len() == listables_of(entries@.take(idx as int)).len(),
            forall|i: int|
                0 <= i < result@.len() ==> reports(
                    #[trigger] result@[i],
                    listables_of(entries@.take(idx as int))[i],
                ),
        decreases entries@.len() - idx,
    {
        let ghost prefix = entries@.take(idx as int);
        let ghost extended = entries@.take(idx as int + 1);
        proof {
            assert(extended.drop_last() =~= prefix);
            assert(extended.last() == entries@[idx as int]);
            reveal(Seq::filter);
        }
        match &entries[idx] {
            DirEntryRecord::Readable { name, path, size, is_dir, modified_secs } => {
                if MIN_RENDERABLE_SECS <= *modified_secs && *modified_secs <= MAX_RENDERABLE_SECS {
                    match format_local_timestamp(*modified_secs) {
                        Some(rendered) => {
                            result.push(
                                FileInfo {
                                    name: name.clone(),
                                    path: path.clone(),
                                    size: *size,
                                    is_dir: *is_dir,
                                    modified_time: rendered,
                                },
                            );
                        },
                        None => {
                            // Unreachable: the renderer answers Some for the
                            // whole renderable range.
                        },
                    }
                }
            },
            DirEntryRecord::Unreadable => {},
        }
        idx = idx + 1;
    }
    proof {
        assert(entries@.take(entries@.len() as int) =~= entries@);
    }
    result
}

} // verus!
