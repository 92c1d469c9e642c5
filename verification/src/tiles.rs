//! The tile collection manager: the single source of truth for which
//! archives are servable and from where.
//!
//! The collection owns the bookkeeping of the registered archives. The open
//! archive-reader handles themselves live with the hosting application and
//! are referred to by numeric handle; all reads and directory scans are
//! performed outside and their outcomes handed in as plain values.

use vstd::prelude::*;
use vstd::string::StrSliceExecFns;
use vstd::string::StringExecFns;

use crate::bounds::Bounds;
use crate::error::{Error, ErrorKind};
use crate::pathutil::{
    file_name_of, has_pmtiles_extension, is_path_within_dir, join_path, spec_file_name_of,
    spec_file_name_value, spec_has_pmtiles_extension, spec_path_within_dir, str_eq,
};
use crate::region::RegionRecord;

verus! {

/// The `(zoom, x, y)` address of one tile.
#[derive(Clone, Copy, Debug, PartialEq, Eq, Structural)]
pub struct TileCoordinate {
    pub zoom: u8,
    pub x: u32,
    pub y: u32,
}

impl TileCoordinate {
    /// A coordinate is addressable when the zoom level is at most 31 and
    /// both axes lie under `2^zoom`.
    pub open spec fn valid(&self) -> bool {
        &&& self.zoom <= 31
        &&& (self.x as u64) < (1u64 << self.zoom)
        &&& (self.y as u64) < (1u64 << self.zoom)
    }
}

/// Checks a tile address the way the archive index addresses tiles;
/// an out-of-range coordinate aborts a lookup with an error.
pub fn validate_tile_coordinate(zoom: u8, x: u32, y: u32) -> (r: Result<TileCoordinate, Error>)
    ensures
        r is Ok <==> (TileCoordinate { zoom, x, y }).valid(),
        r matches Ok(c) ==> c == (TileCoordinate { zoom, x, y }),
        r matches Err(e) ==> e.spec_kind() == ErrorKind::Validation,
{
    if zoom > 31 {
        return Err(Error::new(
            ErrorKind::Validation,
            String::from_str("tile zoom level is out of range"),
        ));
    }
    let limit: u64 = 1u64 << zoom;
    if (x as u64) < limit && (y as u64) < limit {
        Ok(TileCoordinate { zoom, x, y })
    } else {
        Err(Error::new(
            ErrorKind::Validation,
            String::from_str("tile x or y is out of range for the zoom level"),
        ))
    }
}

/// Abstract value of one registered archive source.
pub ghost struct SourceView {
    pub bounds: Bounds,
    pub file_name: Seq<char>,
    pub file_size: u64,
    pub path: Seq<char>,
    pub reader_handle: u64,
}

/// Pairing of a registered archive's record, its filesystem path, and the
/// handle of the open archive reader that the hosting application owns for
/// it. Exactly one source owns a given reader handle at a time.
#[derive(Debug)]
pub struct ArchiveSource {
    pub record: RegionRecord,
    pub path: String,
    pub reader_handle: u64,
}

impl View for ArchiveSource {
    type V = SourceView;

    open spec fn view(&self) -> SourceView {
        SourceView {
            bounds: self.record.bounds,
            file_name: self.record.file_name@,
            file_size: self.record.file_size,
            path: self.path@,
            reader_handle: self.reader_handle,
        }
    }
}

/// Abstract value of the whole collection: the root path and the
/// registered sources in registration order.
pub ghost struct CollectionView {
    pub root: Seq<char>,
    pub sources: Seq<SourceView>,
}

/// The `system/` subdirectory of a collection root: application-managed
/// archives, never user-removable.
pub open spec fn spec_system_root(root: Seq<char>) -> Seq<char> {
    root + "/"@ + "system"@
}

/// The `user/` subdirectory of a collection root: extraction outputs,
/// user-removable.
pub open spec fn spec_user_root(root: Seq<char>) -> Seq<char> {
    root + "/"@ + "user"@
}

impl CollectionView {
    /// File names are unique among the registered sources.
    pub open spec fn names_unique(&self) -> bool {
        forall|i: int, j: int|
            0 <= i < j < self.sources.len() ==> self.sources[i].file_name != self.sources[j].file_name
    }

    /// Every source path lies under the `system/` or the `user/` subtree.
    pub open spec fn paths_contained(&self) -> bool {
        forall|k: int|
            0 <= k < self.sources.len() ==> #[trigger] self.source_path_contained(k)
    }

    pub open spec fn source_path_contained(&self, k: int) -> bool {
        spec_path_within_dir(self.sources[k].path, spec_system_root(self.root))
            || spec_path_within_dir(self.sources[k].path, spec_user_root(self.root))
    }

    /// The collection invariant.
    pub open spec fn wf(&self) -> bool {
        self.names_unique() && self.paths_contained()
    }

    /// No source among the first `n` carries the file name `name`.
    pub open spec fn no_source_named_upto(&self, name: Seq<char>, n: int) -> bool {
        forall|j: int| 0 <= j < n ==> self.sources[j].file_name != name
    }

    /// No registered source carries the file name `name`.
    pub open spec fn no_source_named(&self, name: Seq<char>) -> bool {
        self.no_source_named_upto(name, self.sources.len() as int)
    }
}

/// Registration admits the archive at `path` exactly when the path has a
/// file name, lies under one of the two subtrees, and its file name is not
/// already registered.
pub open spec fn spec_admit(v: CollectionView, path: Seq<char>) -> bool {
    &&& spec_file_name_of(path) is Some
    &&& (spec_path_within_dir(path, spec_system_root(v.root))
        || spec_path_within_dir(path, spec_user_root(v.root)))
    &&& v.no_source_named(spec_file_name_value(path))
}

/// The collection after appending the archive at `path`.
pub open spec fn spec_added(
    v: CollectionView,
    path: Seq<char>,
    bounds: Bounds,
    file_size: u64,
    reader_handle: u64,
) -> CollectionView {
    CollectionView {
        root: v.root,
        sources: v.sources.push(
            SourceView {
                bounds,
                file_name: spec_file_name_value(path),
                file_size,
                path,
                reader_handle,
            },
        ),
    }
}

/// An insertion-ordered set of archive sources rooted at a storage path
/// with the two fixed subdirectories `system/` and `user/`.
#[derive(Debug)]
pub struct TileCollection {
    pub sources: Vec<ArchiveSource>,
    pub file_root: String,
}

impl View for TileCollection {
    type V = CollectionView;

    open spec fn view(&self) -> CollectionView {
        CollectionView { root: self.file_root@, sources: self.sources@.map_values(|s: ArchiveSource| s@) }
    }
}

impl TileCollection {
    /// Records the root; performs no input or output.
    pub fn new(file_root: String) -> (r: TileCollection)
        ensures
            r@.root == file_root@,
            r@.sources.len() == 0,
            r@.wf(),
    {
        TileCollection { sources: Vec::new(), file_root }
    }

    /// How many sources are registered.
    pub fn source_count(&self) -> (r: usize)
        ensures
            r == self@.sources.len(),
    {
        self.sources.len()
    }

    /// The reader handle of the source at `i`, for the hosting application
    /// to read tiles from.
    pub fn reader_handle(&self, i: usize) -> (r: u64)
        requires
            i < self@.sources.len(),
        ensures
            r == self@.sources[i as int].reader_handle,
    {
        self.sources[i].reader_handle
    }

    /// The stored path of the source at `i`.
    pub fn source_path(&self, i: usize) -> (r: String)
        requires
            i < self@.sources.len(),
        ensures
            r@ == self@.sources[i as int].path,
    {
        self.sources[i].path.clone()
    }

    /// The record of the source at `i`.
    pub fn source_record(&self, i: usize) -> (r: RegionRecord)
        requires
            i < self@.sources.len(),
        ensures
            r.bounds == self@.sources[i as int].bounds,
            r.file_name@ == self@.sources[i as int].file_name,
            r.file_size == self@.sources[i as int].file_size,
    {
        self.sources[i].record.duplicate()
    }

    /// Pure path derivation of the application-managed subdirectory.
    pub fn system_root(&self) -> (r: String)
        ensures
            r@ == spec_system_root(self@.root),
    {
        join_path(self.file_root.as_str(), "system")
    }

    /// Pure path derivation of the user-extracts subdirectory.
    pub fn user_extracts_root(&self) -> (r: String)
        ensures
            r@ == spec_user_root(self@.root),
    {
        join_path(self.file_root.as_str(), "user")
    }

    /// A fresh, collision-free output target under `user/` with the
    /// archive extension, for a new extraction to be written to.
    pub fn generate_user_pmtiles_path(&self) -> (r: String)
        ensures
            spec_path_within_dir(r@, spec_user_root(self@.root)),
            spec_has_pmtiles_extension(r@),
            spec_file_name_of(r@) is Some,
    {
        let dir = self.user_extracts_root();
        let id = fresh_archive_id();
        let name = id.concat(".pmtiles");
        let r = join_path(dir.as_str(), name.as_str());
        proof {
            reveal_strlit(".pmtiles");
            reveal_strlit("/");
            let u = spec_user_root(self@.root);
            let start = u.len() + 1;
            assert(r@ =~= u + "/"@ + id@ + ".pmtiles"@);
            assert(r@.len() == u.len() + 45);
            assert(u =~= r@.subrange(0, u.len() as int));
            assert(r@[u.len() as int] == '/');
            assert(spec_path_within_dir(r@, u));
            assert(".pmtiles"@ =~= r@.subrange(r@.len() - 8, r@.len() as int));
            assert(r@[r@.len() - 9] == id@[35]);
            assert(is_uuid_char(id@[35]));
            assert(spec_has_pmtiles_extension(r@));
            assert forall|j: int| start <= j < r@.len() implies r@[j] != '/' by {
                if j < start + 36 {
                    assert(r@[j] == id@[j - start]);
                    assert(is_uuid_char(id@[j - start]));
                } else {
                    assert(r@[j] == ".pmtiles"@[j - start - 36]);
                }
            }
            crate::pathutil::lemma_file_name_start_at(r@, start as int);
        }
        r
    }
}

impl TileCollection {
    /// Registers the archive at `path`, whose header bounds, on-disk size
    /// and open reader handle the hosting application has already obtained,
    /// and returns the new source's record.
    ///
    /// Fails, leaving the collection untouched, when the path has no file
    /// name, lies outside both the `system/` and the `user/` subtree, or
    /// carries a file name that is already registered; succeeds otherwise.
    pub fn add_source(
        &mut self,
        path: &str,
        bounds: Bounds,
        file_size: u64,
        reader_handle: u64,
    ) -> (r: Result<RegionRecord, Error>)
        requires
            old(self)@.wf(),
        ensures
            final(self)@.wf(),
            final(self)@.root == old(self)@.root,
            r is Ok <==> spec_admit(old(self)@, path@),
            r matches Ok(rec) ==> ({
                &&& rec.bounds == bounds
                &&& rec.file_size == file_size
                &&& Some(rec.file_name@) == spec_file_name_of(path@)
                &&& final(self)@ == spec_added(old(self)@, path@, bounds, file_size, reader_handle)
            }),
            r is Err ==> final(self)@ == old(self)@,
            r matches Err(e) ==> e.spec_kind() == ErrorKind::Validation,
    {
        let name = match file_name_of(path) {
            Some(n) => n,
            None => {
                return Err(Error::new(
                    ErrorKind::Validation,
                    String::from_str("source path has no file name"),
                ));
            },
        };
        let sys = self.system_root();
        let usr = self.user_extracts_root();
        let in_sys = is_path_within_dir(path, sys.as_str());
        let in_usr = is_path_within_dir(path, usr.as_str());
        if !in_sys && !in_usr {
            return Err(Error::new(
                ErrorKind::Validation,
                String::from_str("source path is outside the collection's subtrees"),
            ));
        }
        let mut i: usize = 0;
        while i < self.sources.len()
            invariant
                i <= self.sources.len(),
                *self == *old(self),
                old(self)@.wf(),
                spec_file_name_of(path@) == Some(name@),
                self@.no_source_named_upto(name@, i as int),
            decreases self.sources.len() - i,
        {
            if str_eq(self.sources[i].record.file_name.as_str(), name.as_str()) {
                proof {
                    assert(self@.sources[i as int].file_name == name@);
                    assert(!old(self)@.no_source_named(name@));
                }
                return Err(Error::new(
                    ErrorKind::Validation,
                    String::from_str("an archive with this file name is already registered"),
                ));
            }
            i = i + 1;
        }
        let record = RegionRecord { bounds, file_name: name, file_size };
        let source = ArchiveSource {
            record: record.duplicate(),
            path: String::from_str(path),
            reader_handle,
        };
        let ghost sv = source@;
        self.sources.push(source);
        proof {
            assert(self@.sources =~= old(self)@.sources.push(sv));
            assert(sv.file_name == spec_file_name_value(path@));
            assert(self@.sources =~= spec_added(
                old(self)@,
                path@,
                bounds,
                file_size,
                reader_handle,
            ).sources);
            assert(self@ == spec_added(old(self)@, path@, bounds, file_size, reader_handle));
            assert forall|a: int, b: int| 0 <= a < b < self@.sources.len() implies self@.sources[a].file_name
                != self@.sources[b].file_name by {
                if b < old(self)@.sources.len() {
                    assert(old(self)@.names_unique());
                } else {
                    assert(old(self)@.no_source_named_upto(sv.file_name, a + 1));
                }
            }
            assert forall|k: int| 0 <= k < self@.sources.len() implies self@.source_path_contained(
                k,
            ) by {
                if k < old(self)@.sources.len() {
                    assert(old(self)@.source_path_contained(k));
                }
            }
        }
        Ok(record)
    }
}

impl TileCollection {
    /// The position of the first source carrying `file_name`, if any.
    pub fn index_of_file_name(&self, file_name: &str) -> (r: Option<usize>)
        ensures
            r matches Some(i) ==> i < self@.sources.len()
                && self@.sources[i as int].file_name == file_name@
                && self@.no_source_named_upto(file_name@, i as int),
            r is None ==> self@.no_source_named(file_name@),
    {
        let mut i: usize = 0;
        while i < self.sources.len()
            invariant
                i <= self.sources.len(),
                self@.no_source_named_upto(file_name@, i as int),
            decreases self.sources.len() - i,
        {
            if str_eq(self.sources[i].record.file_name.as_str(), file_name) {
                return Some(i);
            }
            i = i + 1;
        }
        None
    }

    /// Decides a user-initiated removal, given the canonical absolute form
    /// of the target's stored path and of the `user/` subtree, both
    /// resolved by the hosting application just before the call.
    ///
    /// Fails with a not-found error when no source carries `file_name`;
    /// fails with a validation error when the resolved path lies outside
    /// the `user/` subtree, however the record is bookkept; otherwise
    /// returns the position whose file may be deleted and then handed to
    /// [`TileCollection::remove_source_at`]. Decides only; the collection
    /// is untouched.
    pub fn remove_extract(
        &self,
        file_name: &str,
        canonical_path: &str,
        canonical_user_root: &str,
    ) -> (r: Result<usize, Error>)
        ensures
            self@.no_source_named(file_name@) ==> (r matches Err(e) && e.spec_kind()
                == ErrorKind::NotFound),
            !self@.no_source_named(file_name@) && !spec_path_within_dir(
                canonical_path@,
                canonical_user_root@,
            ) ==> (r matches Err(e) && e.spec_kind() == ErrorKind::Validation),
            !self@.no_source_named(file_name@) && spec_path_within_dir(
                canonical_path@,
                canonical_user_root@,
            ) ==> (r matches Ok(i) && i < self@.sources.len()
                && self@.sources[i as int].file_name == file_name@
                && self@.no_source_named_upto(file_name@, i as int)),
    {
        let pos = match self.index_of_file_name(file_name) {
            Some(i) => i,
            None => {
                return Err(Error::new(
                    ErrorKind::NotFound,
                    String::from_str("no archive source exists with this file name"),
                ));
            },
        };
        if !is_path_within_dir(canonical_path, canonical_user_root) {
            return Err(Error::new(
                ErrorKind::Validation,
                String::from_str("only extracts within the user tile directory can be removed"),
            ));
        }
        proof {
            assert(!self@.no_source_named(file_name@));
        }
        Ok(pos)
    }

    /// Drops the source at `i` from the bookkeeping, after the hosting
    /// application has deleted its file; the other sources keep their
    /// order.
    pub fn remove_source_at(&mut self, i: usize) -> (s: ArchiveSource)
        requires
            old(self)@.wf(),
            i < old(self)@.sources.len(),
        ensures
            final(self)@.wf(),
            final(self)@.root == old(self)@.root,
            final(self)@.sources == old(self)@.sources.remove(i as int),
            s@ == old(self)@.sources[i as int],
    {
        let s = self.sources.remove(i);
        proof {
            assert(self@.sources =~= old(self)@.sources.remove(i as int));
            let v = self@;
            assert forall|a: int, b: int| 0 <= a < b < v.sources.len() implies v.sources[a].file_name
                != v.sources[b].file_name by {
                let oa: int = if a < i { a } else { a + 1 };
                let ob: int = if b < i { b } else { b + 1 };
                assert(v.sources[a] == old(self)@.sources[oa]);
                assert(v.sources[b] == old(self)@.sources[ob]);
                assert(old(self)@.names_unique());
            }
            assert forall|k: int| 0 <= k < v.sources.len() implies v.source_path_contained(k) by {
                let ok: int = if k < i { k } else { k + 1 };
                assert(v.sources[k] == old(self)@.sources[ok]);
                assert(old(self)@.source_path_contained(ok));
            }
        }
        s
    }
}

/// What reading one source at a coordinate yielded: the tile bytes, a
/// definite absence, or a read failure.
pub enum TileReadOutcome {
    Present(Vec<u8>),
    Absent,
    ReadError(Error),
}

/// Whether one source's outcome settles the whole lookup: anything but a
/// definite absence does, so the scan over the remaining sources stops.
pub fn lookup_is_decisive(outcome: &TileReadOutcome) -> (r: bool)
    ensures
        r == !(outcome is Absent),
{
    match outcome {
        TileReadOutcome::Absent => false,
        _ => true,
    }
}

/// The sources before position `n` all reported absence.
pub open spec fn all_absent_upto(outcomes: Seq<TileReadOutcome>, n: int) -> bool {
    forall|j: int| 0 <= j < n ==> outcomes[j] is Absent
}

/// Resolves one tile lookup from the per-source read outcomes, listed in
/// registration order. First match wins: the tile comes from the
/// smallest-indexed source with a present answer, a later source is never
/// consulted once an earlier one answers, and an earlier absence never
/// masks a later answer. A read error from any source aborts the whole
/// lookup with that error; only if every source reports absence is the
/// tile absent.
pub fn resolve_tile_lookup(outcomes: Vec<TileReadOutcome>) -> (r: Result<Option<Vec<u8>>, Error>)
    ensures
        all_absent_upto(outcomes@, outcomes@.len() as int) <==> r matches Ok(None),
        forall|i: int|
            0 <= i < outcomes@.len() && all_absent_upto(outcomes@, i) ==> (#[trigger] outcomes@[i]
                matches TileReadOutcome::Present(b) ==> (r matches Ok(Some(v)) && v == b)),
        forall|i: int|
            0 <= i < outcomes@.len() && all_absent_upto(outcomes@, i) ==> (#[trigger] outcomes@[i]
                matches TileReadOutcome::ReadError(e) ==> (r matches Err(e2) && e2 == e)),
{
    let ghost all = outcomes@;
    let mut rest = outcomes;
    let ghost mut consumed: int = 0;
    while rest.len() > 0
        invariant
            all == outcomes@,
            0 <= consumed,
            consumed + rest.len() == all.len(),
            rest@ =~= all.subrange(consumed, all.len() as int),
            all_absent_upto(all, consumed),
        decreases rest.len(),
    {
        let o = rest.remove(0);
        proof {
            assert(o == all[consumed]);
        }
        match o {
            TileReadOutcome::Absent => {
                proof {
                    consumed = consumed + 1;
                    assert(rest@ =~= all.subrange(consumed, all.len() as int));
                }
            },
            TileReadOutcome::Present(b) => {
                proof {
                    assert(0 <= consumed < all.len());
                    assert(!(all[consumed] is Absent));
                    assert forall|i: int|
                        0 <= i < all.len() && all_absent_upto(all, i) && i != consumed implies all[i]
                        is Absent by {
                        if i < consumed {
                            assert(all[i] is Absent);
                        } else {
                            assert(all[consumed] is Absent);
                        }
                    }
                }
                return Ok(Some(b));
            },
            TileReadOutcome::ReadError(e) => {
                proof {
                    assert(0 <= consumed < all.len());
                    assert(!(all[consumed] is Absent));
                    assert forall|i: int|
                        0 <= i < all.len() && all_absent_upto(all, i) && i != consumed implies all[i]
                        is Absent by {
                        if i < consumed {
                            assert(all[i] is Absent);
                        } else {
                            assert(all[consumed] is Absent);
                        }
                    }
                }
                return Err(e);
            },
        }
    }
    Ok(None)
}

/// What opening one scanned archive yielded: its header bounds, its size
/// on disk, and the handle of the reader the hosting application now owns.
#[derive(Clone, Copy, Debug)]
pub struct ScanOpened {
    pub bounds: Bounds,
    pub file_size: u64,
    pub reader_handle: u64,
}

/// One directory entry of the startup scan: its path and, when the archive
/// there could be opened, what opening it yielded.
#[derive(Debug)]
pub struct ScanItem {
    pub path: String,
    pub opened: Option<ScanOpened>,
}

/// One scan step: an entry without the archive extension, one whose
/// archive could not be opened, or one registration does not admit is
/// skipped; any other is appended.
pub open spec fn spec_register_one(v: CollectionView, item: ScanItem) -> CollectionView {
    match item.opened {
        Some(o) => {
            if spec_has_pmtiles_extension(item.path@) && spec_admit(v, item.path@) {
                spec_added(v, item.path@, o.bounds, o.file_size, o.reader_handle)
            } else {
                v
            }
        },
        None => v,
    }
}

/// The collection after registering the scan results in order.
pub open spec fn spec_register(v: CollectionView, items: Seq<ScanItem>) -> CollectionView
    decreases items.len(),
{
    if items.len() == 0 {
        v
    } else {
        spec_register_one(spec_register(v, items.drop_last()), items.last())
    }
}

impl TileCollection {
    /// Registers every scanned archive it can, in scan order. A per-file
    /// failure — an entry without the archive extension, an archive the
    /// application could not open, a path registration rejects — skips
    /// that file and goes on: this is the one place partial failure is
    /// tolerated silently at the collection level. Returns how many
    /// sources were added, for the caller to log and to warn on an empty
    /// collection.
    pub fn register_scan_results(&mut self, items: &Vec<ScanItem>) -> (added: usize)
        requires
            old(self)@.wf(),
        ensures
            final(self)@.wf(),
            final(self)@ == spec_register(old(self)@, items@),
            final(self)@.sources.len() == old(self)@.sources.len() + added,
    {
        let mut added: usize = 0;
        let mut i: usize = 0;
        while i < items.len()
            invariant
                i <= items.len(),
                added <= i,
                self@.wf(),
                old(self)@.wf(),
                self@ == spec_register(old(self)@, items@.subrange(0, i as int)),
                self@.sources.len() == old(self)@.sources.len() + added,
            decreases items.len() - i,
        {
            let item = &items[i];
            let ghost pre = self@;
            let mut this_added = false;
            if has_pmtiles_extension(item.path.as_str()) {
                match &item.opened {
                    Some(o) => {
                        match self.add_source(
                            item.path.as_str(),
                            o.bounds,
                            o.file_size,
                            o.reader_handle,
                        ) {
                            Ok(_) => {
                                this_added = true;
                            },
                            Err(_) => {},
                        }
                    },
                    None => {},
                }
            }
            if this_added {
                added = added + 1;
            }
            proof {
                assert(self@ == spec_register_one(pre, items@[i as int]));
                assert(items@.subrange(0, i + 1).drop_last() =~= items@.subrange(0, i as int));
                assert(items@.subrange(0, i + 1).last() == items@[i as int]);
            }
            i = i + 1;
        }
        proof {
            assert(items@.subrange(0, items@.len() as int) =~= items@);
        }
        added
    }
}

/// A character a hyphenated random identifier may contain: a lowercase
/// hexadecimal digit or a hyphen. Never a path separator or a dot.
pub open spec fn is_uuid_char(c: char) -> bool {
    c == '-' || ('0' <= c && c <= '9') || ('a' <= c && c <= 'f')
}

/// Relies on `uuid::Uuid::new_v4` and its `Display` form: a fresh random
/// identifier rendered as 36 characters, hyphenated lowercase hexadecimal.
/// The value is random, so nothing is assumed beyond its format.
#[verifier::external_body]
fn fresh_archive_id() -> (r: String)
    ensures
        r@.len() == 36,
        forall|i: int| 0 <= i < r@.len() ==> is_uuid_char(r@[i]),
{
    uuid::Uuid::new_v4().to_string()
}

} // verus!
