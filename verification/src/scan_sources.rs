//! The set of sources a scan reads from, single sources, and the planning around them.

use vstd::prelude::*;
use std::sync::Arc;
use crate::sources::{
    PlPath,
    PlPathRef,
    same_paths,
    FileHandle,
    MemSlice,
    SharedFile,
    share,
    same_allocation,
    allocation_address,
    decimal,
    usize_to_string,
};

verus! {

/// Sources to scan from: paths, open files or in-memory buffers, never mixed.
pub enum ScanSources {
    Paths(Arc<Vec<PlPath>>),
    Files(Arc<Vec<FileHandle>>),
    Buffers(Arc<Vec<MemSlice>>),
}

/// A reference to a single item of a set of sources.
#[derive(Debug, Clone, Copy)]
pub enum ScanSourceRef<'a> {
    Path(PlPathRef<'a>),
    File(&'a FileHandle),
    Buffer(&'a MemSlice),
}

/// A single source to scan from.
#[derive(Debug)]
pub enum ScanSource {
    Path(PlPath),
    File(SharedFile),
    Buffer(MemSlice),
}

/// The content of a set of sources.
pub enum SourcesView {
    Paths(Seq<PlPath>),
    Files(Seq<FileHandle>),
    Buffers(Seq<Seq<u8>>),
}

/// The content of a single source.
pub enum SourceView {
    Path(PlPath),
    File(FileHandle),
    Buffer(Seq<u8>),
}

impl SourcesView {
    /// The number of sources.
    pub open spec fn len(self) -> nat {
        match self {
            SourcesView::Paths(p) => p.len(),
            SourcesView::Files(f) => f.len(),
            SourcesView::Buffers(b) => b.len(),
        }
    }

    /// The source at position `i`.
    pub open spec fn at(self, i: int) -> SourceView {
        match self {
            SourcesView::Paths(p) => SourceView::Path(p[i]),
            SourcesView::Files(f) => SourceView::File(f[i]),
            SourcesView::Buffers(b) => SourceView::Buffer(b[i]),
        }
    }

    /// The single source of a set of one source; `None` for any other count.
    pub open spec fn single(self) -> Option<SourceView> {
        if self.len() == 1 {
            Some(self.at(0))
        } else {
            None
        }
    }

    /// The text that identifies the set.
    pub open spec fn id(self) -> Seq<char> {
        if self.len() == 0 {
            "EMPTY"@
        } else {
            match self {
                SourcesView::Paths(p) => p[0].chars(),
                SourcesView::Files(_) => "OPEN_FILES"@,
                SourcesView::Buffers(_) => "IN_MEMORY"@,
            }
        }
    }
}

impl SourceView {
    /// The set holding just this source.
    pub open spec fn to_sources(self) -> SourcesView {
        match self {
            SourceView::Path(p) => SourcesView::Paths(seq![p]),
            SourceView::File(f) => SourcesView::Files(seq![f]),
            SourceView::Buffer(b) => SourcesView::Buffers(seq![b]),
        }
    }
}

/// The bytes of each buffer.
pub open spec fn buffers_view(b: Seq<MemSlice>) -> Seq<Seq<u8>> {
    b.map_values(|m: MemSlice| m@)
}

impl View for ScanSources {
    type V = SourcesView;

    open spec fn view(&self) -> SourcesView {
        match self {
            ScanSources::Paths(p) => SourcesView::Paths(p@),
            ScanSources::Files(f) => SourcesView::Files(f@),
            ScanSources::Buffers(b) => SourcesView::Buffers(buffers_view(b@)),
        }
    }
}

impl View for ScanSource {
    type V = SourceView;

    open spec fn view(&self) -> SourceView {
        match self {
            ScanSource::Path(p) => SourceView::Path(*p),
            ScanSource::File(f) => SourceView::File(f.handle()),
            ScanSource::Buffer(b) => SourceView::Buffer(b@),
        }
    }
}

impl<'a> View for ScanSourceRef<'a> {
    type V = SourceView;

    open spec fn view(&self) -> SourceView {
        match self {
            ScanSourceRef::Path(p) => SourceView::Path(**p),
            ScanSourceRef::File(f) => SourceView::File(**f),
            ScanSourceRef::Buffer(b) => SourceView::Buffer(b@),
        }
    }
}

impl Clone for ScanSources {
    /// Another handle to the same shared list.
    fn clone(&self) -> (r: Self)
        ensures
            r == *self,
    {
        match self {
            ScanSources::Paths(p) => ScanSources::Paths(share(p)),
            ScanSources::Files(f) => ScanSources::Files(share(f)),
            ScanSources::Buffers(b) => ScanSources::Buffers(share(b)),
        }
    }
}

impl Clone for ScanSource {
    /// A copy of the source; a file shares its allocation.
    fn clone(&self) -> (r: Self)
        ensures
            r@ == self@,
    {
        match self {
            ScanSource::Path(p) => ScanSource::Path(p.clone()),
            ScanSource::File(f) => ScanSource::File(f.clone()),
            ScanSource::Buffer(b) => ScanSource::Buffer(b.clone()),
        }
    }
}

impl Default for ScanSources {
    /// An empty list of paths.
    fn default() -> (r: Self)
        ensures
            r@ == SourcesView::Paths(Seq::<PlPath>::empty()),
    {
        ScanSources::Paths(Arc::new(Vec::new()))
    }
}

impl ScanSource {
    /// The single source of a set of one source; the set itself back for any other count.
    pub fn from_sources(sources: ScanSources) -> (r: Result<Self, ScanSources>)
        ensures
            match r {
                Ok(s) => sources@.single() == Some(s@),
                Err(e) => sources@.single() is None && e == sources,
            },
            r matches Ok(ScanSource::File(f)) ==> sources == ScanSources::Files(f.shared()),
    {
        if sources.len() == 1 {
            match sources {
                ScanSources::Paths(ps) => Ok(ScanSource::Path(ps[0].clone())),
                ScanSources::Files(fs) => Ok(ScanSource::File(SharedFile::from_shared(fs))),
                ScanSources::Buffers(bs) => Ok(ScanSource::Buffer(bs[0].clone())),
            }
        } else {
            Err(sources)
        }
    }

    /// The set holding just this source; a file keeps its allocation.
    pub fn into_sources(self) -> (r: ScanSources)
        ensures
            r@ == self@.to_sources(),
            self matches ScanSource::File(f) ==> r == ScanSources::Files(f.shared()),
    {
        match self {
            ScanSource::Path(p) => {
                let mut v: Vec<PlPath> = Vec::new();
                v.push(p);
                ScanSources::Paths(Arc::new(v))
            },
            ScanSource::File(f) => ScanSources::Files(f.into_shared()),
            ScanSource::Buffer(m) => {
                let mut v: Vec<MemSlice> = Vec::new();
                v.push(m);
                proof {
                    assert(buffers_view(v@) =~= seq![m@]);
                }
                ScanSources::Buffers(Arc::new(v))
            },
        }
    }

    /// A reference to the source.
    pub fn as_scan_source_ref(&self) -> (r: ScanSourceRef<'_>)
        ensures
            r@ == self@,
    {
        match self {
            ScanSource::Path(path) => ScanSourceRef::Path(path.as_ref()),
            ScanSource::File(file) => ScanSourceRef::File(file.get()),
            ScanSource::Buffer(mem_slice) => ScanSourceRef::Buffer(mem_slice),
        }
    }

    /// Whether reading the source goes through the asynchronous reader: cloud paths do,
    /// and any path does when `force_async` (the configured override) is set.
    pub fn run_async(&self, force_async: bool) -> (r: bool)
        ensures
            r == (self@ matches SourceView::Path(p) && (p.is_cloud() || force_async)),
    {
        self.as_scan_source_ref().run_async(force_async)
    }

    /// Whether the source is a cloud URL.
    pub fn is_cloud_url(&self) -> (r: bool)
        ensures
            r == (self@ matches SourceView::Path(p) && p.is_cloud()),
    {
        if let ScanSource::Path(path) = self {
            path.is_cloud_url()
        } else {
            false
        }
    }
}


/// Where the bytes of a source come from.
pub enum MemSliceSource<'a> {
    /// Open and map the local file at this path.
    OpenLocal(&'a str),
    /// Open the file of the cloud file cache entry at this index, checking it is the latest.
    CacheEntry(usize),
    /// Map this open file.
    MapFile(&'a FileHandle),
    /// The buffer itself.
    Buffer(&'a MemSlice),
    /// Open the file of this path's cloud file cache entry, the way given.
    FileCache(&'a PlPath, CacheOpen),
}

/// How a cloud file cache entry is opened.
#[derive(Debug, PartialEq, Eq, Structural, Clone, Copy)]
pub enum CacheOpen {
    /// Take the cached file as the latest version.
    AssumeLatest,
    /// Check the cached file against the remote version first.
    CheckLatest,
}

/// What a byte source for asynchronous reading is built from.
pub enum ByteSourcePlan<'a> {
    /// The path, local or cloud, given as text.
    Path(&'a str),
    /// The bytes of this open file.
    File(&'a FileHandle),
    /// The buffer itself.
    Buffer(&'a MemSlice),
}

/// Why an owned source could not be made.
#[derive(Debug, PartialEq, Eq, Structural, Clone, Copy)]
pub enum ReadError {
    /// The file could be neither duplicated nor read.
    FileUnreadable,
}

impl<'a> ScanSourceRef<'a> {
    /// Whether reading the source goes through the asynchronous reader: cloud paths do,
    /// and any path does when `force_async` (the configured override) is set.
    pub fn run_async(&self, force_async: bool) -> (r: bool)
        ensures
            r == (self@ matches SourceView::Path(p) && (p.is_cloud() || force_async)),
    {
        match self {
            ScanSourceRef::Path(p) => p.is_cloud_url() || force_async,
            _ => false,
        }
    }

    /// The name under which the source is listed in an included-paths column.
    pub fn to_include_path_name(&self) -> (r: &str)
        ensures
            r@ == match self@ {
                SourceView::Path(p) => p.chars(),
                SourceView::File(_) => "open-file"@,
                SourceView::Buffer(_) => "in-mem"@,
            },
    {
        match self {
            ScanSourceRef::Path(path) => path.to_str(),
            ScanSourceRef::File(_) => "open-file",
            ScanSourceRef::Buffer(_) => "in-mem",
        }
    }

    /// An owned copy of the source. For a file, `duplicate` is the outcome of duplicating
    /// its handle; where that failed, `contents` is the outcome of reading it, and the
    /// source becomes a buffer of those bytes.
    pub fn into_owned(&self, duplicate: Option<FileHandle>, contents: Option<MemSlice>) -> (r:
        Result<ScanSource, ReadError>)
        ensures
            match self@ {
                SourceView::Path(p) => r matches Ok(s) && s@ == SourceView::Path(p),
                SourceView::Buffer(b) => r matches Ok(s) && s@ == SourceView::Buffer(b),
                SourceView::File(_) => match duplicate {
                    Some(h) => r matches Ok(s) && s@ == SourceView::File(h),
                    None => match contents {
                        Some(m) => r matches Ok(s) && s@ == SourceView::Buffer(m@),
                        None => r == Err::<ScanSource, ReadError>(ReadError::FileUnreadable),
                    },
                },
            },
    {
        match self {
            ScanSourceRef::Path(path) => Ok(ScanSource::Path((*path).clone())),
            ScanSourceRef::File(_) => match duplicate {
                Some(h) => Ok(ScanSource::File(SharedFile::new(h))),
                None => match contents {
                    Some(m) => Ok(ScanSource::Buffer(m)),
                    None => Err(ReadError::FileUnreadable),
                },
            },
            ScanSourceRef::Buffer(buffer) => Ok(ScanSource::Buffer((*buffer).clone())),
        }
    }

    /// Where the bytes come from when read without the cloud file cache: a path is opened
    /// locally (it must be a local path).
    pub fn to_memslice(&self) -> (r: MemSliceSource<'a>)
        requires
            self@ matches SourceView::Path(p) ==> !p.is_cloud(),
        ensures
            memslice_source_is(self@, r, false, 0),
    {
        self.to_memslice_possibly_async(false, None, 0)
    }

    /// Where the bytes come from: with `run_async`, a path is read through entry `index`
    /// of the `cache_entries` open cloud cache entries; otherwise it is opened locally
    /// (and must be a local path).
    pub fn to_memslice_possibly_async(
        &self,
        run_async: bool,
        cache_entries: Option<usize>,
        index: usize,
    ) -> (r: MemSliceSource<'a>)
        requires
            self@ matches SourceView::Path(p) ==> if run_async {
                cache_entries matches Some(n) && index < n
            } else {
                !p.is_cloud()
            },
        ensures
            memslice_source_is(self@, r, run_async, index),
    {
        match self {
            ScanSourceRef::Path(path) => {
                if run_async {
                    MemSliceSource::CacheEntry(index)
                } else {
                    match path.as_local_path() {
                        Some(p) => MemSliceSource::OpenLocal(p),
                        None => vstd::pervasive::unreached(),
                    }
                }
            },
            ScanSourceRef::File(file) => MemSliceSource::MapFile(file),
            ScanSourceRef::Buffer(buff) => MemSliceSource::Buffer(buff),
        }
    }

    /// Where the bytes come from with the cloud file cache in use: with `run_async`, a
    /// path that has a cache entry (`cached`) is read through that entry, opened as
    /// `open` says; any other path is opened locally (and must be a local path).
    pub fn to_memslice_async(&self, run_async: bool, cached: bool, open: CacheOpen) -> (r:
        MemSliceSource<'a>)
        requires
            self@ matches SourceView::Path(p) ==> (run_async && cached) || !p.is_cloud(),
        ensures
            memslice_async_is(self@, r, run_async, cached, open),
    {
        match self {
            ScanSourceRef::Path(path) => {
                if run_async && cached {
                    MemSliceSource::FileCache(path, open)
                } else {
                    match path.as_local_path() {
                        Some(p) => MemSliceSource::OpenLocal(p),
                        None => vstd::pervasive::unreached(),
                    }
                }
            },
            ScanSourceRef::File(file) => MemSliceSource::MapFile(file),
            ScanSourceRef::Buffer(buff) => MemSliceSource::Buffer(buff),
        }
    }

    /// Where the bytes come from, taking a cached file as the latest version: as
    /// `to_memslice_async` with `CacheOpen::AssumeLatest`.
    pub fn to_memslice_async_assume_latest(&self, run_async: bool, cached: bool) -> (r:
        MemSliceSource<'a>)
        requires
            self@ matches SourceView::Path(p) ==> (run_async && cached) || !p.is_cloud(),
        ensures
            memslice_async_is(self@, r, run_async, cached, CacheOpen::AssumeLatest),
    {
        self.to_memslice_async(run_async, cached, CacheOpen::AssumeLatest)
    }

    /// Where the bytes come from, checking a cached file against the remote version: as
    /// `to_memslice_async` with `CacheOpen::CheckLatest`.
    pub fn to_memslice_async_check_latest(&self, run_async: bool, cached: bool) -> (r:
        MemSliceSource<'a>)
        requires
            self@ matches SourceView::Path(p) ==> (run_async && cached) || !p.is_cloud(),
        ensures
            memslice_async_is(self@, r, run_async, cached, CacheOpen::CheckLatest),
    {
        self.to_memslice_async(run_async, cached, CacheOpen::CheckLatest)
    }

    /// What an asynchronous byte source is built from: a path by its text, a file by its
    /// bytes, a buffer as it is.
    pub fn to_dyn_byte_source(&self) -> (r: ByteSourcePlan<'a>)
        ensures
            match self@ {
                SourceView::Path(p) => r matches ByteSourcePlan::Path(s) && s@ == p.chars(),
                SourceView::File(f) => r matches ByteSourcePlan::File(h) && *h == f,
                SourceView::Buffer(b) => r matches ByteSourcePlan::Buffer(m) && m@ == b,
            },
    {
        match self {
            ScanSourceRef::Path(path) => ByteSourcePlan::Path(path.to_str()),
            ScanSourceRef::File(file) => ByteSourcePlan::File(file),
            ScanSourceRef::Buffer(buff) => ByteSourcePlan::Buffer(buff),
        }
    }

}

/// `r` says where the bytes of `src` come from when read with the cloud file cache in
/// use.
pub open spec fn memslice_async_is(
    src: SourceView,
    r: MemSliceSource,
    run_async: bool,
    cached: bool,
    open: CacheOpen,
) -> bool {
    match src {
        SourceView::Path(p) => if run_async && cached {
            r matches MemSliceSource::FileCache(q, o) && *q == p && o == open
        } else {
            r matches MemSliceSource::OpenLocal(s) && s@ == p.chars()
        },
        SourceView::File(f) => r matches MemSliceSource::MapFile(h) && *h == f,
        SourceView::Buffer(b) => r matches MemSliceSource::Buffer(m) && m@ == b,
    }
}

/// `r` says where the bytes of `src` come from.
pub open spec fn memslice_source_is(
    src: SourceView,
    r: MemSliceSource,
    run_async: bool,
    index: usize,
) -> bool {
    match src {
        SourceView::Path(p) => if run_async {
            r == MemSliceSource::CacheEntry(index)
        } else {
            r matches MemSliceSource::OpenLocal(s) && s@ == p.chars()
        },
        SourceView::File(f) => r matches MemSliceSource::MapFile(h) && *h == f,
        SourceView::Buffer(b) => r matches MemSliceSource::Buffer(m) && m@ == b,
    }
}

/// The options of hive-partitioned reading that path expansion reads and updates.
pub struct HiveOptions {
    /// Whether hive partitioning is on; `None` leaves it to be inferred.
    pub enabled: Option<bool>,
    /// The index in each path where the hive partition directories start.
    pub hive_start_idx: usize,
}

/// The scan arguments that path expansion reads and updates.
pub struct UnifiedScanArgs {
    /// Whether paths are expanded as glob patterns.
    pub glob: bool,
    pub hive_options: HiveOptions,
}

impl ScanSources {
    /// The number of sources.
    pub fn len(&self) -> (r: usize)
        ensures
            r == self@.len(),
    {
        match self {
            ScanSources::Paths(s) => s.len(),
            ScanSources::Files(s) => s.len(),
            ScanSources::Buffers(s) => s.len(),
        }
    }

    /// Whether there is no source.
    pub fn is_empty(&self) -> (r: bool)
        ensures
            r == (self@.len() == 0),
    {
        self.len() == 0
    }

    /// Whether the sources are paths.
    pub fn is_paths(&self) -> (r: bool)
        ensures
            r == (self@ is Paths),
    {
        matches!(self, ScanSources::Paths(_))
    }

    /// The paths, if the sources are paths.
    pub fn as_paths(&self) -> (r: Option<&[PlPath]>)
        ensures
            match self@ {
                SourcesView::Paths(p) => r matches Some(s) && s@ == p,
                _ => r is None,
            },
    {
        match self {
            ScanSources::Paths(paths) => Some(paths.as_slice()),
            ScanSources::Files(_) | ScanSources::Buffers(_) => None,
        }
    }

    /// A shared handle to the paths, if the sources are paths.
    pub fn into_paths(&self) -> (r: Option<Arc<Vec<PlPath>>>)
        ensures
            match self@ {
                SourcesView::Paths(p) => r matches Some(s) && s@ == p,
                _ => r is None,
            },
    {
        match self {
            ScanSources::Paths(paths) => Some(share(paths)),
            ScanSources::Files(_) | ScanSources::Buffers(_) => None,
        }
    }

    /// The first path, if the sources are paths and there is one.
    pub fn first_path(&self) -> (r: Option<PlPathRef<'_>>)
        ensures
            match self@ {
                SourcesView::Paths(p) => if p.len() > 0 {
                    r matches Some(q) && *q == p[0]
                } else {
                    r is None
                },
                _ => r is None,
            },
    {
        match self {
            ScanSources::Paths(paths) => {
                if paths.len() > 0 {
                    Some(paths[0].as_ref())
                } else {
                    None
                }
            },
            ScanSources::Files(_) | ScanSources::Buffers(_) => None,
        }
    }

    /// Whether the first path is a cloud URL.
    pub fn is_cloud_url(&self) -> (r: bool)
        ensures
            r == (self@ matches SourcesView::Paths(p) && p.len() > 0 && p[0].is_cloud()),
    {
        match self.first_path() {
            Some(path) => path.is_cloud_url(),
            None => false,
        }
    }

    /// The source at position `idx`, if there is one.
    pub fn get(&self, idx: usize) -> (r: Option<ScanSourceRef<'_>>)
        ensures
            r is Some == (idx < self@.len()),
            r matches Some(x) ==> x@ == self@.at(idx as int),
            idx < self@.len() ==> match self {
                ScanSources::Paths(ps) => r matches Some(ScanSourceRef::Path(p)) && *p == ps@[idx as int],
                ScanSources::Files(fs) => r matches Some(ScanSourceRef::File(h)) && *h == fs@[idx as int],
                ScanSources::Buffers(bs) => r matches Some(ScanSourceRef::Buffer(m)) && m@
                    == bs@[idx as int]@,
            },
    {
        match self {
            ScanSources::Paths(paths) => {
                if idx < paths.len() {
                    Some(ScanSourceRef::Path(paths[idx].as_ref()))
                } else {
                    None
                }
            },
            ScanSources::Files(files) => {
                if idx < files.len() {
                    Some(ScanSourceRef::File(&files[idx]))
                } else {
                    None
                }
            },
            ScanSources::Buffers(buffers) => {
                if idx < buffers.len() {
                    Some(ScanSourceRef::Buffer(&buffers[idx]))
                } else {
                    None
                }
            },
        }
    }

    /// The source at position `idx`, which must exist.
    pub fn at(&self, idx: usize) -> (r: ScanSourceRef<'_>)
        requires
            idx < self@.len(),
        ensures
            r@ == self@.at(idx as int),
    {
        match self.get(idx) {
            Some(x) => x,
            None => vstd::pervasive::unreached(),
        }
    }

    /// The first source, if there is one.
    pub fn first(&self) -> (r: Option<ScanSourceRef<'_>>)
        ensures
            r is Some == (self@.len() > 0),
            r matches Some(x) ==> x@ == self@.at(0),
    {
        self.get(0)
    }

    /// A text that identifies the sources: the first path, or a fixed word.
    pub fn id(&self) -> (r: String)
        ensures
            r@ == self@.id(),
    {
        if self.is_empty() {
            return String::from_str("EMPTY");
        }
        match self {
            ScanSources::Paths(paths) => String::from_str(paths[0].to_str()),
            ScanSources::Files(_) => String::from_str("OPEN_FILES"),
            ScanSources::Buffers(_) => String::from_str("IN_MEMORY"),
        }
    }

    /// An iterator over the sources, from the first.
    pub fn iter(&self) -> (r: ScanSourceIter<'_>)
        ensures
            r.sources() == *self,
            r.offset() == 0,
    {
        ScanSourceIter { sources: self, offset: 0 }
    }

    /// Equality of sources: paths by value, files and buffers by shared allocation.
    pub fn eq(&self, other: &ScanSources) -> (r: bool)
        ensures
            (self@ is Paths && other@ is Paths) ==> r == same_paths(
                self@->Paths_0,
                other@->Paths_0,
            ),
            (self@ is Paths && other@ is Paths) ==> (r <==> (self@.len() == other@.len() && forall|
                i: int,
            | 0 <= i < self@.len() ==> (#[trigger] (self@->Paths_0)[i]).is_cloud() == (
            other@->Paths_0)[i].is_cloud() && (self@->Paths_0)[i].chars() == (
            other@->Paths_0)[i].chars())),
            (self@ is Files && other@ is Files) ==> (r ==> self@ == other@),
            (self@ is Buffers && other@ is Buffers) ==> (r ==> self@ == other@),
            !((self@ is Paths && other@ is Paths) || (self@ is Files && other@ is Files) || (
            self@ is Buffers && other@ is Buffers)) ==> !r,
    {
        proof {
            if self@ is Paths && other@ is Paths {
                lemma_equal_paths_positionwise(self@->Paths_0, other@->Paths_0);
            }
        }
        match (self, other) {
            (ScanSources::Paths(l), ScanSources::Paths(r)) => {
                if l.len() != r.len() {
                    return false;
                }
                let mut i: usize = 0;
                while i < l.len()
                    invariant
                        i <= l@.len(),
                        l@.len() == r@.len(),
                        self@ == SourcesView::Paths(l@),
                        other@ == SourcesView::Paths(r@),
                        forall|j: int| 0 <= j < i ==> #[trigger] l@[j].same_path(r@[j]),
                    decreases l@.len() - i,
                {
                    if !l[i].eq_path(&r[i]) {
                        assert(!l@[i as int].same_path(r@[i as int]));
                        return false;
                    }
                    i = i + 1;
                }
                true
            },
            (ScanSources::Files(l), ScanSources::Files(r)) => same_allocation(l, r),
            (ScanSources::Buffers(l), ScanSources::Buffers(r)) => same_allocation(l, r),
            _ => false,
        }
    }

    /// The sources with expanded paths in place of paths: `expanded` is what expanding
    /// the paths (globs, directories) gave; files and buffers stay as they are.
    pub fn expand_paths(&self, expanded: Vec<PlPath>) -> (r: ScanSources)
        ensures
            match self@ {
                SourcesView::Paths(_) => r@ == SourcesView::Paths(expanded@),
                _ => r@ == self@,
            },
    {
        match self {
            ScanSources::Paths(_) => ScanSources::Paths(Arc::new(expanded)),
            _ => self.clone(),
        }
    }

    /// The sources with expanded paths in place of paths, updating the hive options:
    /// `expanded` and `hive_start_idx` are what hive-aware expansion gave and
    /// `from_single_directory` whether the paths were one directory. Hive partitioning is
    /// switched on where it was left to inference and the paths were one directory; the
    /// start index is taken over. Files and buffers leave everything as it is.
    pub fn expand_paths_with_hive_update(
        &self,
        scan_args: &mut UnifiedScanArgs,
        expanded: Vec<PlPath>,
        hive_start_idx: usize,
        from_single_directory: bool,
    ) -> (r: ScanSources)
        ensures
            match self@ {
                SourcesView::Paths(_) => {
                    &&& r@ == SourcesView::Paths(expanded@)
                    &&& final(scan_args).hive_options.hive_start_idx == hive_start_idx
                    &&& final(scan_args).hive_options.enabled == if old(
                        scan_args,
                    ).hive_options.enabled is None && from_single_directory {
                        Some(true)
                    } else {
                        old(scan_args).hive_options.enabled
                    }
                    &&& final(scan_args).glob == old(scan_args).glob
                },
                _ => r@ == self@ && *final(scan_args) == *old(scan_args),
            },
    {
        match self {
            ScanSources::Paths(_) => {
                if scan_args.hive_options.enabled.is_none() && from_single_directory {
                    scan_args.hive_options.enabled = Some(true);
                }
                scan_args.hive_options.hive_start_idx = hive_start_idx;
                ScanSources::Paths(Arc::new(expanded))
            },
            _ => self.clone(),
        }
    }
}

/// Whether hive-aware path expansion is asked to look for hive partitions: only where
/// hive partitioning was switched on explicitly.
pub fn hive_expansion_enabled(scan_args: &UnifiedScanArgs) -> (r: bool)
    ensures
        r == (scan_args.hive_options.enabled == Some(true)),
{
    match scan_args.hive_options.enabled {
        Some(b) => b,
        None => false,
    }
}

/// An iterator over a set of sources.
pub struct ScanSourceIter<'a> {
    sources: &'a ScanSources,
    offset: usize,
}

impl<'a> ScanSourceIter<'a> {
    #[verifier::type_invariant]
    closed spec fn inv(self) -> bool {
        self.offset <= self.sources@.len()
    }

    /// The sources iterated over.
    pub closed spec fn sources(self) -> ScanSources {
        *self.sources
    }

    /// The number of sources already returned.
    pub closed spec fn offset(self) -> nat {
        self.offset as nat
    }

    /// The next source, if any is left.
    pub fn next(&mut self) -> (r: Option<ScanSourceRef<'a>>)
        ensures
            final(self).sources() == old(self).sources(),
            old(self).offset() < old(self).sources()@.len() ==> {
                &&& r matches Some(x) && x@ == old(self).sources()@.at(old(self).offset() as int)
                &&& final(self).offset() == old(self).offset() + 1
            },
            old(self).offset() >= old(self).sources()@.len() ==> {
                &&& r is None
                &&& final(self).offset() == old(self).offset()
            },
    {
        proof {
            use_type_invariant(&*self);
        }
        let sources: &'a ScanSources = self.sources;
        let _n = sources.len();
        match sources.get(self.offset) {
            Some(item) => {
                self.offset = self.offset + 1;
                Some(item)
            },
            None => None,
        }
    }

    /// The number of sources left, as lower and upper bound.
    pub fn size_hint(&self) -> (r: (usize, Option<usize>))
        ensures
            r.0 == self.sources()@.len() - self.offset(),
            r.1 == Some(r.0),
    {
        proof {
            use_type_invariant(self);
        }
        let len = self.sources.len() - self.offset;
        (len, Some(len))
    }
}


/// Taking the single source out of a set of one source and putting it back in a set
/// gives the set back.
pub proof fn lemma_from_then_into_sources(v: SourcesView)
    requires
        v.len() == 1,
    ensures
        v.single() matches Some(s) && s.to_sources() == v,
{
    match v {
        SourcesView::Paths(p) => assert(seq![p[0]] =~= p),
        SourcesView::Files(f) => assert(seq![f[0]] =~= f),
        SourcesView::Buffers(b) => assert(seq![b[0]] =~= b),
    }
}

/// Putting a single source in a set and taking it out again gives the source back.
pub proof fn lemma_into_then_from_sources(s: SourceView)
    ensures
        s.to_sources().single() == Some(s),
{
}


/// What a set of sources is hashed by: the paths, or the address of the shared list of
/// files or buffers.
#[derive(Debug, Hash, PartialEq, Eq)]
pub enum SourcesKey {
    Paths(Vec<PlPath>),
    Files(usize),
    Buffers(usize),
}

/// The paths a hash key holds; empty for files and buffers.
pub open spec fn key_paths(k: SourcesKey) -> Seq<PlPath> {
    match k {
        SourcesKey::Paths(p) => p@,
        _ => Seq::empty(),
    }
}

/// Path sets that compare equal get hash keys of the same kind that hold the same paths,
/// path by path; for files and buffers, the keys are the addresses of the shared lists.
pub proof fn lemma_equal_sources_equal_keys(
    a: SourcesView,
    b: SourcesView,
    ka: SourcesKey,
    kb: SourcesKey,
)
    requires
        a is Paths && b is Paths,
        same_paths(a->Paths_0, b->Paths_0),
        ka is Paths && key_paths(ka) == a->Paths_0,
        kb is Paths && key_paths(kb) == b->Paths_0,
    ensures
        same_paths(key_paths(ka), key_paths(kb)),
{
}

/// A path in double quotes.
pub open spec fn quoted(p: PlPath) -> Seq<char> {
    "\""@ + p.chars() + "\""@
}

/// Paths in double quotes, separated by ", ".
pub open spec fn quoted_list(p: Seq<PlPath>) -> Seq<char>
    decreases p.len(),
{
    if p.len() == 0 {
        Seq::empty()
    } else if p.len() == 1 {
        quoted(p[0])
    } else {
        quoted_list(p.drop_last()) + ", "@ + quoted(p.last())
    }
}

/// The description of a set of sources: the paths, or the number of files or buffers.
pub open spec fn describe(v: SourcesView) -> Seq<char> {
    match v {
        SourcesView::Paths(p) => "paths: ["@ + quoted_list(p) + "]"@,
        SourcesView::Files(f) => "files: "@ + decimal(f.len()) + " files"@,
        SourcesView::Buffers(b) => "buffers: "@ + decimal(b.len()) + " in-memory-buffers"@,
    }
}

impl ScanSources {
    /// What the sources are hashed by: paths by value, files and buffers by the address
    /// of their shared list.
    pub fn hash_key(&self) -> (r: SourcesKey)
        ensures
            match self@ {
                SourcesView::Paths(p) => r is Paths && key_paths(r) == p,
                SourcesView::Files(_) => r is Files,
                SourcesView::Buffers(_) => r is Buffers,
            },
    {
        match self {
            ScanSources::Paths(paths) => {
                let mut k: Vec<PlPath> = Vec::new();
                let mut i: usize = 0;
                while i < paths.len()
                    invariant
                        i <= paths@.len(),
                        k@ == paths@.subrange(0, i as int),
                    decreases paths@.len() - i,
                {
                    k.push(paths[i].clone());
                    i = i + 1;
                }
                assert(k@ =~= paths@);
                SourcesKey::Paths(k)
            },
            ScanSources::Files(files) => SourcesKey::Files(allocation_address(files)),
            ScanSources::Buffers(buffers) => SourcesKey::Buffers(allocation_address(buffers)),
        }
    }

    /// A description of the sources: the paths, or the number of files or buffers.
    pub fn fmt(&self) -> (r: String)
        ensures
            r@ == describe(self@),
    {
        match self {
            ScanSources::Paths(p) => {
                let mut res = String::from_str("paths: [");
                let mut i: usize = 0;
                while i < p.len()
                    invariant
                        i <= p@.len(),
                        res@ == "paths: ["@ + quoted_list(p@.subrange(0, i as int)),
                    decreases p@.len() - i,
                {
                    let ghost before = res@;
                    if i > 0 {
                        res.append(", ");
                    }
                    res.append("\"");
                    res.append(p[i].to_str());
                    res.append("\"");
                    proof {
                        let s = p@.subrange(0, i + 1);
                        assert(s.drop_last() =~= p@.subrange(0, i as int));
                        assert(s.last() == p@[i as int]);
                        if i == 0 {
                            assert(p@.subrange(0, 0) =~= Seq::<PlPath>::empty());
                            assert(res@ =~= before + quoted(p@[0]));
                        } else {
                            assert(res@ =~= before + ", "@ + quoted(p@[i as int]));
                        }
                    }
                    i = i + 1;
                }
                assert(p@.subrange(0, p@.len() as int) =~= p@);
                res.append("]");
                res
            },
            ScanSources::Files(f) => {
                let mut res = String::from_str("files: ");
                res.append(usize_to_string(f.len()).as_str());
                res.append(" files");
                res
            },
            ScanSources::Buffers(b) => {
                let mut res = String::from_str("buffers: ");
                res.append(usize_to_string(b.len()).as_str());
                res.append(" in-memory-buffers");
                res
            },
        }
    }
}

/// The source at a position is the item stored at that position of the list, whatever
/// the other positions hold.
pub proof fn lemma_at_is_stored_item(v: SourcesView, i: int)
    requires
        0 <= i < v.len(),
    ensures
        v matches SourcesView::Paths(p) ==> v.at(i) == SourceView::Path(p[i]),
        v matches SourcesView::Files(f) ==> v.at(i) == SourceView::File(f[i]),
        v matches SourcesView::Buffers(b) ==> v.at(i) == SourceView::Buffer(b[i]),
{
}

/// Two path lists are equal exactly when they are equally long and hold, at every
/// position, paths of the same kind with the same characters.
pub proof fn lemma_equal_paths_positionwise(a: Seq<PlPath>, b: Seq<PlPath>)
    ensures
        same_paths(a, b) <==> (a.len() == b.len() && forall|i: int|
            0 <= i < a.len() ==> (#[trigger] a[i]).is_cloud() == b[i].is_cloud() && a[i].chars()
                == b[i].chars()),
{
    if a.len() == b.len() && forall|i: int|
        0 <= i < a.len() ==> (#[trigger] a[i]).is_cloud() == b[i].is_cloud() && a[i].chars()
            == b[i].chars() {
        assert forall|i: int| 0 <= i < a.len() implies #[trigger] a[i].same_path(b[i]) by {
            assert(a[i].is_cloud() == b[i].is_cloud());
        }
    }
    if same_paths(a, b) {
        assert forall|i: int| 0 <= i < a.len() implies (#[trigger] a[i]).is_cloud()
            == b[i].is_cloud() && a[i].chars() == b[i].chars() by {
            assert(a[i].same_path(b[i]));
        }
    }
}

} // verus!
