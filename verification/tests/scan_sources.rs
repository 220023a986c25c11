use std::sync::Arc;

use polars_lite::scan_sources::{
    hive_expansion_enabled, ByteSourcePlan, CacheOpen, HiveOptions, MemSliceSource, ReadError, ScanSource, ScanSourceRef,
    ScanSources, SourcesKey, UnifiedScanArgs,
};
use polars_lite::sources::{FileHandle, MemSlice, PlPath};

fn local(p: &str) -> PlPath {
    PlPath::Local(p.to_string())
}

fn cloud(p: &str) -> PlPath {
    PlPath::Cloud(p.to_string())
}

fn paths(ps: Vec<PlPath>) -> ScanSources {
    ScanSources::Paths(Arc::new(ps))
}

fn bytes(b: &[u8]) -> MemSlice {
    MemSlice::from_vec(b.to_vec())
}

fn args(enabled: Option<bool>) -> UnifiedScanArgs {
    UnifiedScanArgs { glob: true, hive_options: HiveOptions { enabled, hive_start_idx: 0 } }
}

#[test]
fn single_path_round_trips() {
    let s = paths(vec![local("a.csv")]);
    let one = ScanSource::from_sources(s).ok().unwrap();
    match &one {
        ScanSource::Path(p) => assert_eq!(p.to_str(), "a.csv"),
        _ => panic!("expected a path"),
    }
    let back = one.into_sources();
    assert!(back.eq(&paths(vec![local("a.csv")])));
}

#[test]
fn single_file_keeps_its_allocation() {
    let files = Arc::new(vec![FileHandle { fd: 7 }]);
    let s = ScanSources::Files(files.clone());
    let one = ScanSource::from_sources(s).ok().unwrap();
    let back = one.into_sources();
    assert!(back.eq(&ScanSources::Files(files)));
}

#[test]
fn single_buffer_round_trips() {
    let s = ScanSources::Buffers(Arc::new(vec![bytes(b"xyz")]));
    let one = ScanSource::from_sources(s).ok().unwrap();
    match &one {
        ScanSource::Buffer(m) => assert_eq!(m.as_slice(), b"xyz"),
        _ => panic!("expected a buffer"),
    }
    match one.into_sources() {
        ScanSources::Buffers(b) => {
            assert_eq!(b.len(), 1);
            assert_eq!(b[0].as_slice(), b"xyz");
        },
        _ => panic!("expected buffers"),
    }
}

#[test]
fn from_sources_rejects_other_counts() {
    let two = paths(vec![local("a"), local("b")]);
    let back = ScanSource::from_sources(two).err().unwrap();
    assert_eq!(back.len(), 2);
    assert!(ScanSource::from_sources(paths(vec![])).is_err());
}

#[test]
fn equality_of_sources() {
    assert!(paths(vec![local("a")]).eq(&paths(vec![local("a")])));
    assert!(!paths(vec![local("a")]).eq(&paths(vec![cloud("a")])));
    assert!(!paths(vec![local("a")]).eq(&paths(vec![local("a"), local("b")])));
    let b1 = ScanSources::Buffers(Arc::new(vec![bytes(b"1")]));
    let b2 = ScanSources::Buffers(Arc::new(vec![bytes(b"1")]));
    assert!(!b1.eq(&b2));
    let shared = Arc::new(vec![bytes(b"1")]);
    assert!(ScanSources::Buffers(shared.clone()).eq(&ScanSources::Buffers(shared)));
    assert!(!paths(vec![]).eq(&ScanSources::Files(Arc::new(vec![]))));
}

#[test]
fn default_is_empty_paths() {
    let d: ScanSources = Default::default();
    assert!(d.is_paths());
    assert!(d.is_empty());
    assert_eq!(d.id(), "EMPTY");
    assert!(d.first().is_none());
    assert!(!d.is_cloud_url());
}

#[test]
fn ids() {
    assert_eq!(paths(vec![local("x/y.parquet"), local("z")]).id(), "x/y.parquet");
    assert_eq!(ScanSources::Files(Arc::new(vec![FileHandle { fd: 3 }])).id(), "OPEN_FILES");
    assert_eq!(ScanSources::Buffers(Arc::new(vec![bytes(b"")])).id(), "IN_MEMORY");
}

#[test]
fn path_accessors() {
    let s = paths(vec![cloud("s3://b/k"), local("l")]);
    assert!(s.is_cloud_url());
    assert_eq!(s.as_paths().unwrap().len(), 2);
    assert_eq!(s.into_paths().unwrap().len(), 2);
    assert_eq!(s.first_path().unwrap().to_str(), "s3://b/k");
    let f = ScanSources::Files(Arc::new(vec![FileHandle { fd: 1 }]));
    assert!(f.as_paths().is_none());
    assert!(f.into_paths().is_none());
    assert!(f.first_path().is_none());
    assert!(!f.is_paths());
}

#[test]
fn get_and_at() {
    let s = paths(vec![local("a"), local("b")]);
    match s.at(1) {
        ScanSourceRef::Path(p) => assert_eq!(p.to_str(), "b"),
        _ => panic!("expected a path"),
    }
    assert!(s.get(2).is_none());
    let f = ScanSources::Files(Arc::new(vec![FileHandle { fd: 4 }]));
    match f.get(0) {
        Some(ScanSourceRef::File(h)) => assert_eq!(h.fd, 4),
        _ => panic!("expected a file"),
    }
}

#[test]
fn iterator_walks_in_order() {
    let s = paths(vec![local("a"), local("b"), local("c")]);
    let mut it = s.iter();
    assert_eq!(it.size_hint(), (3, Some(3)));
    let mut names = Vec::new();
    while let Some(item) = it.next() {
        names.push(item.to_include_path_name().to_string());
    }
    assert_eq!(names, vec!["a", "b", "c"]);
    assert_eq!(it.size_hint(), (0, Some(0)));
    assert!(it.next().is_none());
}

#[test]
fn include_path_names() {
    let f = FileHandle { fd: 2 };
    let m = bytes(b"q");
    let p = local("dir/f.ipc");
    assert_eq!(ScanSourceRef::File(&f).to_include_path_name(), "open-file");
    assert_eq!(ScanSourceRef::Buffer(&m).to_include_path_name(), "in-mem");
    assert_eq!(ScanSourceRef::Path(&p).to_include_path_name(), "dir/f.ipc");
}

#[test]
fn run_async_for_cloud_or_forced() {
    assert!(ScanSource::Path(cloud("gs://x")).run_async(false));
    assert!(!ScanSource::Path(local("x")).run_async(false));
    assert!(ScanSource::Path(local("x")).run_async(true));
    assert!(!ScanSource::Buffer(bytes(b"")).run_async(true));
    assert!(ScanSource::Path(cloud("gs://x")).is_cloud_url());
    assert!(!ScanSource::Buffer(bytes(b"")).is_cloud_url());
}

#[test]
fn into_owned_cases() {
    let p = local("a");
    match ScanSourceRef::Path(&p).into_owned(None, None) {
        Ok(ScanSource::Path(q)) => assert_eq!(q.to_str(), "a"),
        _ => panic!("expected a path"),
    }
    let f = FileHandle { fd: 9 };
    match ScanSourceRef::File(&f).into_owned(Some(FileHandle { fd: 10 }), None) {
        Ok(ScanSource::File(sf)) => assert_eq!(sf.get().fd, 10),
        _ => panic!("expected a file"),
    }
    match ScanSourceRef::File(&f).into_owned(None, Some(bytes(b"ab"))) {
        Ok(ScanSource::Buffer(m)) => assert_eq!(m.as_slice(), b"ab"),
        _ => panic!("expected a buffer"),
    }
    assert_eq!(
        ScanSourceRef::File(&f).into_owned(None, None).err(),
        Some(ReadError::FileUnreadable)
    );
}

#[test]
fn memslice_sources() {
    let p = local("data.csv");
    match ScanSourceRef::Path(&p).to_memslice() {
        MemSliceSource::OpenLocal(s) => assert_eq!(s, "data.csv"),
        _ => panic!("expected a local open"),
    }
    let c = cloud("s3://a/b");
    match ScanSourceRef::Path(&c).to_memslice_possibly_async(true, Some(3), 2) {
        MemSliceSource::CacheEntry(i) => assert_eq!(i, 2),
        _ => panic!("expected a cache entry"),
    }
    let f = FileHandle { fd: 5 };
    match ScanSourceRef::File(&f).to_memslice_async_check_latest(true, false) {
        MemSliceSource::MapFile(h) => assert_eq!(h.fd, 5),
        _ => panic!("expected a file"),
    }
    let m = bytes(b"zz");
    match ScanSourceRef::Buffer(&m).to_memslice_async_assume_latest(false, true) {
        MemSliceSource::Buffer(b) => assert_eq!(b.as_slice(), b"zz"),
        _ => panic!("expected a buffer"),
    }
}

#[test]
fn memslice_with_file_cache() {
    let c = cloud("s3://a/b");
    match ScanSourceRef::Path(&c).to_memslice_async(true, true, CacheOpen::CheckLatest) {
        MemSliceSource::FileCache(p, o) => {
            assert_eq!(p.to_str(), "s3://a/b");
            assert_eq!(o, CacheOpen::CheckLatest);
        },
        _ => panic!("expected the file cache"),
    }
    match ScanSourceRef::Path(&c).to_memslice_async_assume_latest(true, true) {
        MemSliceSource::FileCache(_, o) => assert_eq!(o, CacheOpen::AssumeLatest),
        _ => panic!("expected the file cache"),
    }
    let l = local("x.csv");
    match ScanSourceRef::Path(&l).to_memslice_async_check_latest(true, true) {
        MemSliceSource::FileCache(p, o) => {
            assert_eq!(p.to_str(), "x.csv");
            assert_eq!(o, CacheOpen::CheckLatest);
        },
        _ => panic!("expected the file cache"),
    }
    match ScanSourceRef::Path(&l).to_memslice_async_assume_latest(false, true) {
        MemSliceSource::OpenLocal(s) => assert_eq!(s, "x.csv"),
        _ => panic!("expected a local open"),
    }
    match ScanSourceRef::Path(&l).to_memslice_async(true, false, CacheOpen::AssumeLatest) {
        MemSliceSource::OpenLocal(s) => assert_eq!(s, "x.csv"),
        _ => panic!("expected a local open"),
    }
    match ScanSourceRef::Path(&c).to_dyn_byte_source() {
        ByteSourcePlan::Path(s) => assert_eq!(s, "s3://a/b"),
        _ => panic!("expected a path"),
    }
    let m = bytes(b"k");
    match ScanSourceRef::Buffer(&m).to_dyn_byte_source() {
        ByteSourcePlan::Buffer(b) => assert_eq!(b.as_slice(), b"k"),
        _ => panic!("expected a buffer"),
    }
}

#[test]
fn expand_paths_replaces_only_paths() {
    let s = paths(vec![local("*.csv")]);
    let e = s.expand_paths(vec![local("a.csv"), local("b.csv")]);
    assert!(e.eq(&paths(vec![local("a.csv"), local("b.csv")])));
    let shared = Arc::new(vec![bytes(b"1")]);
    let b = ScanSources::Buffers(shared.clone());
    assert!(b.expand_paths(vec![local("x")]).eq(&ScanSources::Buffers(shared)));
}

#[test]
fn hive_update_enables_for_single_directory() {
    let s = paths(vec![local("dir")]);
    let mut a = args(None);
    let e = s.expand_paths_with_hive_update(&mut a, vec![local("dir/k=1/f.parquet")], 4, true);
    assert_eq!(e.len(), 1);
    assert_eq!(a.hive_options.enabled, Some(true));
    assert_eq!(a.hive_options.hive_start_idx, 4);
    assert!(a.glob);
}

#[test]
fn hive_update_keeps_explicit_choice() {
    let s = paths(vec![local("dir")]);
    let mut a = args(Some(false));
    s.expand_paths_with_hive_update(&mut a, vec![local("dir/f")], 4, true);
    assert_eq!(a.hive_options.enabled, Some(false));
    let mut b = args(None);
    s.expand_paths_with_hive_update(&mut b, vec![local("f")], 0, false);
    assert_eq!(b.hive_options.enabled, None);
    let f = ScanSources::Files(Arc::new(vec![FileHandle { fd: 1 }]));
    let mut c = args(None);
    let out = f.expand_paths_with_hive_update(&mut c, vec![], 7, true);
    assert_eq!(out.len(), 1);
    assert_eq!(c.hive_options.enabled, None);
    assert_eq!(c.hive_options.hive_start_idx, 0);
}

#[test]
fn hive_expansion_flag() {
    assert!(hive_expansion_enabled(&args(Some(true))));
    assert!(!hive_expansion_enabled(&args(Some(false))));
    assert!(!hive_expansion_enabled(&args(None)));
}

#[test]
fn path_helpers() {
    assert_eq!(local("a").as_local_path(), Some("a"));
    assert_eq!(cloud("s3://a").as_local_path(), None);
    assert!(local("a").eq_path(&local("a")));
    assert!(!local("a").eq_path(&cloud("a")));
    assert_eq!(bytes(b"abc").clone().len(), 3);
}

#[test]
fn describe_sources() {
    assert_eq!(paths(vec![local("a"), cloud("s3://b")]).fmt(), "paths: [\"a\", \"s3://b\"]");
    assert_eq!(paths(vec![]).fmt(), "paths: []");
    let f = ScanSources::Files(Arc::new(vec![FileHandle { fd: 1 }, FileHandle { fd: 2 }]));
    assert_eq!(f.fmt(), "files: 2 files");
    let b = ScanSources::Buffers(Arc::new(vec![bytes(b"x"); 12]));
    assert_eq!(b.fmt(), "buffers: 12 in-memory-buffers");
}

#[test]
fn hash_keys_follow_equality() {
    assert_eq!(paths(vec![local("a")]).hash_key(), paths(vec![local("a")]).hash_key());
    assert_ne!(paths(vec![local("a")]).hash_key(), paths(vec![cloud("a")]).hash_key());
    let shared = Arc::new(vec![bytes(b"1")]);
    let k1 = ScanSources::Buffers(shared.clone()).hash_key();
    let k2 = ScanSources::Buffers(shared.clone()).hash_key();
    assert_eq!(k1, k2);
    let other = Arc::new(vec![bytes(b"1")]);
    assert_ne!(k1, ScanSources::Buffers(other).hash_key());
    assert!(matches!(
        ScanSources::Files(Arc::new(vec![FileHandle { fd: 1 }])).hash_key(),
        SourcesKey::Files(_)
    ));
}

#[test]
fn decimal_text() {
    use_decimal();
}

fn use_decimal() {
    assert_eq!(polars_lite::sources::usize_to_string(0), "0");
    assert_eq!(polars_lite::sources::usize_to_string(907), "907");
    assert_eq!(polars_lite::sources::usize_to_string(usize::MAX), usize::MAX.to_string());
}
