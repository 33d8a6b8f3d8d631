use std::collections::HashMap;

use image_distributor::cache::{
    build_key, Cache, CacheDecision, CacheError, CacheEvalMode, CacheRecord, Lookup, Probe,
};
use image_distributor::fingerprint::{ExifSummary, MetadataTags};
use image_distributor::timefmt::{FileTime, TimeError};

const VOLUME: &str = "ABCD-1234";
const PREFIX: &str = "/media/card";
const FILE: &str = "/media/card/DCIM/100/IMG_0001.JPG";
// 2025-01-01T00:00:00+09:00
const MTIME: i64 = 1735657200;

fn tags(make: Option<&str>, model: Option<&str>) -> MetadataTags {
    MetadataTags {
        datetime_original: Some("2025-01-01 00:00:00".to_string()),
        make: make.map(|s| s.to_string()),
        model: model.map(|s| s.to_string()),
        body_serial: Some("0123".to_string()),
        image_unique_id: None,
        pixel_width: Some("6000".to_string()),
        pixel_height: Some("4000".to_string()),
    }
}

fn canon() -> ExifSummary {
    ExifSummary::from_tags(tags(Some("Canon"), Some("EOS R5")))
}

fn nikon() -> ExifSummary {
    ExifSummary::from_tags(tags(Some("Nikon"), Some("D850")))
}

struct Run {
    decision: CacheDecision,
    reads: usize,
}

/// Drives one evaluation against an in-memory store, counting fingerprint reads.
fn evaluate(
    cache: &Cache,
    store: &HashMap<String, CacheRecord>,
    path: &str,
    size: u64,
    mtime: i64,
    current: &ExifSummary,
) -> Run {
    let probe: Probe = cache.probe(path, size, FileTime::new(mtime, 0)).unwrap();
    let existing = store.get(&probe.key).cloned();
    let mut reads = 0;
    let decision = match cache.evaluate(probe, existing) {
        Lookup::Hit => CacheDecision::Hit,
        Lookup::NeedFingerprint(pending) => {
            reads += 1;
            pending.resolve(current.clone()).unwrap()
        },
    };
    Run { decision, reads }
}

fn commit(cache: &Cache, store: &mut HashMap<String, CacheRecord>, decision: CacheDecision) {
    match decision {
        CacheDecision::Miss { handle } => {
            let (key, record) = cache.commit(handle);
            store.insert(key, record);
        },
        CacheDecision::Hit => panic!("nothing to commit on a hit"),
    }
}

fn cache(mode: CacheEvalMode) -> Cache {
    Cache::new(mode, VOLUME.to_string(), PREFIX.to_string())
}

#[test]
fn first_miss_then_hit_after_commit() {
    let cache = cache(CacheEvalMode::Shallow);
    let mut store = HashMap::new();
    let first = evaluate(&cache, &store, FILE, 2048, MTIME, &canon());
    assert!(matches!(first.decision, CacheDecision::Miss { .. }));
    commit(&cache, &mut store, first.decision);
    assert!(store.contains_key("ABCD-1234:DCIM/100/IMG_0001.JPG"));
    let second = evaluate(&cache, &store, FILE, 2048, MTIME, &canon());
    assert!(matches!(second.decision, CacheDecision::Hit));
    assert_eq!(second.reads, 0);
}

#[test]
fn strict_detects_changed_make_model() {
    let cache = cache(CacheEvalMode::Strict);
    let mut store = HashMap::new();
    let first = evaluate(&cache, &store, FILE, 2048, MTIME, &canon());
    commit(&cache, &mut store, first.decision);
    let stored = store.get("ABCD-1234:DCIM/100/IMG_0001.JPG").unwrap();
    assert_eq!(stored.exif.make_model.as_deref(), Some("Canon/EOS R5"));
    let second = evaluate(&cache, &store, FILE, 2048, MTIME, &nikon());
    match second.decision {
        CacheDecision::Miss { handle } => {
            assert_eq!(handle.record().exif.make_model.as_deref(), Some("Nikon/D850"));
            assert_eq!(handle.record().file_size, 2048);
            assert_eq!(handle.rel_path(), "DCIM/100/IMG_0001.JPG");
        },
        CacheDecision::Hit => panic!("a changed fingerprint must miss in Strict mode"),
    }
    assert_eq!(second.reads, 1);
}

#[test]
fn round_trip_in_both_modes() {
    for mode in [CacheEvalMode::Shallow, CacheEvalMode::Strict] {
        let cache = cache(mode);
        let mut store = HashMap::new();
        let first = evaluate(&cache, &store, FILE, 10, MTIME, &canon());
        commit(&cache, &mut store, first.decision);
        let second = evaluate(&cache, &store, FILE, 10, MTIME, &canon());
        assert!(matches!(second.decision, CacheDecision::Hit));
    }
}

#[test]
fn shallow_ignores_fingerprint_strict_does_not() {
    let mut store = HashMap::new();
    let shallow = cache(CacheEvalMode::Shallow);
    let first = evaluate(&shallow, &store, FILE, 10, MTIME, &canon());
    commit(&shallow, &mut store, first.decision);
    let again = evaluate(&shallow, &store, FILE, 10, MTIME, &nikon());
    assert!(matches!(again.decision, CacheDecision::Hit));
    let strict = cache(CacheEvalMode::Strict);
    let again = evaluate(&strict, &store, FILE, 10, MTIME, &nikon());
    assert!(matches!(again.decision, CacheDecision::Miss { .. }));
}

#[test]
fn size_or_mtime_change_misses() {
    for mode in [CacheEvalMode::Shallow, CacheEvalMode::Strict] {
        let cache = cache(mode);
        let mut store = HashMap::new();
        let first = evaluate(&cache, &store, FILE, 10, MTIME, &canon());
        commit(&cache, &mut store, first.decision);
        let bigger = evaluate(&cache, &store, FILE, 11, MTIME, &canon());
        assert!(matches!(bigger.decision, CacheDecision::Miss { .. }));
        let later = evaluate(&cache, &store, FILE, 10, MTIME + 1, &canon());
        assert!(matches!(later.decision, CacheDecision::Miss { .. }));
    }
}

#[test]
fn strict_fallthrough_reads_fingerprint_once() {
    let cache = cache(CacheEvalMode::Strict);
    let mut store = HashMap::new();
    let first = evaluate(&cache, &store, FILE, 10, MTIME, &canon());
    assert_eq!(first.reads, 1);
    commit(&cache, &mut store, first.decision);
    let second = evaluate(&cache, &store, FILE, 10, MTIME, &nikon());
    assert_eq!(second.reads, 1);
    match second.decision {
        CacheDecision::Miss { handle } => {
            assert_eq!(handle.record().exif.calc_hash(), nikon().calc_hash());
        },
        CacheDecision::Hit => panic!("expected a miss"),
    }
}

#[test]
fn keys_of_two_volumes_differ() {
    assert_eq!(build_key("ABCD-1234", "a/b.jpg"), "ABCD-1234:a/b.jpg");
    assert_ne!(build_key("V1", "a/b.jpg"), build_key("V2", "a/b.jpg"));
    let one = Cache::new(CacheEvalMode::Shallow, "V1".to_string(), PREFIX.to_string());
    let two = Cache::new(CacheEvalMode::Shallow, "V2".to_string(), PREFIX.to_string());
    let mut store = HashMap::new();
    let first = evaluate(&one, &store, FILE, 10, MTIME, &canon());
    commit(&one, &mut store, first.decision);
    let other = evaluate(&two, &store, FILE, 10, MTIME, &canon());
    assert!(matches!(other.decision, CacheDecision::Miss { .. }));
    let same = evaluate(&one, &store, FILE, 10, MTIME, &canon());
    assert!(matches!(same.decision, CacheDecision::Hit));
}

#[test]
fn committing_twice_is_committing_once() {
    let cache = cache(CacheEvalMode::Strict);
    let mut store = HashMap::new();
    let first = evaluate(&cache, &store, FILE, 10, MTIME, &canon());
    let handle = match first.decision {
        CacheDecision::Miss { handle } => handle,
        CacheDecision::Hit => panic!("expected a miss"),
    };
    let (key, record) = cache.commit(handle);
    store.insert(key.clone(), record.clone());
    store.insert(key, record);
    assert_eq!(store.len(), 1);
    let second = evaluate(&cache, &store, FILE, 10, MTIME, &canon());
    assert!(matches!(second.decision, CacheDecision::Hit));
}

#[test]
fn path_outside_volume_fails() {
    let cache = cache(CacheEvalMode::Shallow);
    let r = cache.probe("/media/cardx/a.jpg", 1, FileTime::new(MTIME, 0));
    assert!(matches!(r, Err(CacheError::PathOutsideVolume)));
    let r = cache.probe("/other/a.jpg", 1, FileTime::new(MTIME, 0));
    assert!(matches!(r, Err(CacheError::PathOutsideVolume)));
}

#[test]
fn mtime_before_epoch_fails() {
    let cache = cache(CacheEvalMode::Shallow);
    let r = cache.probe(FILE, 1, FileTime::new(-1, 500));
    assert!(matches!(r, Err(CacheError::Time(TimeError::BeforeEpoch))));
}

#[test]
fn probe_names_relative_path_and_key() {
    let cache = cache(CacheEvalMode::Shallow);
    let p = cache.probe(FILE, 7, FileTime::new(MTIME, 999)).unwrap();
    assert_eq!(p.rel_path, "DCIM/100/IMG_0001.JPG");
    assert_eq!(p.key, "ABCD-1234:DCIM/100/IMG_0001.JPG");
    assert_eq!(p.file_size, 7);
    assert_eq!(p.mtime.len(), "2025-01-01T00:00:00+09:00".len());
}

#[test]
fn new_record_is_stamped() {
    let r = CacheRecord::new("m".to_string(), 3, canon()).unwrap();
    assert_eq!(r.mtime, "m");
    assert_eq!(r.file_size, 3);
    assert_eq!(r.timestamp.len(), 25);
    assert_eq!(r.exif.make_model.as_deref(), Some("Canon/EOS R5"));
}

#[test]
fn resolve_at_writes_given_timestamp() {
    let cache = cache(CacheEvalMode::Shallow);
    let probe = cache.probe(FILE, 5, FileTime::new(MTIME, 0)).unwrap();
    match cache.evaluate(probe, None) {
        Lookup::NeedFingerprint(pending) => {
            assert_eq!(pending.expected_hash, None);
            match pending.resolve_at(canon(), "T".to_string()) {
                CacheDecision::Miss { handle } => {
                    assert_eq!(handle.record().timestamp, "T");
                    assert_eq!(handle.record().file_size, 5);
                },
                CacheDecision::Hit => panic!("no record: must miss"),
            }
        },
        Lookup::Hit => panic!("no record: must not hit"),
    }
}
