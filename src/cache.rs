//! The hit/miss decision and the two-phase "reserve, then commit" protocol.
//!
//! Evaluating a file runs in steps, with the caller doing the outside work in
//! between: `Cache::probe` names the store key, the caller reads the stored
//! record, `Cache::evaluate` decides what it can from that record alone, the
//! caller reads the file's fingerprint if asked to, and
//! `PendingEval::resolve` gives the final decision. A miss carries a
//! `TxnHandle`, which `Cache::commit` turns into the entry the store writes.

use vstd::prelude::*;
use vstd::string::*;
use crate::fingerprint::{opt_view, summary_hash, ExifSummary, SummaryView};
use crate::timefmt::{clock_now, format_iso8601, is_rendered_instant, FileTime, TimeError, MAX_TIMESTAMP};

verus! {

/// How a stored record is confirmed.
#[derive(Clone, Copy, Debug, PartialEq, Eq, Structural)]
pub enum CacheEvalMode {
    /// Size and modification time alone decide a hit.
    Shallow,
    /// Size, modification time and the fingerprint hash decide a hit.
    Strict,
}

/// Why an evaluation failed.
#[derive(Clone, Copy, Debug, PartialEq, Eq, Structural)]
pub enum CacheError {
    /// The evaluated path does not lie under the volume's mount root.
    PathOutsideVolume,
    /// A time could not be rendered.
    Time(TimeError),
}

/// The stored facts about one processed file.
#[derive(Clone, Debug)]
pub struct CacheRecord {
    /// When the record was written, RFC 3339 at second precision.
    pub timestamp: String,
    /// The file's modification time, RFC 3339 at second precision.
    pub mtime: String,
    pub file_size: u64,
    pub exif: ExifSummary,
}

/// The fields of a record, as text and numbers.
pub struct RecordView {
    pub timestamp: Seq<char>,
    pub mtime: Seq<char>,
    pub file_size: u64,
    pub exif: SummaryView,
}

impl View for CacheRecord {
    type V = RecordView;

    open spec fn view(&self) -> RecordView {
        RecordView {
            timestamp: self.timestamp@,
            mtime: self.mtime@,
            file_size: self.file_size,
            exif: self.exif@,
        }
    }
}

/// The view of an optional record.
pub open spec fn opt_record(r: Option<CacheRecord>) -> Option<RecordView> {
    match r {
        Some(x) => Some(x@),
        None => None,
    }
}

/// The store key of a path: the volume id, `:`, the path relative to the
/// volume's mount root.
pub open spec fn key_of(volume_id: Seq<char>, rel_path: Seq<char>) -> Seq<char> {
    volume_id + seq![':'] + rel_path
}

/// The path relative to `prefix`, component by component, or `None` when
/// `path` does not lie under `prefix`.
pub uninterp spec fn relative_path_of(path: Seq<char>, prefix: Seq<char>) -> Option<Seq<char>>;

/// Relies on std::path::Path::strip_prefix: the remainder of `path` after the
/// components of `prefix`, which depends on the two texts alone.
#[verifier::external_body]
fn strip_prefix(path: &str, prefix: &str) -> (r: Option<String>)
    ensures
        opt_view(r) == relative_path_of(path@, prefix@),
{
    std::path::Path::new(path).strip_prefix(prefix).ok().and_then(|p| p.to_str()).map(
        |s| s.to_string(),
    )
}

/// Builds the store key of a relative path on a volume.
pub fn build_key(volume_id: &str, rel_path: &str) -> (r: String)
    ensures
        r@ == key_of(volume_id@, rel_path@),
{
    proof {
        reveal_strlit(":");
    }
    let mut key = String::from_str(volume_id);
    key.append(":");
    key.append(rel_path);
    key
}

/// The record as it stands, that size and modification time are unchanged.
pub open spec fn record_matches(r: RecordView, file_size: u64, mtime: Seq<char>) -> bool {
    r.file_size == file_size && r.mtime == mtime
}

/// Whether the stored record alone decides a hit: only in Shallow mode, and
/// only when it matches.
pub open spec fn hit_on_lookup(
    mode: CacheEvalMode,
    existing: Option<RecordView>,
    file_size: u64,
    mtime: Seq<char>,
) -> bool {
    mode == CacheEvalMode::Shallow && (existing matches Some(r) && record_matches(
        r,
        file_size,
        mtime,
    ))
}

/// The hash a fresh fingerprint must have for a hit once it has been read:
/// that of the stored fingerprint, in Strict mode when the stored record
/// matches; none otherwise.
pub open spec fn hash_to_confirm(
    mode: CacheEvalMode,
    existing: Option<RecordView>,
    file_size: u64,
    mtime: Seq<char>,
) -> Option<u64> {
    match existing {
        Some(r) => if mode == CacheEvalMode::Strict && record_matches(r, file_size, mtime) {
            Some(summary_hash(r.exif))
        } else {
            None
        },
        None => None,
    }
}

/// Whether a fresh fingerprint confirms a hit.
pub open spec fn hit_on_fingerprint(expected: Option<u64>, fingerprint: SummaryView) -> bool {
    expected == Some(summary_hash(fingerprint))
}

/// Whether evaluating a file whose current fingerprint is `fingerprint` ends
/// in a hit.
pub open spec fn evaluates_to_hit(
    mode: CacheEvalMode,
    existing: Option<RecordView>,
    file_size: u64,
    mtime: Seq<char>,
    fingerprint: SummaryView,
) -> bool {
    hit_on_lookup(mode, existing, file_size, mtime) || hit_on_fingerprint(
        hash_to_confirm(mode, existing, file_size, mtime),
        fingerprint,
    )
}

/// The record a miss reserves.
pub open spec fn fresh_record(
    timestamp: Seq<char>,
    mtime: Seq<char>,
    file_size: u64,
    fingerprint: SummaryView,
) -> RecordView {
    RecordView { timestamp, mtime, file_size, exif: fingerprint }
}

impl CacheRecord {
    /// A record with the given fields.
    pub fn with_timestamp(timestamp: String, mtime: String, file_size: u64, exif: ExifSummary) -> (r:
        CacheRecord)
        ensures
            r@ == fresh_record(timestamp@, mtime@, file_size, exif@),
    {
        CacheRecord { timestamp, mtime, file_size, exif }
    }

    /// A record written now: the current time, rendered, is its timestamp.
    pub fn new(mtime: String, file_size: u64, exif: ExifSummary) -> (r: Result<
        CacheRecord,
        TimeError,
    >)
        ensures
            r matches Ok(c) ==> c.mtime@ == mtime@ && c.file_size == file_size && c.exif@
                == exif@ && is_rendered_instant(c.timestamp@),
    {
        let now = match clock_now() {
            Some(t) => t,
            None => {
                return Err(TimeError::BeforeEpoch);
            },
        };
        let timestamp = match format_iso8601(now) {
            Ok(t) => t,
            Err(e) => {
                return Err(e);
            },
        };
        Ok(CacheRecord { timestamp, mtime, file_size, exif })
    }
}

/// A reserved, not yet durable update of the store.
pub struct TxnHandle {
    rel_path: String,
    record: CacheRecord,
}

/// What a reserved update writes, and for which path.
pub struct HandleView {
    pub rel_path: Seq<char>,
    pub record: RecordView,
}

impl View for TxnHandle {
    type V = HandleView;

    closed spec fn view(&self) -> HandleView {
        HandleView { rel_path: self.rel_path@, record: self.record@ }
    }
}

impl TxnHandle {
    /// The path, relative to the volume's mount root, that the update is for.
    pub fn rel_path(&self) -> (r: &String)
        ensures
            r@ == self@.rel_path,
    {
        &self.rel_path
    }

    /// The record the update writes.
    pub fn record(&self) -> (r: &CacheRecord)
        ensures
            r@ == self@.record,
    {
        &self.record
    }
}

/// The outcome of an evaluation.
pub enum CacheDecision {
    /// The file is unchanged since it was recorded.
    Hit,
    /// The file is new or changed; `handle` holds the record to commit once
    /// the file has been processed.
    Miss { handle: TxnHandle },
}

/// A file about to be evaluated: where its record is stored and what it is
/// compared with.
#[derive(Clone, Debug)]
pub struct Probe {
    pub rel_path: String,
    pub key: String,
    pub file_size: u64,
    pub mtime: String,
}

/// What the stored record alone decides.
pub enum Lookup {
    Hit,
    /// The file's fingerprint must be read, once, and handed to
    /// `PendingEval::resolve`.
    NeedFingerprint(PendingEval),
}

/// An evaluation waiting for the file's fingerprint.
pub struct PendingEval {
    pub rel_path: String,
    pub file_size: u64,
    pub mtime: String,
    /// The hash that confirms a hit, if any can.
    pub expected_hash: Option<u64>,
}

impl PendingEval {
    /// Decides with the file's current fingerprint, writing `timestamp` into
    /// the record a miss reserves. The fingerprint read for the check is the
    /// one the reserved record keeps.
    pub fn resolve_at(self, fingerprint: ExifSummary, timestamp: String) -> (r: CacheDecision)
        ensures
            hit_on_fingerprint(self.expected_hash, fingerprint@) <==> r is Hit,
            r matches CacheDecision::Miss { handle } ==> handle@ == (HandleView {
                rel_path: self.rel_path@,
                record: fresh_record(timestamp@, self.mtime@, self.file_size, fingerprint@),
            }),
    {
        if let Some(h) = self.expected_hash {
            if fingerprint.calc_hash() == h {
                return CacheDecision::Hit;
            }
        }
        let record = CacheRecord::with_timestamp(timestamp, self.mtime, self.file_size, fingerprint);
        CacheDecision::Miss { handle: TxnHandle { rel_path: self.rel_path, record } }
    }

    /// Decides with the file's current fingerprint; a miss reserves a record
    /// stamped with the current time.
    pub fn resolve(self, fingerprint: ExifSummary) -> (r: Result<CacheDecision, CacheError>)
        ensures
            hit_on_fingerprint(self.expected_hash, fingerprint@) ==> r matches Ok(
                CacheDecision::Hit,
            ),
            !hit_on_fingerprint(self.expected_hash, fingerprint@) ==> (r matches Ok(d) ==> (
            d matches CacheDecision::Miss { handle } && handle@.rel_path == self.rel_path@
                && record_matches(handle@.record, self.file_size, self.mtime@)
                && handle@.record.exif == fingerprint@ && is_rendered_instant(
                handle@.record.timestamp,
            ))),
    {
        if let Some(h) = self.expected_hash {
            if fingerprint.calc_hash() == h {
                return Ok(CacheDecision::Hit);
            }
        }
        match CacheRecord::new(self.mtime, self.file_size, fingerprint) {
            Ok(record) => Ok(CacheDecision::Miss { handle: TxnHandle { rel_path: self.rel_path, record } }),
            Err(e) => Err(CacheError::Time(e)),
        }
    }
}

/// The decision engine for the files of one volume.
pub struct Cache {
    eval_mode: CacheEvalMode,
    volume_id: String,
    volume_prefix: String,
}

/// The mode and volume a cache evaluates for.
pub struct CacheView {
    pub eval_mode: CacheEvalMode,
    pub volume_id: Seq<char>,
    pub volume_prefix: Seq<char>,
}

impl View for Cache {
    type V = CacheView;

    closed spec fn view(&self) -> CacheView {
        CacheView {
            eval_mode: self.eval_mode,
            volume_id: self.volume_id@,
            volume_prefix: self.volume_prefix@,
        }
    }
}

impl Cache {
    /// A cache for the volume `volume_id`, mounted at `volume_prefix`.
    pub fn new(eval_mode: CacheEvalMode, volume_id: String, volume_prefix: String) -> (r: Cache)
        ensures
            r@ == (CacheView { eval_mode, volume_id: volume_id@, volume_prefix: volume_prefix@ }),
    {
        Cache { eval_mode, volume_id, volume_prefix }
    }

    /// Prepares the evaluation of the file at the absolute path `abs_path`:
    /// its path relative to the volume's mount root, its store key, and its
    /// size and modification time as they are recorded. Fails when the path
    /// lies outside the volume, or when the modification time cannot be
    /// rendered (before the epoch, or beyond chrono's calendar range).
    pub fn probe(&self, abs_path: &str, file_size: u64, mtime: FileTime) -> (r: Result<
        Probe,
        CacheError,
    >)
        ensures
            relative_path_of(abs_path@, self@.volume_prefix) is None <==> r == Err::<
                Probe,
                CacheError,
            >(CacheError::PathOutsideVolume),
            relative_path_of(abs_path@, self@.volume_prefix) is Some && mtime.secs < 0 <==> r
                == Err::<Probe, CacheError>(CacheError::Time(TimeError::BeforeEpoch)),
            relative_path_of(abs_path@, self@.volume_prefix) is Some && 0 <= mtime.secs
                <= MAX_TIMESTAMP <==> r is Ok,
            r matches Ok(p) ==> relative_path_of(abs_path@, self@.volume_prefix) == Some(
                p.rel_path@,
            ) && p.key@ == key_of(self@.volume_id, p.rel_path@) && p.file_size == file_size
                && mtime.secs >= 0 && exists|off: int|
                -86_400 < off < 86_400 && p.mtime@ == #[trigger] crate::timefmt::rfc3339_text(
                    mtime.secs as int,
                    off,
                ),
    {
        let rel_path = match strip_prefix(abs_path, self.volume_prefix.as_str()) {
            Some(p) => p,
            None => {
                return Err(CacheError::PathOutsideVolume);
            },
        };
        let mtime = match format_iso8601(mtime) {
            Ok(t) => t,
            Err(e) => {
                return Err(CacheError::Time(e));
            },
        };
        let key = build_key(self.volume_id.as_str(), rel_path.as_str());
        Ok(Probe { rel_path, key, file_size, mtime })
    }

    /// Decides what the stored record `existing` of a probed file decides on
    /// its own: a hit in Shallow mode when size and modification time match;
    /// otherwise the fingerprint must be read, and the pending evaluation
    /// carries the hash that would confirm a hit.
    pub fn evaluate(&self, probe: Probe, existing: Option<CacheRecord>) -> (r: Lookup)
        ensures
            r is Hit <==> hit_on_lookup(
                self@.eval_mode,
                opt_record(existing),
                probe.file_size,
                probe.mtime@,
            ),
            r matches Lookup::NeedFingerprint(p) ==> p.rel_path@ == probe.rel_path@
                && p.file_size == probe.file_size && p.mtime@ == probe.mtime@ && p.expected_hash
                == hash_to_confirm(
                self@.eval_mode,
                opt_record(existing),
                probe.file_size,
                probe.mtime@,
            ),
    {
        let mut expected_hash: Option<u64> = None;
        match existing {
            Some(data) => {
                if data.file_size == probe.file_size && data.mtime == probe.mtime {
                    match self.eval_mode {
                        CacheEvalMode::Shallow => {
                            return Lookup::Hit;
                        },
                        CacheEvalMode::Strict => {
                            expected_hash = Some(data.exif.calc_hash());
                        },
                    }
                }
            },
            None => {},
        }
        Lookup::NeedFingerprint(
            PendingEval {
                rel_path: probe.rel_path,
                file_size: probe.file_size,
                mtime: probe.mtime,
                expected_hash,
            },
        )
    }

    /// Makes a reserved update durable-ready: the store key it is written
    /// under, on this cache's volume, and the record to write there.
    pub fn commit(&self, handle: TxnHandle) -> (r: (String, CacheRecord))
        ensures
            r.0@ == key_of(self@.volume_id, handle@.rel_path),
            r.1@ == handle@.record,
    {
        let key = build_key(self.volume_id.as_str(), handle.rel_path.as_str());
        (key, handle.record)
    }
}

/// The record a store holds under `key`, if any.
pub open spec fn stored(store: Map<Seq<char>, RecordView>, key: Seq<char>) -> Option<RecordView> {
    if store.dom().contains(key) {
        Some(store[key])
    } else {
        None
    }
}

/// The store after the entry of a committed handle has been written.
pub open spec fn after_commit(
    store: Map<Seq<char>, RecordView>,
    volume_id: Seq<char>,
    handle: HandleView,
) -> Map<Seq<char>, RecordView> {
    store.insert(key_of(volume_id, handle.rel_path), handle.record)
}

/// Round trip: once the record that a miss reserved is committed, evaluating
/// the same path again with size, modification time and fingerprint unchanged
/// is a hit, in either mode.
pub proof fn lemma_round_trip(
    mode: CacheEvalMode,
    store: Map<Seq<char>, RecordView>,
    volume_id: Seq<char>,
    handle: HandleView,
    file_size: u64,
    mtime: Seq<char>,
    fingerprint: SummaryView,
)
    requires
        record_matches(handle.record, file_size, mtime),
        handle.record.exif == fingerprint,
    ensures
        evaluates_to_hit(
            mode,
            stored(after_commit(store, volume_id, handle), key_of(volume_id, handle.rel_path)),
            file_size,
            mtime,
            fingerprint,
        ),
{
}

/// With size and modification time unchanged but a fingerprint whose hash
/// differs from the stored one, Shallow mode still reports a hit and Strict
/// mode does not.
pub proof fn lemma_shallow_insensitive(
    existing: RecordView,
    file_size: u64,
    mtime: Seq<char>,
    fingerprint: SummaryView,
)
    requires
        record_matches(existing, file_size, mtime),
        summary_hash(fingerprint) != summary_hash(existing.exif),
    ensures
        evaluates_to_hit(CacheEvalMode::Shallow, Some(existing), file_size, mtime, fingerprint),
        !evaluates_to_hit(CacheEvalMode::Strict, Some(existing), file_size, mtime, fingerprint),
{
}

/// A stale record whose size and modification time were made to match is
/// caught in Strict mode: the stored record alone does not decide, and the
/// fresh fingerprint, whose hash differs, does not confirm a hit, so the
/// evaluation ends in a miss that reserves the fresh fingerprint.
pub proof fn lemma_strict_detects_forged_metadata(
    existing: RecordView,
    file_size: u64,
    mtime: Seq<char>,
    fingerprint: SummaryView,
)
    requires
        record_matches(existing, file_size, mtime),
        summary_hash(fingerprint) != summary_hash(existing.exif),
    ensures
        !hit_on_lookup(CacheEvalMode::Strict, Some(existing), file_size, mtime),
        !hit_on_fingerprint(
            hash_to_confirm(CacheEvalMode::Strict, Some(existing), file_size, mtime),
            fingerprint,
        ),
{
}

/// Keys of one path on two different volumes differ, so a record committed
/// under one volume id never answers a lookup under another.
pub proof fn lemma_key_isolation(
    store: Map<Seq<char>, RecordView>,
    v1: Seq<char>,
    v2: Seq<char>,
    rel_path: Seq<char>,
    record: RecordView,
)
    requires
        v1 != v2,
    ensures
        key_of(v1, rel_path) != key_of(v2, rel_path),
        stored(store.insert(key_of(v1, rel_path), record), key_of(v2, rel_path)) == stored(
            store,
            key_of(v2, rel_path),
        ),
{
    if key_of(v1, rel_path) == key_of(v2, rel_path) {
        assert(key_of(v1, rel_path).len() == v1.len() + 1 + rel_path.len());
        assert(key_of(v2, rel_path).len() == v2.len() + 1 + rel_path.len());
        assert(key_of(v1, rel_path).subrange(0, v1.len() as int) =~= v1);
        assert(key_of(v2, rel_path).subrange(0, v2.len() as int) =~= v2);
    }
}

/// Committing the same handle twice leaves the store as committing it once,
/// and a later evaluation with unchanged size, modification time and
/// fingerprint is still a hit.
pub proof fn lemma_commit_idempotent(
    mode: CacheEvalMode,
    store: Map<Seq<char>, RecordView>,
    volume_id: Seq<char>,
    handle: HandleView,
    file_size: u64,
    mtime: Seq<char>,
    fingerprint: SummaryView,
)
    requires
        record_matches(handle.record, file_size, mtime),
        handle.record.exif == fingerprint,
    ensures
        after_commit(after_commit(store, volume_id, handle), volume_id, handle) == after_commit(
            store,
            volume_id,
            handle,
        ),
        evaluates_to_hit(
            mode,
            stored(
                after_commit(after_commit(store, volume_id, handle), volume_id, handle),
                key_of(volume_id, handle.rel_path),
            ),
            file_size,
            mtime,
            fingerprint,
        ),
{
    assert(after_commit(after_commit(store, volume_id, handle), volume_id, handle) =~= after_commit(
        store,
        volume_id,
        handle,
    ));
}

} // verus!
