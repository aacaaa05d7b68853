use vstd::prelude::*;
use vstd::string::StringSliceAdditionalSpecFns;
use std::io::Write;
use crate::config::IndexingConfig;
use crate::control::{step, RunEvent, RunState};
use crate::counters::{bytes_per_second, docs_per_hour, report_due, IngestionCounters};
use crate::errors::{FatalStage, PipelineError};

verus! {

// The index engine, the channel library and the clock are external
// collaborators: their types are declared opaque and every call goes
// through a trusted wrapper whose contract states only what the outside
// source shows.
#[verifier::external_type_specification]
#[verifier::external_body]
pub struct ExIndex(tantivy::Index);

#[verifier::external_type_specification]
#[verifier::external_body]
pub struct ExSchema(tantivy::schema::Schema);

#[verifier::external_type_specification]
#[verifier::external_body]
pub struct ExTantivyDocument(tantivy::TantivyDocument);

#[verifier::external_type_specification]
#[verifier::external_body]
pub struct ExTantivyError(tantivy::TantivyError);

#[verifier::external_type_specification]
#[verifier::external_body]
pub struct ExSegmentId(tantivy::SegmentId);

/// The one mutable handle to the index engine's writer.
///
/// The engine's writer type is generic over its document trait, and a
/// trait of an outside crate cannot be declared here, so the concrete
/// writer is held opaquely inside this struct; every operation on it goes
/// through a trusted wrapper below.
#[verifier::external_body]
pub struct WriterHandle {
    inner: tantivy::IndexWriter<tantivy::TantivyDocument>,
}

#[verifier::external_type_specification]
#[verifier::external_body]
#[verifier::reject_recursive_types(T)]
pub struct ExSender<T>(crossbeam_channel::Sender<T>);

#[verifier::external_type_specification]
#[verifier::external_body]
#[verifier::reject_recursive_types(T)]
pub struct ExReceiver<T>(crossbeam_channel::Receiver<T>);

#[verifier::external_type_specification]
#[verifier::external_body]
pub struct ExInstant(std::time::Instant);

/// Relies on tantivy's Index::open_in_dir: opens the index that lives in
/// the given directory, or returns the engine's error.
#[verifier::external_body]
fn open_index(path: &str) -> (r: Result<tantivy::Index, tantivy::TantivyError>) {
    tantivy::Index::open_in_dir(path)
}

/// Relies on tantivy's Index::writer_with_num_threads: acquires the one
/// writer handle, with `threads` indexing threads sharing `budget` bytes
/// of memory. The budget is divided by the thread count, so a zero thread
/// count is excluded here; a budget out of the engine's accepted range
/// comes back as an error, not a panic.
#[verifier::external_body]
fn create_writer(index: &tantivy::Index, threads: usize, budget: usize) -> (r: Result<
    WriterHandle,
    tantivy::TantivyError,
>)
    requires
        threads >= 1,
{
    match index.writer_with_num_threads(threads, budget) {
        Ok(inner) => Ok(WriterHandle { inner }),
        Err(e) => Err(e),
    }
}

/// Relies on tantivy's IndexWriter::set_merge_policy with the engine's
/// NoMergePolicy: turns background segment consolidation off for this
/// writer.
#[verifier::external_body]
fn disable_background_merge(writer: &WriterHandle) {
    writer.inner.set_merge_policy(Box::new(tantivy::merge_policy::NoMergePolicy));
}

/// Whether the engine's schema-driven parse accepts the given line: the
/// parse is a function of the schema and the line's bytes alone, so its
/// acceptance bears a name rather than a page of JSON semantics.
pub uninterp spec fn parse_ok_of(schema: tantivy::schema::Schema, line: Seq<u8>) -> bool;

/// The document the engine's schema-driven parse builds from an accepted
/// line; a function of the schema and the line's bytes alone.
pub uninterp spec fn parse_doc_of(schema: tantivy::schema::Schema, line: Seq<u8>) -> tantivy::TantivyDocument;

/// Relies on tantivy's TantivyDocument::parse_json: decodes one line as a
/// JSON record against the schema — deterministically in the schema and
/// the line, hence the two names above; a malformed record comes back as
/// the engine's error text.
#[verifier::external_body]
fn parse_json_document(schema: &tantivy::schema::Schema, line: &str) -> (r: Result<
    tantivy::TantivyDocument,
    String,
>)
    ensures
        r is Ok <==> parse_ok_of(*schema, line.spec_bytes()),
        r matches Ok(d) ==> d == parse_doc_of(*schema, line.spec_bytes()),
{
    match tantivy::TantivyDocument::parse_json(schema, line) {
        Ok(doc) => Ok(doc),
        Err(e) => Err(format!("{:?}", e)),
    }
}

/// Relies on tantivy's IndexWriter::add_document: submits one document to
/// the engine's indexing queue (blocking while that queue is full) and
/// returns its operation stamp, or the engine's unrecoverable fault.
#[verifier::external_body]
fn add_document(writer: &WriterHandle, doc: tantivy::TantivyDocument) -> (r: Result<
    u64,
    tantivy::TantivyError,
>) {
    writer.inner.add_document(doc)
}

/// Relies on tantivy's IndexWriter::commit: makes everything added since
/// the previous commit durable and returns the new commit stamp, or fails
/// leaving nothing newly committed.
#[verifier::external_body]
fn commit_writer(writer: &mut WriterHandle) -> (r: Result<u64, tantivy::TantivyError>) {
    writer.inner.commit()
}

/// Relies on tantivy's IndexWriter::rollback: discards every document
/// added since the last successful commit and restores the writer to that
/// commit point.
#[verifier::external_body]
fn rollback_writer(writer: &mut WriterHandle) -> (r: Result<u64, tantivy::TantivyError>) {
    writer.inner.rollback()
}

/// Relies on tantivy's IndexWriter::wait_merging_threads: consumes the
/// writer and blocks until the background work this write session started
/// has finished.
#[verifier::external_body]
fn wait_for_background_work(writer: WriterHandle) -> (r: Result<(), tantivy::TantivyError>) {
    writer.inner.wait_merging_threads()
}

/// Relies on tantivy's Index::searchable_segment_ids: lists the segments a
/// consolidation would fold together.
#[verifier::external_body]
fn searchable_segment_ids(index: &tantivy::Index) -> (r: Result<
    Vec<tantivy::SegmentId>,
    tantivy::TantivyError,
>) {
    index.searchable_segment_ids()
}

/// Relies on tantivy's IndexWriter::merge: folds the given segments into
/// one and waits for that to finish. The engine asserts a non-empty
/// segment list, so an empty one is excluded here.
#[verifier::external_body]
fn merge_segments(writer: &mut WriterHandle, segments: &Vec<tantivy::SegmentId>) -> (r: Result<
    (),
    tantivy::TantivyError,
>)
    requires
        segments@.len() >= 1,
{
    writer.inner.merge(segments).wait().map(|_meta| ())
}

/// Relies on tantivy's IndexWriter::garbage_collect_files: removes files
/// no surviving segment uses, waiting for completion.
#[verifier::external_body]
fn collect_garbage(writer: &WriterHandle) -> (r: Result<(), tantivy::TantivyError>) {
    writer.inner.garbage_collect_files().wait().map(|_gc| ())
}

/// Relies on Debug formatting of tantivy's error type: renders the
/// engine's error for the run's failure summary.
#[verifier::external_body]
fn error_text(e: &tantivy::TantivyError) -> (r: String) {
    format!("{:?}", e)
}

/// Relies on crossbeam-channel's Receiver::recv: blocks until a message
/// arrives (each message goes to exactly one receiving worker) and returns
/// it, or returns nothing once the channel is closed and drained.
#[verifier::external_body]
fn recv_from<T>(rx: &crossbeam_channel::Receiver<T>) -> (r: Option<T>) {
    rx.recv().ok()
}

/// Relies on crossbeam-channel's Sender::send: blocks while the bounded
/// queue is full (the backpressure contract), delivers the message, and
/// reports false only when every receiver is gone.
#[verifier::external_body]
fn send_to<T>(tx: &crossbeam_channel::Sender<T>, item: T) -> (r: bool) {
    tx.send(item).is_ok()
}

/// Relies on std's Instant::now: a monotonic clock reading.
#[verifier::external_body]
fn now_instant() -> (r: std::time::Instant) {
    std::time::Instant::now()
}

/// Relies on std's Instant::duration_since: the microseconds from
/// `earlier` to `later`, zero if `later` is not the later one.
#[verifier::external_body]
fn micros_between(earlier: &std::time::Instant, later: &std::time::Instant) -> (r: u128) {
    later.duration_since(*earlier).as_micros()
}

/// Relies on std's stdout: prints one throughput observation. Output only;
/// nothing is decided here.
#[verifier::external_body]
fn emit_progress(docs_total: u64, docs_hour: u64, bytes_sec: u64) {
    let _ = writeln!(
        std::io::stdout(),
        "{} docs so far; {} docs / hour; {} bytes / s",
        docs_total,
        docs_hour,
        bytes_sec,
    );
}

/// Relies on std's stdout: reports one dropped malformed record. Output
/// only; nothing is decided here.
#[verifier::external_body]
fn emit_parse_error(detail: &str) {
    let _ = writeln!(std::io::stdout(), "failed to parse document: {}", detail);
}

/// What the line source hands the parser workers: one raw line, or word
/// that the input stream failed and the run must not commit.
pub enum SourceItem {
    Line(String),
    /// The input stream could not be read; the run is fatally wounded.
    Failed(String),
}

/// What the parser workers hand the writer commit manager: one parsed
/// document with its raw byte length, or the forwarded word of an input
/// failure.
pub enum DocMessage {
    Doc(tantivy::TantivyDocument, usize),
    /// Forwarded from the line source: the input stream failed, so the
    /// commit manager must fail the run instead of committing a prefix.
    SourceFailed(String),
}

/// One parser-worker unit of work: decode a raw line against the shared
/// read-only schema. A well-formed line becomes a document paired with its
/// original byte length — the size estimate the throughput accounting
/// uses. A malformed line is reported and dropped; it never stops the
/// worker or the pipeline.
pub fn parse_line(schema: &tantivy::schema::Schema, line: &str) -> (r: Option<
    (tantivy::TantivyDocument, usize),
>)
    ensures
        r is Some <==> parse_ok_of(*schema, line.spec_bytes()),
        r matches Some(item) ==> item.0 == parse_doc_of(*schema, line.spec_bytes()) && item.1
            == line.spec_bytes().len() as usize,
{
    let size = line.len();
    match parse_json_document(schema, line) {
        Ok(doc) => Some((doc, size)),
        Err(detail) => {
            emit_parse_error(detail.as_str());
            None
        },
    }
}

/// A parser worker's receive loop: take lines from the distributor — each
/// line is delivered to exactly one worker — parse each against the shared
/// schema, and push every document onto the shared document queue. Word of
/// an input-stream failure is forwarded to the commit manager, which must
/// then fail the run. The loop ends when the line queue is closed and
/// drained, or when the document queue has lost its consumer.
pub fn worker_loop(
    schema: &tantivy::schema::Schema,
    lines: &crossbeam_channel::Receiver<SourceItem>,
    docs: &crossbeam_channel::Sender<DocMessage>,
) {
    // The loop's real exit is the closed, drained line queue; the explicit
    // budget of u64::MAX lines — beyond any physical input — gives the
    // termination discipline a measure.
    let mut budget: u64 = u64::MAX;
    loop
        decreases budget,
    {
        if budget == 0 {
            return ;
        }
        budget = budget - 1;
        match recv_from(lines) {
            Some(SourceItem::Line(line)) => {
                match parse_line(schema, line.as_str()) {
                    Some((doc, size)) => {
                        if !send_to(docs, DocMessage::Doc(doc, size)) {
                            return ;
                        }
                    },
                    None => {},
                }
            },
            Some(SourceItem::Failed(detail)) => {
                if !send_to(docs, DocMessage::SourceFailed(detail)) {
                    return ;
                }
            },
            None => {
                return ;
            },
        }
    }
}

/// The totals of one committed ingest loop.
pub struct IngestStats {
    /// The engine's commit stamp for this run's single commit.
    pub docstamp: u64,
    /// Documents submitted and committed.
    pub docs_total: u64,
    /// Bytes of raw input behind those documents.
    pub bytes_total: u64,
}

/// The ingest loop of the writer commit manager, the single consumer of
/// the document queue: submit every parsed document to the index writer,
/// account each success, emit a throughput observation at most once and at
/// least once per reporting interval while documents flow, and after the
/// queue closes issue the run's one commit.
///
/// A submission failure, a commit failure, or word of an input-stream
/// failure is fatal: the loop stops at once without committing and hands
/// the staged error back to the caller, who rolls back.
pub fn index_documents(
    writer: &mut WriterHandle,
    docs: &crossbeam_channel::Receiver<DocMessage>,
) -> (r: Result<IngestStats, PipelineError>)
    ensures
        r matches Err(e) ==> e.stage == FatalStage::Input || e.stage == FatalStage::Submit
            || e.stage == FatalStage::Commit,
{
    let mut counters = IngestionCounters::new();
    let mut last_report = now_instant();
    // The loop's real exit is the closed, drained document queue; the
    // explicit budget of u64::MAX submissions — beyond any physical input —
    // gives the termination discipline a measure.
    let mut budget: u64 = u64::MAX;
    loop
        decreases budget,
    {
        if budget == 0 {
            break ;
        }
        budget = budget - 1;
        match recv_from(docs) {
            Some(DocMessage::Doc(doc, size)) => {
                match add_document(writer, doc) {
                    Ok(_opstamp) => {
                        counters.record(size as u64);
                        let now = now_instant();
                        let elapsed = micros_between(&last_report, &now);
                        if report_due(elapsed) {
                            let rate_docs = docs_per_hour(counters.docs_interval, elapsed);
                            let rate_bytes = bytes_per_second(counters.bytes_interval, elapsed);
                            emit_progress(counters.docs_total, rate_docs, rate_bytes);
                            counters.reset_interval();
                            last_report = now;
                        }
                    },
                    Err(e) => {
                        return Err(PipelineError::new(FatalStage::Submit, error_text(&e)));
                    },
                }
            },
            Some(DocMessage::SourceFailed(detail)) => {
                return Err(PipelineError::new(FatalStage::Input, detail));
            },
            None => {
                break ;
            },
        }
    }
    match commit_writer(writer) {
        Ok(stamp) => Ok(
            IngestStats {
                docstamp: stamp,
                docs_total: counters.docs_total,
                bytes_total: counters.bytes_total,
            },
        ),
        Err(e) => Err(PipelineError::new(FatalStage::Commit, error_text(&e))),
    }
}

/// Heap budget for the consolidation writer, in bytes.
pub const MERGE_HEAP_SIZE: usize = 300_000_000;

/// Heap budget for the garbage-collection writer, in bytes.
pub const GC_HEAP_SIZE: usize = 40_000_000;

fn merge_error(e: &tantivy::TantivyError) -> (r: PipelineError)
    ensures
        r.stage == FatalStage::Merge,
{
    PipelineError::new(FatalStage::Merge, error_text(e))
}

/// Acquire the run's single writer handle, sized by the configuration's
/// thread and memory budgets. A refusal by the engine — a held lock,
/// a budget out of range — is an engine-side fault.
pub fn acquire_writer(index: &tantivy::Index, cfg: &IndexingConfig) -> (r: Result<
    WriterHandle,
    PipelineError,
>)
    requires
        cfg.wf(),
    ensures
        r matches Err(e) ==> e.stage == FatalStage::Submit,
{
    match create_writer(index, cfg.num_threads, cfg.memory_budget) {
        Ok(w) => Ok(w),
        Err(e) => Err(PipelineError::new(FatalStage::Submit, error_text(&e))),
    }
}

/// Fold all searchable segments of an already-committed index into the
/// smallest number the engine allows, wait for that to finish, then drop
/// the files no surviving segment uses. Invoked only after a successful
/// commit; a failure here is its own error and does not undo that commit.
pub fn run_merge(index_path: &str) -> (r: Result<(), PipelineError>)
    ensures
        r matches Err(e) ==> e.stage == FatalStage::Merge,
{
    let index = match open_index(index_path) {
        Ok(i) => i,
        Err(e) => {
            return Err(merge_error(&e));
        },
    };
    let segments = match searchable_segment_ids(&index) {
        Ok(s) => s,
        Err(e) => {
            return Err(merge_error(&e));
        },
    };
    if segments.len() == 0 {
        // Nothing to fold: the engine refuses an empty merge, and an index
        // without segments is already as consolidated as it can be.
        return Ok(());
    }
    {
        let mut writer = match create_writer(&index, 1, MERGE_HEAP_SIZE) {
            Ok(w) => w,
            Err(e) => {
                return Err(merge_error(&e));
            },
        };
        match merge_segments(&mut writer, &segments) {
            Ok(()) => {},
            Err(e) => {
                return Err(merge_error(&e));
            },
        }
    }
    let reopened = match open_index(index_path) {
        Ok(i) => i,
        Err(e) => {
            return Err(merge_error(&e));
        },
    };
    let gc_writer = match create_writer(&reopened, 1, GC_HEAP_SIZE) {
        Ok(w) => w,
        Err(e) => {
            return Err(merge_error(&e));
        },
    };
    match collect_garbage(&gc_writer) {
        Ok(()) => Ok(()),
        Err(e) => Err(merge_error(&e)),
    }
}

/// Everything a successful run reports.
pub struct RunOutcome {
    pub stats: IngestStats,
    /// Whether the operator's forced consolidation ran; it runs only after
    /// a successful commit.
    pub merged: bool,
}

/// One whole run of the writer commit manager, the exclusive owner of the
/// writer handle: acquire the writer, optionally switch the engine's
/// background consolidation off, drain the document queue and commit
/// through `index_documents`, wait for the engine's in-flight background
/// work, and consolidate on explicit request.
///
/// On a fatal input, ingest or commit error the manager rolls the run
/// back before reporting it, so the index never keeps a partial run; a
/// rollback failure is unrecoverable and is reported as its own stage.
/// The body walks the run state machine alongside the calls; every path
/// ends in `Done` (the commit stands, even where consolidation work after
/// it failed) or in `Aborted` behind a rollback.
pub fn run_commit_manager(
    index: &tantivy::Index,
    index_path: &str,
    cfg: &IndexingConfig,
    docs: &crossbeam_channel::Receiver<DocMessage>,
) -> (r: Result<RunOutcome, PipelineError>)
    requires
        cfg.wf(),
    ensures
        r matches Ok(o) ==> o.merged == cfg.force_merge,
        r matches Err(e) ==> e.stage == FatalStage::Input || e.stage == FatalStage::Submit
            || e.stage == FatalStage::Commit || e.stage == FatalStage::Rollback || e.stage
            == FatalStage::Merge,
{
    let mut state = step(RunState::Idle, RunEvent::Start, cfg.force_merge);
    proof {
        assert(state == RunState::Ingesting);
    }
    let mut writer = match acquire_writer(index, cfg) {
        Ok(w) => w,
        Err(e) => {
            return Err(e);
        },
    };
    if cfg.no_merge {
        disable_background_merge(&writer);
    }
    match index_documents(&mut writer, docs) {
        Ok(stats) => {
            state = step(state, RunEvent::QueueDrained, cfg.force_merge);
            state = step(state, RunEvent::CommitSucceeded, cfg.force_merge);
            match wait_for_background_work(writer) {
                Ok(()) => {},
                Err(e) => {
                    if cfg.force_merge {
                        state = step(state, RunEvent::MergeFinished, cfg.force_merge);
                    }
                    proof {
                        assert(state == RunState::Done);
                    }
                    return Err(merge_error(&e));
                },
            }
            if cfg.force_merge {
                proof {
                    assert(state == RunState::Merging);
                }
                let merge_outcome = run_merge(index_path);
                state = step(state, RunEvent::MergeFinished, cfg.force_merge);
                match merge_outcome {
                    Ok(()) => {},
                    Err(e) => {
                        proof {
                            assert(state == RunState::Done);
                        }
                        return Err(e);
                    },
                }
            }
            proof {
                assert(state == RunState::Done);
            }
            Ok(RunOutcome { stats, merged: cfg.force_merge })
        },
        Err(e) => {
            if e.stage == FatalStage::Commit {
                state = step(state, RunEvent::QueueDrained, cfg.force_merge);
                state = step(state, RunEvent::CommitFailed, cfg.force_merge);
            } else if e.stage == FatalStage::Input {
                state = step(state, RunEvent::InputFailed, cfg.force_merge);
            } else {
                state = step(state, RunEvent::SubmitFailed, cfg.force_merge);
            }
            proof {
                assert(state == RunState::Failed);
            }
            state = step(state, RunEvent::RollbackStarted, cfg.force_merge);
            let rolled = rollback_writer(&mut writer);
            state = step(state, RunEvent::RollbackFinished, cfg.force_merge);
            proof {
                assert(state == RunState::Aborted);
            }
            match rolled {
                Ok(_stamp) => Err(e),
                Err(re) => Err(PipelineError::new(FatalStage::Rollback, error_text(&re))),
            }
        },
    }
}

} // verus!
