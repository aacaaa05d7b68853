use vstd::prelude::*;
use vstd::multiset::Multiset;

verus! {

/// What the schema-driven parse makes of one input line: a document of a
/// known byte size, or a malformed record that is dropped with a logged
/// error.
#[derive(Clone, Copy, Debug, PartialEq, Eq, Structural)]
pub enum LineFate {
    Good { size: u64 },
    Bad,
}

/// The phase of a modelled run. `Ingesting` covers everything up to the
/// single commit; the other three are the possible ends of the ingest loop.
#[derive(Clone, Copy, Debug, PartialEq, Eq, Structural)]
pub enum ModelPhase {
    Ingesting,
    Failed,
    Committed,
    RolledBack,
}

/// One enabled move of the pipeline: which stage acts next. Any
/// interleaving of these moves is a legal schedule; the laws below hold for
/// all of them.
#[derive(Clone, Copy, Debug, PartialEq, Eq, Structural)]
pub enum ModelStep {
    /// The line source emits the next input line into the line queue.
    EmitLine,
    /// The line source reaches end of input and closes the line queue.
    CloseSource,
    /// An idle parser worker takes the oldest queued line.
    TakeLine,
    /// The worker holding the given slot finishes parsing its line: a good
    /// line moves to the document queue, a bad one is dropped and logged.
    FinishParse(usize),
    /// The last worker exits behind a closed, drained line queue and closes
    /// the document queue.
    CloseDocs,
    /// The writer commit manager takes the oldest queued document and
    /// submits it to the index engine.
    SubmitDoc,
    /// The writer commit manager issues the one commit of the run.
    Commit,
    /// The writer commit manager rolls the failed run back.
    Rollback,
}

/// A small-step model of the whole ingestion pipeline: the two bounded
/// queues, the parser workers' in-hand lines, and the index engine's
/// uncommitted and committed documents. Input lines are identified by their
/// index into `input`, so which worker parsed a line and in which order the
/// documents reached the engine stay visible as mere permutations.
pub struct PipelineModel {
    // Fixed for the run.
    /// The parse fate of each input line, in input order.
    pub input: Vec<LineFate>,
    /// Capacity of the line queue (first backpressure point).
    pub cap_lines: usize,
    /// Capacity of the document queue (second backpressure point).
    pub cap_docs: usize,
    /// Size of the parser worker pool.
    pub workers: usize,
    /// Documents already committed in the index before the run.
    pub base_docs: u64,
    /// Injected engine fault: the submission made when this many documents
    /// are already pending is rejected.
    pub fail_on_add: Option<usize>,
    /// Injected engine fault: the commit itself fails.
    pub fail_on_commit: bool,
    // The run's state.
    /// How many input lines the source has emitted so far.
    pub next_line: usize,
    /// Line indices waiting in the line queue, oldest first.
    pub line_q: Vec<usize>,
    /// Line indices currently in some worker's hands.
    pub parsing: Vec<usize>,
    /// Line indices parsed into documents, waiting in the document queue.
    pub doc_q: Vec<usize>,
    /// Line indices of malformed records, dropped with a logged error.
    pub dropped: Vec<usize>,
    /// Line indices submitted to the engine but not yet committed.
    pub added: Vec<usize>,
    /// Line indices made durable by the run's commit.
    pub committed: Vec<usize>,
    pub source_closed: bool,
    pub docs_closed: bool,
    pub phase: ModelPhase,
}

/// How many of the first `n` input lines parse successfully.
pub open spec fn good_count(input: Seq<LineFate>, n: int) -> int
    decreases n,
{
    if n <= 0 {
        0
    } else {
        good_count(input, n - 1) + if input[n - 1] is Good {
            1int
        } else {
            0int
        }
    }
}

/// The multiset holding each line index below `n` exactly once.
pub open spec fn all_indices(n: int) -> Multiset<usize>
    decreases n,
{
    if n <= 0 {
        Multiset::empty()
    } else {
        all_indices(n - 1).insert((n - 1) as usize)
    }
}

/// The multiset of indices of well-formed lines below `n`.
pub open spec fn good_indices(input: Seq<LineFate>, n: int) -> Multiset<usize>
    decreases n,
{
    if n <= 0 {
        Multiset::empty()
    } else if input[n - 1] is Good {
        good_indices(input, n - 1).insert((n - 1) as usize)
    } else {
        good_indices(input, n - 1)
    }
}

/// The multiset of indices of malformed lines below `n`.
pub open spec fn bad_indices(input: Seq<LineFate>, n: int) -> Multiset<usize>
    decreases n,
{
    if n <= 0 {
        Multiset::empty()
    } else if input[n - 1] is Good {
        bad_indices(input, n - 1)
    } else {
        bad_indices(input, n - 1).insert((n - 1) as usize)
    }
}

pub proof fn lemma_all_indices_count(n: int, v: usize)
    requires
        n <= usize::MAX,
    ensures
        all_indices(n).count(v) == if (v as int) < n {
            1nat
        } else {
            0nat
        },
    decreases n,
{
    broadcast use vstd::multiset::group_multiset_axioms;

    if n > 0 {
        lemma_all_indices_count(n - 1, v);
    }
}

pub proof fn lemma_good_indices_count(input: Seq<LineFate>, n: int, v: usize)
    requires
        n <= input.len(),
        n <= usize::MAX,
    ensures
        good_indices(input, n).count(v) == if (v as int) < n && input[v as int] is Good {
            1nat
        } else {
            0nat
        },
    decreases n,
{
    broadcast use vstd::multiset::group_multiset_axioms;

    if n > 0 {
        lemma_good_indices_count(input, n - 1, v);
    }
}

pub proof fn lemma_bad_indices_count(input: Seq<LineFate>, n: int, v: usize)
    requires
        n <= input.len(),
        n <= usize::MAX,
    ensures
        bad_indices(input, n).count(v) == if (v as int) < n && !(input[v as int] is Good) {
            1nat
        } else {
            0nat
        },
    decreases n,
{
    broadcast use vstd::multiset::group_multiset_axioms;

    if n > 0 {
        lemma_bad_indices_count(input, n - 1, v);
    }
}

pub proof fn lemma_good_indices_len(input: Seq<LineFate>, n: int)
    ensures
        good_indices(input, n).len() == if n >= 0 {
            good_count(input, n)
        } else {
            0
        },
    decreases n,
{
    broadcast use vstd::multiset::group_multiset_axioms;

    if n > 0 {
        lemma_good_indices_len(input, n - 1);
    }
}

pub proof fn lemma_bad_indices_len(input: Seq<LineFate>, n: int)
    ensures
        bad_indices(input, n).len() == if n >= 0 {
            n - good_count(input, n)
        } else {
            0
        },
    decreases n,
{
    broadcast use vstd::multiset::group_multiset_axioms;

    if n > 0 {
        lemma_bad_indices_len(input, n - 1);
    }
}

/// Every line the source has emitted is in exactly one place: a queue, a
/// worker's hands, the dropped log, or the engine.
pub open spec fn in_flight(m: PipelineModel) -> Multiset<usize> {
    m.line_q@.to_multiset().add(m.parsing@.to_multiset()).add(m.doc_q@.to_multiset()).add(
        m.dropped@.to_multiset(),
    ).add(m.added@.to_multiset())
}

impl PipelineModel {
    /// The backpressure bounds: neither queue ever holds more than its
    /// capacity, and at most one line per worker is in a worker's hands.
    pub open spec fn caps_ok(self) -> bool {
        &&& self.line_q@.len() <= self.cap_lines
        &&& self.doc_q@.len() <= self.cap_docs
        &&& self.parsing@.len() <= self.workers
    }

    /// Which indices each region may hold: only emitted lines are anywhere,
    /// documents and engine entries come from well-formed lines, dropped
    /// entries from malformed ones.
    pub open spec fn regions_typed(self) -> bool {
        &&& forall|k: int|
            0 <= k < self.line_q@.len() ==> (#[trigger] self.line_q@[k]) < self.next_line
        &&& forall|k: int|
            0 <= k < self.parsing@.len() ==> (#[trigger] self.parsing@[k]) < self.next_line
        &&& forall|k: int|
            0 <= k < self.doc_q@.len() ==> (#[trigger] self.doc_q@[k]) < self.next_line
                && self.input@[self.doc_q@[k] as int] is Good
        &&& forall|k: int|
            0 <= k < self.dropped@.len() ==> (#[trigger] self.dropped@[k]) < self.next_line && !(
            self.input@[self.dropped@[k] as int] is Good)
        &&& forall|k: int|
            0 <= k < self.added@.len() ==> (#[trigger] self.added@[k]) < self.next_line
                && self.input@[self.added@[k] as int] is Good
        &&& forall|k: int|
            0 <= k < self.committed@.len() ==> (#[trigger] self.committed@[k]) < self.next_line
                && self.input@[self.committed@[k] as int] is Good
    }

    /// While the run is still ingesting, the emitted lines are partitioned
    /// over the pipeline's regions.
    pub open spec fn partition(self) -> bool {
        in_flight(self) == all_indices(self.next_line as int)
    }

    /// The invariant of the model: established by `init`, preserved by
    /// every `step`, and strong enough for all the laws below.
    pub open spec fn wf(self) -> bool {
        &&& self.caps_ok()
        &&& self.next_line <= self.input@.len()
        &&& self.source_closed ==> self.next_line == self.input@.len()
        &&& self.docs_closed ==> self.source_closed && self.line_q@.len() == 0
            && self.parsing@.len() == 0
        &&& self.regions_typed()
        &&& match self.phase {
            ModelPhase::Ingesting => self.committed@.len() == 0 && self.partition(),
            ModelPhase::Failed => self.committed@.len() == 0,
            ModelPhase::RolledBack => self.committed@.len() == 0 && self.added@.len() == 0,
            ModelPhase::Committed => {
                &&& self.docs_closed
                &&& self.doc_q@.len() == 0
                &&& self.added@.len() == 0
                &&& self.committed@.to_multiset() == good_indices(
                    self.input@,
                    self.input@.len() as int,
                )
                &&& self.dropped@.to_multiset() == bad_indices(
                    self.input@,
                    self.input@.len() as int,
                )
            },
        }
    }

    /// How many documents the index reports as committed: what was there
    /// before the run plus what the run's commit made durable.
    pub open spec fn engine_committed(self) -> int {
        self.base_docs + self.committed@.len()
    }

    /// A fresh run over the given input, against an index that already
    /// holds `base_docs` documents.
    pub fn init(
        input: Vec<LineFate>,
        cap_lines: usize,
        cap_docs: usize,
        workers: usize,
        base_docs: u64,
        fail_on_add: Option<usize>,
        fail_on_commit: bool,
    ) -> (m: Self)
        requires
            cap_lines >= 1,
            cap_docs >= 1,
            workers >= 1,
        ensures
            m.wf(),
            m.input@ == input@,
            m.cap_lines == cap_lines,
            m.cap_docs == cap_docs,
            m.workers == workers,
            m.base_docs == base_docs,
            m.fail_on_add == fail_on_add,
            m.fail_on_commit == fail_on_commit,
            m.phase == ModelPhase::Ingesting,
            m.next_line == 0,
            m.line_q@.len() == 0,
            m.parsing@.len() == 0,
            m.doc_q@.len() == 0,
            m.dropped@.len() == 0,
            m.added@.len() == 0,
            m.committed@.len() == 0,
            !m.source_closed,
            !m.docs_closed,
    {
        let m = PipelineModel {
            input,
            cap_lines,
            cap_docs,
            workers,
            base_docs,
            fail_on_add,
            fail_on_commit,
            next_line: 0,
            line_q: Vec::new(),
            parsing: Vec::new(),
            doc_q: Vec::new(),
            dropped: Vec::new(),
            added: Vec::new(),
            committed: Vec::new(),
            source_closed: false,
            docs_closed: false,
            phase: ModelPhase::Ingesting,
        };
        proof {
            broadcast use vstd::multiset::group_multiset_axioms;
            broadcast use vstd::seq_lib::group_to_multiset_ensures;

            assert(m.line_q@.to_multiset() =~= Multiset::empty());
            assert(m.parsing@.to_multiset() =~= Multiset::empty());
            assert(m.doc_q@.to_multiset() =~= Multiset::empty());
            assert(m.dropped@.to_multiset() =~= Multiset::empty());
            assert(m.added@.to_multiset() =~= Multiset::empty());
            assert(in_flight(m) =~= all_indices(0));
        }
        m
    }
}

/// The run-independent parameters never change across a step.
pub open spec fn same_config(pre: PipelineModel, post: PipelineModel) -> bool {
    &&& post.input@ == pre.input@
    &&& post.cap_lines == pre.cap_lines
    &&& post.cap_docs == pre.cap_docs
    &&& post.workers == pre.workers
    &&& post.base_docs == pre.base_docs
    &&& post.fail_on_add == pre.fail_on_add
    &&& post.fail_on_commit == pre.fail_on_commit
}

/// The mutable part of a model state, as one tuple, so that each transition
/// can be written as a single equation.
pub open spec fn run_state(m: PipelineModel) -> (
    int,
    Seq<usize>,
    Seq<usize>,
    Seq<usize>,
    Seq<usize>,
    Seq<usize>,
    Seq<usize>,
    bool,
    bool,
    ModelPhase,
) {
    (
        m.next_line as int,
        m.line_q@,
        m.parsing@,
        m.doc_q@,
        m.dropped@,
        m.added@,
        m.committed@,
        m.source_closed,
        m.docs_closed,
        m.phase,
    )
}

/// The injected engine fault fires on the submission made while this many
/// documents are pending.
pub open spec fn submit_would_fail(m: PipelineModel) -> bool {
    m.fail_on_add matches Some(k) && k == m.added@.len()
}

/// When a step may be taken, from the acting stage's own point of view:
/// a queue is pushed only below capacity and popped only when nonempty, the
/// queues close strictly downstream, and commit and rollback end the run.
pub open spec fn enabled(m: PipelineModel, c: ModelStep) -> bool {
    match c {
        ModelStep::EmitLine => m.phase == ModelPhase::Ingesting && !m.source_closed
            && m.next_line < m.input@.len() && m.line_q@.len() < m.cap_lines,
        ModelStep::CloseSource => m.phase == ModelPhase::Ingesting && !m.source_closed
            && m.next_line == m.input@.len(),
        ModelStep::TakeLine => m.phase == ModelPhase::Ingesting && m.line_q@.len() > 0
            && m.parsing@.len() < m.workers,
        ModelStep::FinishParse(i) => m.phase == ModelPhase::Ingesting && i < m.parsing@.len() && (
        m.input@[m.parsing@[i as int] as int] is Good ==> m.doc_q@.len() < m.cap_docs),
        ModelStep::CloseDocs => m.phase == ModelPhase::Ingesting && m.source_closed
            && !m.docs_closed && m.line_q@.len() == 0 && m.parsing@.len() == 0,
        ModelStep::SubmitDoc => m.phase == ModelPhase::Ingesting && m.doc_q@.len() > 0,
        ModelStep::Commit => m.phase == ModelPhase::Ingesting && m.docs_closed
            && m.doc_q@.len() == 0,
        ModelStep::Rollback => m.phase == ModelPhase::Failed,
    }
}

/// The transition relation: what one applied step does to the run state.
pub open spec fn step_rel(pre: PipelineModel, post: PipelineModel, c: ModelStep) -> bool {
    &&& same_config(pre, post)
    &&& match c {
        ModelStep::EmitLine => run_state(post) == (
            pre.next_line + 1,
            pre.line_q@.push(pre.next_line),
            pre.parsing@,
            pre.doc_q@,
            pre.dropped@,
            pre.added@,
            pre.committed@,
            pre.source_closed,
            pre.docs_closed,
            pre.phase,
        ),
        ModelStep::CloseSource => run_state(post) == (
            pre.next_line as int,
            pre.line_q@,
            pre.parsing@,
            pre.doc_q@,
            pre.dropped@,
            pre.added@,
            pre.committed@,
            true,
            pre.docs_closed,
            pre.phase,
        ),
        ModelStep::TakeLine => run_state(post) == (
            pre.next_line as int,
            pre.line_q@.remove(0),
            pre.parsing@.push(pre.line_q@[0]),
            pre.doc_q@,
            pre.dropped@,
            pre.added@,
            pre.committed@,
            pre.source_closed,
            pre.docs_closed,
            pre.phase,
        ),
        ModelStep::FinishParse(i) => {
            let j = pre.parsing@[i as int];
            if pre.input@[j as int] is Good {
                run_state(post) == (
                    pre.next_line as int,
                    pre.line_q@,
                    pre.parsing@.remove(i as int),
                    pre.doc_q@.push(j),
                    pre.dropped@,
                    pre.added@,
                    pre.committed@,
                    pre.source_closed,
                    pre.docs_closed,
                    pre.phase,
                )
            } else {
                run_state(post) == (
                    pre.next_line as int,
                    pre.line_q@,
                    pre.parsing@.remove(i as int),
                    pre.doc_q@,
                    pre.dropped@.push(j),
                    pre.added@,
                    pre.committed@,
                    pre.source_closed,
                    pre.docs_closed,
                    pre.phase,
                )
            }
        },
        ModelStep::CloseDocs => run_state(post) == (
            pre.next_line as int,
            pre.line_q@,
            pre.parsing@,
            pre.doc_q@,
            pre.dropped@,
            pre.added@,
            pre.committed@,
            pre.source_closed,
            true,
            pre.phase,
        ),
        ModelStep::SubmitDoc => if submit_would_fail(pre) {
            run_state(post) == (
                pre.next_line as int,
                pre.line_q@,
                pre.parsing@,
                pre.doc_q@,
                pre.dropped@,
                pre.added@,
                pre.committed@,
                pre.source_closed,
                pre.docs_closed,
                ModelPhase::Failed,
            )
        } else {
            run_state(post) == (
                pre.next_line as int,
                pre.line_q@,
                pre.parsing@,
                pre.doc_q@.remove(0),
                pre.dropped@,
                pre.added@.push(pre.doc_q@[0]),
                pre.committed@,
                pre.source_closed,
                pre.docs_closed,
                pre.phase,
            )
        },
        ModelStep::Commit => if pre.fail_on_commit {
            run_state(post) == (
                pre.next_line as int,
                pre.line_q@,
                pre.parsing@,
                pre.doc_q@,
                pre.dropped@,
                pre.added@,
                pre.committed@,
                pre.source_closed,
                pre.docs_closed,
                ModelPhase::Failed,
            )
        } else {
            run_state(post) == (
                pre.next_line as int,
                pre.line_q@,
                pre.parsing@,
                pre.doc_q@,
                pre.dropped@,
                Seq::<usize>::empty(),
                pre.committed@ + pre.added@,
                pre.source_closed,
                pre.docs_closed,
                ModelPhase::Committed,
            )
        },
        ModelStep::Rollback => run_state(post) == (
            pre.next_line as int,
            pre.line_q@,
            pre.parsing@,
            pre.doc_q@,
            pre.dropped@,
            Seq::<usize>::empty(),
            pre.committed@,
            pre.source_closed,
            pre.docs_closed,
            ModelPhase::RolledBack,
        ),
    }
}

impl PipelineModel {
    /// Evaluate a step's guard.
    fn check_enabled(&self, c: ModelStep) -> (r: bool)
        requires
            self.wf(),
        ensures
            r == enabled(*self, c),
    {
        match c {
            ModelStep::EmitLine => self.phase == ModelPhase::Ingesting && !self.source_closed
                && self.next_line < self.input.len() && self.line_q.len() < self.cap_lines,
            ModelStep::CloseSource => self.phase == ModelPhase::Ingesting && !self.source_closed
                && self.next_line == self.input.len(),
            ModelStep::TakeLine => self.phase == ModelPhase::Ingesting && self.line_q.len() > 0
                && self.parsing.len() < self.workers,
            ModelStep::FinishParse(i) => {
                if self.phase != ModelPhase::Ingesting || i >= self.parsing.len() {
                    false
                } else {
                    let j = self.parsing[i];
                    match self.input[j] {
                        LineFate::Good { .. } => self.doc_q.len() < self.cap_docs,
                        LineFate::Bad => true,
                    }
                }
            },
            ModelStep::CloseDocs => self.phase == ModelPhase::Ingesting && self.source_closed
                && !self.docs_closed && self.line_q.len() == 0 && self.parsing.len() == 0,
            ModelStep::SubmitDoc => self.phase == ModelPhase::Ingesting && self.doc_q.len() > 0,
            ModelStep::Commit => self.phase == ModelPhase::Ingesting && self.docs_closed
                && self.doc_q.len() == 0,
            ModelStep::Rollback => self.phase == ModelPhase::Failed,
        }
    }

    fn do_emit_line(&mut self)
        requires
            old(self).wf(),
            enabled(*old(self), ModelStep::EmitLine),
        ensures
            final(self).wf(),
            step_rel(*old(self), *final(self), ModelStep::EmitLine),
    {
        let ghost pre = *self;
        let j = self.next_line;
        let total = self.input.len();
        proof {
            assert(j < total);
        }
        self.line_q.push(j);
        self.next_line = j + 1;
        proof {
            broadcast use vstd::multiset::group_multiset_axioms;
            broadcast use vstd::seq_lib::group_to_multiset_ensures;

            assert(self.line_q@.to_multiset() =~= pre.line_q@.to_multiset().insert(j));
            assert(in_flight(*self) =~= in_flight(pre).insert(j));
            assert(all_indices(self.next_line as int) == all_indices(pre.next_line as int).insert(
                j,
            ));
            assert(self.partition());
        }
    }

    fn do_close_source(&mut self)
        requires
            old(self).wf(),
            enabled(*old(self), ModelStep::CloseSource),
        ensures
            final(self).wf(),
            step_rel(*old(self), *final(self), ModelStep::CloseSource),
    {
        self.source_closed = true;
    }

    fn do_take_line(&mut self)
        requires
            old(self).wf(),
            enabled(*old(self), ModelStep::TakeLine),
        ensures
            final(self).wf(),
            step_rel(*old(self), *final(self), ModelStep::TakeLine),
    {
        let ghost pre = *self;
        let j = self.line_q.remove(0);
        self.parsing.push(j);
        proof {
            broadcast use vstd::multiset::group_multiset_axioms;
            broadcast use vstd::seq_lib::group_to_multiset_ensures;

            assert(pre.line_q@.contains(j)) by {
                assert(pre.line_q@[0] == j);
            }
            assert(self.line_q@.to_multiset() =~= pre.line_q@.to_multiset().remove(j));
            assert(self.parsing@.to_multiset() =~= pre.parsing@.to_multiset().insert(j));
            assert(in_flight(*self) =~= in_flight(pre));
            assert(self.partition());
        }
    }

    fn do_finish_parse(&mut self, i: usize)
        requires
            old(self).wf(),
            enabled(*old(self), ModelStep::FinishParse(i)),
        ensures
            final(self).wf(),
            step_rel(*old(self), *final(self), ModelStep::FinishParse(i)),
    {
        let ghost pre = *self;
        let j = self.parsing[i];
        proof {
            assert(pre.parsing@[i as int] == j);
            assert(j < pre.next_line);
        }
        let j2 = self.parsing.remove(i);
        proof {
            assert(j2 == j);
        }
        let fate = self.input[j];
        match fate {
            LineFate::Good { .. } => {
                self.doc_q.push(j);
            },
            LineFate::Bad => {
                self.dropped.push(j);
            },
        }
        proof {
            broadcast use vstd::multiset::group_multiset_axioms;
            broadcast use vstd::seq_lib::group_to_multiset_ensures;

            assert(pre.parsing@.contains(j)) by {
                assert(pre.parsing@[i as int] == j);
            }
            assert(self.parsing@.to_multiset() =~= pre.parsing@.to_multiset().remove(j));
            if pre.input@[j as int] is Good {
                assert(self.doc_q@.to_multiset() =~= pre.doc_q@.to_multiset().insert(j));
            } else {
                assert(self.dropped@.to_multiset() =~= pre.dropped@.to_multiset().insert(j));
            }
            assert(in_flight(*self) =~= in_flight(pre));
            assert(self.partition());
        }
    }

    fn do_close_docs(&mut self)
        requires
            old(self).wf(),
            enabled(*old(self), ModelStep::CloseDocs),
        ensures
            final(self).wf(),
            step_rel(*old(self), *final(self), ModelStep::CloseDocs),
    {
        self.docs_closed = true;
    }

    fn do_submit_doc(&mut self)
        requires
            old(self).wf(),
            enabled(*old(self), ModelStep::SubmitDoc),
        ensures
            final(self).wf(),
            step_rel(*old(self), *final(self), ModelStep::SubmitDoc),
    {
        let ghost pre = *self;
        let fail = match self.fail_on_add {
            Some(k) => k == self.added.len(),
            None => false,
        };
        if fail {
            self.phase = ModelPhase::Failed;
        } else {
            let j = self.doc_q.remove(0);
            self.added.push(j);
            proof {
                broadcast use vstd::multiset::group_multiset_axioms;
                broadcast use vstd::seq_lib::group_to_multiset_ensures;

                assert(pre.doc_q@.contains(j)) by {
                    assert(pre.doc_q@[0] == j);
                }
                assert(self.doc_q@.to_multiset() =~= pre.doc_q@.to_multiset().remove(j));
                assert(self.added@.to_multiset() =~= pre.added@.to_multiset().insert(j));
                assert(in_flight(*self) =~= in_flight(pre));
                assert(self.partition());
            }
        }
    }

    fn do_commit(&mut self)
        requires
            old(self).wf(),
            enabled(*old(self), ModelStep::Commit),
        ensures
            final(self).wf(),
            step_rel(*old(self), *final(self), ModelStep::Commit),
    {
        let ghost pre = *self;
        if self.fail_on_commit {
            self.phase = ModelPhase::Failed;
        } else {
            self.committed.append(&mut self.added);
            self.phase = ModelPhase::Committed;
            proof {
                broadcast use vstd::multiset::group_multiset_axioms;
                broadcast use vstd::seq_lib::group_to_multiset_ensures;

                let n = pre.next_line as int;
                assert(pre.line_q@.to_multiset() =~= Multiset::empty());
                assert(pre.parsing@.to_multiset() =~= Multiset::empty());
                assert(pre.doc_q@.to_multiset() =~= Multiset::empty());
                assert(pre.dropped@.to_multiset().add(pre.added@.to_multiset()) =~= all_indices(
                    n,
                )) by {
                    assert(in_flight(pre) == all_indices(n));
                }
                assert(pre.next_line == pre.input@.len());
                assert forall|v: usize|
                    pre.added@.to_multiset().count(v) == good_indices(pre.input@, n).count(v)
                        && pre.dropped@.to_multiset().count(v) == bad_indices(
                        pre.input@,
                        n,
                    ).count(v) by {
                    lemma_all_indices_count(n, v);
                    lemma_good_indices_count(pre.input@, n, v);
                    lemma_bad_indices_count(pre.input@, n, v);
                    if pre.added@.to_multiset().count(v) > 0 {
                        assert(pre.added@.contains(v));
                        let k0 = choose|k0: int|
                            0 <= k0 < pre.added@.len() && pre.added@[k0] == v;
                        assert(v < pre.next_line && pre.input@[v as int] is Good);
                    }
                    if pre.dropped@.to_multiset().count(v) > 0 {
                        assert(pre.dropped@.contains(v));
                        let k1 = choose|k1: int|
                            0 <= k1 < pre.dropped@.len() && pre.dropped@[k1] == v;
                        assert(v < pre.next_line && !(pre.input@[v as int] is Good));
                    }
                    assert(pre.added@.to_multiset().count(v) + pre.dropped@.to_multiset().count(v)
                        == all_indices(n).count(v));
                }
                assert(pre.added@.to_multiset() =~= good_indices(pre.input@, n));
                assert(pre.dropped@.to_multiset() =~= bad_indices(pre.input@, n));
                assert(self.committed@ =~= pre.committed@ + pre.added@);
                assert(self.committed@ =~= pre.added@);
            }
        }
    }

    fn do_rollback(&mut self)
        requires
            old(self).wf(),
            enabled(*old(self), ModelStep::Rollback),
        ensures
            final(self).wf(),
            step_rel(*old(self), *final(self), ModelStep::Rollback),
    {
        self.added.clear();
        self.phase = ModelPhase::RolledBack;
        proof {
            assert(self.added@ =~= Seq::<usize>::empty());
        }
    }

    /// Take one step of the pipeline if its guard holds; report whether it
    /// was taken. An ineligible step leaves the state untouched, so any
    /// scheduler at all — any thread interleaving — stays inside `wf`.
    pub fn step(&mut self, c: ModelStep) -> (applied: bool)
        requires
            old(self).wf(),
        ensures
            final(self).wf(),
            applied == enabled(*old(self), c),
            applied ==> step_rel(*old(self), *final(self), c),
            !applied ==> same_config(*old(self), *final(self)) && run_state(*final(self))
                == run_state(*old(self)),
    {
        let en = self.check_enabled(c);
        if !en {
            return false;
        }
        match c {
            ModelStep::EmitLine => self.do_emit_line(),
            ModelStep::CloseSource => self.do_close_source(),
            ModelStep::TakeLine => self.do_take_line(),
            ModelStep::FinishParse(i) => self.do_finish_parse(i),
            ModelStep::CloseDocs => self.do_close_docs(),
            ModelStep::SubmitDoc => self.do_submit_doc(),
            ModelStep::Commit => self.do_commit(),
            ModelStep::Rollback => self.do_rollback(),
        }
        true
    }
}

/// Backpressure bound: however the stages interleave and however long the
/// input is, the lines and documents held in the two queues never exceed
/// the two capacities together; counting the at-most-one line in each
/// parser worker's hands as well, everything in flight stays within the
/// capacities plus the worker count.
pub proof fn lemma_backpressure_bound(m: PipelineModel)
    requires
        m.wf(),
    ensures
        m.line_q@.len() + m.doc_q@.len() <= m.cap_lines + m.cap_docs,
        m.line_q@.len() + m.parsing@.len() + m.doc_q@.len() <= m.cap_lines + m.workers
            + m.cap_docs,
{
}

/// A committed run is complete and content-exact: the engine holds exactly
/// the documents of the well-formed input lines — each one once, none
/// invented, none duplicated, irrespective of which worker parsed which
/// line or in what order they arrived — and every malformed line was
/// dropped with a logged error rather than halting the run.
pub proof fn lemma_committed_run_complete(m: PipelineModel)
    requires
        m.wf(),
        m.phase == ModelPhase::Committed,
    ensures
        m.committed@.to_multiset() == good_indices(m.input@, m.input@.len() as int),
        m.committed@.len() == good_count(m.input@, m.input@.len() as int),
        m.dropped@.len() == m.input@.len() - good_count(m.input@, m.input@.len() as int),
{
    broadcast use vstd::seq_lib::group_to_multiset_ensures;

    lemma_good_indices_len(m.input@, m.input@.len() as int);
    lemma_bad_indices_len(m.input@, m.input@.len() as int);
}

/// Atomic commit: after a rollback the engine's committed document count is
/// exactly its count from before the run — never some partial prefix of the
/// documents that had been submitted.
pub proof fn lemma_rollback_atomic(m: PipelineModel)
    requires
        m.wf(),
        m.phase == ModelPhase::RolledBack,
    ensures
        m.engine_committed() == m.base_docs,
{
}

/// Idempotent re-run: two completed runs over the same input commit the
/// same documents and the same count, whatever their schedules did.
pub proof fn lemma_rerun_agreement(m1: PipelineModel, m2: PipelineModel)
    requires
        m1.wf(),
        m2.wf(),
        m1.phase == ModelPhase::Committed,
        m2.phase == ModelPhase::Committed,
        m1.input@ == m2.input@,
    ensures
        m1.committed@.to_multiset() == m2.committed@.to_multiset(),
        m1.committed@.len() == m2.committed@.len(),
{
    lemma_committed_run_complete(m1);
    lemma_committed_run_complete(m2);
}

/// Drive one whole run under a sequential schedule: each line is emitted,
/// parsed and submitted in turn, then the queues close and the run commits,
/// or rolls back after an injected engine fault.
pub fn run_scenario(
    input: Vec<LineFate>,
    base_docs: u64,
    fail_on_add: Option<usize>,
    fail_on_commit: bool,
) -> (m: PipelineModel)
    ensures
        m.wf(),
        m.input@ == input@,
        m.base_docs == base_docs,
        m.phase == ModelPhase::Committed || m.phase == ModelPhase::RolledBack,
        fail_on_add is None && !fail_on_commit ==> m.phase == ModelPhase::Committed,
        m.phase == ModelPhase::Committed ==> {
            &&& m.committed@.to_multiset() == good_indices(input@, input@.len() as int)
            &&& m.committed@.len() == good_count(input@, input@.len() as int)
            &&& m.dropped@.len() == input@.len() - good_count(input@, input@.len() as int)
        },
        m.phase == ModelPhase::RolledBack ==> m.engine_committed() == base_docs,
        (match fail_on_add {
            Some(k) => k < good_count(input@, input@.len() as int),
            None => false,
        }) ==> m.phase == ModelPhase::RolledBack,
{
    let mut m = PipelineModel::init(
        input,
        crate::config::LINE_QUEUE_CAPACITY,
        crate::config::DOC_QUEUE_CAPACITY,
        1,
        base_docs,
        fail_on_add,
        fail_on_commit,
    );
    let n = m.input.len();
    let mut t: usize = 0;
    while t < n
        invariant
            m.wf(),
            n == m.input@.len(),
            t <= n,
            m.input@ == input@,
            m.base_docs == base_docs,
            m.fail_on_add == fail_on_add,
            m.fail_on_commit == fail_on_commit,
            m.cap_lines >= 1,
            m.cap_docs >= 1,
            m.workers == 1,
            m.phase == ModelPhase::Ingesting || m.phase == ModelPhase::Failed,
            m.phase == ModelPhase::Ingesting ==> {
                &&& m.next_line == t
                &&& m.line_q@.len() == 0
                &&& m.parsing@.len() == 0
                &&& m.doc_q@.len() == 0
                &&& !m.source_closed
                &&& !m.docs_closed
                &&& m.added@.len() == good_count(input@, t as int)
                &&& (fail_on_add matches Some(k) ==> good_count(input@, t as int) <= k)
            },
            m.phase == ModelPhase::Failed ==> (fail_on_add is Some || fail_on_commit),
        decreases n - t,
    {
        if m.phase == ModelPhase::Ingesting {
            let _e = m.step(ModelStep::EmitLine);
            let _l = m.step(ModelStep::TakeLine);
            let _p = m.step(ModelStep::FinishParse(0));
            proof {
                assert(_e && _l && _p);
            }
            if m.doc_q.len() > 0 {
                let _s = m.step(ModelStep::SubmitDoc);
                proof {
                    assert(_s);
                }
            }
        }
        t = t + 1;
    }
    if m.phase == ModelPhase::Ingesting {
        let _c = m.step(ModelStep::CloseSource);
        let _d = m.step(ModelStep::CloseDocs);
        proof {
            assert(_c && _d);
        }
        let _k = m.step(ModelStep::Commit);
        proof {
            assert(_k);
        }
    }
    if m.phase == ModelPhase::Failed {
        let _r = m.step(ModelStep::Rollback);
        proof {
            assert(_r);
        }
    }
    proof {
        if m.phase == ModelPhase::Committed {
            lemma_committed_run_complete(m);
        }
        if m.phase == ModelPhase::RolledBack {
            lemma_rollback_atomic(m);
        }
    }
    m
}

} // verus!
