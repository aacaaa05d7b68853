use vstd::prelude::*;

verus! {

/// Capacity of the bounded queue between the line source and the parser
/// workers: the first backpressure point.
pub const LINE_QUEUE_CAPACITY: usize = 100;

/// Capacity of the bounded queue between the parser workers and the writer
/// commit manager: the second backpressure point.
pub const DOC_QUEUE_CAPACITY: usize = 100;

/// Run parameters for one ingestion, derived from the operator's thread and
/// memory budgets.
pub struct IndexingConfig {
    /// Index-writer thread count; always at least one.
    pub num_threads: usize,
    /// Parser worker pool size: a quarter of the thread budget, but at
    /// least one, since record decoding is cheap next to index writing.
    pub parser_threads: usize,
    /// Total memory budget for the index writer, in bytes.
    pub memory_budget: usize,
    /// The share of the memory budget each writer thread receives.
    pub buffer_size_per_thread: usize,
    /// Disable the engine's background segment consolidation while ingesting.
    pub no_merge: bool,
    /// Fold all segments together after a successful commit.
    pub force_merge: bool,
}

impl IndexingConfig {
    /// Every configuration this module builds satisfies this.
    pub open spec fn wf(self) -> bool {
        &&& self.num_threads >= 1
        &&& self.parser_threads == (if self.num_threads / 4 >= 1 {
            self.num_threads / 4
        } else {
            1usize
        })
        &&& self.buffer_size_per_thread == self.memory_budget / self.num_threads
    }

    /// Derive a configuration from the operator-supplied budgets.
    ///
    /// A zero thread budget is clamped to one thread; the memory budget is
    /// split evenly over the writer threads.
    pub fn new(
        requested_threads: usize,
        memory_budget: usize,
        no_merge: bool,
        force_merge: bool,
    ) -> (cfg: Self)
        ensures
            cfg.wf(),
            cfg.num_threads == if requested_threads == 0 {
                1usize
            } else {
                requested_threads
            },
            cfg.memory_budget == memory_budget,
            cfg.no_merge == no_merge,
            cfg.force_merge == force_merge,
    {
        let num_threads: usize = if requested_threads == 0 {
            1
        } else {
            requested_threads
        };
        let quarter = num_threads / 4;
        let parser_threads: usize = if quarter >= 1 {
            quarter
        } else {
            1
        };
        IndexingConfig {
            num_threads,
            parser_threads,
            memory_budget,
            buffer_size_per_thread: memory_budget / num_threads,
            no_merge,
            force_merge,
        }
    }
}

} // verus!
