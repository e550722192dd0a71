//! Statistics accumulation over the stream of per-entry results that a
//! traversal yields: regular files update a count and running size
//! bounds, failed entries are counted without touching the size
//! statistics, and everything else is ignored.

use vstd::prelude::*;

verus! {

/// What kind of filesystem object an entry is.
#[derive(Clone, Copy, PartialEq, Eq, Structural, Debug)]
pub enum EntryKind {
    File,
    Directory,
    Symlink,
}

/// Why a single entry could not be read. A failed entry is local: it is
/// counted and the walk goes on.
#[derive(Clone, Copy, PartialEq, Eq, Structural, Debug)]
pub enum EntryError {
    PermissionDenied,
    BrokenLink,
    Io,
}

/// The metadata a successfully read entry carries: its size in bytes,
/// its kind, and its depth below the walk's root.
#[derive(Clone, Copy, PartialEq, Eq, Structural, Debug)]
pub struct EntryMeta {
    pub size: u64,
    pub kind: EntryKind,
    pub depth: usize,
}

/// Running aggregates over the regular files seen so far. Before any
/// file is observed both size bounds are zero; this zero default is a
/// documented boundary, not a sentinel.
#[derive(Debug)]
pub struct Statistics {
    pub files_traversed: u64,
    pub smallest_file_in_bytes: u64,
    pub largest_file_in_bytes: u64,
}

/// The outcome of one traversal run: the error count beside the file
/// statistics.
pub struct WalkResult {
    pub num_errors: u64,
    pub stats: Statistics,
}

/// Mathematical model of `Statistics`.
pub struct StatsModel {
    pub files: int,
    pub smallest: int,
    pub largest: int,
}

/// Mathematical model of `WalkResult`.
pub struct WalkModel {
    pub errors: int,
    pub stats: StatsModel,
}

impl View for Statistics {
    type V = StatsModel;

    open spec fn view(&self) -> StatsModel {
        StatsModel {
            files: self.files_traversed as int,
            smallest: self.smallest_file_in_bytes as int,
            largest: self.largest_file_in_bytes as int,
        }
    }
}

impl View for WalkResult {
    type V = WalkModel;

    open spec fn view(&self) -> WalkModel {
        WalkModel { errors: self.num_errors as int, stats: self.stats@ }
    }
}

/// The state before anything was observed: everything zero.
pub open spec fn empty_stats() -> StatsModel {
    StatsModel { files: 0, smallest: 0, largest: 0 }
}

/// The state of a run before anything was observed.
pub open spec fn empty_walk() -> WalkModel {
    WalkModel { errors: 0, stats: empty_stats() }
}

/// How one regular file of the given size changes the statistics: the
/// first file sets both bounds to its size, every later one is folded
/// in by min/max comparison.
pub open spec fn observe_size(m: StatsModel, size: int) -> StatsModel {
    StatsModel {
        files: m.files + 1,
        smallest: if m.files == 0 || size < m.smallest {
            size
        } else {
            m.smallest
        },
        largest: if m.files == 0 || size > m.largest {
            size
        } else {
            m.largest
        },
    }
}

/// The statistics after observing the given file sizes in order.
pub open spec fn accumulate(sizes: Seq<int>) -> StatsModel
    decreases sizes.len(),
{
    if sizes.len() == 0 {
        empty_stats()
    } else {
        observe_size(accumulate(sizes.drop_last()), sizes.last())
    }
}

/// What one entry result contributes to a run, abstracted to the three
/// things the accumulator can tell apart.
pub enum Event {
    Failure,
    FileSize { size: int },
    Other,
}

/// The event a concrete entry result stands for.
pub open spec fn event_of(entry: Result<EntryMeta, EntryError>) -> Event {
    match entry {
        Result::Ok(meta) => if meta.kind is File {
            Event::FileSize { size: meta.size as int }
        } else {
            Event::Other
        },
        Result::Err(_) => Event::Failure,
    }
}

/// How one event changes the outcome of a run: failures bump the error
/// count and leave the statistics alone, file sizes feed the
/// statistics, everything else changes nothing.
pub open spec fn step(m: WalkModel, e: Event) -> WalkModel {
    match e {
        Event::Failure => WalkModel { errors: m.errors + 1, stats: m.stats },
        Event::FileSize { size } => WalkModel { errors: m.errors, stats: observe_size(m.stats, size) },
        Event::Other => m,
    }
}

/// The outcome of a run that observed the given events in order.
pub open spec fn run_model(events: Seq<Event>) -> WalkModel
    decreases events.len(),
{
    if events.len() == 0 {
        empty_walk()
    } else {
        step(run_model(events.drop_last()), events.last())
    }
}

/// The least of a non-empty sequence of sizes (zero for an empty one).
pub open spec fn seq_min(s: Seq<int>) -> int
    decreases s.len(),
{
    if s.len() == 0 {
        0
    } else if s.len() == 1 {
        s[0]
    } else {
        let m = seq_min(s.drop_last());
        if s.last() < m {
            s.last()
        } else {
            m
        }
    }
}

/// The greatest of a non-empty sequence of sizes (zero for an empty one).
pub open spec fn seq_max(s: Seq<int>) -> int
    decreases s.len(),
{
    if s.len() == 0 {
        0
    } else if s.len() == 1 {
        s[0]
    } else {
        let m = seq_max(s.drop_last());
        if s.last() > m {
            s.last()
        } else {
            m
        }
    }
}

/// The minimum of a non-empty sequence is one of its elements and a
/// lower bound on all of them; dually for the maximum.
pub proof fn lemma_min_max_props(s: Seq<int>)
    requires
        s.len() >= 1,
    ensures
        s.contains(seq_min(s)),
        s.contains(seq_max(s)),
        forall|i: int| 0 <= i < s.len() ==> seq_min(s) <= #[trigger] s[i],
        forall|i: int| 0 <= i < s.len() ==> #[trigger] s[i] <= seq_max(s),
    decreases s.len(),
{
    if s.len() == 1 {
        assert(s[0] == s.last());
    } else {
        lemma_min_max_props(s.drop_last());
        let d = s.drop_last();
        if d.contains(seq_min(s)) {
            let j = choose|j: int| 0 <= j < d.len() && d[j] == seq_min(s);
            assert(s[j] == seq_min(s));
        } else {
            assert(s[s.len() - 1] == seq_min(s));
        }
        if d.contains(seq_max(s)) {
            let j = choose|j: int| 0 <= j < d.len() && d[j] == seq_max(s);
            assert(s[j] == seq_max(s));
        } else {
            assert(s[s.len() - 1] == seq_max(s));
        }
        assert(forall|i: int| 0 <= i < d.len() ==> #[trigger] s[i] == d[i]);
    }
}

/// Monotonic aggregation: after at least one file, the accumulated
/// bounds are exactly the minimum and the maximum of the sizes that
/// were observed, and the count is their number.
pub proof fn lemma_monotonic_aggregation(sizes: Seq<int>)
    ensures
        accumulate(sizes).files == sizes.len(),
        sizes.len() >= 1 ==> accumulate(sizes).smallest == seq_min(sizes),
        sizes.len() >= 1 ==> accumulate(sizes).largest == seq_max(sizes),
    decreases sizes.len(),
{
    if sizes.len() > 0 {
        lemma_monotonic_aggregation(sizes.drop_last());
    }
}

/// The accumulated statistics do not depend on the order the sizes were
/// observed in: two observation orders of the same sizes agree.
pub proof fn lemma_order_independent(s1: Seq<int>, s2: Seq<int>)
    requires
        s1.to_multiset() == s2.to_multiset(),
    ensures
        accumulate(s1) == accumulate(s2),
{
    s1.to_multiset_ensures();
    s2.to_multiset_ensures();
    assert(s1.len() == s1.to_multiset().len());
    assert(s1.len() == s2.len());
    lemma_monotonic_aggregation(s1);
    lemma_monotonic_aggregation(s2);
    if s1.len() >= 1 {
        lemma_min_max_props(s1);
        lemma_min_max_props(s2);
        assert(s1.to_multiset().count(seq_min(s1)) > 0);
        assert(s2.to_multiset().count(seq_min(s2)) > 0);
        assert(s1.to_multiset().count(seq_max(s1)) > 0);
        assert(s2.to_multiset().count(seq_max(s2)) > 0);
        assert(s2.contains(seq_min(s1)));
        assert(s1.contains(seq_min(s2)));
        assert(s2.contains(seq_max(s1)));
        assert(s1.contains(seq_max(s2)));
        let j1 = choose|j: int| 0 <= j < s2.len() && s2[j] == seq_min(s1);
        let j2 = choose|j: int| 0 <= j < s1.len() && s1[j] == seq_min(s2);
        let k1 = choose|j: int| 0 <= j < s2.len() && s2[j] == seq_max(s1);
        let k2 = choose|j: int| 0 <= j < s1.len() && s1[j] == seq_max(s2);
        assert(seq_min(s2) <= s2[j1]);
        assert(seq_min(s1) <= s1[j2]);
        assert(s2[k1] <= seq_max(s2));
        assert(s1[k2] <= seq_max(s1));
    }
}

/// The size a file event carries (zero for the others).
pub open spec fn size_of(e: Event) -> int {
    match e {
        Event::FileSize { size } => size,
        _ => 0,
    }
}

/// The sizes of the regular files among a sequence of events, in order.
pub open spec fn file_sizes(events: Seq<Event>) -> Seq<int> {
    events.filter(|e: Event| e is FileSize).map_values(|e: Event| size_of(e))
}

/// Error isolation: a run's error count is exactly the number of failed
/// entries, and its statistics are exactly those accumulated from the
/// file sizes alone — failures and non-file entries leave them
/// untouched.
pub proof fn lemma_error_isolation(events: Seq<Event>)
    ensures
        run_model(events).errors == events.filter(|e: Event| e is Failure).len(),
        run_model(events).stats == accumulate(file_sizes(events)),
    decreases events.len(),
{
    reveal(Seq::filter);
    if events.len() == 0 {
        assert(file_sizes(events) =~= Seq::<int>::empty());
    } else {
        let d = events.drop_last();
        let e = events.last();
        lemma_error_isolation(d);
        assert(events.filter(|e: Event| e is Failure) =~= (if e is Failure {
            d.filter(|e: Event| e is Failure).push(e)
        } else {
            d.filter(|e: Event| e is Failure)
        }));
        if e is FileSize {
            assert(file_sizes(events) =~= file_sizes(d).push(size_of(e)));
            assert(file_sizes(events).drop_last() =~= file_sizes(d));
        } else {
            assert(file_sizes(events) =~= file_sizes(d));
        }
    }
}

impl Default for Statistics {
    /// A fresh accumulator: no files seen, both bounds at their zero default.
    fn default() -> (s: Statistics)
        ensures
            s@ == empty_stats(),
    {
        Statistics { files_traversed: 0, smallest_file_in_bytes: 0, largest_file_in_bytes: 0 }
    }
}

impl Default for WalkResult {
    /// A fresh run outcome: no errors, no files.
    fn default() -> (r: WalkResult)
        ensures
            r@ == empty_walk(),
    {
        WalkResult { num_errors: 0, stats: Statistics::default() }
    }
}

impl Statistics {
    /// Fold one regular file of the given size into the running
    /// aggregates, exactly as `observe_size` describes.
    pub fn record_file(&mut self, size: u64)
        requires
            old(self).files_traversed < u64::MAX,
        ensures
            final(self)@ == observe_size(old(self)@, size as int),
    {
        if self.files_traversed == 0 {
            self.smallest_file_in_bytes = size;
            self.largest_file_in_bytes = size;
        } else {
            if size < self.smallest_file_in_bytes {
                self.smallest_file_in_bytes = size;
            }
            if size > self.largest_file_in_bytes {
                self.largest_file_in_bytes = size;
            }
        }
        self.files_traversed = self.files_traversed + 1;
    }
}

impl WalkResult {
    /// Consume one entry result: a failure is counted and leaves the
    /// statistics untouched, a regular file feeds the statistics, and
    /// directories and other non-file entries change nothing.
    pub fn observe(&mut self, entry: &Result<EntryMeta, EntryError>)
        requires
            entry is Err ==> old(self).num_errors < u64::MAX,
            entry is Ok ==> old(self).stats.files_traversed < u64::MAX,
        ensures
            final(self)@ == step(old(self)@, event_of(*entry)),
    {
        match entry {
            Result::Ok(meta) => {
                if matches!(meta.kind, EntryKind::File) {
                    self.stats.record_file(meta.size);
                }
            },
            Result::Err(_) => {
                self.num_errors = self.num_errors + 1;
            },
        }
    }
}

} // verus!
