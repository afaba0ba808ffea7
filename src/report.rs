use vstd::prelude::*;
use vstd::string::StringExecFns;
use crate::config::{spec_comparison_order, spec_label, Implementation};

verus! {

/// Nanoseconds in one second.
pub const NANOS_PER_SEC: u32 = 1_000_000_000;

/// An elapsed wall-clock duration, as whole seconds and the nanoseconds
/// beyond them.
#[derive(Clone, Copy, Debug, PartialEq, Eq, Structural)]
pub struct Elapsed {
    pub secs: u64,
    pub nanos: u32,
}

impl Elapsed {
    pub open spec fn wf(&self) -> bool {
        self.nanos < NANOS_PER_SEC
    }

    /// A duration of whole seconds and nanoseconds; nanoseconds of a full
    /// second or more carry into the seconds.
    pub fn new(secs: u64, nanos: u32) -> (r: Option<Elapsed>)
        ensures
            r is Some <==> secs as int + nanos as int / NANOS_PER_SEC as int <= u64::MAX,
            r matches Some(e) ==> e.wf() && e.secs == secs + nanos / NANOS_PER_SEC
                && e.nanos == nanos % NANOS_PER_SEC,
    {
        let carry: u32 = nanos / NANOS_PER_SEC;
        if secs > u64::MAX - carry as u64 {
            None
        } else {
            Some(Elapsed { secs: secs + carry as u64, nanos: nanos % NANOS_PER_SEC })
        }
    }
}

/// The text of a duration as std's `Debug` writes it (`1.5ms`, `2s`).
pub uninterp spec fn duration_debug(secs: u64, nanos: u32) -> Seq<char>;

/// Relies on `std::time::Duration::new` and its `Debug` formatting. The
/// nanoseconds stay below one second, so the constructor does not carry
/// and cannot overflow.
#[verifier::external_body]
fn duration_text(secs: u64, nanos: u32) -> (r: String)
    requires
        nanos < NANOS_PER_SEC,
    ensures
        r@ == duration_debug(secs, nanos),
{
    format!("{:?}", std::time::Duration::new(secs, nanos))
}

/// The strategy at a position of the comparison order.
fn strategy_at(i: usize) -> (r: Implementation)
    requires
        i < 4,
    ensures
        r == spec_comparison_order()[i as int],
{
    if i == 0 {
        Implementation::Sequential
    } else if i == 1 {
        Implementation::Rayon
    } else if i == 2 {
        Implementation::ThreadPool
    } else {
        Implementation::Async
    }
}

/// One measured strategy.
#[derive(Clone, Copy, Debug, PartialEq, Eq, Structural)]
pub struct TimingEntry {
    pub implementation: Implementation,
    pub elapsed: Elapsed,
}

/// The report line of one entry: `<label>: <duration>`, then a newline.
pub open spec fn spec_entry_line(e: TimingEntry) -> Seq<char> {
    spec_label(e.implementation) + ": "@ + duration_debug(e.elapsed.secs, e.elapsed.nanos) + "\n"@
}

/// The report of a sequence of entries: their lines in order.
pub open spec fn spec_report(entries: Seq<TimingEntry>) -> Seq<char>
    decreases entries.len(),
{
    if entries.len() == 0 {
        Seq::empty()
    } else {
        spec_report(entries.drop_last()) + spec_entry_line(entries.last())
    }
}

/// The comparison harness: runs every strategy once, strictly one after
/// the other in the fixed order, and records how long each took. The caller
/// asks for the next strategy, runs and times it, and records the time.
pub struct ComparisonRun {
    entries: Vec<TimingEntry>,
}

impl ComparisonRun {
    /// The entries recorded so far.
    pub closed spec fn recorded(&self) -> Seq<TimingEntry> {
        self.entries@
    }

    /// Entries are recorded in the comparison order, with valid durations.
    pub closed spec fn wf(&self) -> bool {
        &&& self.entries@.len() <= 4
        &&& forall|i: int|
            0 <= i < self.entries@.len() ==> (#[trigger] self.entries@[i]).implementation
                == spec_comparison_order()[i] && self.entries@[i].elapsed.wf()
    }

    /// A run with nothing measured yet.
    pub fn new() -> (r: ComparisonRun)
        ensures
            r.wf(),
            r.recorded() == Seq::<TimingEntry>::empty(),
    {
        ComparisonRun { entries: Vec::new() }
    }

    /// The strategy to run next, or `None` once all four were measured.
    pub fn next_strategy(&self) -> (r: Option<Implementation>)
        requires
            self.wf(),
        ensures
            self.recorded().len() < 4 <==> r is Some,
            r matches Some(imp) ==> imp == spec_comparison_order()[self.recorded().len() as int],
    {
        let n = self.entries.len();
        if n < 4 {
            Some(strategy_at(n))
        } else {
            None
        }
    }

    /// Whether every strategy has been measured.
    pub fn is_complete(&self) -> (r: bool)
        requires
            self.wf(),
        ensures
            r == (self.recorded().len() == 4),
    {
        self.entries.len() == 4
    }

    /// Records the time of the strategy that `next_strategy` named.
    pub fn record(&mut self, elapsed: Elapsed)
        requires
            old(self).wf(),
            old(self).recorded().len() < 4,
            elapsed.wf(),
        ensures
            final(self).wf(),
            final(self).recorded() == old(self).recorded().push(
                (TimingEntry {
                    implementation: spec_comparison_order()[old(self).recorded().len() as int],
                    elapsed,
                }),
            ),
    {
        let imp = strategy_at(self.entries.len());
        self.entries.push(TimingEntry { implementation: imp, elapsed });
    }

    /// The text of the results file: one line per measured strategy, in the
    /// order run.
    pub fn render(&self) -> (r: String)
        requires
            self.wf(),
        ensures
            r@ == spec_report(self.recorded()),
    {
        let mut out = String::new();
        let mut i: usize = 0;
        while i < self.entries.len()
            invariant
                self.wf(),
                i <= self.entries@.len(),
                out@ == spec_report(self.entries@.take(i as int)),
            decreases self.entries@.len() - i,
        {
            let e = self.entries[i];
            let text = duration_text(e.elapsed.secs, e.elapsed.nanos);
            out.append(e.implementation.label());
            out.append(": ");
            out.append(text.as_str());
            out.append("\n");
            proof {
                assert(self.entries@.take(i + 1).drop_last() =~= self.entries@.take(i as int));
            }
            i = i + 1;
        }
        proof {
            assert(self.entries@.take(i as int) =~= self.entries@);
        }
        out
    }
}

/// A finished comparison has exactly four lines, one per strategy, in the
/// fixed order Sequential, Rayon, ThreadPool, Async, whatever the times.
pub proof fn lemma_complete_report_layout(run: ComparisonRun)
    requires
        run.wf(),
        run.recorded().len() == 4,
    ensures
        spec_report(run.recorded()) == spec_entry_line(run.recorded()[0]) + spec_entry_line(
            run.recorded()[1],
        ) + spec_entry_line(run.recorded()[2]) + spec_entry_line(run.recorded()[3]),
        run.recorded()[0].implementation == Implementation::Sequential,
        run.recorded()[1].implementation == Implementation::Rayon,
        run.recorded()[2].implementation == Implementation::ThreadPool,
        run.recorded()[3].implementation == Implementation::Async,
{
    let s = run.recorded();
    assert(s[0].implementation == spec_comparison_order()[0]);
    assert(s[1].implementation == spec_comparison_order()[1]);
    assert(s[2].implementation == spec_comparison_order()[2]);
    assert(s[3].implementation == spec_comparison_order()[3]);
    let s0 = s.take(0);
    let s1 = s.take(1);
    let s2 = s.take(2);
    let s3 = s.take(3);
    assert(s1.drop_last() =~= s0);
    assert(s2.drop_last() =~= s1);
    assert(s3.drop_last() =~= s2);
    assert(s.drop_last() =~= s3);
    assert(spec_report(s0) == Seq::<char>::empty());
    assert(spec_report(s1) =~= spec_entry_line(s[0]));
    assert(spec_report(s2) == spec_report(s1) + spec_entry_line(s[1]));
    assert(spec_report(s3) == spec_report(s2) + spec_entry_line(s[2]));
    assert(spec_report(s) == spec_report(s3) + spec_entry_line(s[3]));
}

} // verus!
