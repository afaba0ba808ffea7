use vstd::prelude::*;
use vstd::string::StringExecFns;

verus! {

/// What hashing one file came to.
#[derive(Debug)]
pub enum HashOutcome {
    /// The lowercase hexadecimal digest of the file's bytes.
    Digest(String),
    /// The description of the read or open failure.
    Failed(String),
}

/// Where one line of output goes.
#[derive(Debug)]
pub enum Emission {
    /// A line for standard output.
    Stdout(String),
    /// A line for the error log.
    ErrorLog(String),
}

/// What a worker of the channel-based pool does with its outcome.
#[derive(Debug)]
pub enum WorkerRoute {
    /// Send the digest to the collector, which prints it with the path.
    Send(String),
    /// Log the failure in the worker; nothing reaches the collector.
    Log(String),
}

/// The success line of a file: digest, two spaces, path.
pub open spec fn spec_success_line(digest: Seq<char>, path: Seq<char>) -> Seq<char> {
    digest + "  "@ + path
}

/// The error-log line of a file that could not be hashed.
pub open spec fn spec_failure_line(path: Seq<char>, cause: Seq<char>) -> Seq<char> {
    "Error processing "@ + path + ": "@ + cause
}

/// Whether an emission goes to standard output with the given text.
pub open spec fn is_stdout_line(e: Emission, text: Seq<char>) -> bool {
    e matches Emission::Stdout(line) && line@ == text
}

/// Whether an emission goes to the error log with the given text.
pub open spec fn is_error_line(e: Emission, text: Seq<char>) -> bool {
    e matches Emission::ErrorLog(line) && line@ == text
}

/// The single emission owed for a file's outcome.
pub open spec fn emission_fits(path: Seq<char>, outcome: HashOutcome, e: Emission) -> bool {
    match outcome {
        HashOutcome::Digest(d) => is_stdout_line(e, spec_success_line(d@, path)),
        HashOutcome::Failed(c) => is_error_line(e, spec_failure_line(path, c@)),
    }
}

/// The line printed for a file that was hashed.
pub fn success_line(digest: &str, path: &str) -> (r: String)
    ensures
        r@ == spec_success_line(digest@, path@),
{
    String::from_str(digest).concat("  ").concat(path)
}

/// The line logged for a file that could not be hashed.
pub fn failure_line(path: &str, cause: &str) -> (r: String)
    ensures
        r@ == spec_failure_line(path@, cause@),
{
    String::from_str("Error processing ").concat(path).concat(": ").concat(cause)
}

/// Renders the outcome of one file: a success line for standard output, or
/// a failure line for the error log. Each outcome gives exactly one line.
pub fn render(path: &str, outcome: &HashOutcome) -> (r: Emission)
    ensures
        emission_fits(path@, *outcome, r),
{
    match outcome {
        HashOutcome::Digest(d) => Emission::Stdout(success_line(d.as_str(), path)),
        HashOutcome::Failed(c) => Emission::ErrorLog(failure_line(path, c.as_str())),
    }
}

/// Routes a worker's outcome in the channel-based pool: a digest travels to
/// the collector, a failure is logged where it happened and never reaches
/// the channel.
pub fn route_from_worker(path: &str, outcome: HashOutcome) -> (r: WorkerRoute)
    ensures
        outcome matches HashOutcome::Digest(d) ==> r matches WorkerRoute::Send(s) && s@ == d@,
        outcome matches HashOutcome::Failed(c) ==> r matches WorkerRoute::Log(l)
            && l@ == spec_failure_line(path@, c@),
{
    match outcome {
        HashOutcome::Digest(d) => WorkerRoute::Send(d),
        HashOutcome::Failed(c) => WorkerRoute::Log(failure_line(path, c.as_str())),
    }
}

/// Every outcome is reported on one channel only: a digest on standard
/// output and never in the error log, a failure in the error log and never
/// on standard output.
pub proof fn lemma_one_line_per_outcome(path: Seq<char>, outcome: HashOutcome, e: Emission)
    requires
        emission_fits(path, outcome, e),
    ensures
        (e is Stdout) <==> (outcome is Digest),
        (e is ErrorLog) <==> (outcome is Failed),
{
}

/// How many of a batch's emissions go to standard output.
pub open spec fn printed_count(es: Seq<Emission>) -> nat
    decreases es.len(),
{
    if es.len() == 0 {
        0
    } else {
        printed_count(es.drop_last()) + if es.last() is Stdout { 1nat } else { 0nat }
    }
}

/// How many of a batch's outcomes are digests.
pub open spec fn digest_count(os: Seq<HashOutcome>) -> nat
    decreases os.len(),
{
    if os.len() == 0 {
        0
    } else {
        digest_count(os.drop_last()) + if os.last() is Digest { 1nat } else { 0nat }
    }
}

/// Whether each file of a batch got the one emission owed for its outcome.
pub open spec fn batch_fits(
    paths: Seq<Seq<char>>,
    outcomes: Seq<HashOutcome>,
    es: Seq<Emission>,
) -> bool {
    &&& paths.len() == outcomes.len()
    &&& es.len() == outcomes.len()
    &&& forall|i: int| 0 <= i < es.len() ==> emission_fits(paths[i], outcomes[i], #[trigger] es[i])
}

/// A batch rendered file by file prints one line per file that was hashed
/// and logs one line per file that failed, and nothing else: of five files
/// of which one cannot be read, four lines are printed and one is logged.
pub proof fn lemma_batch_line_counts(
    paths: Seq<Seq<char>>,
    outcomes: Seq<HashOutcome>,
    es: Seq<Emission>,
)
    requires
        batch_fits(paths, outcomes, es),
    ensures
        printed_count(es) == digest_count(outcomes),
        es.len() - printed_count(es) == outcomes.len() - digest_count(outcomes),
        printed_count(es) <= es.len(),
    decreases es.len(),
{
    if es.len() > 0 {
        let n = es.len() - 1;
        assert(emission_fits(paths[n], outcomes[n], es[n]));
        assert(es.last() == es[n]);
        lemma_batch_line_counts(paths.drop_last(), outcomes.drop_last(), es.drop_last());
    }
}

/// The sequential strategy's pass over a file set: it hands out positions
/// in the set's order, one at a time, and turns the outcome of each file
/// into its one emission. The caller reads the file at the position handed
/// out and reports its outcome before asking for the next.
pub struct SequentialPass {
    total: usize,
    position: usize,
    paths: Ghost<Seq<Seq<char>>>,
    outcomes: Ghost<Seq<HashOutcome>>,
    emitted: Ghost<Seq<Emission>>,
}

impl SequentialPass {
    /// The number of files in the set.
    pub closed spec fn spec_total(&self) -> nat {
        self.total as nat
    }

    /// How many files have been reported so far.
    pub closed spec fn spec_position(&self) -> nat {
        self.position as nat
    }

    /// The paths reported so far, in order.
    pub closed spec fn reported_paths(&self) -> Seq<Seq<char>> {
        self.paths@
    }

    /// The outcomes reported so far, in order.
    pub closed spec fn reported_outcomes(&self) -> Seq<HashOutcome> {
        self.outcomes@
    }

    /// The emissions handed back so far, in order.
    pub closed spec fn emissions(&self) -> Seq<Emission> {
        self.emitted@
    }

    pub closed spec fn wf(&self) -> bool {
        &&& self.position <= self.total
        &&& self.emitted@.len() == self.position
        &&& batch_fits(self.paths@, self.outcomes@, self.emitted@)
    }

    /// A pass over a set of `total` files, none reported yet.
    pub fn new(total: usize) -> (r: SequentialPass)
        ensures
            r.wf(),
            r.spec_total() == total,
            r.spec_position() == 0,
    {
        SequentialPass {
            total,
            position: 0,
            paths: Ghost(Seq::empty()),
            outcomes: Ghost(Seq::empty()),
            emitted: Ghost(Seq::empty()),
        }
    }

    /// The position of the file to hash next: each position of the set once,
    /// in increasing order, then `None`.
    pub fn next_file(&self) -> (r: Option<usize>)
        requires
            self.wf(),
        ensures
            r is Some <==> self.spec_position() < self.spec_total(),
            r matches Some(i) ==> i == self.spec_position(),
    {
        if self.position < self.total {
            Some(self.position)
        } else {
            None
        }
    }

    /// Reports the outcome of the file at the current position and moves on;
    /// returns the one emission owed for it.
    pub fn report(&mut self, path: &str, outcome: &HashOutcome) -> (r: Emission)
        requires
            old(self).wf(),
            old(self).spec_position() < old(self).spec_total(),
        ensures
            final(self).wf(),
            final(self).spec_total() == old(self).spec_total(),
            final(self).spec_position() == old(self).spec_position() + 1,
            emission_fits(path@, *outcome, r),
            final(self).emissions() == old(self).emissions().push(r),
            final(self).reported_paths() == old(self).reported_paths().push(path@),
            final(self).reported_outcomes() == old(self).reported_outcomes().push(*outcome),
    {
        let r = render(path, outcome);
        self.position = self.position + 1;
        self.paths = Ghost(self.paths@.push(path@));
        self.outcomes = Ghost(self.outcomes@.push(*outcome));
        self.emitted = Ghost(self.emitted@.push(r));
        proof {
            let n = self.emitted@.len() - 1;
            assert forall|i: int| 0 <= i < self.emitted@.len() implies emission_fits(
                self.paths@[i],
                self.outcomes@[i],
                #[trigger] self.emitted@[i],
            ) by {
                if i < n {
                    assert(self.emitted@[i] == old(self).emitted@[i]);
                    assert(emission_fits(old(self).paths@[i], old(self).outcomes@[i], old(self).emitted@[i]));
                }
            }
        }
        r
    }
}

/// A finished sequential pass reports every file exactly once, in the order
/// of the set: the k-th emission belongs to the k-th file reported, there is
/// one per file, and the printed lines are exactly the files that were
/// hashed.
pub proof fn lemma_sequential_pass_complete(pass: SequentialPass)
    requires
        pass.wf(),
        pass.spec_position() == pass.spec_total(),
    ensures
        pass.emissions().len() == pass.spec_total(),
        pass.reported_paths().len() == pass.spec_total(),
        forall|k: int| 0 <= k < pass.spec_total() ==> emission_fits(
            pass.reported_paths()[k],
            pass.reported_outcomes()[k],
            #[trigger] pass.emissions()[k],
        ),
        printed_count(pass.emissions()) == digest_count(pass.reported_outcomes()),
{
    lemma_batch_line_counts(pass.reported_paths(), pass.reported_outcomes(), pass.emissions());
}

} // verus!
