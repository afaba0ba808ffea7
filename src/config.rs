use vstd::prelude::*;
use vstd::string::StringExecFns;

verus! {

/// The four interchangeable ways of hashing a file set.
#[derive(Clone, Copy, Debug, PartialEq, Eq, Structural)]
pub enum Implementation {
    /// One file at a time, in the order of the file set.
    Sequential,
    /// A data-parallel work-stealing pool sized to the hardware.
    Rayon,
    /// An explicit pool of workers sending results over a channel.
    ThreadPool,
    /// Cooperative tasks on one thread, with bounded reads in flight.
    Async,
}

/// The lowercase form of a string, as std's Unicode case mapping gives it.
pub uninterp spec fn lower_of(s: Seq<char>) -> Seq<char>;

/// Relies on `str::to_lowercase`: the result depends on the characters alone.
#[verifier::external_body]
fn lowercase(s: &str) -> (r: String)
    ensures
        r@ == lower_of(s@),
{
    s.to_lowercase()
}

/// The strategy that a lowercase name selects.
pub open spec fn spec_named(name: Seq<char>) -> Option<Implementation> {
    if name == "sequential"@ {
        Some(Implementation::Sequential)
    } else if name == "rayon"@ {
        Some(Implementation::Rayon)
    } else if name == "threadpool"@ {
        Some(Implementation::ThreadPool)
    } else if name == "async"@ {
        Some(Implementation::Async)
    } else {
        None
    }
}

/// The label under which a strategy appears in a comparison report.
pub open spec fn spec_label(imp: Implementation) -> Seq<char> {
    match imp {
        Implementation::Sequential => "Sequential"@,
        Implementation::Rayon => "Rayon"@,
        Implementation::ThreadPool => "ThreadPool"@,
        Implementation::Async => "Async"@,
    }
}

/// The strategies of a comparison run, in the order in which they run.
pub open spec fn spec_comparison_order() -> Seq<Implementation> {
    seq![
        Implementation::Sequential,
        Implementation::Rayon,
        Implementation::ThreadPool,
        Implementation::Async,
    ]
}

impl Implementation {
    /// Selects a strategy by its exact lowercase name.
    pub fn from_lowercase(name: &String) -> (r: Option<Implementation>)
        ensures
            r == spec_named(name@),
    {
        if *name == String::from_str("sequential") {
            Some(Implementation::Sequential)
        } else if *name == String::from_str("rayon") {
            Some(Implementation::Rayon)
        } else if *name == String::from_str("threadpool") {
            Some(Implementation::ThreadPool)
        } else if *name == String::from_str("async") {
            Some(Implementation::Async)
        } else {
            None
        }
    }

    /// Selects a strategy by name, ignoring case. An unknown name gives the
    /// message `Invalid implementation: <name>`.
    pub fn parse(s: &str) -> (r: Result<Implementation, String>)
        ensures
            spec_named(lower_of(s@)) is Some <==> r is Ok,
            r matches Ok(imp) ==> spec_named(lower_of(s@)) == Some(imp),
            r matches Err(msg) ==> msg@ == "Invalid implementation: "@ + s@,
    {
        let lowered = lowercase(s);
        match Implementation::from_lowercase(&lowered) {
            Some(imp) => Ok(imp),
            None => Err(String::from_str("Invalid implementation: ").concat(s)),
        }
    }

    /// The label of this strategy in a comparison report.
    pub fn label(&self) -> (r: &'static str)
        ensures
            r@ == spec_label(*self),
    {
        match self {
            Implementation::Sequential => "Sequential",
            Implementation::Rayon => "Rayon",
            Implementation::ThreadPool => "ThreadPool",
            Implementation::Async => "Async",
        }
    }

    /// All four strategies in the fixed order of a comparison run.
    pub fn comparison_order() -> (r: Vec<Implementation>)
        ensures
            r@ == spec_comparison_order(),
    {
        let r = vec![
            Implementation::Sequential,
            Implementation::Rayon,
            Implementation::ThreadPool,
            Implementation::Async,
        ];
        proof {
            assert(r@ =~= spec_comparison_order());
        }
        r
    }
}

impl std::str::FromStr for Implementation {
    type Err = String;

    fn from_str(s: &str) -> Result<Implementation, String> {
        Implementation::parse(s)
    }
}

/// How much the log stream shows.
#[derive(Clone, Copy, Debug, PartialEq, Eq, Structural)]
pub enum Verbosity {
    Info,
    Debug,
    Trace,
}

/// The verbosity that a count of `-v` flags selects.
pub open spec fn spec_verbosity(count: u8) -> Verbosity {
    if count == 0 {
        Verbosity::Info
    } else if count == 1 {
        Verbosity::Debug
    } else {
        Verbosity::Trace
    }
}

/// No flag shows milestones, one adds debugging detail, more show all.
pub fn verbosity_for(count: u8) -> (r: Verbosity)
    ensures
        r == spec_verbosity(count),
{
    match count {
        0 => Verbosity::Info,
        1 => Verbosity::Debug,
        _ => Verbosity::Trace,
    }
}

/// Why a configuration was rejected before any work began.
#[derive(Clone, Copy, Debug, PartialEq, Eq, Structural)]
pub enum ConfigError {
    /// Reads need a buffer of at least one byte.
    ZeroBufferSize,
}

/// The settings of one run, fixed once parsed.
#[derive(Clone, Copy, Debug, PartialEq, Eq, Structural)]
pub struct Configuration {
    pub buffer_size: usize,
    pub implementation: Implementation,
    pub verbose: u8,
    pub compare: bool,
}

impl Configuration {
    pub open spec fn wf(&self) -> bool {
        self.buffer_size > 0
    }

    /// Checks and gathers the settings. A zero buffer size is refused.
    pub fn new(buffer_size: usize, implementation: Implementation, verbose: u8, compare: bool) -> (r:
        Result<Configuration, ConfigError>)
        ensures
            buffer_size == 0 <==> r == Err::<Configuration, ConfigError>(ConfigError::ZeroBufferSize),
            buffer_size > 0 <==> r == Ok::<Configuration, ConfigError>(
                (Configuration { buffer_size, implementation, verbose, compare }),
            ),
    {
        if buffer_size == 0 {
            Err(ConfigError::ZeroBufferSize)
        } else {
            Ok(Configuration { buffer_size, implementation, verbose, compare })
        }
    }

    /// The strategies that this run executes, in order: all four in the
    /// comparison order when comparing, else the one selected.
    pub fn strategies(&self) -> (r: Vec<Implementation>)
        ensures
            self.compare ==> r@ == spec_comparison_order(),
            !self.compare ==> r@ == seq![self.implementation],
    {
        if self.compare {
            Implementation::comparison_order()
        } else {
            let r = vec![self.implementation];
            proof {
                assert(r@ =~= seq![self.implementation]);
            }
            r
        }
    }

    /// Whether a single run logs its elapsed time: only outside comparison
    /// mode, and only when asked for more than the default verbosity.
    pub fn logs_elapsed(&self) -> (r: bool)
        ensures
            r == (!self.compare && self.verbose > 0),
    {
        !self.compare && self.verbose > 0
    }

    /// The verbosity of the log stream for this run.
    pub fn verbosity(&self) -> (r: Verbosity)
        ensures
            r == spec_verbosity(self.verbose),
    {
        verbosity_for(self.verbose)
    }
}

} // verus!
