//! Severity-leveled, threshold-filtered logging with an explicit
//! process-wide state object.
//!
//! The original subsystem kept its instance counter and threshold in global
//! mutable state; here they live in [`LogState`], which the front end owns
//! and threads through every call, so each operation is a verified
//! transition on that state. Messages that pass the threshold filter are
//! appended to the state's message sink; the front end decides what to do
//! with them.

use vstd::prelude::*;

verus! {

use vstd::string::StringExecFns;

/// A log severity level, ordered from most urgent (`Emerg`) to least
/// urgent (`Spew`). A message passes the filter when its level is at or
/// more urgent than the current threshold, i.e. `level.as_nat() <=
/// threshold.as_nat()`: moving the threshold toward `Spew` reveals more
/// messages.
#[derive(Clone, Copy, Debug, PartialEq, Eq, Structural)]
pub enum Log {
    Emerg,
    Alert,
    Crit,
    Error,
    Warning,
    Notice,
    Info,
    Debug,
    Spew,
}

/// An error from the logging subsystem.
#[derive(Clone, Copy, Debug, PartialEq, Eq, Structural)]
pub enum LogError {
    /// One-time initialization reported the given nonzero status.
    Init(i32),
    /// The subsystem was used while no lifecycle guard was held.
    NotReady,
    /// A severity value outside the enumerated set was supplied.
    InvalidThreshold,
}

impl LogError {
    /// The fixed description of this error kind.
    pub open spec fn description_spec(self) -> Seq<char> {
        match self {
            LogError::Init(_) => "Initialization"@,
            LogError::NotReady => "Not ready"@,
            LogError::InvalidThreshold => "Invalid threshold"@,
        }
    }

    /// A short fixed text describing this error kind.
    pub fn description(&self) -> (r: &'static str)
        ensures
            r@ == self.description_spec(),
    {
        match self {
            LogError::Init(_) => "Initialization",
            LogError::NotReady => "Not ready",
            LogError::InvalidThreshold => "Invalid threshold",
        }
    }
}

/// The mathematical state of the logging subsystem.
pub struct LogStateV {
    pub count: nat,
    pub inits: nat,
    pub teardowns: nat,
    pub threshold: Log,
    pub prog_name: Seq<char>,
    pub messages: Seq<Seq<char>>,
}

/// The process-wide logging subsystem state: the instance counter that the
/// lifecycle guard maintains, the threshold filter, and the message sink.
pub struct LogState {
    pub count: u32,
    pub inits: Ghost<nat>,
    pub teardowns: Ghost<nat>,
    pub threshold: Log,
    pub prog_name: String,
    pub messages: Vec<String>,
}

impl View for LogState {
    type V = LogStateV;

    open spec fn view(&self) -> LogStateV {
        LogStateV {
            count: self.count as nat,
            inits: self.inits@,
            teardowns: self.teardowns@,
            threshold: self.threshold,
            prog_name: self.prog_name@,
            messages: self.messages.deep_view(),
        }
    }
}

/// One guard acquisition: the counter rises by one, and the transition
/// from zero performs the one-time subsystem initialization.
pub open spec fn acquire_spec(v: LogStateV) -> LogStateV {
    LogStateV {
        count: v.count + 1,
        inits: if v.count == 0 { v.inits + 1 } else { v.inits },
        ..v
    }
}

/// One guard release: the counter falls by one, and the transition to
/// zero performs the subsystem teardown.
pub open spec fn release_spec(v: LogStateV) -> LogStateV
    recommends
        v.count >= 1,
{
    LogStateV {
        count: (v.count - 1) as nat,
        teardowns: if v.count == 1 { v.teardowns + 1 } else { v.teardowns },
        ..v
    }
}

/// One emission attempt at the given level: the message reaches the sink
/// exactly when the level passes the threshold filter.
pub open spec fn emit_spec(v: LogStateV, level: Log, message: Seq<char>) -> LogStateV {
    if level.passes(v.threshold) {
        LogStateV { messages: v.messages.push(message), ..v }
    } else {
        v
    }
}

/// Init and teardown stay paired: teardown has run exactly once per init
/// except for the init whose acquisition is still live.
pub open spec fn lifecycle_wf(v: LogStateV) -> bool {
    &&& v.count > 0 ==> v.inits == v.teardowns + 1
    &&& v.count == 0 ==> v.inits == v.teardowns
}

impl LogState {
    /// A fresh, never-acquired logging state with the default threshold.
    pub fn new() -> (r: LogState)
        ensures
            r@.count == 0,
            r@.inits == 0,
            r@.teardowns == 0,
            r@.threshold == Log::Warning,
            r@.messages == Seq::<Seq<char>>::empty(),
    {
        LogState {
            count: 0,
            inits: Ghost(0),
            teardowns: Ghost(0),
            threshold: Log::Warning,
            prog_name: String::new(),
            messages: Vec::new(),
        }
    }

    /// The most recent message that passed the filter, if any.
    pub fn last_message(&self) -> (r: Option<&String>)
        ensures
            self@.messages.len() == 0 ==> r is None,
            self@.messages.len() > 0 ==> {
                &&& r is Some
                &&& r->0@ == self@.messages.last()
            },
    {
        if self.messages.len() == 0 {
            None
        } else {
            Some(&self.messages[self.messages.len() - 1])
        }
    }
}

impl Log {
    /// The numeric urgency rank of this level: `Emerg` is 0, `Spew` is 8.
    pub open spec fn as_nat(self) -> nat {
        match self {
            Log::Emerg => 0,
            Log::Alert => 1,
            Log::Crit => 2,
            Log::Error => 3,
            Log::Warning => 4,
            Log::Notice => 5,
            Log::Info => 6,
            Log::Debug => 7,
            Log::Spew => 8,
        }
    }

    /// The level of the given numeric rank; values outside the enumerated
    /// range fall back to `Spew`, the least urgent level.
    pub open spec fn of_nat(n: nat) -> Log {
        if n == 0 {
            Log::Emerg
        } else if n == 1 {
            Log::Alert
        } else if n == 2 {
            Log::Crit
        } else if n == 3 {
            Log::Error
        } else if n == 4 {
            Log::Warning
        } else if n == 5 {
            Log::Notice
        } else if n == 6 {
            Log::Info
        } else if n == 7 {
            Log::Debug
        } else {
            Log::Spew
        }
    }

    /// A message at this level passes a filter set to `threshold` when it
    /// is at least as urgent as the threshold.
    pub open spec fn passes(self, threshold: Log) -> bool {
        self.as_nat() <= threshold.as_nat()
    }

    /// One step of `increase_verbosity`: one level toward `Spew`,
    /// saturating there.
    pub open spec fn inc_spec(self) -> Log {
        if self.as_nat() < 8 {
            Log::of_nat(self.as_nat() + 1)
        } else {
            Log::Spew
        }
    }

    /// The threshold after `n` verbosity increases from `self`.
    pub open spec fn inc_n_spec(self, n: nat) -> Log
        decreases n,
    {
        if n == 0 {
            self
        } else {
            self.inc_spec().inc_n_spec((n - 1) as nat)
        }
    }

    /// The numeric encoding of a level, as the underlying subsystem's
    /// level enumeration counts them.
    pub fn renum_to_cenum(threshold: Log) -> (r: u32)
        ensures
            r == threshold.as_nat(),
    {
        match threshold {
            Log::Emerg => 0,
            Log::Alert => 1,
            Log::Crit => 2,
            Log::Error => 3,
            Log::Warning => 4,
            Log::Notice => 5,
            Log::Info => 6,
            Log::Debug => 7,
            Log::Spew => 8,
        }
    }

    /// The level of a numeric encoding; unknown encodings are treated as
    /// `Spew`.
    pub fn cenum_to_renum(threshold: u32) -> (r: Log)
        ensures
            r == Log::of_nat(threshold as nat),
    {
        match threshold {
            0 => Log::Emerg,
            1 => Log::Alert,
            2 => Log::Crit,
            3 => Log::Error,
            4 => Log::Warning,
            5 => Log::Notice,
            6 => Log::Info,
            7 => Log::Debug,
            _ => Log::Spew,
        }
    }

    /// Initialize the logging system: one guard acquisition plus setting
    /// the threshold. Exactly one call to `drop` is expected for every
    /// call to this function. Always succeeds.
    pub fn init(st: &mut LogState, prog_name: &str, threshold: Log) -> (r: Result<(), LogError>)
        requires
            old(st).count < u32::MAX,
        ensures
            r is Ok,
            final(st)@ == (LogStateV {
                threshold,
                prog_name: if old(st)@.count == 0 { prog_name@ } else { old(st)@.prog_name },
                ..acquire_spec(old(st)@)
            }),
    {
        st.count = st.count + 1;
        if st.count == 1 {
            st.inits = Ghost(st.inits@ + 1);
            st.prog_name = prog_name.to_owned();
        }
        st.threshold = threshold;
        Ok(())
    }

    /// Attempt to emit a message at this level. Fails with `NotReady`
    /// while no guard is held; otherwise the message reaches the sink
    /// exactly when this level passes the threshold.
    pub fn log(self, st: &mut LogState, message: &str) -> (r: Result<(), LogError>)
        ensures
            old(st)@.count == 0 ==> r == Err::<(), LogError>(LogError::NotReady) && final(st)@
                == old(st)@,
            old(st)@.count > 0 ==> r is Ok && final(st)@ == emit_spec(old(st)@, self, message@),
    {
        if st.count < 1 {
            return Err(LogError::NotReady);
        }
        let level: u32 = Log::renum_to_cenum(self);
        let threshold: u32 = Log::renum_to_cenum(st.threshold);
        if level <= threshold {
            st.messages.push(message.to_owned());
            proof {
                assert(st.messages.deep_view() =~= old(st)@.messages.push(message@));
            }
        }
        Ok(())
    }

    /// Emit a message with a trailing newline appended.
    pub fn logln(self, st: &mut LogState, message: &str) -> (r: Result<(), LogError>)
        ensures
            old(st)@.count == 0 ==> r == Err::<(), LogError>(LogError::NotReady) && final(st)@
                == old(st)@,
            old(st)@.count > 0 ==> r is Ok && final(st)@ == emit_spec(
                old(st)@,
                self,
                message@ + seq!['\n'],
            ),
    {
        let mut line: String = message.to_owned();
        line.append("\n");
        proof {
            reveal_strlit("\n");
            assert(line@ =~= message@ + seq!['\n']);
        }
        self.log(st, line.as_str())
    }

    /// The current threshold of the logging system.
    pub fn get_threshold(st: &LogState) -> (r: Log)
        ensures
            r == st@.threshold,
    {
        st.threshold
    }

    /// Replace the current threshold. Always succeeds for any level.
    pub fn set_threshold(st: &mut LogState, threshold: Log) -> (r: Result<(), LogError>)
        ensures
            r is Ok,
            final(st)@ == (LogStateV { threshold, ..old(st)@ }),
    {
        st.threshold = threshold;
        Ok(())
    }

    /// Move the threshold one level toward `Spew`, saturating there.
    pub fn inc_threshold(st: &mut LogState)
        ensures
            final(st)@ == (LogStateV { threshold: old(st)@.threshold.inc_spec(), ..old(st)@ }),
    {
        let t: u32 = Log::renum_to_cenum(st.threshold);
        if t < 8 {
            let raised: Log = Log::cenum_to_renum(t + 1);
            st.threshold = raised;
        }
    }

    /// Shut down the logging system: one guard release. Exactly one call
    /// to this function is expected for every call to `init`.
    pub fn drop(st: &mut LogState)
        requires
            old(st).count >= 1,
        ensures
            final(st)@ == release_spec(old(st)@),
    {
        st.count = st.count - 1;
        if st.count == 0 {
            st.teardowns = Ghost(st.teardowns@ + 1);
        }
    }
}

impl From<u32> for Log {
    fn from(n: u32) -> (r: Log) {
        Log::cenum_to_renum(n)
    }
}

impl vstd::std_specs::convert::FromSpecImpl<u32> for Log {
    open spec fn obeys_from_spec() -> bool {
        true
    }

    open spec fn from_spec(t: u32) -> Log {
        Log::of_nat(t as nat)
    }
}

/// One more verbosity increase lands where stepping the result of the
/// previous ones lands.
pub proof fn lemma_inc_n_snoc(l: Log, n: nat)
    ensures
        l.inc_n_spec(n).inc_spec() == l.inc_n_spec(n + 1),
    decreases n,
{
    if n == 0 {
        reveal_with_fuel(Log::inc_n_spec, 2);
    } else {
        lemma_inc_n_snoc(l.inc_spec(), (n - 1) as nat);
    }
}

/// Verbosity increases never lower the threshold.
pub proof fn lemma_inc_n_monotone(l: Log, n: nat)
    ensures
        l.inc_n_spec(n).as_nat() >= l.as_nat(),
    decreases n,
{
    if n > 0 {
        lemma_inc_n_monotone(l.inc_spec(), (n - 1) as nat);
    }
}

/// Every sequence is a prefix of itself.
pub proof fn lemma_prefix_refl<A>(s: Seq<A>)
    ensures
        s.is_prefix_of(s),
{
    assert(s =~= s.subrange(0, s.len() as int));
}

/// A sequence is a prefix of itself with one element appended.
pub proof fn lemma_prefix_push<A>(s: Seq<A>, x: A)
    ensures
        s.is_prefix_of(s.push(x)),
{
    assert(s =~= s.push(x).subrange(0, s.len() as int));
}

/// Being a prefix carries across a middle sequence.
pub proof fn lemma_prefix_trans<A>(a: Seq<A>, b: Seq<A>, c: Seq<A>)
    requires
        a.is_prefix_of(b),
        b.is_prefix_of(c),
    ensures
        a.is_prefix_of(c),
{
    assert(a =~= c.subrange(0, a.len() as int));
}

/// An emission attempt keeps the old sink as a prefix.
pub proof fn lemma_emit_prefix(v: LogStateV, level: Log, m: Seq<char>)
    ensures
        v.messages.is_prefix_of(emit_spec(v, level, m).messages),
{
    if level.as_nat() <= v.threshold.as_nat() {
        lemma_prefix_push(v.messages, m);
    } else {
        lemma_prefix_refl(v.messages);
    }
}

/// Repeated verbosity increase saturates at `Spew` and never moves past it.
pub proof fn lemma_inc_spew_fixed(n: nat)
    ensures
        Log::Spew.inc_n_spec(n) == Log::Spew,
    decreases n,
{
    if n > 0 {
        lemma_inc_spew_fixed((n - 1) as nat);
    }
}

/// From `Warning`, the threshold reaches `Spew` after exactly four
/// verbosity increases (`Warning -> Notice -> Info -> Debug -> Spew`), and
/// any further increase is a no-op.
pub proof fn lemma_verbosity_from_warning(n: nat)
    ensures
        Log::Warning.inc_n_spec(n) == Log::Spew <==> n >= 4,
{
    if n >= 4 {
        assert(Log::Warning.inc_n_spec(n) == Log::Notice.inc_n_spec((n - 1) as nat));
        assert(Log::Notice.inc_n_spec((n - 1) as nat) == Log::Info.inc_n_spec((n - 2) as nat));
        assert(Log::Info.inc_n_spec((n - 2) as nat) == Log::Debug.inc_n_spec((n - 3) as nat));
        assert(Log::Debug.inc_n_spec((n - 3) as nat) == Log::Spew.inc_n_spec((n - 4) as nat));
        lemma_inc_spew_fixed((n - 4) as nat);
    } else {
        if n == 1 {
            assert(Log::Warning.inc_n_spec(1) == Log::Notice.inc_n_spec(0));
        } else if n == 2 {
            assert(Log::Warning.inc_n_spec(2) == Log::Notice.inc_n_spec(1));
            assert(Log::Notice.inc_n_spec(1) == Log::Info.inc_n_spec(0));
        } else if n == 3 {
            assert(Log::Warning.inc_n_spec(3) == Log::Notice.inc_n_spec(2));
            assert(Log::Notice.inc_n_spec(2) == Log::Info.inc_n_spec(1));
            assert(Log::Info.inc_n_spec(1) == Log::Debug.inc_n_spec(0));
        }
    }
}

} // verus!
