//! Command resolution and dispatch for a platform capability tree, with
//! the severity-filtered logging subsystem the dispatcher reports through
//! and the lifecycle guard that gates its one-time initialization.
//!
//! The hardware side is an outside collaborator: platform detection is
//! reached through the `PlatformProvider` trait, leaf execution through the
//! `Invoker` trait, so the core works on plain data and its behaviour is
//! stated against the resolution model in `dispatch`.

pub mod dispatch;
pub mod lifecycle;
pub mod logging;
pub mod optparse;
pub mod platform;
pub mod tree;

use vstd::prelude::*;

use crate::dispatch::dispatch;
use crate::dispatch::dispatch_post;
use crate::dispatch::invocation_report;
use crate::dispatch::log_extended;
use crate::dispatch::resolve_level;
use crate::dispatch::tail_of;
use crate::dispatch::warning_reported;
use crate::dispatch::DispatchOutcome;
use crate::dispatch::InvokeEvent;
use crate::dispatch::Invoker;
use crate::logging::acquire_spec;
use crate::logging::emit_spec;
use crate::logging::Log;
use crate::logging::LogError;
use crate::logging::LogState;
use crate::logging::LogStateV;
use crate::platform::Globals;
use crate::platform::GlobalsV;
use crate::platform::KvPairStyle;
use crate::platform::PlatformProvider;
use crate::platform::ProviderEvent;
use crate::tree::CapabilityTree;

verus! {

use vstd::string::StringExecFns;

/// Everything a run of the front end can fail with.
#[derive(Debug)]
pub enum MosysError {
    /// The command line did not parse; the text is the parser's message.
    Flag(String),
    /// The logging subsystem failed.
    Log(LogError),
    /// The user asked for help; not a fault.
    Help,
    /// No command was given and no default applied.
    NoCommands,
    /// The platform defines no commands at all.
    NoCommandsDefined,
    /// Listing the supported platforms returned a nonzero status.
    NonzeroPlatformListRet,
    /// Taking the machine-wide lock failed.
    AcqLockFail,
    /// The platform could not be identified or is not supported.
    PlatformNotSupported,
    /// No command of that name exists at the resolved level.
    CommandNotSupported,
    /// A group was resolved but no further token selects a child.
    NotEnoughSubcommands,
    /// The resolved leaf ran and returned the given nonzero status.
    SubcommandFunctionError(i32),
    /// The resolved leaf has no operation attached.
    SubcommandFunctionUndefined,
}

impl MosysError {
    /// The fixed description of this error kind.
    pub open spec fn description_spec(self) -> Seq<char> {
        match self {
            MosysError::Flag(_) => "Flag error"@,
            MosysError::Log(_) => "Logging error"@,
            MosysError::Help => "Requested help"@,
            MosysError::NoCommands => "No commands given"@,
            MosysError::NoCommandsDefined => "No commands defined for platform"@,
            MosysError::NonzeroPlatformListRet => "Platform list failed"@,
            MosysError::AcqLockFail => "Aquiring global, system lock failed"@,
            MosysError::PlatformNotSupported => "Platform not supported"@,
            MosysError::CommandNotSupported => "Command not supported on this platform"@,
            MosysError::NotEnoughSubcommands => "Not enough subcommands were given"@,
            MosysError::SubcommandFunctionError(_) => "Subcommand execution finished with an error"@,
            MosysError::SubcommandFunctionUndefined => "Subcommand doesn't have a defined function"@,
        }
    }

    /// A short fixed text describing this error kind.
    pub fn description(&self) -> (r: &'static str)
        ensures
            r@ == self.description_spec(),
    {
        match self {
            MosysError::Flag(_) => "Flag error",
            MosysError::Log(_) => "Logging error",
            MosysError::Help => "Requested help",
            MosysError::NoCommands => "No commands given",
            MosysError::NoCommandsDefined => "No commands defined for platform",
            MosysError::NonzeroPlatformListRet => "Platform list failed",
            MosysError::AcqLockFail => "Aquiring global, system lock failed",
            MosysError::PlatformNotSupported => "Platform not supported",
            MosysError::CommandNotSupported => "Command not supported on this platform",
            MosysError::NotEnoughSubcommands => "Not enough subcommands were given",
            MosysError::SubcommandFunctionError(_) => "Subcommand execution finished with an error",
            MosysError::SubcommandFunctionUndefined => "Subcommand doesn't have a defined function",
        }
    }
}

impl From<LogError> for MosysError {
    fn from(err: LogError) -> (r: MosysError) {
        MosysError::Log(err)
    }
}

impl vstd::std_specs::convert::FromSpecImpl<LogError> for MosysError {
    open spec fn obeys_from_spec() -> bool {
        true
    }

    open spec fn from_spec(t: LogError) -> MosysError {
        MosysError::Log(t)
    }
}

/// The plain values one parsed command line amounts to.
#[derive(Debug)]
pub struct RunOptions {
    /// Help was asked for on the command line itself.
    pub help: bool,
    /// How many times the verbosity flag was given.
    pub verbose: usize,
    /// The single key whose value is to be reported, if one was named.
    pub single_key: Option<String>,
    /// Key=value output was asked for.
    pub keyvalue: bool,
    /// Long-format output was asked for.
    pub long_format: bool,
    /// Displaying the platform's command tree was asked for.
    pub tree_display: bool,
    /// Listing the supported platforms was asked for.
    pub supported: bool,
    /// The platform-id override, if one was named.
    pub platform: Option<String>,
    /// The positional tokens forming the command chain.
    pub free: Vec<String>,
    /// The usage banner derived from the defined options.
    pub usage: String,
}

/// The mathematical image of one parsed command line.
pub struct RunOptionsV {
    pub help: bool,
    pub verbose: usize,
    pub single_key: Option<Seq<char>>,
    pub keyvalue: bool,
    pub long_format: bool,
    pub tree_display: bool,
    pub supported: bool,
    pub platform: Option<Seq<char>>,
    pub free: Seq<Seq<char>>,
    pub usage: Seq<char>,
}

impl View for RunOptions {
    type V = RunOptionsV;

    open spec fn view(&self) -> RunOptionsV {
        RunOptionsV {
            help: self.help,
            verbose: self.verbose,
            single_key: self.single_key.deep_view(),
            keyvalue: self.keyvalue,
            long_format: self.long_format,
            tree_display: self.tree_display,
            supported: self.supported,
            platform: self.platform.deep_view(),
            free: self.free.deep_view(),
            usage: self.usage@,
        }
    }
}

/// The option names the front end defines: the short and long name of
/// every flag `Mosys::new` registers.
pub open spec fn mosys_option_names() -> Set<Seq<char>> {
    Set::<Seq<char>>::empty().insert("k"@).insert("keyvalue"@).insert("l"@).insert(
        "long"@,
    ).insert("s"@).insert("singlekey"@).insert("v"@).insert("verbose"@).insert("t"@).insert(
        "tree"@,
    ).insert("S"@).insert("supported"@).insert("p"@).insert("platform"@).insert("h"@).insert(
        "help"@,
    ).insert("f"@).insert("force"@)
}

/// The brief line the usage banner opens with.
pub open spec fn brief_of(program: Seq<char>) -> Seq<char> {
    "Usage: "@ + program + " [options] {commands}"@
}

/// The parsed command line a parse result amounts to, read through the
/// front end's option names, together with the given usage banner.
pub open spec fn extraction(m: getopts::Matches, usage: Seq<char>) -> RunOptionsV {
    RunOptionsV {
        help: optparse::present_in(m, "h"@),
        verbose: optparse::count_in(m, "v"@),
        single_key: optparse::arg_in(m, "s"@),
        keyvalue: optparse::present_in(m, "k"@),
        long_format: optparse::present_in(m, "l"@),
        tree_display: optparse::present_in(m, "t"@),
        supported: optparse::present_in(m, "S"@),
        platform: optparse::arg_in(m, "p"@),
        free: optparse::free_of(m),
        usage,
    }
}

/// The key/value style one parsed command line selects, given the style
/// already in force.
pub open spec fn style_spec(o: RunOptionsV, prior: KvPairStyle) -> KvPairStyle {
    if o.single_key is Some {
        KvPairStyle::Single
    } else if o.keyvalue {
        KvPairStyle::Pair
    } else if o.long_format {
        KvPairStyle::Long
    } else {
        prior
    }
}

/// The errors a dispatch can surface through the front end.
pub open spec fn is_dispatch_error(e: MosysError) -> bool {
    ||| e is Help
    ||| e is NoCommandsDefined
    ||| e is NotEnoughSubcommands
    ||| e is CommandNotSupported
    ||| e is SubcommandFunctionError
}

/// The dispatch outcome a front-end result stands for.
pub open spec fn outcome_of_result(r: Result<(), MosysError>) -> DispatchOutcome {
    match r {
        Ok(_) => DispatchOutcome::Success,
        Err(e) => match e {
            MosysError::Help => DispatchOutcome::Help,
            MosysError::NoCommandsDefined => DispatchOutcome::NoCommandsDefined,
            MosysError::NotEnoughSubcommands => DispatchOutcome::NotEnoughSubcommands,
            MosysError::SubcommandFunctionError(code) => DispatchOutcome::LeafError(code),
            _ => DispatchOutcome::CommandNotSupported,
        },
    }
}

/// The errors a run with a successfully parsed command line can surface.
pub open spec fn is_run_parsed_error(e: MosysError) -> bool {
    ||| e is NonzeroPlatformListRet
    ||| e is PlatformNotSupported
    ||| is_dispatch_error(e)
}

/// The errors a whole front-end run can surface.
pub open spec fn is_run_error(e: MosysError) -> bool {
    ||| e is Flag
    ||| is_run_parsed_error(e)
}

/// A run only appends to the message sink and only raises the threshold;
/// the counter and lifecycle bookkeeping stay as they were.
pub open spec fn log_monotone(v0: LogStateV, v1: LogStateV) -> bool {
    &&& v1.count == v0.count
    &&& v1.inits == v0.inits
    &&& v1.teardowns == v0.teardowns
    &&& v1.prog_name == v0.prog_name
    &&& v0.messages.is_prefix_of(v1.messages)
    &&& v1.threshold.as_nat() >= v0.threshold.as_nat()
}

/// One front-end instance: the program name and arguments it was started
/// with, its option set, and the output settings its run selects.
#[derive(Debug)]
pub struct Mosys {
    pub program: String,
    pub args: Vec<String>,
    pub opts: getopts::Options,
    pub style: KvPairStyle,
    pub single_key: Option<String>,
    pub platform_override: Option<String>,
}

/// The mathematical image of a front-end instance; the option set stays
/// opaque and is spoken of through `defined_names`.
pub struct MosysV {
    pub program: Seq<char>,
    pub args: Seq<Seq<char>>,
    pub style: KvPairStyle,
    pub single_key: Option<Seq<char>>,
    pub platform_override: Option<Seq<char>>,
}

impl View for Mosys {
    type V = MosysV;

    open spec fn view(&self) -> MosysV {
        MosysV {
            program: self.program@,
            args: self.args.deep_view(),
            style: self.style,
            single_key: self.single_key.deep_view(),
            platform_override: self.platform_override.deep_view(),
        }
    }
}

/// Everything one run with a successfully parsed command line `o` does,
/// relating the front end, logging state, shared settings, provider
/// events, output lines and invoker events before and after to the
/// result.
pub open spec fn run_parsed_post(
    o: RunOptionsV,
    m0: MosysV,
    m1: MosysV,
    st0: LogStateV,
    st1: LogStateV,
    g0: GlobalsV,
    g1: GlobalsV,
    pe0: Seq<ProviderEvent>,
    pe1: Seq<ProviderEvent>,
    out0: Seq<Seq<char>>,
    out1: Seq<Seq<char>>,
    ev0: Seq<InvokeEvent>,
    ev1: Seq<InvokeEvent>,
    r: Result<(), MosysError>,
) -> bool {
    let raised = st0.threshold.inc_n_spec(o.verbose as nat);
    &&& log_monotone(st0, st1)
    &&& (r matches Err(e) ==> is_run_parsed_error(e))
    &&& m1.program == m0.program
    &&& m1.args == m0.args
    &&& (o.help ==> {
        &&& r == Err::<(), MosysError>(MosysError::Help)
        &&& out1 == out0.push(o.usage)
        &&& st1 == st0
        &&& ev1 == ev0
        &&& pe1 == pe0
        &&& g1 == g0
        &&& m1 == m0
    })
    &&& (!o.help ==> st1.threshold == raised)
    &&& (!o.help ==> {
        &&& m1.style == style_spec(o, m0.style)
        &&& g1.kv_style == style_spec(o, m0.style)
        &&& (o.single_key matches Some(k) ==> g1.single_key == Some(k) && m1.single_key == Some(
            k,
        ))
        &&& (o.single_key is None ==> g1.single_key == g0.single_key && m1.single_key
            == m0.single_key)
    })
    &&& (!o.help && !o.supported ==> m1.platform_override == o.platform)
    &&& (!o.help && o.supported ==> {
        &&& ev1 == ev0
        &&& out1 == out0
        &&& (exists|s: i32| #![auto]
            pe1 == pe0.push(ProviderEvent::Listed(s)) && ((r is Ok) <==> s == 0))
        &&& (r is Ok || r == Err::<(), MosysError>(MosysError::NonzeroPlatformListRet))
    })
    &&& (!o.help && !o.supported ==> {
        &&& pe0.len() < pe1.len()
        &&& (exists|ok: bool| #![auto]
            pe1[pe0.len() as int] == ProviderEvent::Resolved(o.platform, ok))
    })
    &&& (!o.help && !o.supported && pe0.len() < pe1.len() && pe1[pe0.len() as int]
        == ProviderEvent::Resolved(o.platform, false) ==> {
        &&& r == Err::<(), MosysError>(MosysError::PlatformNotSupported)
        &&& pe1 == pe0.push(ProviderEvent::Resolved(o.platform, false))
        &&& out1 == out0
        &&& ev1 == ev0
        &&& st1 == emit_spec(
            (LogStateV { threshold: raised, ..st0 }),
            Log::Error,
            "Platform not supported"@ + seq!['\n'],
        )
    })
    &&& (!o.help && !o.supported && o.tree_display && pe0.len() < pe1.len() && pe1[pe0.len() as int]
        == ProviderEvent::Resolved(o.platform, true) ==> {
        &&& r is Ok
        &&& ev1 == ev0
        &&& out1 == out0
    })
    &&& (!o.help && !o.supported && !o.tree_display && pe0.len() < pe1.len() && pe1[pe0.len() as int]
        == ProviderEvent::Resolved(o.platform, true) ==> (r is Ok || (r matches Err(e)
        && is_dispatch_error(e))))
    &&& (r == Err::<(), MosysError>(MosysError::CommandNotSupported) ==> (Log::Warning.passes(
        raised,
    ) ==> st1.messages.len() > st0.messages.len() && st1.messages.last() == "Command not found"@
        + seq!['\n']))
    &&& (r matches Err(MosysError::SubcommandFunctionError(_)) ==> (Log::Warning.passes(raised)
        ==> st1.messages.len() > st0.messages.len() && st1.messages.last() == invocation_report(
        m0.args,
    ) + seq!['\n']))
}

impl Mosys {
    /// A new front-end instance over the given command line: the first
    /// argument is the program name, the rest are kept for `run`, and the
    /// front end's option set is defined. Acquires the logging lifecycle
    /// once; `drop` releases it.
    pub fn new(args: &Vec<String>, st: &mut LogState) -> (r: Result<Mosys, MosysError>)
        requires
            args@.len() >= 1,
            old(st).count < u32::MAX,
        ensures
            r matches Ok(m) ==> {
                &&& m.program@ == args.deep_view()[0]
                &&& m.args.deep_view() == args.deep_view().drop_first()
                &&& optparse::defined_names(m.opts) == mosys_option_names()
                &&& m.style == KvPairStyle::Value
                &&& m.single_key is None
                &&& m.platform_override is None
            },
            r is Ok,
            final(st)@ == (LogStateV {
                threshold: Log::Warning,
                prog_name: if old(st)@.count == 0 {
                    "mosys"@
                } else {
                    old(st)@.prog_name
                },
                ..acquire_spec(old(st)@)
            }),
    {
        let _ = Log::init(st, "mosys", Log::Warning);
        let program: String = args[0].clone();
        let rest: Vec<String> = tail_of(args, 1);
        proof {
            assert(args.deep_view().skip(1) =~= args.deep_view().drop_first());
        }
        let mut opts: getopts::Options = optparse::options_new();
        proof {
            reveal_strlit("k");
            reveal_strlit("keyvalue");
            reveal_strlit("l");
            reveal_strlit("long");
            reveal_strlit("s");
            reveal_strlit("singlekey");
            reveal_strlit("v");
            reveal_strlit("verbose");
            reveal_strlit("t");
            reveal_strlit("tree");
            reveal_strlit("S");
            reveal_strlit("supported");
            reveal_strlit("p");
            reveal_strlit("platform");
            reveal_strlit("h");
            reveal_strlit("help");
            reveal_strlit("f");
            reveal_strlit("force");
        }
        optparse::optflag(&mut opts, "k", "keyvalue", "print data in key=value format");
        optparse::optflag(&mut opts, "l", "long", "print data in long format");
        optparse::optopt(&mut opts, "s", "singlekey", "print value for single key", "[key]");
        optparse::optflagmulti(&mut opts, "v", "verbose", "verbose (can be used multiple times)");
        optparse::optflag(&mut opts, "t", "tree", "display command tree for detected platform");
        optparse::optflag(&mut opts, "S", "supported", "print supported platform ID's");
        optparse::optopt(
            &mut opts,
            "p",
            "platform",
            "specify platform id (bypass auto-detection)",
            "[id]",
        );
        optparse::optflag(&mut opts, "h", "help", "print this help");
        optparse::optflag(&mut opts, "f", "force", "force platform detection");
        Ok(
            Mosys {
                program,
                args: rest,
                opts,
                style: KvPairStyle::Value,
                single_key: None,
                platform_override: None,
            },
        )
    }

    /// Release this instance's hold on the logging lifecycle.
    pub fn drop(self, st: &mut LogState)
        requires
            old(st).count >= 1,
        ensures
            final(st)@ == crate::logging::release_spec(old(st)@),
    {
        Log::drop(st);
    }

    /// The usage banner for this instance's program name and the given
    /// option set.
    pub fn usage_text(&self, opts: &getopts::Options) -> (r: String)
        ensures
            r@ == optparse::usage_of(*opts, brief_of(self.program@)),
    {
        let mut brief: String = "Usage: ".to_owned();
        brief.append(self.program.as_str());
        brief.append(" [options] {commands}");
        let text: String = optparse::usage(opts, brief.as_str());
        proof {
            assert(brief@ =~= brief_of(self.program@));
        }
        text
    }

    /// Push the usage banner onto the output lines.
    pub fn print_usage(&self, opts: &getopts::Options, out: &mut Vec<String>)
        ensures
            final(out).deep_view() == old(out).deep_view().push(
                optparse::usage_of(*opts, brief_of(self.program@)),
            ),
    {
        let text: String = self.usage_text(opts);
        out.push(text);
        proof {
            assert(final(out).deep_view() =~= old(out).deep_view().push(
                optparse::usage_of(*opts, brief_of(self.program@)),
            ));
        }
    }

    /// Run the front end: parse the command line against this instance's
    /// option set, then carry the parsed options out against the
    /// provider's platform. A `Flag` error comes exactly when the
    /// arguments do not parse, and then nothing has been touched; on a
    /// successful parse the run does to every component what
    /// `run_parsed_post` says of the extracted values.
    pub fn run<P: PlatformProvider, I: Invoker>(
        &mut self,
        st: &mut LogState,
        globals: &mut Globals,
        provider: &mut P,
        inv: &mut I,
        out: &mut Vec<String>,
    ) -> (r: Result<(), MosysError>)
        requires
            old(st).count >= 1,
            optparse::defined_names(old(self).opts) == mosys_option_names(),
        ensures
            log_monotone(old(st)@, final(st)@),
            r matches Err(e) ==> is_run_error(e),
            final(self).opts == old(self).opts,
            (r matches Err(MosysError::Flag(_))) <==> !optparse::parse_ok(
                old(self).opts,
                old(self).args.deep_view(),
            ),
            !optparse::parse_ok(old(self).opts, old(self).args.deep_view()) ==> {
                &&& final(self)@ == old(self)@
                &&& final(st)@ == old(st)@
                &&& *final(globals) == *old(globals)
                &&& final(provider).events() == old(provider).events()
                &&& final(inv).events() == old(inv).events()
                &&& final(out).deep_view() == old(out).deep_view()
            },
            optparse::parse_ok(old(self).opts, old(self).args.deep_view()) ==> (exists|
                m: getopts::Matches,
            |
                {
                    &&& (#[trigger] optparse::parsed(
                        old(self).opts,
                        old(self).args.deep_view(),
                        m,
                    ))
                    &&& run_parsed_post(
                        extraction(
                            m,
                            optparse::usage_of(old(self).opts, brief_of(old(self).program@)),
                        ),
                        old(self)@,
                        final(self)@,
                        old(st)@,
                        final(st)@,
                        old(globals)@,
                        final(globals)@,
                        old(provider).events(),
                        final(provider).events(),
                        old(out).deep_view(),
                        final(out).deep_view(),
                        old(inv).events(),
                        final(inv).events(),
                        r,
                    )
                }),
    {
        let matches: getopts::Matches = match optparse::parse_args(&self.opts, &self.args) {
            Ok(m) => m,
            Err(msg) => {
                proof {
                    crate::logging::lemma_prefix_refl(old(st)@.messages);
                }
                return Err(MosysError::Flag(msg));
            },
        };
        let usage: String = self.usage_text(&self.opts);
        let ro = RunOptions {
            help: optparse::opt_present(&matches, "h"),
            verbose: optparse::opt_count(&matches, "v"),
            single_key: optparse::opt_str(&matches, "s"),
            keyvalue: optparse::opt_present(&matches, "k"),
            long_format: optparse::opt_present(&matches, "l"),
            tree_display: optparse::opt_present(&matches, "t"),
            supported: optparse::opt_present(&matches, "S"),
            platform: optparse::opt_str(&matches, "p"),
            free: optparse::free_args(&matches),
            usage,
        };
        proof {
            assert(ro@.single_key == optparse::arg_in(matches, "s"@));
            assert(ro@.platform == optparse::arg_in(matches, "p"@));
            assert(ro@ == extraction(
                matches,
                optparse::usage_of(old(self).opts, brief_of(old(self).program@)),
            ));
        }
        let r = self.run_parsed(ro, st, globals, provider, inv, out);
        proof {
            assert(optparse::parsed(old(self).opts, old(self).args.deep_view(), matches));
        }
        r
    }

    /// Carry one parsed command line out: help short-circuits; otherwise
    /// the threshold is raised once per verbosity flag, the key/value
    /// style is selected and pushed to the shared settings, and the run
    /// proceeds to the platform listing, the tree display, or the
    /// dispatch of the positional tokens. The whole behaviour is
    /// `run_parsed_post` of the given options.
    pub fn run_parsed<P: PlatformProvider, I: Invoker>(
        &mut self,
        o: RunOptions,
        st: &mut LogState,
        globals: &mut Globals,
        provider: &mut P,
        inv: &mut I,
        out: &mut Vec<String>,
    ) -> (r: Result<(), MosysError>)
        requires
            old(st).count >= 1,
        ensures
            final(self).opts == old(self).opts,
            run_parsed_post(
                o@,
                old(self)@,
                final(self)@,
                old(st)@,
                final(st)@,
                old(globals)@,
                final(globals)@,
                old(provider).events(),
                final(provider).events(),
                old(out).deep_view(),
                final(out).deep_view(),
                old(inv).events(),
                final(inv).events(),
                r,
            ),
    {
        if o.help {
            out.push(o.usage);
            proof {
                assert(final(out).deep_view() =~= old(out).deep_view().push(o@.usage));
                crate::logging::lemma_prefix_refl(old(st)@.messages);
            }
            return Err(MosysError::Help);
        }
        let mut i: usize = 0;
        while i < o.verbose
            invariant
                i <= o.verbose,
                st@ == (LogStateV {
                    threshold: old(st)@.threshold.inc_n_spec(i as nat),
                    ..old(st)@
                }),
            decreases o.verbose - i,
        {
            Log::inc_threshold(st);
            proof {
                crate::logging::lemma_inc_n_snoc(old(st)@.threshold, i as nat);
            }
            i = i + 1;
        }
        proof {
            assert(st@ == (LogStateV {
                threshold: old(st)@.threshold.inc_n_spec(o@.verbose as nat),
                ..old(st)@
            }));
            crate::logging::lemma_inc_n_monotone(old(st)@.threshold, o@.verbose as nat);
            crate::logging::lemma_prefix_refl(old(st)@.messages);
        }
        let style: KvPairStyle = match &o.single_key {
            Some(k) => {
                let key: String = k.clone();
                self.single_key = Some(key.clone());
                globals.set_single_key(key);
                KvPairStyle::Single
            },
            None => {
                if o.keyvalue {
                    KvPairStyle::Pair
                } else if o.long_format {
                    KvPairStyle::Long
                } else {
                    self.style
                }
            },
        };
        self.style = style;
        globals.set_kv_pair_style(style);
        if o.supported {
            let status: i32 = provider.print_platforms();
            if status == 0 {
                return Ok(());
            } else {
                return Err(MosysError::NonzeroPlatformListRet);
            }
        }
        self.platform_override = match &o.platform {
            Some(p) => Some(p.clone()),
            None => None,
        };
        let tree: CapabilityTree = match provider.resolve(&o.platform) {
            Ok(t) => t,
            Err(_) => {
                let ghost pre = st@;
                let _ = Log::Error.logln(st, "Platform not supported");
                proof {
                    crate::logging::lemma_emit_prefix(
                        pre,
                        Log::Error,
                        "Platform not supported"@ + seq!['\n'],
                    );
                    crate::logging::lemma_prefix_trans(
                        old(st)@.messages,
                        pre.messages,
                        st@.messages,
                    );
                }
                return Err(MosysError::PlatformNotSupported);
            },
        };
        let mut platform_line: String = "Platform: ".to_owned();
        platform_line.append(tree.name.as_str());
        let ghost pre = st@;
        let _ = Log::Debug.logln(st, platform_line.as_str());
        proof {
            crate::logging::lemma_emit_prefix(pre, Log::Debug, platform_line@ + seq!['\n']);
            crate::logging::lemma_prefix_trans(old(st)@.messages, pre.messages, st@.messages);
        }
        if o.tree_display {
            provider.print_tree(&tree);
            return Ok(());
        }
        let ghost before_tree = st@;
        let r = Self::run_on_tree(&tree, &o.free, o.usage.as_str(), &self.args, inv, st, out);
        proof {
            crate::logging::lemma_prefix_trans(
                old(st)@.messages,
                before_tree.messages,
                st@.messages,
            );
        }
        r
    }

    /// Dispatch the tokens against a platform's capability tree and map
    /// the outcome onto the front end's result: `Success` is `Ok`, every
    /// other terminal state is the corresponding error, and a platform
    /// without commands is rejected before any dispatch. `invocation` is
    /// the full original argument vector, reported in the warning that a
    /// failing leaf logs.
    pub fn run_on_tree<I: Invoker>(
        tree: &CapabilityTree,
        tokens: &Vec<String>,
        usage: &str,
        invocation: &Vec<String>,
        inv: &mut I,
        st: &mut LogState,
        out: &mut Vec<String>,
    ) -> (r: Result<(), MosysError>)
        requires
            old(st).count >= 1,
        ensures
            log_extended(old(st)@, final(st)@),
            r matches Err(e) ==> is_dispatch_error(e),
            tree.root@.len() == 0 ==> {
                &&& r == Err::<(), MosysError>(MosysError::NoCommandsDefined)
                &&& final(st)@ == old(st)@
                &&& final(out).deep_view() == old(out).deep_view()
                &&& final(inv).events() == old(inv).events()
            },
            tree.root@.len() > 0 ==> dispatch_post(
                resolve_level(tree.root@, tokens.deep_view(), true),
                usage@,
                old(out).deep_view(),
                final(out).deep_view(),
                old(inv).events(),
                final(inv).events(),
                outcome_of_result(r),
            ),
            r == Err::<(), MosysError>(MosysError::CommandNotSupported) ==> warning_reported(
                old(st)@,
                final(st)@,
                "Command not found"@,
            ),
            r matches Err(MosysError::SubcommandFunctionError(_)) ==> warning_reported(
                old(st)@,
                final(st)@,
                invocation_report(invocation.deep_view()),
            ),
    {
        if tree.root.len() == 0 {
            return Err(MosysError::NoCommandsDefined);
        }
        let outcome: DispatchOutcome = dispatch(tree, tokens, usage, invocation, inv, st, out);
        match outcome {
            DispatchOutcome::Success => {
                let _ = Log::Debug.logln(st, "Completed successfully");
                Ok(())
            },
            DispatchOutcome::Help => Err(MosysError::Help),
            DispatchOutcome::NoCommandsDefined => Err(MosysError::NoCommandsDefined),
            DispatchOutcome::NotEnoughSubcommands => Err(MosysError::NotEnoughSubcommands),
            DispatchOutcome::CommandNotSupported => Err(MosysError::CommandNotSupported),
            DispatchOutcome::LeafError(code) => Err(MosysError::SubcommandFunctionError(code)),
        }
    }
}

} // verus!
