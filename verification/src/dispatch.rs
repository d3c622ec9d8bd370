//! Resolution of a token sequence against a capability tree, and dispatch
//! of the resolved command.
//!
//! `resolve_level` is the mathematical model: it says, for every level of
//! the tree and every token sequence, which terminal state a dispatch
//! reaches, which level is listed on the way out, and which invocable runs
//! with which remaining arguments. The executable dispatcher is proved to
//! follow that model exactly; the properties of the resolution algorithm
//! (case insensitivity, help listings, exact-chain invocation) are proved
//! about the model itself.

use vstd::prelude::*;

use crate::logging::Log;
use crate::logging::LogState;
use crate::logging::LogStateV;
use crate::tree::commands_header;
use crate::tree::fold_name;
use crate::tree::help_key;
use crate::tree::is_help;
use crate::tree::list_subcommands;
use crate::tree::listing_lines;
use crate::tree::listing_of;
use crate::tree::names_match;
use crate::tree::CapabilityTree;
use crate::tree::Command;
use crate::tree::CommandKind;

verus! {

use vstd::string::StringExecFns;

/// A terminal state of one dispatch call.
#[derive(Clone, Copy, Debug, PartialEq, Eq, Structural)]
pub enum DispatchOutcome {
    /// The resolved leaf ran and returned status zero.
    Success,
    /// The user asked for help; a listing or usage text was produced.
    Help,
    /// A group required to have children has none.
    NoCommandsDefined,
    /// A group was resolved but no further token selects a child.
    NotEnoughSubcommands,
    /// No sibling of the current level matches the current token.
    CommandNotSupported,
    /// The resolved leaf ran and returned the given nonzero status.
    LeafError(i32),
}

/// What a token sequence resolves to against one level of the tree: the
/// terminal state, the level listed on the way out, and for leaves the
/// invocable and its remaining arguments.
pub enum Resolution {
    /// Help was requested: the given level is listed, with the usage
    /// banner above it at the top level.
    Help(Seq<(Seq<char>, Seq<char>)>, bool),
    /// The token after a resolved leaf asks for that leaf's own usage.
    LeafUsage(u64),
    /// A leaf was resolved: its invocable runs once with the remaining
    /// tokens.
    Invoke(u64, Seq<Seq<char>>),
    /// The matched group has no children at the point of required descent.
    NoCommandsDefined,
    /// A group was resolved with no further token: its children are
    /// listed.
    NotEnoughSubcommands(Seq<(Seq<char>, Seq<char>)>),
    /// No sibling matched: the level is listed as a help side effect, with
    /// the usage banner at the top level.
    CommandNotSupported(Seq<(Seq<char>, Seq<char>)>, bool),
}

/// The index of the first command at or after `i` whose folded name is
/// `key`, in declared order.
pub open spec fn find_from(cmds: Seq<Command>, key: Seq<u32>, i: int) -> Option<int>
    decreases cmds.len() - i,
{
    if i < 0 || i >= cmds.len() {
        None::<int>
    } else if fold_name(cmds[i].name@) == key {
        Some(i)
    } else {
        find_from(cmds, key, i + 1)
    }
}

/// Resolve a token sequence against one level of commands. At the top
/// level an empty sequence means an implied `help`; below the top it means
/// the group resolved with nothing to select a child.
pub open spec fn resolve_level(cmds: Seq<Command>, tokens: Seq<Seq<char>>, top: bool) -> Resolution
    decreases tokens.len(), 0nat,
{
    if tokens.len() == 0 {
        if top {
            Resolution::Help(listing_of(cmds), true)
        } else {
            Resolution::NotEnoughSubcommands(listing_of(cmds))
        }
    } else if fold_name(tokens[0]) == help_key() {
        Resolution::Help(listing_of(cmds), top)
    } else {
        match find_from(cmds, fold_name(tokens[0]), 0) {
            None => Resolution::CommandNotSupported(listing_of(cmds), top),
            Some(i) => resolve_cmd(cmds[i], tokens.drop_first()),
        }
    }
}

/// Resolve the tokens that remain after a command's own name matched.
pub open spec fn resolve_cmd(cmd: Command, tokens: Seq<Seq<char>>) -> Resolution
    decreases tokens.len(), 1nat,
{
    match cmd.kind {
        CommandKind::Leaf(id) => {
            if tokens.len() > 0 && fold_name(tokens[0]) == help_key() {
                Resolution::LeafUsage(id)
            } else {
                Resolution::Invoke(id, tokens)
            }
        },
        CommandKind::Group(children) => {
            if children@.len() == 0 {
                Resolution::NoCommandsDefined
            } else {
                resolve_level(children@, tokens, false)
            }
        },
    }
}

/// One recorded interaction with the front end's invocables.
pub enum InvokeEvent {
    /// The invocable `id` ran with the given arguments and returned the
    /// given status.
    Invoked(u64, Seq<Seq<char>>, i32),
    /// The invocable `id` printed its own usage.
    Usage(u64),
}

/// The front end's window onto the platform's invocable operations: run
/// one, or have it print its own usage. Every call is visible in the
/// event log, so a caller's contract can count and inspect invocations.
pub trait Invoker {
    /// The log of every interaction so far, oldest first.
    spec fn events(&self) -> Seq<InvokeEvent>;

    /// Run the invocable `id` with the given arguments; the returned
    /// status is zero on success.
    fn invoke(&mut self, id: u64, args: &Vec<String>) -> (status: i32)
        ensures
            final(self).events() == old(self).events().push(
                InvokeEvent::Invoked(id, args.deep_view(), status),
            ),
    ;

    /// Have the invocable `id` print its own usage text.
    fn print_usage(&mut self, id: u64)
        ensures
            final(self).events() == old(self).events().push(InvokeEvent::Usage(id)),
    ;
}

/// The output lines produced by a help listing of one level: the usage
/// banner at the top level, the commands header, then one line per entry.
pub open spec fn help_block(usage: Seq<char>, listing: Seq<(Seq<char>, Seq<char>)>, top: bool) -> Seq<
    Seq<char>,
> {
    (if top {
        seq![usage, commands_header()]
    } else {
        seq![commands_header()]
    }) + listing_lines(listing)
}

/// How one dispatch call's outcome, output lines and invoker events
/// follow from the resolution of its tokens.
pub open spec fn dispatch_post(
    res: Resolution,
    usage: Seq<char>,
    out0: Seq<Seq<char>>,
    out1: Seq<Seq<char>>,
    ev0: Seq<InvokeEvent>,
    ev1: Seq<InvokeEvent>,
    r: DispatchOutcome,
) -> bool {
    match res {
        Resolution::Help(listing, top) => {
            &&& r == DispatchOutcome::Help
            &&& out1 == out0 + help_block(usage, listing, top)
            &&& ev1 == ev0
        },
        Resolution::LeafUsage(id) => {
            &&& r == DispatchOutcome::Help
            &&& out1 == out0
            &&& ev1 == ev0.push(InvokeEvent::Usage(id))
        },
        Resolution::Invoke(id, args) => {
            &&& out1 == out0
            &&& match r {
                DispatchOutcome::Success => ev1 == ev0.push(InvokeEvent::Invoked(id, args, 0)),
                DispatchOutcome::LeafError(code) => code != 0 && ev1 == ev0.push(
                    InvokeEvent::Invoked(id, args, code),
                ),
                _ => false,
            }
        },
        Resolution::NoCommandsDefined => {
            &&& r == DispatchOutcome::NoCommandsDefined
            &&& out1 == out0
            &&& ev1 == ev0
        },
        Resolution::NotEnoughSubcommands(listing) => {
            &&& r == DispatchOutcome::NotEnoughSubcommands
            &&& out1 == out0 + help_block(usage, listing, false)
            &&& ev1 == ev0
        },
        Resolution::CommandNotSupported(listing, top) => {
            &&& r == DispatchOutcome::CommandNotSupported
            &&& out1 == out0 + help_block(usage, listing, top)
            &&& ev1 == ev0
        },
    }
}

/// A warning with exactly the given text reached the sink whenever the
/// threshold lets warnings pass.
pub open spec fn warning_reported(v0: LogStateV, v1: LogStateV, message: Seq<char>) -> bool {
    Log::Warning.passes(v0.threshold) ==> v1.messages.len() > v0.messages.len()
        && v1.messages.last() == message + seq!['\n']
}

/// The warning text reporting a failing invocation in full.
pub open spec fn invocation_report(invocation: Seq<Seq<char>>) -> Seq<char> {
    "mosys invocation was: "@ + joined(invocation)
}

/// Dispatch only appends to the message sink; the counter, threshold and
/// lifecycle bookkeeping stay as they were.
pub open spec fn log_extended(v0: LogStateV, v1: LogStateV) -> bool {
    &&& v1.count == v0.count
    &&& v1.inits == v0.inits
    &&& v1.teardowns == v0.teardowns
    &&& v1.threshold == v0.threshold
    &&& v1.prog_name == v0.prog_name
    &&& v0.messages.is_prefix_of(v1.messages)
}

/// Resolve the tokens against the tree's root and carry the resolution
/// out: execute the resolved leaf, or list the appropriate level into
/// `out`. Every non-success, non-help path logs a warning first.
pub fn dispatch<I: Invoker>(
    tree: &CapabilityTree,
    tokens: &Vec<String>,
    usage: &str,
    invocation: &Vec<String>,
    inv: &mut I,
    st: &mut LogState,
    out: &mut Vec<String>,
) -> (r: DispatchOutcome)
    requires
        old(st).count >= 1,
    ensures
        dispatch_post(
            resolve_level(tree.root@, tokens.deep_view(), true),
            usage@,
            old(out).deep_view(),
            final(out).deep_view(),
            old(inv).events(),
            final(inv).events(),
            r,
        ),
        log_extended(old(st)@, final(st)@),
        r == DispatchOutcome::CommandNotSupported ==> warning_reported(
            old(st)@,
            final(st)@,
            "Command not found"@,
        ),
        r matches DispatchOutcome::LeafError(_) ==> warning_reported(
            old(st)@,
            final(st)@,
            invocation_report(invocation.deep_view()),
        ),
{
    proof {
        assert(tokens.deep_view().skip(0) =~= tokens.deep_view());
    }
    dispatch_level(&tree.root, tokens, 0, true, usage, invocation, inv, st, out)
}

/// Dispatch the tokens from position `pos` against one level of commands.
fn dispatch_level<I: Invoker>(
    cmds: &Vec<Command>,
    tokens: &Vec<String>,
    pos: usize,
    top: bool,
    usage: &str,
    invocation: &Vec<String>,
    inv: &mut I,
    st: &mut LogState,
    out: &mut Vec<String>,
) -> (r: DispatchOutcome)
    requires
        pos <= tokens.len(),
        old(st).count >= 1,
    ensures
        dispatch_post(
            resolve_level(cmds@, tokens.deep_view().skip(pos as int), top),
            usage@,
            old(out).deep_view(),
            final(out).deep_view(),
            old(inv).events(),
            final(inv).events(),
            r,
        ),
        log_extended(old(st)@, final(st)@),
        r == DispatchOutcome::CommandNotSupported ==> warning_reported(
            old(st)@,
            final(st)@,
            "Command not found"@,
        ),
        r matches DispatchOutcome::LeafError(_) ==> warning_reported(
            old(st)@,
            final(st)@,
            invocation_report(invocation.deep_view()),
        ),
    decreases tokens@.len() - pos, 0nat,
{
    let ghost toks = tokens.deep_view().skip(pos as int);
    if pos == tokens.len() {
        if top {
            out.push(usage.to_owned());
            list_subcommands(cmds, out);
            proof {
                assert(final(out).deep_view() =~= old(out).deep_view() + help_block(
                    usage@,
                    listing_of(cmds@),
                    true,
                ));
            }
            return DispatchOutcome::Help;
        } else {
            list_subcommands(cmds, out);
            proof {
                assert(final(out).deep_view() =~= old(out).deep_view() + help_block(
                    usage@,
                    listing_of(cmds@),
                    false,
                ));
            }
            return DispatchOutcome::NotEnoughSubcommands;
        }
    }
    proof {
        assert(toks[0] == tokens.deep_view()[pos as int]);
    }
    if is_help(tokens[pos].as_str()) {
        if top {
            out.push(usage.to_owned());
        }
        list_subcommands(cmds, out);
        proof {
            assert(final(out).deep_view() =~= old(out).deep_view() + help_block(
                usage@,
                listing_of(cmds@),
                top,
            ));
        }
        return DispatchOutcome::Help;
    }
    let ghost key = fold_name(toks[0]);
    let mut j: usize = 0;
    while j < cmds.len()
        invariant
            j <= cmds@.len(),
            pos < tokens@.len(),
            tokens@.len() <= usize::MAX,
            toks == tokens.deep_view().skip(pos as int),
            toks.len() == tokens@.len() - pos,
            key == fold_name(tokens.deep_view()[pos as int]),
            key != help_key(),
            find_from(cmds@, key, 0) == find_from(cmds@, key, j as int),
            old(st).count >= 1,
            *st == *old(st),
            *inv == *old(inv),
            *out == *old(out),
        decreases cmds@.len() - j,
    {
        if names_match(cmds[j].name.as_str(), tokens[pos].as_str()) {
            proof {
                assert(find_from(cmds@, key, j as int) == Some(j as int));
            }
            let mut found: String = "Found command: ".to_owned();
            found.append(cmds[j].name.as_str());
            let _ = Log::Debug.logln(st, found.as_str());
            let r = dispatch_cmd(&cmds[j], tokens, pos + 1, usage, invocation, inv, st, out);
            proof {
                assert(toks.drop_first() =~= tokens.deep_view().skip(pos + 1 as int));
            }
            return r;
        }
        j = j + 1;
    }
    proof {
        assert(find_from(cmds@, key, 0) is None);
    }
    let _ = Log::Warning.logln(st, "Command not found");
    if top {
        out.push(usage.to_owned());
    }
    list_subcommands(cmds, out);
    proof {
        assert(final(out).deep_view() =~= old(out).deep_view() + help_block(
            usage@,
            listing_of(cmds@),
            top,
        ));
    }
    DispatchOutcome::CommandNotSupported
}

/// Dispatch the tokens that remain after `cmd`'s own name matched.
fn dispatch_cmd<I: Invoker>(
    cmd: &Command,
    tokens: &Vec<String>,
    pos: usize,
    usage: &str,
    invocation: &Vec<String>,
    inv: &mut I,
    st: &mut LogState,
    out: &mut Vec<String>,
) -> (r: DispatchOutcome)
    requires
        pos <= tokens.len(),
        old(st).count >= 1,
    ensures
        dispatch_post(
            resolve_cmd(*cmd, tokens.deep_view().skip(pos as int)),
            usage@,
            old(out).deep_view(),
            final(out).deep_view(),
            old(inv).events(),
            final(inv).events(),
            r,
        ),
        log_extended(old(st)@, final(st)@),
        r == DispatchOutcome::CommandNotSupported ==> warning_reported(
            old(st)@,
            final(st)@,
            "Command not found"@,
        ),
        r matches DispatchOutcome::LeafError(_) ==> warning_reported(
            old(st)@,
            final(st)@,
            invocation_report(invocation.deep_view()),
        ),
    decreases tokens@.len() - pos, 1nat,
{
    let ghost toks = tokens.deep_view().skip(pos as int);
    match &cmd.kind {
        CommandKind::Leaf(id) => {
            if pos < tokens.len() && is_help(tokens[pos].as_str()) {
                proof {
                    assert(toks[0] == tokens.deep_view()[pos as int]);
                }
                inv.print_usage(*id);
                DispatchOutcome::Help
            } else {
                let args: Vec<String> = tail_of(tokens, pos);
                let status: i32 = inv.invoke(*id, &args);
                if status == 0 {
                    DispatchOutcome::Success
                } else {
                    let mut report: String = "mosys invocation was: ".to_owned();
                    let line: String = join_tokens(invocation);
                    report.append(line.as_str());
                    let _ = Log::Warning.logln(st, report.as_str());
                    DispatchOutcome::LeafError(status)
                }
            }
        },
        CommandKind::Group(children) => {
            if children.len() == 0 {
                DispatchOutcome::NoCommandsDefined
            } else {
                dispatch_level(children, tokens, pos, false, usage, invocation, inv, st, out)
            }
        },
    }
}

/// The properties of `find_from`: a found index is in range, at or after
/// the start, and carries the key as its folded name.
pub proof fn lemma_find_from_found(cmds: Seq<Command>, key: Seq<u32>, k: int)
    ensures
        find_from(cmds, key, k) matches Some(i) ==> k <= i < cmds.len() && fold_name(cmds[i].name@)
            == key,
    decreases cmds.len() - k,
{
    if 0 <= k < cmds.len() && fold_name(cmds[k].name@) != key {
        lemma_find_from_found(cmds, key, k + 1);
    }
}

/// The tree invariant on one level: sibling names are unique when
/// compared case-insensitively.
pub open spec fn siblings_unique(cmds: Seq<Command>) -> bool {
    forall|i: int, j: int|
        0 <= i < j < cmds.len() ==> fold_name(#[trigger] cmds[i].name@) != fold_name(
            #[trigger] cmds[j].name@,
        )
}

/// Under unique sibling names, first-match-wins is unambiguous: searching
/// for any sibling's folded name finds exactly that sibling.
pub proof fn lemma_unique_match(cmds: Seq<Command>, i: int)
    requires
        siblings_unique(cmds),
        0 <= i < cmds.len(),
    ensures
        find_from(cmds, fold_name(cmds[i].name@), 0) == Some(i),
{
    lemma_unique_match_from(cmds, i, 0);
}

/// The search for a sibling's folded name, started anywhere at or before
/// that sibling, lands on it when names are unique.
proof fn lemma_unique_match_from(cmds: Seq<Command>, i: int, k: int)
    requires
        siblings_unique(cmds),
        0 <= k <= i < cmds.len(),
    ensures
        find_from(cmds, fold_name(cmds[i].name@), k) == Some(i),
    decreases i - k,
{
    if k < i {
        assert(fold_name(cmds[k].name@) != fold_name(cmds[i].name@));
        lemma_unique_match_from(cmds, i, k + 1);
    }
}

/// The folded images of a token sequence, token by token.
pub open spec fn fold_tokens(tokens: Seq<Seq<char>>) -> Seq<Seq<u32>> {
    tokens.map_values(|t: Seq<char>| fold_name(t))
}

/// Two resolutions are the same up to case: equal, except that the
/// arguments carried to an invocation may differ in case only.
pub open spec fn resolution_equiv(a: Resolution, b: Resolution) -> bool {
    match (a, b) {
        (Resolution::Invoke(i1, r1), Resolution::Invoke(i2, r2)) => i1 == i2 && fold_tokens(r1)
            == fold_tokens(r2),
        _ => a == b,
    }
}

/// Token sequences that agree up to case resolve identically against one
/// level: same terminal state, same listing, same leaf — only the raw
/// arguments handed to an invocation keep their own case.
pub proof fn lemma_case_insensitive_level(
    cmds: Seq<Command>,
    t1: Seq<Seq<char>>,
    t2: Seq<Seq<char>>,
    top: bool,
)
    requires
        fold_tokens(t1) == fold_tokens(t2),
    ensures
        resolution_equiv(resolve_level(cmds, t1, top), resolve_level(cmds, t2, top)),
    decreases t1.len(), 0nat,
{
    assert(fold_tokens(t1).len() == t1.len());
    assert(fold_tokens(t2).len() == t2.len());
    if t1.len() == 0 {
        assert(t2.len() == 0);
    } else {
        assert(fold_name(t1[0]) == fold_tokens(t1)[0]);
        assert(fold_name(t2[0]) == fold_tokens(t2)[0]);
        assert(fold_name(t1[0]) == fold_name(t2[0]));
        if fold_name(t1[0]) != help_key() {
            match find_from(cmds, fold_name(t1[0]), 0) {
                None => {},
                Some(i) => {
                    assert(fold_tokens(t1.drop_first()) =~= fold_tokens(t1).drop_first());
                    assert(fold_tokens(t2.drop_first()) =~= fold_tokens(t2).drop_first());
                    lemma_case_insensitive_cmd(cmds[i], t1.drop_first(), t2.drop_first());
                },
            }
        }
    }
}

/// The continuation of `lemma_case_insensitive_level` below a matched
/// command.
pub proof fn lemma_case_insensitive_cmd(cmd: Command, t1: Seq<Seq<char>>, t2: Seq<Seq<char>>)
    requires
        fold_tokens(t1) == fold_tokens(t2),
    ensures
        resolution_equiv(resolve_cmd(cmd, t1), resolve_cmd(cmd, t2)),
    decreases t1.len(), 1nat,
{
    assert(fold_tokens(t1).len() == t1.len());
    assert(fold_tokens(t2).len() == t2.len());
    if t1.len() > 0 {
        assert(fold_name(t1[0]) == fold_tokens(t1)[0]);
        assert(fold_name(t2[0]) == fold_tokens(t2)[0]);
    }
    match cmd.kind {
        CommandKind::Leaf(id) => {},
        CommandKind::Group(children) => {
            if children@.len() > 0 {
                lemma_case_insensitive_level(children@, t1, t2, false);
            }
        },
    }
}

/// An empty token sequence at the top level is an implied `help`: the
/// resolution is `Help` with every root sibling's name and description
/// listed in declared order.
pub proof fn lemma_empty_tokens_help(cmds: Seq<Command>)
    ensures
        resolve_level(cmds, Seq::<Seq<char>>::empty(), true) == Resolution::Help(
            listing_of(cmds),
            true,
        ),
{
}

/// The leaf named by a chain of group names ending in a leaf name with no
/// tokens left over, if the tokens name exactly such a chain.
pub open spec fn leaf_chain(cmds: Seq<Command>, tokens: Seq<Seq<char>>) -> Option<u64>
    decreases tokens.len(),
{
    if tokens.len() == 0 {
        None::<u64>
    } else if fold_name(tokens[0]) == help_key() {
        None::<u64>
    } else {
        match find_from(cmds, fold_name(tokens[0]), 0) {
            None => None::<u64>,
            Some(i) => match cmds[i].kind {
                CommandKind::Leaf(id) => if tokens.len() == 1 {
                    Some(id)
                } else {
                    None::<u64>
                },
                CommandKind::Group(children) => if children@.len() == 0 {
                    None::<u64>
                } else {
                    leaf_chain(children@, tokens.drop_first())
                },
            },
        }
    }
}

/// Tokens that exactly name a chain of groups ending in a leaf, with no
/// extra tokens, resolve to invoking exactly that leaf with no remaining
/// arguments; by `dispatch_post`, the dispatcher then runs its invocable
/// exactly once and returns `Success` exactly when the status is zero.
pub proof fn lemma_exact_chain_invokes(cmds: Seq<Command>, tokens: Seq<Seq<char>>, top: bool)
    requires
        leaf_chain(cmds, tokens) is Some,
    ensures
        resolve_level(cmds, tokens, top) == Resolution::Invoke(
            leaf_chain(cmds, tokens).unwrap(),
            Seq::<Seq<char>>::empty(),
        ),
    decreases tokens.len(),
{
    let key = fold_name(tokens[0]);
    lemma_find_from_found(cmds, key, 0);
    let i = find_from(cmds, key, 0).unwrap();
    match cmds[i].kind {
        CommandKind::Leaf(id) => {
            assert(tokens.drop_first() =~= Seq::<Seq<char>>::empty());
        },
        CommandKind::Group(children) => {
            lemma_exact_chain_invokes(children@, tokens.drop_first(), false);
        },
    }
}

/// The children of the group that a chain of group names resolves to, if
/// the tokens name exactly such a chain.
pub open spec fn group_chain(cmds: Seq<Command>, tokens: Seq<Seq<char>>) -> Option<Seq<Command>>
    decreases tokens.len(),
{
    if tokens.len() == 0 {
        None::<Seq<Command>>
    } else if fold_name(tokens[0]) == help_key() {
        None::<Seq<Command>>
    } else {
        match find_from(cmds, fold_name(tokens[0]), 0) {
            None => None::<Seq<Command>>,
            Some(i) => match cmds[i].kind {
                CommandKind::Leaf(id) => None::<Seq<Command>>,
                CommandKind::Group(children) => if children@.len() == 0 {
                    None::<Seq<Command>>
                } else if tokens.len() == 1 {
                    Some(children@)
                } else {
                    group_chain(children@, tokens.drop_first())
                },
            },
        }
    }
}

/// Appending a `help` token after a fully-resolved chain of groups always
/// resolves to `Help` listing exactly that group's children, never a
/// listing of another level.
pub proof fn lemma_group_chain_help(
    cmds: Seq<Command>,
    tokens: Seq<Seq<char>>,
    help_tok: Seq<char>,
    top: bool,
)
    requires
        group_chain(cmds, tokens) is Some,
        fold_name(help_tok) == help_key(),
    ensures
        resolve_level(cmds, tokens.push(help_tok), top) == Resolution::Help(
            listing_of(group_chain(cmds, tokens).unwrap()),
            false,
        ),
    decreases tokens.len(),
{
    let ext = tokens.push(help_tok);
    assert(ext[0] == tokens[0]);
    let key = fold_name(tokens[0]);
    lemma_find_from_found(cmds, key, 0);
    let i = find_from(cmds, key, 0).unwrap();
    match cmds[i].kind {
        CommandKind::Leaf(id) => {},
        CommandKind::Group(children) => {
            if tokens.len() == 1 {
                assert(ext.drop_first() =~= seq![help_tok]);
                assert(resolve_level(children@, seq![help_tok], false) == Resolution::Help(
                    listing_of(children@),
                    false,
                ));
            } else {
                assert(ext.drop_first() =~= tokens.drop_first().push(help_tok));
                lemma_group_chain_help(children@, tokens.drop_first(), help_tok, false);
            }
        },
    }
}

/// One recorded interaction, as executable data.
#[derive(Debug, PartialEq, Eq)]
pub enum InvokerCall {
    /// The invocable ran with the given arguments and returned the status.
    Invoked(u64, Vec<String>, i32),
    /// The invocable printed its own usage.
    Usage(u64),
}

/// The event a recorded call stands for.
pub open spec fn call_view(c: InvokerCall) -> InvokeEvent {
    match c {
        InvokerCall::Invoked(id, args, status) => InvokeEvent::Invoked(
            id,
            args.deep_view(),
            status,
        ),
        InvokerCall::Usage(id) => InvokeEvent::Usage(id),
    }
}

/// An invoker that returns a fixed status from every invocation and
/// records each interaction in order: the stand-in for a platform's
/// invocables wherever no hardware is behind the tree.
#[derive(Debug)]
pub struct ScriptedInvoker {
    pub status: i32,
    pub calls: Vec<InvokerCall>,
}

impl ScriptedInvoker {
    /// A fresh invoker whose invocations all return `status`.
    pub fn new(status: i32) -> (r: ScriptedInvoker)
        ensures
            r.events() == Seq::<InvokeEvent>::empty(),
            r.status == status,
    {
        let r = ScriptedInvoker { status, calls: Vec::new() };
        proof {
            assert(r.events() =~= Seq::<InvokeEvent>::empty());
        }
        r
    }
}

impl Invoker for ScriptedInvoker {
    open spec fn events(&self) -> Seq<InvokeEvent> {
        self.calls@.map_values(|c: InvokerCall| call_view(c))
    }

    fn invoke(&mut self, id: u64, args: &Vec<String>) -> (status: i32)
        ensures
            status == old(self).status,
            final(self).status == old(self).status,
    {
        let copy: Vec<String> = tail_of(args, 0);
        proof {
            assert(copy.deep_view() =~= args.deep_view());
        }
        let status: i32 = self.status;
        self.calls.push(InvokerCall::Invoked(id, copy, status));
        proof {
            assert(self.events() =~= old(self).events().push(
                InvokeEvent::Invoked(id, args.deep_view(), status),
            ));
        }
        status
    }

    fn print_usage(&mut self, id: u64) {
        self.calls.push(InvokerCall::Usage(id));
        proof {
            assert(self.events() =~= old(self).events().push(InvokeEvent::Usage(id)));
        }
    }
}

/// The tokens joined by single spaces.
pub open spec fn joined(tokens: Seq<Seq<char>>) -> Seq<char>
    decreases tokens.len(),
{
    if tokens.len() == 0 {
        Seq::<char>::empty()
    } else if tokens.len() == 1 {
        tokens[0]
    } else {
        joined(tokens.drop_last()) + seq![' '] + tokens.last()
    }
}

/// Render the tokens as one line, joined by single spaces.
pub fn join_tokens(tokens: &Vec<String>) -> (r: String)
    ensures
        r@ == joined(tokens.deep_view()),
{
    let mut acc: String = String::new();
    let mut k: usize = 0;
    while k < tokens.len()
        invariant
            k <= tokens@.len(),
            acc@ == joined(tokens.deep_view().take(k as int)),
        decreases tokens@.len() - k,
    {
        if k > 0 {
            acc.append(" ");
            proof {
                reveal_strlit(" ");
                assert(" "@ =~= seq![' ']);
            }
        }
        acc.append(tokens[k].as_str());
        proof {
            let dv = tokens.deep_view();
            assert(dv.take(k + 1 as int).drop_last() =~= dv.take(k as int));
            assert(dv.take(k + 1 as int).last() == dv[k as int]);
            if k == 0 {
                assert(acc@ =~= joined(dv.take(k + 1 as int)));
            } else {
                assert(acc@ =~= joined(dv.take(k as int)) + seq![' '] + dv[k as int]);
            }
        }
        k = k + 1;
    }
    proof {
        assert(tokens.deep_view().take(tokens.deep_view().len() as int) =~= tokens.deep_view());
    }
    acc
}

/// The tokens from position `pos` on, as an owned vector.
pub(crate) fn tail_of(tokens: &Vec<String>, pos: usize) -> (r: Vec<String>)
    requires
        pos <= tokens.len(),
    ensures
        r.deep_view() == tokens.deep_view().skip(pos as int),
{
    let mut r: Vec<String> = Vec::new();
    let mut k: usize = pos;
    while k < tokens.len()
        invariant
            pos <= k <= tokens@.len(),
            r.deep_view() == tokens.deep_view().subrange(pos as int, k as int),
        decreases tokens@.len() - k,
    {
        let ghost pre = r.deep_view();
        r.push(tokens[k].clone());
        proof {
            assert(r.deep_view() =~= pre.push(tokens.deep_view()[k as int]));
            assert(r.deep_view() =~= tokens.deep_view().subrange(pos as int, k + 1 as int));
        }
        k = k + 1;
    }
    proof {
        assert(tokens.deep_view().subrange(pos as int, tokens.deep_view().len() as int)
            =~= tokens.deep_view().skip(pos as int));
    }
    r
}

} // verus!
