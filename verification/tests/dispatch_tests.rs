use mosys::dispatch::dispatch;
use mosys::dispatch::DispatchOutcome;
use mosys::dispatch::InvokerCall;
use mosys::dispatch::ScriptedInvoker;
use mosys::logging::Log;
use mosys::logging::LogState;
use mosys::tree::CapabilityTree;
use mosys::tree::Command;
use mosys::tree::CommandKind;

fn leaf(name: &str, desc: &str, id: u64) -> Command {
    Command { name: name.to_string(), desc: desc.to_string(), kind: CommandKind::Leaf(id) }
}

fn group(name: &str, desc: &str, children: Vec<Command>) -> Command {
    Command { name: name.to_string(), desc: desc.to_string(), kind: CommandKind::Group(children) }
}

fn link_tree() -> CapabilityTree {
    CapabilityTree {
        name: "Link".to_string(),
        root: vec![group("ec", "EC information", vec![leaf("info", "Print EC info", 7)])],
    }
}

fn tokens(words: &[&str]) -> Vec<String> {
    words.iter().map(|w| w.to_string()).collect()
}

fn ready_log() -> LogState {
    let mut st = LogState::new();
    Log::init(&mut st, "progname", Log::Warning).unwrap();
    st
}

#[test]
fn scenario_full_chain_success() {
    let tree = link_tree();
    let mut inv = ScriptedInvoker::new(0);
    let mut st = ready_log();
    let mut out = Vec::new();
    let words = tokens(&["ec", "info"]);
    let r = dispatch(&tree, &words, "usage", &words, &mut inv, &mut st, &mut out);
    assert_eq!(r, DispatchOutcome::Success);
    assert_eq!(inv.calls.len(), 1, "the leaf must run exactly once");
    match &inv.calls[0] {
        InvokerCall::Invoked(id, args, status) => {
            assert_eq!(*id, 7);
            assert!(args.is_empty(), "an exact chain leaves no arguments");
            assert_eq!(*status, 0);
        }
        _ => panic!("expected an invocation"),
    }
}

#[test]
fn scenario_group_without_subcommand() {
    let tree = link_tree();
    let mut inv = ScriptedInvoker::new(0);
    let mut st = ready_log();
    let mut out = Vec::new();
    let words = tokens(&["ec"]);
    let r = dispatch(&tree, &words, "usage", &words, &mut inv, &mut st, &mut out);
    assert_eq!(r, DispatchOutcome::NotEnoughSubcommands);
    assert_eq!(inv.calls.len(), 0);
    assert_eq!(out[0], "  Commands:");
    assert_eq!(out[1], "    info          Print EC info");
}

#[test]
fn scenario_unknown_subcommand() {
    let tree = link_tree();
    let mut inv = ScriptedInvoker::new(0);
    let mut st = ready_log();
    let mut out = Vec::new();
    let words = tokens(&["ec", "bogus"]);
    let r = dispatch(&tree, &words, "usage", &words, &mut inv, &mut st, &mut out);
    assert_eq!(r, DispatchOutcome::CommandNotSupported);
    assert_eq!(inv.calls.len(), 0);
    assert_eq!(
        st.last_message().unwrap(),
        "Command not found\n",
        "a warning is logged before the terminal state"
    );
}

#[test]
fn scenario_unknown_top_command() {
    let tree = link_tree();
    let mut inv = ScriptedInvoker::new(0);
    let mut st = ready_log();
    let mut out = Vec::new();
    let words = tokens(&["bogus"]);
    let r = dispatch(&tree, &words, "usage", &words, &mut inv, &mut st, &mut out);
    assert_eq!(r, DispatchOutcome::CommandNotSupported);
    assert_eq!(out[0], "usage", "the top-level listing carries the usage banner");
    assert_eq!(out[1], "  Commands:");
    assert_eq!(out[2], "    ec            EC information");
}

#[test]
fn scenario_empty_tokens_list_root() {
    let tree = link_tree();
    let mut inv = ScriptedInvoker::new(0);
    let mut st = ready_log();
    let mut out = Vec::new();
    let words = tokens(&[]);
    let r = dispatch(&tree, &words, "usage text", &words, &mut inv, &mut st, &mut out);
    assert_eq!(r, DispatchOutcome::Help);
    assert_eq!(inv.calls.len(), 0);
    assert_eq!(out.len(), 3);
    assert_eq!(out[0], "usage text");
    assert_eq!(out[1], "  Commands:");
    assert_eq!(out[2], "    ec            EC information");
}

#[test]
fn case_permutations_resolve_identically() {
    let tree = link_tree();
    let mut inv1 = ScriptedInvoker::new(0);
    let mut st1 = ready_log();
    let mut out1 = Vec::new();
    let words1 = tokens(&["EC", "INFO"]);
    let r1 = dispatch(&tree, &words1, "u", &words1, &mut inv1, &mut st1, &mut out1);
    let mut inv2 = ScriptedInvoker::new(0);
    let mut st2 = ready_log();
    let mut out2 = Vec::new();
    let words2 = tokens(&["ec", "info"]);
    let r2 = dispatch(&tree, &words2, "u", &words2, &mut inv2, &mut st2, &mut out2);
    assert_eq!(r1, r2);
    assert_eq!(r1, DispatchOutcome::Success);
    assert_eq!(inv1.calls.len(), 1);
    assert_eq!(inv2.calls.len(), 1);
    let mut inv3 = ScriptedInvoker::new(0);
    let mut st3 = ready_log();
    let mut out3 = Vec::new();
    let words3 = tokens(&["Ec", "HELP"]);
    let r3 = dispatch(&tree, &words3, "u", &words3, &mut inv3, &mut st3, &mut out3);
    assert_eq!(r3, DispatchOutcome::Help);
}

#[test]
fn group_help_lists_only_its_children() {
    let tree = CapabilityTree {
        name: "Link".to_string(),
        root: vec![
            group("ec", "EC information", vec![leaf("info", "Print EC info", 7)]),
            leaf("smbios", "SMBIOS information", 9),
        ],
    };
    let mut inv = ScriptedInvoker::new(0);
    let mut st = ready_log();
    let mut out = Vec::new();
    let words = tokens(&["ec", "help"]);
    let r = dispatch(&tree, &words, "usage", &words, &mut inv, &mut st, &mut out);
    assert_eq!(r, DispatchOutcome::Help);
    assert_eq!(out.len(), 2, "no usage banner below the top level");
    assert_eq!(out[0], "  Commands:");
    assert_eq!(out[1], "    info          Print EC info");
    assert!(!out.iter().any(|l| l.contains("smbios")), "siblings of another level stay out");
}

#[test]
fn leaf_help_asks_leaf_usage() {
    let tree = link_tree();
    let mut inv = ScriptedInvoker::new(0);
    let mut st = ready_log();
    let mut out = Vec::new();
    let words = tokens(&["ec", "info", "help"]);
    let r = dispatch(&tree, &words, "u", &words, &mut inv, &mut st, &mut out);
    assert_eq!(r, DispatchOutcome::Help);
    assert_eq!(inv.calls.len(), 1);
    match &inv.calls[0] {
        InvokerCall::Usage(id) => assert_eq!(*id, 7),
        _ => panic!("expected a usage call, not an invocation"),
    }
}

#[test]
fn leaf_error_propagates_status() {
    let tree = link_tree();
    let mut inv = ScriptedInvoker::new(5);
    let mut st = ready_log();
    let mut out = Vec::new();
    let words = tokens(&["ec", "info"]);
    let r = dispatch(&tree, &words, "u", &words, &mut inv, &mut st, &mut out);
    assert_eq!(r, DispatchOutcome::LeafError(5));
    assert_eq!(inv.calls.len(), 1);
    assert_eq!(
        st.last_message().unwrap(),
        "mosys invocation was: ec info\n",
        "the failing invocation is reported in full"
    );
}

#[test]
fn leaf_receives_remaining_tokens() {
    let tree = link_tree();
    let mut inv = ScriptedInvoker::new(0);
    let mut st = ready_log();
    let mut out = Vec::new();
    let words = tokens(&["ec", "info", "--all", "now"]);
    let r = dispatch(&tree, &words, "u", &words, &mut inv, &mut st, &mut out);
    assert_eq!(r, DispatchOutcome::Success);
    match &inv.calls[0] {
        InvokerCall::Invoked(_, args, _) => {
            assert_eq!(args.len(), 2);
            assert_eq!(args[0], "--all");
            assert_eq!(args[1], "now");
        }
        _ => panic!("expected an invocation"),
    }
}

#[test]
fn empty_group_has_no_commands_defined() {
    let tree = CapabilityTree {
        name: "Link".to_string(),
        root: vec![group("ec", "EC information", vec![])],
    };
    let mut inv = ScriptedInvoker::new(0);
    let mut st = ready_log();
    let mut out = Vec::new();
    let words = tokens(&["ec", "info"]);
    let r = dispatch(&tree, &words, "u", &words, &mut inv, &mut st, &mut out);
    assert_eq!(r, DispatchOutcome::NoCommandsDefined);
    assert_eq!(inv.calls.len(), 0);
}

#[test]
fn long_names_widen_the_column() {
    let tree = CapabilityTree {
        name: "Link".to_string(),
        root: vec![leaf("averylongcommandname", "Long", 1)],
    };
    let mut inv = ScriptedInvoker::new(0);
    let mut st = ready_log();
    let mut out = Vec::new();
    let words = tokens(&[]);
    let r = dispatch(&tree, &words, "u", &words, &mut inv, &mut st, &mut out);
    assert_eq!(r, DispatchOutcome::Help);
    assert_eq!(out[2], "    averylongcommandname  Long");
}

#[test]
fn duplicate_copies_the_whole_tree() {
    let tree = link_tree();
    let copy = tree.duplicate();
    assert_eq!(copy.name, "Link");
    let mut inv = ScriptedInvoker::new(0);
    let mut st = ready_log();
    let mut out = Vec::new();
    let words = tokens(&["ec", "info"]);
    let r = dispatch(&copy, &words, "u", &words, &mut inv, &mut st, &mut out);
    assert_eq!(r, DispatchOutcome::Success);
    assert_eq!(inv.calls.len(), 1);
}
