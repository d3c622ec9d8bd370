use mosys::dispatch::ScriptedInvoker;
use mosys::lifecycle::LifecycleGuard;
use mosys::logging::Log;
use mosys::logging::LogError;
use mosys::logging::LogState;
use mosys::platform::Globals;
use mosys::platform::KvPairStyle;
use mosys::platform::ProviderCall;
use mosys::platform::StaticProvider;
use mosys::tree::CapabilityTree;
use mosys::tree::Command;
use mosys::tree::CommandKind;
use mosys::Mosys;
use mosys::MosysError;

fn leaf(name: &str, desc: &str, id: u64) -> Command {
    Command { name: name.to_string(), desc: desc.to_string(), kind: CommandKind::Leaf(id) }
}

fn group(name: &str, desc: &str, children: Vec<Command>) -> Command {
    Command { name: name.to_string(), desc: desc.to_string(), kind: CommandKind::Group(children) }
}

fn link_tree() -> CapabilityTree {
    CapabilityTree {
        name: "Link".to_string(),
        root: vec![group("ec", "EC information", vec![leaf("info", "Print EC info", 7)])],
    }
}

fn dummy_tree() -> CapabilityTree {
    CapabilityTree { name: "Dummy".to_string(), root: vec![] }
}

fn provider() -> StaticProvider {
    StaticProvider::new(vec![
        ("Link".to_string(), link_tree()),
        ("Dummy".to_string(), dummy_tree()),
    ])
}

fn args_of(words: &[&str]) -> Vec<String> {
    words.iter().map(|w| w.to_string()).collect()
}

struct Rig {
    st: LogState,
    globals: Globals,
    provider: StaticProvider,
    inv: ScriptedInvoker,
    out: Vec<String>,
}

fn rig() -> Rig {
    Rig {
        st: LogState::new(),
        globals: Globals::init(),
        provider: provider(),
        inv: ScriptedInvoker::new(0),
        out: Vec::new(),
    }
}

fn run(mosys: &mut Mosys, r: &mut Rig) -> Result<(), MosysError> {
    mosys.run(&mut r.st, &mut r.globals, &mut r.provider, &mut r.inv, &mut r.out)
}

#[test]
fn test_new() {
    let mut st = LogState::new();
    let args = args_of(&["someprogname", "-f", "-p", "Link", "command"]);
    Mosys::new(&args, &mut st).expect("Instantiation failed");
}

#[test]
fn test_help() {
    let mut r = rig();
    let args = args_of(&["someprogname", "-h", "command"]);
    let mut mosys = Mosys::new(&args, &mut r.st).unwrap();
    match run(&mut mosys, &mut r) {
        Err(MosysError::Help) => (),
        _ => panic!("Should have returned help error code"),
    }
}

#[test]
fn test_platform_not_supported() {
    let mut r = rig();
    let args = args_of(&["someprogname", "-f", "-p", "nonexistant_platform", "command"]);
    let mut mosys = Mosys::new(&args, &mut r.st).unwrap();
    match run(&mut mosys, &mut r) {
        Err(MosysError::PlatformNotSupported) => (),
        _ => panic!("Should have failed to find a platform"),
    }
    assert_eq!(
        r.st.last_message().unwrap(),
        "Platform not supported\n",
        "a failed resolution is reported at Error severity"
    );
    assert_eq!(
        r.provider.calls,
        vec![ProviderCall::Resolved(Some("nonexistant_platform".to_string()), false)],
        "the provider was asked exactly once"
    );
}

#[test]
fn test_verbosity() {
    let mut r = rig();
    let args = args_of(&[
        "someprogname",
        "-v",
        "-v",
        "-v",
        "-v",
        "-v",
        "-f",
        "-p",
        "Link",
        "command",
    ]);
    let mut mosys = Mosys::new(&args, &mut r.st).unwrap();
    match run(&mut mosys, &mut r) {
        Err(MosysError::CommandNotSupported) => (),
        _ => panic!("Should have succeeded with getopts arguments"),
    };
    let t = Log::get_threshold(&r.st);
    assert_eq!(t, Log::Spew, "Should have incremented verbosity to max");
}

#[test]
fn test_platform_list() {
    let mut r = rig();
    let args = args_of(&["someprogname", "-S", "-v"]);
    let mut mosys = Mosys::new(&args, &mut r.st).unwrap();
    run(&mut mosys, &mut r).expect("Should have exited Ok(())");
}

#[test]
fn test_misc_args() {
    let mut r = rig();
    let args = args_of(&[
        "someprogname",
        "-s",
        "keyname",
        "-l",
        "-t",
        "-f",
        "-p",
        "Link",
        "command",
    ]);
    let mut mosys = Mosys::new(&args, &mut r.st).unwrap();
    run(&mut mosys, &mut r).expect("Should have succeeded with getopts arguments");
    let t = Log::get_threshold(&r.st);
    assert_eq!(t, Log::Warning, "Should not have incremented verbosity");
}

#[test]
fn test_single_kv_pair() {
    let mut r = rig();
    let args = args_of(&["someprogname", "-f", "-p", "Link", "-s", "keyname", "command"]);
    let mut mosys = Mosys::new(&args, &mut r.st).unwrap();
    match run(&mut mosys, &mut r) {
        Err(MosysError::CommandNotSupported) => (),
        _ => panic!("Should have succeeded with getopts arguments"),
    };
    assert_eq!(
        r.globals.get_kv_pair_style(),
        KvPairStyle::Single,
        "Should have change kv_pair_style"
    );
}

#[test]
fn test_long_kv_pair() {
    let mut r = rig();
    let args = args_of(&["someprogname", "-f", "-p", "Link", "-l", "command"]);
    let mut mosys = Mosys::new(&args, &mut r.st).unwrap();
    match run(&mut mosys, &mut r) {
        Err(MosysError::CommandNotSupported) => (),
        _ => panic!("Should have succeeded with getopts arguments"),
    };
    assert_eq!(
        r.globals.get_kv_pair_style(),
        KvPairStyle::Long,
        "Should have change kv_pair_style"
    );
}

#[test]
fn test_pair_kv_pair() {
    let mut r = rig();
    let args = args_of(&["someprogname", "-f", "-p", "Link", "-k", "command"]);
    let mut mosys = Mosys::new(&args, &mut r.st).unwrap();
    match run(&mut mosys, &mut r) {
        Err(MosysError::CommandNotSupported) => (),
        _ => panic!("Should have succeeded with getopts arguments"),
    };
    assert_eq!(
        r.globals.get_kv_pair_style(),
        KvPairStyle::Pair,
        "Should have change kv_pair_style"
    );
}

#[test]
fn test_no_commands_defined() {
    let mut r = rig();
    let args = args_of(&["someprogname", "-f", "-p", "Dummy", "-k", "command"]);
    let mut mosys = Mosys::new(&args, &mut r.st).unwrap();
    match run(&mut mosys, &mut r) {
        Err(MosysError::NoCommandsDefined) => (),
        _ => panic!("Should have returned error that platform has no commands"),
    }
}

#[test]
fn test_ffi() {
    let mut globals = Globals::init();
    globals.set_kv_pair_style(KvPairStyle::Pair);
    let ret = globals.get_kv_pair_style();
    assert_eq!(ret, KvPairStyle::Pair);
}

#[test]
fn test_sub_help() {
    let mut r = rig();
    let args = args_of(&["someprogname", "-f", "-p", "Link", "ec", "help"]);
    let mut mosys = Mosys::new(&args, &mut r.st).unwrap();
    match run(&mut mosys, &mut r) {
        Err(MosysError::Help) => (),
        _ => panic!("Should have returned help error code"),
    }
}

#[test]
fn test_subcommand() {
    let mut r = rig();
    let args = args_of(&["someprogname", "-f", "-p", "Link", "ec", "info"]);
    let mut mosys = Mosys::new(&args, &mut r.st).unwrap();
    run(&mut mosys, &mut r).expect("Complete command should return Ok(())");
}

#[test]
fn test_full_subcommand_help() {
    let mut r = rig();
    let args = args_of(&["someprogname", "-f", "-p", "Link", "ec", "info", "help"]);
    let mut mosys = Mosys::new(&args, &mut r.st).unwrap();
    match run(&mut mosys, &mut r) {
        Err(MosysError::Help) => (),
        _ => panic!("Should have returned help error code"),
    }
}

#[test]
fn test_no_subcommand() {
    let mut r = rig();
    let args = args_of(&["someprogname", "-f", "-p", "Link", "ec"]);
    let mut mosys = Mosys::new(&args, &mut r.st).unwrap();
    match run(&mut mosys, &mut r) {
        Err(MosysError::NotEnoughSubcommands) => (),
        _ => panic!("Should have returned no subcommands error code"),
    }
}

#[test]
fn test_subcommand_not_supported() {
    let mut r = rig();
    let args = args_of(&["someprogname", "-f", "-p", "Link", "ec", "fake"]);
    let mut mosys = Mosys::new(&args, &mut r.st).unwrap();
    match run(&mut mosys, &mut r) {
        Err(MosysError::CommandNotSupported) => (),
        _ => panic!("Should have returned command not supported error code"),
    }
}

#[test]
fn unknown_flag_is_a_flag_error() {
    let mut r = rig();
    let args = args_of(&["someprogname", "-z"]);
    let mut mosys = Mosys::new(&args, &mut r.st).unwrap();
    match run(&mut mosys, &mut r) {
        Err(MosysError::Flag(_)) => (),
        _ => panic!("Should have rejected the unknown flag"),
    }
}

#[test]
fn platform_list_nonzero_status() {
    let mut r = rig();
    r.provider.list_status = 3;
    let args = args_of(&["someprogname", "-S"]);
    let mut mosys = Mosys::new(&args, &mut r.st).unwrap();
    match run(&mut mosys, &mut r) {
        Err(MosysError::NonzeroPlatformListRet) => (),
        _ => panic!("Should have reported the nonzero listing status"),
    }
}

#[test]
fn platform_list_records_names() {
    let mut r = rig();
    let args = args_of(&["someprogname", "-S"]);
    let mut mosys = Mosys::new(&args, &mut r.st).unwrap();
    run(&mut mosys, &mut r).expect("Should have exited Ok(())");
    assert_eq!(r.provider.listed, vec!["Link".to_string(), "Dummy".to_string()]);
    assert_eq!(
        r.provider.calls,
        vec![ProviderCall::Listed(0)],
        "the listing ran exactly once and nothing else was asked"
    );
}

#[test]
fn tree_display_short_circuits() {
    let mut r = rig();
    let args = args_of(&["someprogname", "-t", "-p", "Link", "ec", "info"]);
    let mut mosys = Mosys::new(&args, &mut r.st).unwrap();
    run(&mut mosys, &mut r).expect("Tree display should succeed");
    assert_eq!(r.provider.shown_trees, vec!["Link".to_string()]);
    assert_eq!(r.inv.calls.len(), 0, "tree display must not invoke a leaf");
}

#[test]
fn lifecycle_two_guards_pair_up() {
    let mut st = LogState::new();
    let g1 = LifecycleGuard::acquire(&mut st, "progname", Log::Warning).unwrap();
    let g2 = LifecycleGuard::acquire(&mut st, "progname", Log::Warning).unwrap();
    assert_eq!(st.count, 2);
    Log::Warning.log(&mut st, "held").expect("logger is ready while a guard is held");
    g2.release(&mut st);
    assert_eq!(st.count, 1);
    g1.release(&mut st);
    assert_eq!(st.count, 0);
    match Log::Warning.log(&mut st, "after teardown") {
        Err(LogError::NotReady) => (),
        _ => panic!("teardown must leave the logger not ready"),
    }
}

#[test]
fn leaf_failure_surfaces_its_status() {
    let mut r = rig();
    r.inv = ScriptedInvoker::new(5);
    let args = args_of(&["someprogname", "-p", "Link", "ec", "info"]);
    let mut mosys = Mosys::new(&args, &mut r.st).unwrap();
    match run(&mut mosys, &mut r) {
        Err(MosysError::SubcommandFunctionError(5)) => (),
        _ => panic!("Should have surfaced the leaf's nonzero status"),
    }
    assert_eq!(r.inv.calls.len(), 1, "the failing leaf still ran exactly once");
    assert_eq!(
        r.st.last_message().unwrap(),
        "mosys invocation was: -p Link ec info\n",
        "the full original invocation is reported for postmortem diagnosis"
    );
}

#[test]
fn usage_banner_names_the_program() {
    let mut st = LogState::new();
    let args = args_of(&["someprogname", "command"]);
    let mosys = Mosys::new(&args, &mut st).unwrap();
    let opts = mosys::optparse::options_new();
    let mut out: Vec<String> = Vec::new();
    mosys.print_usage(&opts, &mut out);
    assert_eq!(out.len(), 1);
    assert!(
        out[0].starts_with("Usage: someprogname [options] {commands}"),
        "the banner opens with the brief line"
    );
}

#[test]
fn error_descriptions_are_fixed() {
    assert_eq!(MosysError::Help.description(), "Requested help");
    assert_eq!(
        MosysError::NoCommandsDefined.description(),
        "No commands defined for platform"
    );
    assert_eq!(
        MosysError::SubcommandFunctionError(3).description(),
        "Subcommand execution finished with an error"
    );
}
