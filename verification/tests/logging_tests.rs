use mosys::logging::Log;
use mosys::logging::LogError;
use mosys::logging::LogState;

fn setup(st: &mut LogState) {
    Log::init(st, "progname", Log::Debug).expect("Should have succeeded");
}

fn teardown(st: &mut LogState) {
    Log::drop(st);
}

#[test]
fn test_init() {
    let mut st = LogState::new();
    setup(&mut st);
    teardown(&mut st);
}

#[test]
fn test_double_init() {
    let mut st = LogState::new();
    setup(&mut st);
    Log::init(&mut st, "progname", Log::Warning).expect("Should have succeeded on second init");
    let t = Log::get_threshold(&st);
    assert_eq!(t, Log::Warning, "Should have modified first init threshold");
    Log::drop(&mut st);
    teardown(&mut st);
}

#[test]
fn test_inc_threshold() {
    let mut st = LogState::new();
    setup(&mut st);
    Log::inc_threshold(&mut st);
    let t = Log::get_threshold(&st);
    assert_eq!(t, Log::Spew);
    teardown(&mut st);
}

#[test]
fn verbosity_saturates_at_spew() {
    let mut st = LogState::new();
    Log::init(&mut st, "progname", Log::Warning).unwrap();
    Log::inc_threshold(&mut st);
    assert_eq!(Log::get_threshold(&st), Log::Notice);
    Log::inc_threshold(&mut st);
    assert_eq!(Log::get_threshold(&st), Log::Info);
    Log::inc_threshold(&mut st);
    assert_eq!(Log::get_threshold(&st), Log::Debug);
    Log::inc_threshold(&mut st);
    assert_eq!(Log::get_threshold(&st), Log::Spew);
    Log::inc_threshold(&mut st);
    assert_eq!(Log::get_threshold(&st), Log::Spew);
    Log::drop(&mut st);
}

#[test]
fn log_before_init_is_not_ready() {
    let mut st = LogState::new();
    match Log::Warning.log(&mut st, "too early") {
        Err(LogError::NotReady) => (),
        _ => panic!("Should have failed with NotReady"),
    }
}

#[test]
fn threshold_filters_messages() {
    let mut st = LogState::new();
    Log::init(&mut st, "progname", Log::Warning).unwrap();
    Log::Debug.log(&mut st, "too chatty").unwrap();
    assert!(st.last_message().is_none(), "Debug must not pass a Warning threshold");
    Log::Error.log(&mut st, "went wrong").unwrap();
    assert_eq!(st.last_message().unwrap(), "went wrong");
    Log::Warning.logln(&mut st, "watch out").unwrap();
    assert_eq!(st.last_message().unwrap(), "watch out\n");
    Log::drop(&mut st);
}

#[test]
fn log_error_descriptions_are_fixed() {
    assert_eq!(LogError::NotReady.description(), "Not ready");
    assert_eq!(LogError::Init(2).description(), "Initialization");
    assert_eq!(LogError::InvalidThreshold.description(), "Invalid threshold");
}

#[test]
fn level_encoding_round_trip() {
    assert_eq!(Log::renum_to_cenum(Log::Emerg), 0);
    assert_eq!(Log::renum_to_cenum(Log::Warning), 4);
    assert_eq!(Log::renum_to_cenum(Log::Spew), 8);
    assert_eq!(Log::cenum_to_renum(0), Log::Emerg);
    assert_eq!(Log::cenum_to_renum(4), Log::Warning);
    assert_eq!(Log::cenum_to_renum(8), Log::Spew);
    assert_eq!(Log::cenum_to_renum(200), Log::Spew);
    assert_eq!(Log::from(7u32), Log::Debug);
    assert_eq!(Log::from(99u32), Log::Spew);
}
