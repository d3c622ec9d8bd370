//! The window onto the getopts crate that the front end parses its
//! command line through.
//!
//! Option sets and parse results are opaque here; the one thing the
//! contracts track is the set of option names each knows, because the
//! accessors of a parse result panic when asked about a name that was
//! never defined. Everything the front end decides is decided on the
//! plain values these wrappers hand back.

use vstd::prelude::*;

verus! {

#[verifier::external_type_specification]
#[verifier::external_body]
pub struct ExOptions(getopts::Options);

#[verifier::external_type_specification]
#[verifier::external_body]
pub struct ExMatches(getopts::Matches);

/// The option names, short and long, that an option set defines.
pub uninterp spec fn defined_names(o: getopts::Options) -> Set<Seq<char>>;

/// The option names that a parse result can be asked about.
pub uninterp spec fn known_names(m: getopts::Matches) -> Set<Seq<char>>;

/// `m` is the parse result of checking the arguments against the option
/// set: the name for what `getopts::Options::parse` returns, stated as a
/// relation so nothing is claimed beyond what one call produced.
pub uninterp spec fn parsed(o: getopts::Options, args: Seq<Seq<char>>, m: getopts::Matches) -> bool;

/// The arguments parse successfully against the option set.
pub open spec fn parse_ok(o: getopts::Options, args: Seq<Seq<char>>) -> bool {
    exists|m: getopts::Matches| parsed(o, args, m)
}

/// Whether a parse result holds the named option: the contents of a
/// parse result, as `getopts::Matches::opt_present` reads them.
pub uninterp spec fn present_in(m: getopts::Matches, name: Seq<char>) -> bool;

/// How many times a parse result holds the named option, as
/// `getopts::Matches::opt_count` counts them.
pub uninterp spec fn count_in(m: getopts::Matches, name: Seq<char>) -> usize;

/// The argument a parse result holds for the named option, as
/// `getopts::Matches::opt_str` reads it.
pub uninterp spec fn arg_in(m: getopts::Matches, name: Seq<char>) -> Option<Seq<char>>;

/// The positional arguments a parse result holds, in order: the contents
/// of the `free` field.
pub uninterp spec fn free_of(m: getopts::Matches) -> Seq<Seq<char>>;

/// The usage text `getopts::Options::usage` derives from a brief line
/// and the option set; it depends on those two values alone.
pub uninterp spec fn usage_of(o: getopts::Options, brief: Seq<char>) -> Seq<char>;

/// Relies on getopts::Options::new: a blank option set defining no names.
#[verifier::external_body]
pub fn options_new() -> (o: getopts::Options)
    ensures
        defined_names(o) == Set::<Seq<char>>::empty(),
{
    getopts::Options::new()
}

/// Relies on getopts::Options::optflag: defines a no-argument flag under
/// its short and long names. It panics on ill-formed names, so only a
/// one-character ASCII short name and a long name of two or more
/// characters are admitted; both are then findable in a parse result.
#[verifier::external_body]
pub fn optflag(o: &mut getopts::Options, short: &str, long: &str, desc: &str)
    requires
        short@.len() == 1,
        (short@[0] as u32) < 128,
        long@.len() >= 2,
    ensures
        defined_names(*final(o)) == defined_names(*old(o)).insert(short@).insert(long@),
{
    o.optflag(short, long, desc);
}

/// Relies on getopts::Options::optflagmulti: as `optflag`, for a flag
/// that may be given any number of times.
#[verifier::external_body]
pub fn optflagmulti(o: &mut getopts::Options, short: &str, long: &str, desc: &str)
    requires
        short@.len() == 1,
        (short@[0] as u32) < 128,
        long@.len() >= 2,
    ensures
        defined_names(*final(o)) == defined_names(*old(o)).insert(short@).insert(long@),
{
    o.optflagmulti(short, long, desc);
}

/// Relies on getopts::Options::optopt: defines an optional option that
/// takes an argument, under its short and long names. Panics as `optflag`
/// does, so the same names are excluded.
#[verifier::external_body]
pub fn optopt(o: &mut getopts::Options, short: &str, long: &str, desc: &str, hint: &str)
    requires
        short@.len() == 1,
        (short@[0] as u32) < 128,
        long@.len() >= 2,
    ensures
        defined_names(*final(o)) == defined_names(*old(o)).insert(short@).insert(long@),
{
    o.optopt(short, long, desc, hint);
}

/// Relies on getopts::Options::parse: checks the arguments against the
/// defined options, succeeding exactly when they conform to them. A
/// successful parse can be asked about every defined name; a failed one
/// is rendered to its display text.
#[verifier::external_body]
pub fn parse_args(o: &getopts::Options, args: &Vec<String>) -> (r: Result<getopts::Matches, String>)
    ensures
        r matches Ok(m) ==> parsed(*o, args.deep_view(), m) && known_names(m) == defined_names(*o),
        (r is Ok) == parse_ok(*o, args.deep_view()),
{
    match o.parse(args) {
        Ok(m) => Ok(m),
        Err(f) => Err(format!("{}", f)),
    }
}

/// Relies on getopts::Matches::opt_present: whether the named option was
/// given. It panics on an unknown name, so those are excluded.
#[verifier::external_body]
pub fn opt_present(m: &getopts::Matches, name: &str) -> (r: bool)
    requires
        known_names(*m).contains(name@),
    ensures
        r == present_in(*m, name@),
{
    m.opt_present(name)
}

/// Relies on getopts::Matches::opt_count: how many times the named option
/// was given. It panics on an unknown name, so those are excluded.
#[verifier::external_body]
pub fn opt_count(m: &getopts::Matches, name: &str) -> (r: usize)
    requires
        known_names(*m).contains(name@),
    ensures
        r == count_in(*m, name@),
{
    m.opt_count(name)
}

/// Relies on getopts::Matches::opt_str: the argument given to the named
/// option, if any. It panics on an unknown name, so those are excluded.
#[verifier::external_body]
pub fn opt_str(m: &getopts::Matches, name: &str) -> (r: Option<String>)
    requires
        known_names(*m).contains(name@),
    ensures
        r matches Some(s) ==> arg_in(*m, name@) == Some(s@),
        r is None ==> arg_in(*m, name@) is None,
{
    m.opt_str(name)
}

/// Relies on getopts::Matches::free, the public field holding the
/// positional arguments in order.
#[verifier::external_body]
pub fn free_args(m: &getopts::Matches) -> (r: Vec<String>)
    ensures
        r.deep_view() == free_of(*m),
{
    m.free.clone()
}

/// Relies on getopts::Options::usage: the usage text derived from the
/// brief line and the defined options, and from nothing else.
#[verifier::external_body]
pub fn usage(o: &getopts::Options, brief: &str) -> (r: String)
    ensures
        r@ == usage_of(*o, brief@),
{
    o.usage(brief)
}

} // verus!
