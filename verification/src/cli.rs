//! The parsed command line, as clap hands it over.
//!
//! The library reads an `ArgMatches` through three trusted wrappers; the two
//! names `cli_present` and `cli_args` stand for what the matches hold: the
//! set of names that were supplied, and the values each name carries (decoded
//! lossily, so a byte sequence that is not UTF-8 never stops the process).
use vstd::prelude::*;

verus! {

#[verifier::external_type_specification]
#[verifier::external_body]
pub struct ExArgMatches<'a>(clap::ArgMatches<'a>);

/// The names that `is_present` reports: every supplied argument, and the
/// used subcommand's name if one was used.
pub uninterp spec fn cli_present(m: clap::ArgMatches) -> Set<Seq<char>>;

/// The supplied arguments and the values each carries, in order, decoded
/// as text.
pub uninterp spec fn cli_args(m: clap::ArgMatches) -> Map<Seq<char>, Seq<Seq<char>>>;

/// Relies on clap's `ArgMatches::is_present`: true exactly when the named
/// argument was supplied (or a subcommand of that name was used).
#[verifier::external_body]
pub fn arg_present(m: &clap::ArgMatches, name: &str) -> (r: bool)
    ensures
        r == cli_present(*m).contains(name@),
{
    m.is_present(name)
}

/// Relies on clap's `ArgMatches::value_of_lossy`: the first value of the
/// named argument when the argument was supplied with at least one value,
/// and nothing otherwise.
#[verifier::external_body]
pub fn arg_value(m: &clap::ArgMatches, name: &str) -> (r: Option<String>)
    ensures
        (r is Some) == (cli_args(*m).dom().contains(name@) && cli_args(*m)[name@].len() > 0),
        r matches Some(s) ==> s@ == cli_args(*m)[name@][0],
{
    m.value_of_lossy(name).map(|s| s.into_owned())
}

/// Relies on clap's `ArgMatches::values_of_lossy`: every value of the named
/// argument, in order, when the argument was supplied, and nothing
/// otherwise.
#[verifier::external_body]
pub fn arg_values(m: &clap::ArgMatches, name: &str) -> (r: Option<Vec<String>>)
    ensures
        (r is Some) == cli_args(*m).dom().contains(name@),
        r matches Some(vs) ==> vs.deep_view() == cli_args(*m)[name@],
{
    m.values_of_lossy(name)
}

} // verus!
