//! Argument interpretation: splitting a raw argument list into flags, a
//! root path and a query, validating the flags against the catalog, and
//! building the immutable configuration.
//!
//! The raw list is partitioned, program name at index 0 excluded, by one
//! predicate: a token with a leading dash is a flag token, every other
//! token is positional. The first positional token is the root path; the
//! remaining positional tokens are concatenated, without a separator,
//! into the query.

use vstd::prelude::*;
use vstd::string::StrSliceExecFns;
use vstd::string::StringExecFns;

use crate::options::Flag;
use crate::options::flag_of;
use crate::options::parse_flag;

verus! {

/// A fatal pre-run failure: the run never starts when one arises.
#[derive(Clone, Copy, Debug, PartialEq, Eq, Structural)]
pub enum ArgumentError {
    MissingPath,
    MissingQuery,
    InvalidOption,
    PathNotFound,
}

impl ArgumentError {
    /// The human-readable description of the error.
    pub fn message(&self) -> (r: String)
        ensures
            *self == ArgumentError::MissingPath ==> r@ == "No/invalid path given"@,
            *self == ArgumentError::MissingQuery ==> r@ == "No/invalid query given"@,
            *self == ArgumentError::InvalidOption ==> r@ == "One or more invalid options."@,
            *self == ArgumentError::PathNotFound ==> r@ == "Invalid path."@,
    {
        match self {
            ArgumentError::MissingPath => "No/invalid path given".to_owned(),
            ArgumentError::MissingQuery => "No/invalid query given".to_owned(),
            ArgumentError::InvalidOption => "One or more invalid options.".to_owned(),
            ArgumentError::PathNotFound => "Invalid path.".to_owned(),
        }
    }
}

/// Validated, immutable settings for one run.
pub struct Config {
    pub query: String,
    pub path: String,
    pub case_sensitive: bool,
    pub filter: bool,
    pub filter_for: Vec<String>,
    pub recurse: bool,
    pub verbose: bool,
    pub help: bool,
}

/// A token with a leading dash: the partition predicate.
pub open spec fn starts_dash(s: Seq<char>) -> bool {
    s.len() > 0 && s[0] == '-'
}

/// The argument list with the program-name token at index 0 excluded.
pub open spec fn rest_args(a: Seq<String>) -> Seq<String> {
    if a.len() == 0 {
        Seq::empty()
    } else {
        a.drop_first()
    }
}

/// The flag tokens of a list, in order.
pub open spec fn dash_tokens(a: Seq<String>) -> Seq<String>
    decreases a,
{
    if a.len() == 0 {
        Seq::empty()
    } else {
        dash_tokens(a.drop_last()) + (if starts_dash(a.last()@) {
            seq![a.last()]
        } else {
            Seq::empty()
        })
    }
}

/// The positional tokens of a list, in order.
pub open spec fn positional_tokens(a: Seq<String>) -> Seq<String>
    decreases a,
{
    if a.len() == 0 {
        Seq::empty()
    } else {
        positional_tokens(a.drop_last()) + (if starts_dash(a.last()@) {
            Seq::empty()
        } else {
            seq![a.last()]
        })
    }
}

/// The concatenation of a list of tokens, without a separator.
pub open spec fn concat_all(s: Seq<String>) -> Seq<char>
    decreases s,
{
    if s.len() == 0 {
        Seq::empty()
    } else {
        concat_all(s.drop_last()) + s.last()@
    }
}

/// The root path an argument list designates: its first positional
/// token, program name excluded; empty when there is none.
pub open spec fn spec_path(a: Seq<String>) -> Seq<char> {
    let p = positional_tokens(rest_args(a));
    if p.len() == 0 {
        Seq::empty()
    } else {
        p[0]@
    }
}

/// The query an argument list designates: every positional token after
/// the root path, concatenated without a separator.
pub open spec fn spec_query(a: Seq<String>) -> Seq<char> {
    let p = positional_tokens(rest_args(a));
    if p.len() <= 1 {
        Seq::empty()
    } else {
        concat_all(p.drop_first())
    }
}

/// Some token of the list spells the given flag.
pub open spec fn has_flag(opts: Seq<String>, f: Flag) -> bool {
    exists|i: int| 0 <= i < opts.len() && flag_of(opts[i]@) == Some(f)
}

/// Some token of the list is outside the catalog.
pub open spec fn has_invalid_option(opts: Seq<String>) -> bool {
    exists|i: int| 0 <= i < opts.len() && flag_of(opts[i]@) is None
}

/// The configuration the given argument list designates.
pub open spec fn config_matches(c: Config, a: Seq<String>) -> bool {
    let opts = dash_tokens(rest_args(a));
    &&& c.query@ == spec_query(a)
    &&& c.path@ == spec_path(a)
    &&& c.case_sensitive == !has_flag(opts, Flag::CaseInsensitive)
    &&& c.recurse == has_flag(opts, Flag::Recursive)
    &&& c.verbose == has_flag(opts, Flag::Verbose)
    &&& c.help == has_flag(opts, Flag::Help)
    &&& c.filter == false
    &&& c.filter_for@.len() == 0
}

impl Config {
    /// The configuration invariant: the query and the root path are
    /// never empty, unless help short-circuits the run.
    pub open spec fn wf(self) -> bool {
        self.help || (self.query@.len() > 0 && self.path@.len() > 0)
    }

    /// Partitions the raw argument list into flag tokens, root path and
    /// query; fails fast when the path or the query comes out empty.
    pub fn parse_arguments(args: &[String]) -> (r: Result<(Vec<String>, String, String), ArgumentError>)
        ensures
            ({
                let a = args@;
                match r {
                    Ok(t) => {
                        &&& t.0@ == dash_tokens(rest_args(a))
                        &&& t.1@ == spec_path(a)
                        &&& t.2@ == spec_query(a)
                        &&& spec_path(a).len() > 0
                        &&& spec_query(a).len() > 0
                    },
                    Err(e) => {
                        &&& (e == ArgumentError::MissingPath <==> spec_path(a).len() == 0)
                        &&& (e == ArgumentError::MissingQuery <==> spec_path(a).len() > 0
                            && spec_query(a).len() == 0)
                        &&& (e is MissingPath || e is MissingQuery)
                    },
                }
            }),
    {
        let mut opts: Vec<String> = Vec::new();
        let mut path: String = String::new();
        let mut found_path: bool = false;
        let mut query: String = String::new();
        let n = args.len();
        if n == 0 {
            proof {
                assert(positional_tokens(rest_args(args@)) =~= Seq::<String>::empty());
            }
            return Err(ArgumentError::MissingPath);
        }
        let mut i: usize = 1;
        while i < n
            invariant
                n == args@.len(),
                1 <= i <= n,
                opts@ == dash_tokens(args@.subrange(1, i as int)),
                ({
                    let p = positional_tokens(args@.subrange(1, i as int));
                    &&& (found_path <==> p.len() > 0)
                    &&& (found_path ==> path@ == p[0]@)
                    &&& (!found_path ==> path@.len() == 0)
                    &&& query@ == (if p.len() <= 1 {
                        Seq::<char>::empty()
                    } else {
                        concat_all(p.drop_first())
                    })
                }),
            decreases n - i,
        {
            proof {
                assert(args@.subrange(1, i + 1).drop_last() =~= args@.subrange(1, i as int));
                assert(args@.subrange(1, i + 1).last() == args@[i as int]);
                assert(dash_tokens(args@.subrange(1, i + 1)) == dash_tokens(
                    args@.subrange(1, i as int),
                ) + (if starts_dash(args@[i as int]@) {
                    seq![args@[i as int]]
                } else {
                    Seq::<String>::empty()
                }));
                assert(positional_tokens(args@.subrange(1, i + 1)) == positional_tokens(
                    args@.subrange(1, i as int),
                ) + (if starts_dash(args@[i as int]@) {
                    Seq::<String>::empty()
                } else {
                    seq![args@[i as int]]
                }));
            }
            let s = &args[i];
            let dash = !s.as_str().is_empty() && s.as_str().get_char(0) == '-';
            if dash {
                opts.push(s.clone());
                proof {
                    assert(opts@ =~= dash_tokens(args@.subrange(1, i + 1)));
                }
            } else if !found_path {
                path = s.clone();
                found_path = true;
                proof {
                    let p1 = positional_tokens(args@.subrange(1, i + 1));
                    assert(p1 =~= seq![args@[i as int]]);
                    assert(p1[0]@ == path@);
                }
            } else {
                query.append(s.as_str());
                proof {
                    let p0 = positional_tokens(args@.subrange(1, i as int));
                    let p1 = positional_tokens(args@.subrange(1, i + 1));
                    assert(p1 =~= p0 + seq![args@[i as int]]);
                    assert(p1.drop_first() =~= p0.drop_first() + seq![args@[i as int]]);
                    assert(p1.drop_first().drop_last() =~= p0.drop_first());
                    assert(p1.drop_first().last() == args@[i as int]);
                    assert(concat_all(p1.drop_first()) == concat_all(p1.drop_first().drop_last())
                        + p1.drop_first().last()@);
                }
            }
            i = i + 1;
        }
        proof {
            assert(args@.subrange(1, n as int) =~= rest_args(args@));
        }
        if path.as_str().is_empty() {
            return Err(ArgumentError::MissingPath);
        }
        if query.as_str().is_empty() {
            return Err(ArgumentError::MissingQuery);
        }
        Ok((opts, path, query))
    }

    /// Builds the configuration from the argument list, with the root's
    /// existence supplied by the caller. Checks run in order: missing
    /// path, missing query, invalid option, root not found.
    pub fn resolve(args: &[String], root_exists: bool) -> (r: Result<Config, ArgumentError>)
        ensures
            ({
                let a = args@;
                let opts = dash_tokens(rest_args(a));
                let well_formed = spec_path(a).len() > 0 && spec_query(a).len() > 0;
                &&& (spec_path(a).len() == 0 ==> r == Err::<Config, ArgumentError>(
                    ArgumentError::MissingPath,
                ))
                &&& (spec_path(a).len() > 0 && spec_query(a).len() == 0 ==> r == Err::<
                    Config,
                    ArgumentError,
                >(ArgumentError::MissingQuery))
                &&& (well_formed && has_invalid_option(opts) ==> r == Err::<Config, ArgumentError>(
                    ArgumentError::InvalidOption,
                ))
                &&& (well_formed && !has_invalid_option(opts) && !root_exists ==> r == Err::<
                    Config,
                    ArgumentError,
                >(ArgumentError::PathNotFound))
                &&& (well_formed && !has_invalid_option(opts) && root_exists ==> r is Ok)
                &&& (r is Ok ==> config_matches(r->Ok_0, a) && r->Ok_0.wf())
            }),
    {
        let parsed = Config::parse_arguments(args);
        match parsed {
            Err(e) => Err(e),
            Ok((options, path, query)) => {
                let n = options.len();
                let mut i: usize = 0;
                while i < n
                    invariant
                        n == options@.len(),
                        i <= n,
                        options@ == dash_tokens(rest_args(args@)),
                        spec_path(args@).len() > 0,
                        spec_query(args@).len() > 0,
                        forall|k: int| 0 <= k < i ==> flag_of(options@[k]@) is Some,
                    decreases n - i,
                {
                    if parse_flag(options[i].as_str()).is_none() {
                        proof {
                            assert(has_invalid_option(options@)) by {
                                assert(flag_of(options@[i as int]@) is None);
                            }
                        }
                        return Err(ArgumentError::InvalidOption);
                    }
                    i = i + 1;
                }
                proof {
                    assert(!has_invalid_option(options@)) by {
                        if has_invalid_option(options@) {
                            let k = choose|k: int|
                                0 <= k < options@.len() && flag_of(options@[k]@) is None;
                            assert(flag_of(options@[k]@) is Some);
                        }
                    }
                }
                if !root_exists {
                    return Err(ArgumentError::PathNotFound);
                }
                let mut case_sensitive: bool = true;
                let mut recurse: bool = false;
                let mut verbose: bool = false;
                let mut help: bool = false;
                let mut j: usize = 0;
                while j < n
                    invariant
                        n == options@.len(),
                        j <= n,
                        options@ == dash_tokens(rest_args(args@)),
                        case_sensitive == !has_flag(
                            options@.subrange(0, j as int),
                            Flag::CaseInsensitive,
                        ),
                        recurse == has_flag(options@.subrange(0, j as int), Flag::Recursive),
                        verbose == has_flag(options@.subrange(0, j as int), Flag::Verbose),
                        help == has_flag(options@.subrange(0, j as int), Flag::Help),
                    decreases n - j,
                {
                    proof {
                        lemma_has_flag_extend(options@, j as int, Flag::CaseInsensitive);
                        lemma_has_flag_extend(options@, j as int, Flag::Recursive);
                        lemma_has_flag_extend(options@, j as int, Flag::Verbose);
                        lemma_has_flag_extend(options@, j as int, Flag::Help);
                    }
                    match parse_flag(options[j].as_str()) {
                        Some(Flag::CaseInsensitive) => {
                            case_sensitive = false;
                        },
                        Some(Flag::Recursive) => {
                            recurse = true;
                        },
                        Some(Flag::Verbose) => {
                            verbose = true;
                        },
                        Some(Flag::Help) => {
                            help = true;
                        },
                        None => {},
                    }
                    j = j + 1;
                }
                proof {
                    assert(options@.subrange(0, n as int) =~= options@);
                }
                Ok(
                    Config {
                        query,
                        path,
                        case_sensitive,
                        filter: false,
                        filter_for: Vec::new(),
                        recurse,
                        verbose,
                        help,
                    },
                )
            },
        }
    }

    /// Builds the configuration from the argument list, probing the
    /// filesystem for the root path's existence. The probe happens only
    /// once parsing has succeeded: a list with a missing path or a
    /// missing query is rejected without touching the disk.
    /// Everything but the probe's outcome is pinned down: which error
    /// comes back on a bad argument list, and the exact configuration
    /// on a good one.
    pub fn new(args: &[String]) -> (r: Result<Config, ArgumentError>)
        ensures
            ({
                let a = args@;
                let opts = dash_tokens(rest_args(a));
                let well_formed = spec_path(a).len() > 0 && spec_query(a).len() > 0;
                &&& (spec_path(a).len() == 0 ==> r == Err::<Config, ArgumentError>(
                    ArgumentError::MissingPath,
                ))
                &&& (spec_path(a).len() > 0 && spec_query(a).len() == 0 ==> r == Err::<
                    Config,
                    ArgumentError,
                >(ArgumentError::MissingQuery))
                &&& (well_formed && has_invalid_option(opts) ==> r == Err::<Config, ArgumentError>(
                    ArgumentError::InvalidOption,
                ))
                &&& (well_formed && !has_invalid_option(opts) ==> r is Ok || r == Err::<
                    Config,
                    ArgumentError,
                >(ArgumentError::PathNotFound))
                &&& (r is Ok ==> config_matches(r->Ok_0, a) && r->Ok_0.wf())
            }),
    {
        match Config::parse_arguments(args) {
            Err(e) => Err(e),
            Ok((_options, path, _query)) => {
                let on_disk = root_exists_on_disk(&path);
                Config::resolve(args, on_disk)
            },
        }
    }
}

/// A flag is present in a prefix one longer exactly when it was present
/// before or the newly covered token spells it.
proof fn lemma_has_flag_extend(opts: Seq<String>, i: int, f: Flag)
    requires
        0 <= i < opts.len(),
    ensures
        has_flag(opts.subrange(0, i + 1), f) <==> (has_flag(opts.subrange(0, i), f) || flag_of(
            opts[i]@,
        ) == Some(f)),
{
    let s0 = opts.subrange(0, i);
    let s1 = opts.subrange(0, i + 1);
    if has_flag(s0, f) {
        let k = choose|k: int| 0 <= k < s0.len() && flag_of(s0[k]@) == Some(f);
        assert(s1[k] == s0[k]);
        assert(has_flag(s1, f));
    }
    if flag_of(opts[i]@) == Some(f) {
        assert(s1[i] == opts[i]);
        assert(has_flag(s1, f));
    }
    if has_flag(s1, f) {
        let k = choose|k: int| 0 <= k < s1.len() && flag_of(s1[k]@) == Some(f);
        if k < i {
            assert(s0[k] == s1[k]);
            assert(has_flag(s0, f));
        } else {
            assert(s1[k] == opts[i]);
        }
    }
}

/// Relies on std::path::Path::exists: whether the given path points at
/// an existing filesystem entity. The answer depends on the state of
/// the disk at the moment of the call, so nothing is promised of it;
/// callers state what holds either way.
#[verifier::external_body]
fn root_exists_on_disk(path: &String) -> bool {
    std::path::Path::new(path.as_str()).exists()
}

} // verus!
