//! The run orchestrator: wires the candidate list to the search, isolates
//! per-file read failures, and assembles the match report.
//!
//! A failed read never aborts the run: the file is excluded from the
//! match report, and when verbose mode is on an error line is collected
//! for it instead.

use vstd::prelude::*;
use vstd::string::StringExecFns;

use crate::config::Config;
use crate::search::contains_query;
use crate::search::contains_query_spec;

verus! {

/// The outcome of one run: the matching paths in enumeration order, the
/// error lines collected under verbose mode, and whether help
/// short-circuited everything.
pub struct RunReport {
    pub matches: Vec<String>,
    pub errors: Vec<String>,
    pub help: bool,
}

/// The error line reported for a file that could not be read.
pub open spec fn error_line(path: Seq<char>, msg: Seq<char>) -> Seq<char> {
    "Error searching "@ + path + ": "@ + msg
}

/// The file behind one read matched: it was readable and its content
/// contains the query under the active mode.
pub open spec fn matched(q: Seq<char>, cs: bool, read: Result<String, String>) -> bool {
    read is Ok && contains_query_spec(q, read->Ok_0@, cs)
}

/// The matching paths among the first `n` candidates, in order.
pub open spec fn matches_up_to(
    q: Seq<char>,
    cs: bool,
    paths: Seq<String>,
    reads: Seq<Result<String, String>>,
    n: int,
) -> Seq<Seq<char>>
    decreases n,
{
    if n <= 0 {
        Seq::empty()
    } else {
        matches_up_to(q, cs, paths, reads, n - 1) + (if matched(q, cs, reads[n - 1]) {
            seq![paths[n - 1]@]
        } else {
            Seq::empty()
        })
    }
}

/// The full match report for a candidate list and its reads.
pub open spec fn report_matches(
    q: Seq<char>,
    cs: bool,
    paths: Seq<String>,
    reads: Seq<Result<String, String>>,
) -> Seq<Seq<char>> {
    matches_up_to(q, cs, paths, reads, paths.len() as int)
}

/// The error lines for the unreadable files among the first `n`
/// candidates, in order.
pub open spec fn errors_up_to(
    paths: Seq<String>,
    reads: Seq<Result<String, String>>,
    n: int,
) -> Seq<Seq<char>>
    decreases n,
{
    if n <= 0 {
        Seq::empty()
    } else {
        errors_up_to(paths, reads, n - 1) + (if reads[n - 1] is Err {
            seq![error_line(paths[n - 1]@, reads[n - 1]->Err_0@)]
        } else {
            Seq::empty()
        })
    }
}

/// The full list of error lines for a candidate list and its reads.
pub open spec fn report_errors(paths: Seq<String>, reads: Seq<Result<String, String>>) -> Seq<
    Seq<char>,
> {
    errors_up_to(paths, reads, paths.len() as int)
}

/// Builds the error line for one unreadable file.
fn build_error_line(path: &String, msg: &String) -> (r: String)
    ensures
        r@ == error_line(path@, msg@),
{
    let mut line: String = "Error searching ".to_owned();
    line.append(path.as_str());
    line.append(": ");
    line.append(msg.as_str());
    proof {
        assert(line@ =~= error_line(path@, msg@));
    }
    line
}

/// Runs the search over the candidate list. `paths` are the candidates
/// in enumeration order; `reads[i]` is the content of `paths[i]`, or
/// the description of the failure that kept it from being read. When
/// the configuration asks for help the run touches nothing and reports
/// nothing. A read failure is swallowed into a non-match; it is listed
/// as an error line exactly when verbose mode is on.
pub fn run(config: &Config, paths: &Vec<String>, reads: &Vec<Result<String, String>>) -> (report:
    RunReport)
    requires
        paths@.len() == reads@.len(),
    ensures
        report.help == config.help,
        config.help ==> report.matches@.len() == 0 && report.errors@.len() == 0,
        !config.help ==> report.matches.deep_view() == report_matches(
            config.query@,
            config.case_sensitive,
            paths@,
            reads@,
        ),
        !config.help && config.verbose ==> report.errors.deep_view() == report_errors(
            paths@,
            reads@,
        ),
        !config.help && !config.verbose ==> report.errors@.len() == 0,
{
    if config.help {
        return RunReport { matches: Vec::new(), errors: Vec::new(), help: true };
    }
    let mut found: Vec<String> = Vec::new();
    let mut failures: Vec<String> = Vec::new();
    let n = paths.len();
    let mut i: usize = 0;
    while i < n
        invariant
            n == paths@.len(),
            n == reads@.len(),
            i <= n,
            found.deep_view() =~~= matches_up_to(
                config.query@,
                config.case_sensitive,
                paths@,
                reads@,
                i as int,
            ),
            config.verbose ==> failures.deep_view() =~~= errors_up_to(paths@, reads@, i as int),
            !config.verbose ==> failures@.len() == 0,
        decreases n - i,
    {
        match &reads[i] {
            Ok(content) => {
                let is_match = contains_query(
                    config.query.as_str(),
                    content.as_str(),
                    config.case_sensitive,
                );
                if is_match {
                    found.push(paths[i].clone());
                }
            },
            Err(msg) => {
                if config.verbose {
                    let line = build_error_line(&paths[i], msg);
                    failures.push(line);
                }
            },
        }
        proof {
            assert(found.deep_view() =~~= matches_up_to(
                config.query@,
                config.case_sensitive,
                paths@,
                reads@,
                i + 1,
            ));
            if config.verbose {
                assert(failures.deep_view() =~~= errors_up_to(paths@, reads@, i + 1));
            }
        }
        i = i + 1;
    }
    RunReport { matches: found, errors: failures, help: false }
}

/// Two candidate lists equal over their first `n` entries yield the
/// same prefix report.
proof fn lemma_matches_prefix_eq(
    q: Seq<char>,
    cs: bool,
    paths1: Seq<String>,
    reads1: Seq<Result<String, String>>,
    paths2: Seq<String>,
    reads2: Seq<Result<String, String>>,
    n: int,
)
    requires
        forall|i: int| 0 <= i < n ==> paths1[i] == paths2[i] && reads1[i] == reads2[i],
    ensures
        matches_up_to(q, cs, paths1, reads1, n) == matches_up_to(q, cs, paths2, reads2, n),
    decreases n,
{
    if n > 0 {
        lemma_matches_prefix_eq(q, cs, paths1, reads1, paths2, reads2, n - 1);
    }
}

/// A candidate that does not match contributes nothing: the report over
/// the first `n` candidates equals the report over the list with that
/// candidate removed, up to the same point.
proof fn lemma_matches_skip(
    q: Seq<char>,
    cs: bool,
    paths: Seq<String>,
    reads: Seq<Result<String, String>>,
    k: int,
    n: int,
)
    requires
        paths.len() == reads.len(),
        0 <= k < reads.len(),
        !matched(q, cs, reads[k]),
        k < n <= reads.len(),
    ensures
        matches_up_to(q, cs, paths.remove(k), reads.remove(k), n - 1) == matches_up_to(
            q,
            cs,
            paths,
            reads,
            n,
        ),
    decreases n,
{
    if n - 1 == k {
        lemma_matches_prefix_eq(q, cs, paths.remove(k), reads.remove(k), paths, reads, k);
    } else {
        lemma_matches_skip(q, cs, paths, reads, k, n - 1);
        assert(paths.remove(k)[n - 2] == paths[n - 1]);
        assert(reads.remove(k)[n - 2] == reads[n - 1]);
    }
}

/// With every candidate but `k` readable, the error lines over the
/// first `n` candidates are exactly the one line for `k`, once `n` has
/// passed it.
proof fn lemma_single_error_line(
    paths: Seq<String>,
    reads: Seq<Result<String, String>>,
    k: int,
    n: int,
)
    requires
        paths.len() == reads.len(),
        0 <= k < reads.len(),
        reads[k] is Err,
        forall|j: int| 0 <= j < reads.len() && j != k ==> reads[j] is Ok,
        0 <= n <= reads.len(),
    ensures
        errors_up_to(paths, reads, n) == (if n <= k {
            Seq::<Seq<char>>::empty()
        } else {
            seq![error_line(paths[k]@, reads[k]->Err_0@)]
        }),
    decreases n,
{
    if n > 0 {
        lemma_single_error_line(paths, reads, k, n - 1);
        if n - 1 == k {
            assert(errors_up_to(paths, reads, n) =~= seq![
                error_line(paths[k]@, reads[k]->Err_0@),
            ]);
        } else {
            assert(reads[n - 1] is Ok);
            assert(errors_up_to(paths, reads, n) =~= errors_up_to(paths, reads, n - 1));
        }
    }
}

/// Error isolation: when one candidate among many cannot be read, the
/// match report is exactly the report over the other candidates, and
/// the verbose error lines are exactly the one line for the unreadable
/// candidate.
pub proof fn lemma_error_isolation(
    q: Seq<char>,
    cs: bool,
    paths: Seq<String>,
    reads: Seq<Result<String, String>>,
    k: int,
)
    requires
        paths.len() == reads.len(),
        0 <= k < reads.len(),
        reads[k] is Err,
        forall|j: int| 0 <= j < reads.len() && j != k ==> reads[j] is Ok,
    ensures
        report_matches(q, cs, paths, reads) == report_matches(
            q,
            cs,
            paths.remove(k),
            reads.remove(k),
        ),
        report_errors(paths, reads) == seq![error_line(paths[k]@, reads[k]->Err_0@)],
{
    lemma_matches_skip(q, cs, paths, reads, k, reads.len() as int);
    lemma_single_error_line(paths, reads, k, reads.len() as int);
}

/// Running the full search twice over an unmodified snapshot with
/// identical settings yields an identical match report.
pub proof fn lemma_report_idempotent(
    q1: Seq<char>,
    cs1: bool,
    paths1: Seq<String>,
    reads1: Seq<Result<String, String>>,
    q2: Seq<char>,
    cs2: bool,
    paths2: Seq<String>,
    reads2: Seq<Result<String, String>>,
)
    requires
        q1 == q2,
        cs1 == cs2,
        paths1 == paths2,
        reads1 == reads2,
    ensures
        report_matches(q1, cs1, paths1, reads1) == report_matches(q2, cs2, paths2, reads2),
        report_errors(paths1, reads1) == report_errors(paths2, reads2),
{
}

} // verus!
