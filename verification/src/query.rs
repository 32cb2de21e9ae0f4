//! The raw-query passthrough and its audit log.
//!
//! A raw query is any text. It is read for rows where, with the blanks
//! around it trimmed and its letters lowered, it begins with `select`, and
//! run for its effect otherwise. Nothing else about the text is checked.
//! Every raw query is also written to the log, as one fenced block.

use crate::statement::{plain, Statement};
use vstd::prelude::*;
use vstd::std_specs::iter::IteratorSpec;

verus! {

/// The text that `str::trim` returns for `text`.
pub uninterp spec fn trimmed(text: Seq<char>) -> Seq<char>;

/// The text that `str::to_lowercase` returns for `text`.
pub uninterp spec fn lowercased(text: Seq<char>) -> Seq<char>;

/// `str::trim`: the text without the white space, in Unicode's sense, at
/// its two ends.
#[verifier::external_body]
fn trim(text: &str) -> (inner: &str)
    ensures
        inner@ == trimmed(text@),
{
    text.trim()
}

/// `str::to_lowercase`: the lowercase equivalent of the text, in
/// Unicode's sense, as a new string.
#[verifier::external_body]
fn to_lowercase(text: &str) -> (lower: String)
    ensures
        lower@ == lowercased(text@),
{
    text.to_lowercase()
}

/// The word that marks a query as one read for its rows.
pub const SELECT_WORD: &'static str = "select";

/// What opens a log entry, up to the query.
pub const LOG_OPENING: &'static str = "```sql\n";

/// What closes a log entry, after the query: the end of the fence and a
/// blank line.
pub const LOG_CLOSING: &'static str = "\n```\n\n";

/// A raw query as the policy looks at it: trimmed, then lowered.
pub open spec fn normalized(query: Seq<char>) -> Seq<char> {
    lowercased(trimmed(query))
}

/// Whether a normalized query is read for its rows.
pub open spec fn selects(normal: Seq<char>) -> bool {
    SELECT_WORD@.is_prefix_of(normal)
}

/// The log entry of `query`: the query as it was given, inside a fenced
/// block marked as SQL, followed by a blank line.
pub open spec fn log_entry(query: Seq<char>) -> Seq<char> {
    LOG_OPENING@ + query + LOG_CLOSING@
}

/// Whether `text` begins with `prefix`.
pub fn begins_with(text: &str, prefix: &str) -> (found: bool)
    ensures
        found == prefix@.is_prefix_of(text@),
{
    let mut rest = text.chars();
    for c in it: prefix.chars()
        invariant
            it.seq() == prefix@,
            it.index() <= text@.len(),
            rest.remaining() == text@.skip(it.index() as int),
            rest.obeys_prophetic_iter_laws(),
            forall|i: int| 0 <= i < it.index() ==> text@[i] == prefix@[i],
    {
        let ghost at = it.index() as int;
        match rest.next() {
            None => {
                return false;
            },
            Some(d) => {
                if d != c {
                    assert(prefix@.len() <= text@.len() ==> text@.subrange(
                        0,
                        prefix@.len() as int,
                    )[at] == d);
                    return false;
                }
            },
        }
    }
    true
}

/// Decides from a normalized query whether it is read for its rows.
pub fn selects_rows(normal: &str) -> (rows: bool)
    ensures
        rows == selects(normal@),
{
    begins_with(normal, SELECT_WORD)
}

/// The text to append to the query log for `query`.
pub fn log_query(query: &str) -> (entry: String)
    ensures
        entry@ == log_entry(query@),
{
    let mut entry = LOG_OPENING.to_owned();
    entry.append(query);
    entry.append(LOG_CLOSING);
    entry
}

/// What to do with a raw query: the statement to run and the entry to
/// append to the log.
#[derive(Debug, Clone, PartialEq, Eq)]
pub struct QueryPlan {
    pub statement: Statement,
    pub log_entry: String,
}

/// Plans a raw query. The statement is the query itself, unchanged and
/// without values; it is read for rows exactly when the normalized query
/// begins with `select`. The log entry holds the query as it was given.
pub fn general_query(query: &str) -> (plan: QueryPlan)
    ensures
        plan.statement@ == plain(query@, selects(normalized(query@))),
        plan.log_entry@ == log_entry(query@),
{
    let lowered = to_lowercase(trim(query));
    let returns_rows = selects_rows(lowered.as_str());
    let statement = Statement { sql: query.to_owned(), params: Vec::new(), returns_rows };
    assert(statement@.params =~= Seq::empty());
    QueryPlan { statement, log_entry: log_query(query) }
}

/// Every log entry frames its query the same way: the opening line, the
/// query exactly as it was given, the closing fence, and a blank line at
/// the very end.
pub proof fn law_log_entry_frames_the_query(query: Seq<char>)
    ensures
        log_entry(query).len() == query.len() + 13,
        log_entry(query).subrange(0, 7) == LOG_OPENING@,
        log_entry(query).subrange(7, 7 + query.len() as int) == query,
        log_entry(query)[log_entry(query).len() - 2] == '\n',
        log_entry(query)[log_entry(query).len() - 1] == '\n',
{
    reveal_strlit("```sql\n");
    reveal_strlit("\n```\n\n");
}

} // verus!
