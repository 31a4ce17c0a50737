//! The clauses that statements share, each with the space before it.

use crate::value::data::{strand_text, Value};
use crate::value::duration::Duration;
use crate::value::field::Output;
use crate::value::table::SurrrealTable;
use vstd::prelude::*;

verus! {

/// `word` where the flag is set, else nothing.
pub open spec fn flag_text(on: bool, word: Seq<char>) -> Seq<char> {
    if on {
        word
    } else {
        Seq::empty()
    }
}

/// A table reference as a statement names it: a table or a record as it
/// is, a path as the string of its text.
pub open spec fn named_text(table: SurrrealTable) -> Seq<char> {
    match table {
        SurrrealTable::Edges(e) => strand_text(e.text()),
        _ => table.text(),
    }
}

/// The target of a statement; nothing where none is set.
pub open spec fn target_text(what: Option<SurrrealTable>) -> Seq<char> {
    match what {
        Some(t) => named_text(t),
        None => Seq::empty(),
    }
}

/// The RETURN clause after a space; nothing where none is set.
pub open spec fn output_clause(output: Option<Output>) -> Seq<char> {
    match output {
        Some(o) => " "@ + o.text(),
        None => Seq::empty(),
    }
}

/// ` TIMEOUT ` and the duration; nothing where none is set.
pub open spec fn timeout_clause(timeout: Option<Duration>) -> Seq<char> {
    match timeout {
        Some(d) => " TIMEOUT "@ + d.text(),
        None => Seq::empty(),
    }
}

/// What ends every write statement: the RETURN clause, the TIMEOUT clause
/// and `PARALLEL`, each only where it is set.
pub open spec fn tail_text(
    output: Option<Output>,
    timeout: Option<Duration>,
    parallel: bool,
) -> Seq<char> {
    output_clause(output) + timeout_clause(timeout) + flag_text(parallel, " PARALLEL"@)
}

/// Puts `word` at the end of `out` where the flag is set.
pub fn push_flag(out: &mut String, on: bool, word: &str)
    ensures
        final(out)@ == old(out)@ + flag_text(on, word@),
{
    if on {
        out.append(word);
    }
    assert(out@ =~= old(out)@ + flag_text(on, word@));
}

/// The text by which a statement names `table`.
pub fn named(table: &SurrrealTable) -> (out: String)
    ensures
        out@ == named_text(*table),
{
    match table {
        SurrrealTable::Edges(e) => {
            let path = e.to_string();
            Value::strand(path.as_str()).to_string()
        },
        _ => table.to_string(),
    }
}

/// Puts the target at the end of `out`.
pub fn push_target(out: &mut String, what: &Option<SurrrealTable>)
    ensures
        final(out)@ == old(out)@ + target_text(*what),
{
    match what {
        Some(t) => {
            let t = named(t);
            out.append(t.as_str());
        },
        None => {},
    }
    assert(out@ =~= old(out)@ + target_text(*what));
}

/// Puts the end of a write statement at the end of `out`.
pub fn push_tail(
    out: &mut String,
    output: &Option<Output>,
    timeout: &Option<Duration>,
    parallel: bool,
)
    ensures
        final(out)@ == old(out)@ + tail_text(*output, *timeout, parallel),
{
    match output {
        Some(o) => {
            let o = o.to_string();
            out.append(" ");
            out.append(o.as_str());
        },
        None => {},
    }
    match timeout {
        Some(d) => {
            let d = d.to_string();
            out.append(" TIMEOUT ");
            out.append(d.as_str());
        },
        None => {},
    }
    if parallel {
        out.append(" PARALLEL");
    }
    assert(out@ =~= old(out)@ + tail_text(*output, *timeout, parallel));
}

} // verus!
