//! The line protocol spoken on a worker subprocess's standard output.
//!
//! Every line the worker emits is either prefixed with the fixed protocol
//! marker or not. A prefixed line whose payload is the escalation token marks
//! the whole task's failure as environment-wide; any other prefixed line is a
//! pass-specific record handed (minus the marker) to the task's driver. An
//! unprefixed line is unexpected diagnostic chatter: it earns a warning and
//! never affects protocol state.

use vstd::prelude::*;
use vstd::string::*;

use crate::text::str_eq;

verus! {

/// The fixed marker that opens every protocol line.
pub open spec fn marker() -> Seq<char> {
    "pedia:"@
}

/// The payload that escalates a task's failure to environment-wide.
pub open spec fn escalation_token() -> Seq<char> {
    "general-error"@
}

/// The facts about the two protocol literals that proofs below lean on.
pub proof fn marker_facts()
    ensures
        marker().len() == 6,
        escalation_token().len() == 13,
        marker() != escalation_token(),
{
    reveal_strlit("pedia:");
    reveal_strlit("general-error");
}

/// Does the line open with the protocol marker?
pub open spec fn is_prefixed(line: Seq<char>) -> bool {
    marker().len() <= line.len() && line.subrange(0, marker().len() as int) == marker()
}

/// The line with the marker stripped.
pub open spec fn payload_of(line: Seq<char>) -> Seq<char> {
    line.subrange(marker().len() as int, line.len() as int)
}

/// A prefixed line carrying the escalation token.
pub open spec fn is_escalation(line: Seq<char>) -> bool {
    is_prefixed(line) && payload_of(line) == escalation_token()
}

/// A prefixed line carrying a pass-specific record.
pub open spec fn is_record(line: Seq<char>) -> bool {
    is_prefixed(line) && payload_of(line) != escalation_token()
}

/// An unprefixed line: diagnostic chatter outside the protocol.
pub open spec fn is_chatter(line: Seq<char>) -> bool {
    !is_prefixed(line)
}

/// How one line of worker output is to be treated.
#[derive(Debug)]
pub enum LineClass {
    /// A protocol record; carries the payload with the marker stripped.
    Record(String),
    /// The in-band token that escalates the failure to environment-wide.
    Escalation,
    /// A line outside the protocol, to be logged and otherwise ignored.
    Chatter,
}

/// Strips the protocol marker if the line carries it.
fn strip_marker<'a>(line: &'a str) -> (r: Option<&'a str>)
    ensures
        (r is Some) == is_prefixed(line@),
        r matches Some(rest) ==> rest@ == payload_of(line@),
{
    proof {
        marker_facts();
    }
    let m: &str = "pedia:";
    let ml: usize = m.unicode_len();
    let ll: usize = line.unicode_len();
    if ll < ml {
        return None;
    }
    let head = line.substring_char(0, ml);
    if str_eq(head, m) {
        Some(line.substring_char(ml, ll))
    } else {
        None
    }
}

/// Decides what one line of worker output is.
pub fn classify_line(line: &str) -> (c: LineClass)
    ensures
        (c is Chatter) == is_chatter(line@),
        (c is Escalation) == is_escalation(line@),
        (c is Record) == is_record(line@),
        c matches LineClass::Record(p) ==> p@ == payload_of(line@),
{
    match strip_marker(line) {
        None => LineClass::Chatter,
        Some(rest) => {
            if str_eq(rest, "general-error") {
                LineClass::Escalation
            } else {
                LineClass::Record(rest.to_owned())
            }
        },
    }
}

/// The line a worker prints to escalate its failure to environment-wide.
pub fn escalation_line() -> (s: String)
    ensures
        s@ == marker() + escalation_token(),
        is_escalation(s@),
{
    proof {
        marker_facts();
    }
    let mut s = "pedia:".to_owned();
    s.append("general-error");
    proof {
        assert(payload_of(s@) =~= escalation_token());
        assert(s@.subrange(0, marker().len() as int) =~= marker());
    }
    s
}

/// The line a worker prints to hand one record to the orchestrating process.
pub fn record_line(payload: &str) -> (s: String)
    ensures
        s@ == marker() + payload@,
        payload_of(s@) == payload@,
        is_prefixed(s@),
        payload@ != escalation_token() ==> is_record(s@),
        payload@ == escalation_token() ==> is_escalation(s@),
{
    proof {
        marker_facts();
    }
    let mut s = "pedia:".to_owned();
    s.append(payload);
    proof {
        assert(payload_of(s@) =~= payload@);
        assert(s@.subrange(0, marker().len() as int) =~= marker());
    }
    s
}

/// Law: encoding a payload and reading the line back yields the payload, and
/// the line's classification is decided by the payload alone — the token
/// gives an escalation, anything else a record.
pub proof fn lemma_record_round_trip(payload: Seq<char>)
    ensures
        is_prefixed(marker() + payload),
        payload_of(marker() + payload) == payload,
        is_record(marker() + payload) == (payload != escalation_token()),
        is_escalation(marker() + payload) == (payload == escalation_token()),
{
    marker_facts();
    assert(payload_of(marker() + payload) =~= payload);
    assert((marker() + payload).subrange(0, marker().len() as int) =~= marker());
}

/// The payloads of the record lines in a run of worker output, in order:
/// exactly what the task's driver is handed.
pub open spec fn records_of(lines: Seq<Seq<char>>) -> Seq<Seq<char>>
    decreases lines.len(),
{
    if lines.len() == 0 {
        Seq::empty()
    } else {
        let rest = records_of(lines.drop_last());
        if is_record(lines.last()) {
            rest.push(payload_of(lines.last()))
        } else {
            rest
        }
    }
}

/// Whether a run of worker output carries the escalation token anywhere.
pub open spec fn escalated_after(lines: Seq<Seq<char>>) -> bool
    decreases lines.len(),
{
    if lines.len() == 0 {
        false
    } else {
        escalated_after(lines.drop_last()) || is_escalation(lines.last())
    }
}

/// The lines of a run that belong to the protocol, chatter left out.
pub open spec fn protocol_lines(lines: Seq<Seq<char>>) -> Seq<Seq<char>>
    decreases lines.len(),
{
    if lines.len() == 0 {
        Seq::empty()
    } else {
        let rest = protocol_lines(lines.drop_last());
        if is_chatter(lines.last()) {
            rest
        } else {
            rest.push(lines.last())
        }
    }
}

/// Unfolding step: one more line extends the three folds in the obvious way.
pub proof fn lemma_folds_push(lines: Seq<Seq<char>>, line: Seq<char>)
    ensures
        records_of(lines.push(line)) == if is_record(line) {
            records_of(lines).push(payload_of(line))
        } else {
            records_of(lines)
        },
        escalated_after(lines.push(line)) == (escalated_after(lines) || is_escalation(line)),
        protocol_lines(lines.push(line)) == if is_chatter(line) {
            protocol_lines(lines)
        } else {
            protocol_lines(lines).push(line)
        },
{
    let full = lines.push(line);
    assert(full.drop_last() =~= lines);
    assert(full.last() == line);
}

/// Law: chatter is invisible to the protocol. The records a run of output
/// delivers, and whether it escalates, depend only on its protocol lines:
/// inserting or removing chatter changes neither.
pub proof fn lemma_chatter_invisible(lines: Seq<Seq<char>>)
    ensures
        records_of(lines) == records_of(protocol_lines(lines)),
        escalated_after(lines) == escalated_after(protocol_lines(lines)),
    decreases lines.len(),
{
    if lines.len() == 0 {
    } else {
        let front = lines.drop_last();
        let line = lines.last();
        lemma_chatter_invisible(front);
        assert(front.push(line) =~= lines);
        lemma_folds_push(front, line);
        if is_chatter(line) {
            assert(!is_record(line));
            assert(!is_escalation(line));
        } else {
            lemma_folds_push(protocol_lines(front), line);
        }
    }
}

} // verus!
