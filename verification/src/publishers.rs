//! The per-publisher extraction pipelines, each a pure function from a parsed
//! document to the canonical record or a taxonomy error, plus the helpers
//! they share.

pub mod guardian;
pub mod independent;
pub mod mirror;

use crate::dom::{Doc, Node};
use crate::datetime::{datetime_fmt_parse, parse_datetime_millis, parse_rfc3339_millis,
    rfc3339_parse};
use crate::errors::{ErrV, InternalParseError};
use crate::pattern::{Pattern, PatternV, Scope};
use crate::select::{full_text, html_err, sel_unique_attr, FullFixedHtmlText, SelectHelpers};
use vstd::prelude::*;

verus! {

/// The "content" attribute of the pattern's unique match, parsed as an
/// RFC 3339 timestamp in UTC epoch milliseconds.
pub open spec fn date_rfc3339_of(nodes: Seq<Node>, pat: PatternV) -> Result<i64, ErrV> {
    match sel_unique_attr(nodes, pat, Scope::Document, "content"@) {
        Err(c) => Err(html_err(pat, c)),
        Ok(s) => match rfc3339_parse(s) {
            Ok(v) => Ok(v),
            Err(d) => Err(ErrV::InvalidDateTime(d)),
        },
    }
}

/// Selects the unique timestamp element and parses its "content" attribute
/// as RFC 3339.
pub fn date_rfc3339(doc: &Doc, pat: &Pattern) -> (r: Result<i64, InternalParseError>)
    requires
        doc.wf(),
        pat@.steps.len() > 0,
    ensures
        match r {
            Ok(v) => date_rfc3339_of(doc@, pat@) == Ok::<i64, ErrV>(v),
            Err(e) => date_rfc3339_of(doc@, pat@) == Err::<i64, ErrV>(e@),
        },
{
    let s = match doc.select_unique_attr(pat, Scope::Document, "content") {
        Ok(s) => s,
        Err(e) => {
            return Err(e);
        },
    };
    match parse_rfc3339_millis(s.as_str()) {
        Ok(v) => Ok(v),
        Err(d) => Err(InternalParseError::chrono(d)),
    }
}

/// The "content" attribute of the pattern's unique match, parsed with an
/// explicit-offset datetime format.
pub open spec fn date_fmt_of(nodes: Seq<Node>, pat: PatternV, fmt: Seq<char>) -> Result<i64, ErrV> {
    match sel_unique_attr(nodes, pat, Scope::Document, "content"@) {
        Err(c) => Err(html_err(pat, c)),
        Ok(s) => match datetime_fmt_parse(s, fmt) {
            Ok(v) => Ok(v),
            Err(d) => Err(ErrV::InvalidDateTime(d)),
        },
    }
}

/// Selects the unique timestamp element and parses its "content" attribute
/// with the given format.
pub fn date_fmt(doc: &Doc, pat: &Pattern, fmt: &str) -> (r: Result<i64, InternalParseError>)
    requires
        doc.wf(),
        pat@.steps.len() > 0,
    ensures
        match r {
            Ok(v) => date_fmt_of(doc@, pat@, fmt@) == Ok::<i64, ErrV>(v),
            Err(e) => date_fmt_of(doc@, pat@, fmt@) == Err::<i64, ErrV>(e@),
        },
{
    let s = match doc.select_unique_attr(pat, Scope::Document, "content") {
        Ok(s) => s,
        Err(e) => {
            return Err(e);
        },
    };
    match parse_datetime_millis(s.as_str(), fmt) {
        Ok(v) => Ok(v),
        Err(d) => Err(InternalParseError::chrono(d)),
    }
}

/// Every listed element has the same normalized text as the first.
pub open spec fn all_texts_equal(nodes: Seq<Node>, ids: Seq<usize>) -> bool {
    forall|m: int|
        0 <= m < ids.len() ==> full_text(nodes, #[trigger] ids[m] as int) == full_text(
            nodes,
            ids[0] as int,
        )
}

/// Decides `all_texts_equal`.
#[verifier::loop_isolation(false)]
pub fn texts_all_equal(doc: &Doc, ids: &Vec<usize>) -> (r: bool)
    requires
        doc.wf(),
        ids@.len() > 0,
        forall|m: int| 0 <= m < ids@.len() ==> #[trigger] ids@[m] < doc@.len(),
    ensures
        r == all_texts_equal(doc@, ids@),
{
    let first = doc.full_fixed_html_text(ids[0]);
    let mut m: usize = 1;
    while m < ids.len()
        invariant
            1 <= m <= ids@.len(),
            forall|q: int|
                0 <= q < m ==> full_text(doc@, #[trigger] ids@[q] as int) == full_text(
                    doc@,
                    ids@[0] as int,
                ),
        decreases ids@.len() - m,
    {
        let t = doc.full_fixed_html_text(ids[m]);
        if !crate::pattern::str_eq(t.as_str(), first.as_str()) {
            return false;
        }
        m = m + 1;
    }
    true
}

} // verus!
