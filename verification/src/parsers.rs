//! The parse orchestrator: dispatches a document to the pipeline matching the
//! publisher and attaches page-level metadata, capturing the parse timestamp
//! exactly once per call.

use crate::datetime::now_millis;
use crate::dom::{Doc, Node};
use crate::errors::{ErrV, InternalParseError};
use crate::publishers::{guardian, independent, mirror};
use crate::root_structs::{
    NewsArticleContentV, PageMeta, ParsedPage, ParsedPageContentV, Publisher,
};
use vstd::prelude::*;

verus! {

/// The publishers with a working pipeline.
pub open spec fn supported(publisher: Publisher) -> bool {
    publisher is Independent || publisher is Mirror || publisher is Guardian
}

/// What the matching pipeline yields for the document.
pub open spec fn dispatch_of(publisher: Publisher, nodes: Seq<Node>) -> Result<
    NewsArticleContentV,
    ErrV,
> {
    match publisher {
        Publisher::Independent => independent::parse_of(nodes),
        Publisher::Mirror => mirror::parse_of(nodes),
        Publisher::Guardian => guardian::parse_of(nodes),
        _ => Err(ErrV::Unknown("unsupported publisher"@)),
    }
}

/// The orchestrator's guarantee on a successful parse: the content is what
/// the matching pipeline yields for the document, and the metadata carries
/// the publisher and url of the call. Only `date_parsed` is left open — it is
/// read from the clock.
pub open spec fn parse_outcome_ok(
    publisher: Publisher,
    url: Seq<char>,
    nodes: Seq<Node>,
    page: ParsedPage,
) -> bool {
    &&& dispatch_of(publisher, nodes) is Ok
    &&& page.content@ == ParsedPageContentV::NewsArticle(dispatch_of(publisher, nodes)->Ok_0)
    &&& page.meta.publisher == publisher
    &&& page.meta.url@ == url
}

/// Parses one document for one publisher and wraps the result with page
/// metadata. The publisher must be one with a working pipeline; unrecognized
/// publisher names never reach this point (`Publisher::from_name` rejects
/// them before any markup is in play).
pub fn parse_article_html(publisher: Publisher, url: String, doc: &Doc) -> (r: Result<
    ParsedPage,
    InternalParseError,
>)
    requires
        doc.wf(),
        supported(publisher),
    ensures
        match r {
            Ok(page) => parse_outcome_ok(publisher, url@, doc@, page),
            Err(e) => dispatch_of(publisher, doc@) == Err::<NewsArticleContentV, ErrV>(e@),
        },
{
    let date_parsed = now_millis();
    let meta = PageMeta { publisher, url, date_parsed };
    let content = match publisher {
        Publisher::Independent => independent::parse(doc),
        Publisher::Mirror => mirror::parse(doc),
        Publisher::Guardian => guardian::parse(doc),
        _ => {
            proof {
                assert(false);
            }
            Err(InternalParseError::unknown("unsupported publisher"))
        },
    };
    match content {
        Ok(content) => Ok(ParsedPage { meta, content }),
        Err(e) => Err(e),
    }
}

/// Parsing is deterministic: two successful parses of the same publisher and
/// document agree on every content field and on the page's publisher and
/// url; only `date_parsed` may differ between the calls.
pub proof fn lemma_parse_deterministic(
    publisher: Publisher,
    url: Seq<char>,
    nodes: Seq<Node>,
    p1: ParsedPage,
    p2: ParsedPage,
)
    requires
        parse_outcome_ok(publisher, url, nodes, p1),
        parse_outcome_ok(publisher, url, nodes, p2),
    ensures
        p1.content@ == p2.content@,
        p1.meta.publisher == p2.meta.publisher,
        p1.meta.url@ == p2.meta.url@,
{
}

} // verus!
