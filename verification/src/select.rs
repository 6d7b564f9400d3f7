//! The selection contract: uniqueness- and existence-checked queries over a
//! document scope, attribute extraction, child enumeration and text
//! extraction. Every pipeline is built from these primitives.

use crate::dom::{is_strict_desc, Attr, Doc, Node, NodeData};
use crate::errors::{CauseV, ErrV, HtmlErrorCause, HtmlStructureError, InternalParseError};
use crate::pattern::{
    attr_lookup, attr_value_of, pattern_matches, select_list, selected, Pattern, PatternV, Scope,
};
use crate::text::{joined_with, normalized, trim_str, trimmed, normalize_str, join_parts};
use vstd::prelude::*;

verus! {

/// The attributes of element `i` (empty for a text node).
pub open spec fn elem_attrs(nodes: Seq<Node>, i: int) -> Seq<Attr> {
    match nodes[i].data {
        NodeData::Element { attrs, .. } => attrs@,
        NodeData::Text { .. } => Seq::<Attr>::empty(),
    }
}

/// What a uniqueness-checked selection yields: the single match, or the
/// cause of its failure.
pub open spec fn sel_unique(nodes: Seq<Node>, pat: PatternV, scope: Scope) -> Result<usize, CauseV> {
    let m = selected(nodes, pat, scope);
    if m.len() == 0 {
        Err(CauseV::MissingElement)
    } else if m.len() > 1 {
        Err(CauseV::NonUniqueElement)
    } else {
        Ok(m[0])
    }
}

/// What a first-match selection yields.
pub open spec fn sel_first(nodes: Seq<Node>, pat: PatternV, scope: Scope) -> Result<usize, CauseV> {
    let m = selected(nodes, pat, scope);
    if m.len() == 0 {
        Err(CauseV::MissingElement)
    } else {
        Ok(m[0])
    }
}

/// What a uniqueness-checked attribute selection yields: the trimmed value of
/// the attribute on the single match. A missing attribute, or one that is
/// blank after trimming, is reported as missing.
pub open spec fn sel_unique_attr(
    nodes: Seq<Node>,
    pat: PatternV,
    scope: Scope,
    attr: Seq<char>,
) -> Result<Seq<char>, CauseV> {
    match sel_unique(nodes, pat, scope) {
        Err(c) => Err(c),
        Ok(i) => match attr_value_of(elem_attrs(nodes, i as int), attr) {
            None => Err(CauseV::MissingAttribute(attr)),
            Some(v) => if trimmed(v).len() == 0 {
                Err(CauseV::MissingAttribute(attr))
            } else {
                Ok(trimmed(v))
            },
        },
    }
}

/// The structural error a failed selection surfaces.
pub open spec fn html_err(pat: PatternV, cause: CauseV) -> ErrV {
    ErrV::Html { cause, selector: pat.source }
}

/// A view of a document's node sequence and well-formedness, shared by the
/// query traits below.
pub trait DocView {
    spec fn doc_nodes(&self) -> Seq<Node>;

    spec fn doc_ok(&self) -> bool;
}

impl DocView for Doc {
    open spec fn doc_nodes(&self) -> Seq<Node> {
        self@
    }

    open spec fn doc_ok(&self) -> bool {
        self.wf()
    }
}

/// Resolves a candidate list to its single member, or says why it cannot.
pub trait UniqueElementRef: Sized {
    spec fn candidates(&self) -> Seq<usize>;

    fn unique(self) -> (r: Result<usize, HtmlErrorCause>)
        ensures
            match r {
                Ok(i) => self.candidates().len() == 1 && i == self.candidates()[0],
                Err(c) => (self.candidates().len() == 0 && c@ == CauseV::MissingElement) || (
                self.candidates().len() > 1 && c@ == CauseV::NonUniqueElement),
            },
    ;
}

impl UniqueElementRef for Vec<usize> {
    open spec fn candidates(&self) -> Seq<usize> {
        self@
    }

    fn unique(self) -> (r: Result<usize, HtmlErrorCause>) {
        if self.len() == 0 {
            Err(HtmlErrorCause::MissingElement)
        } else if self.len() > 1 {
            Err(HtmlErrorCause::NonUniqueElement)
        } else {
            Ok(self[0])
        }
    }
}

/// The uniqueness- and existence-checked queries every pipeline is built on.
pub trait SelectHelpers: DocView {
    /// Succeeds only if exactly one node in the scope matches the pattern.
    fn select_unique(&self, pat: &Pattern, scope: Scope) -> (r: Result<usize, InternalParseError>)
        requires
            self.doc_ok(),
            pat@.steps.len() > 0,
        ensures
            match r {
                Ok(i) => sel_unique(self.doc_nodes(), pat@, scope) == Ok::<usize, CauseV>(i) && i
                    < self.doc_nodes().len(),
                Err(e) => sel_unique(self.doc_nodes(), pat@, scope) is Err && e@ == html_err(
                    pat@,
                    sel_unique(self.doc_nodes(), pat@, scope)->Err_0,
                ),
            },
    ;

    /// Succeeds on the first match in the scope, tolerating duplicates.
    fn select_first(&self, pat: &Pattern, scope: Scope) -> (r: Result<usize, InternalParseError>)
        requires
            self.doc_ok(),
            pat@.steps.len() > 0,
        ensures
            match r {
                Ok(i) => sel_first(self.doc_nodes(), pat@, scope) == Ok::<usize, CauseV>(i) && i
                    < self.doc_nodes().len(),
                Err(e) => sel_first(self.doc_nodes(), pat@, scope) is Err && e@ == html_err(
                    pat@,
                    sel_first(self.doc_nodes(), pat@, scope)->Err_0,
                ),
            },
    ;

    /// Composes `select_unique` with attribute lookup; the value comes back
    /// trimmed, and a present-but-blank attribute counts as absent.
    fn select_unique_attr(&self, pat: &Pattern, scope: Scope, attr: &str) -> (r: Result<
        String,
        InternalParseError,
    >)
        requires
            self.doc_ok(),
            pat@.steps.len() > 0,
        ensures
            match r {
                Ok(s) => sel_unique_attr(self.doc_nodes(), pat@, scope, attr@) == Ok::<
                    Seq<char>,
                    CauseV,
                >(s@),
                Err(e) => sel_unique_attr(self.doc_nodes(), pat@, scope, attr@) is Err && e@
                    == html_err(pat@, sel_unique_attr(self.doc_nodes(), pat@, scope, attr@)->Err_0),
            },
    ;
}

impl SelectHelpers for Doc {
    fn select_unique(&self, pat: &Pattern, scope: Scope) -> (r: Result<
        usize,
        InternalParseError,
    >) {
        let m = select_list(self, pat, scope);
        match m.unique() {
            Ok(i) => Ok(i),
            Err(cause) => Err(
                InternalParseError::html(
                    HtmlStructureError { cause, selector: pat.source.clone() },
                ),
            ),
        }
    }

    fn select_first(&self, pat: &Pattern, scope: Scope) -> (r: Result<
        usize,
        InternalParseError,
    >) {
        let m = select_list(self, pat, scope);
        if m.len() == 0 {
            Err(
                InternalParseError::html(
                    HtmlStructureError {
                        cause: HtmlErrorCause::MissingElement,
                        selector: pat.source.clone(),
                    },
                ),
            )
        } else {
            Ok(m[0])
        }
    }

    fn select_unique_attr(&self, pat: &Pattern, scope: Scope, attr: &str) -> (r: Result<
        String,
        InternalParseError,
    >) {
        let i = match self.select_unique(pat, scope) {
            Ok(i) => i,
            Err(e) => {
                return Err(e);
            },
        };
        let node = self.node(i);
        match &node.data {
            NodeData::Element { attrs, .. } => {
                match attr_lookup(attrs, attr) {
                    None => Err(
                        InternalParseError::html(
                            HtmlStructureError {
                                cause: HtmlErrorCause::MissingAttribute(attr.to_owned()),
                                selector: pat.source.clone(),
                            },
                        ),
                    ),
                    Some(v) => {
                        let t = trim_str(v.as_str());
                        if t.as_str().is_empty() {
                            Err(
                                InternalParseError::html(
                                    HtmlStructureError {
                                        cause: HtmlErrorCause::MissingAttribute(attr.to_owned()),
                                        selector: pat.source.clone(),
                                    },
                                ),
                            )
                        } else {
                            Ok(t)
                        }
                    },
                }
            },
            NodeData::Text { .. } => {
                // A selected node always matches a step, hence is an element.
                Err(
                    InternalParseError::html(
                        HtmlStructureError {
                            cause: HtmlErrorCause::MissingAttribute(attr.to_owned()),
                            selector: pat.source.clone(),
                        },
                    ),
                )
            },
        }
    }

}

/// Trimmed, blank-tolerant attribute access on a document's elements.
pub trait AttrValueOrNone: DocView {
    /// The trimmed value of the named attribute on element `i`, with a blank
    /// or missing attribute resolving to `None`.
    fn attr_value_or_none(&self, i: usize, attr: &str) -> (r: Option<String>)
        requires
            i < self.doc_nodes().len(),
        ensures
            match r {
                Some(s) => attr_or_none(self.doc_nodes(), i as int, attr@) == Some(s@),
                None => attr_or_none(self.doc_nodes(), i as int, attr@) is None,
            },
    ;
}

impl AttrValueOrNone for Doc {
    fn attr_value_or_none(&self, i: usize, attr: &str) -> (r: Option<String>) {
        let node = self.node(i);
        match &node.data {
            NodeData::Element { attrs, .. } => {
                match attr_lookup(attrs, attr) {
                    None => None,
                    Some(v) => {
                        let t = trim_str(v.as_str());
                        if t.as_str().is_empty() {
                            None
                        } else {
                            Some(t)
                        }
                    },
                }
            },
            NodeData::Text { .. } => None,
        }
    }

}

impl Doc {
    /// The raw value of the named attribute on element `i`.
    pub fn attr_raw(&self, i: usize, attr: &str) -> (r: Option<String>)
        requires
            i < self@.len(),
        ensures
            match r {
                Some(s) => attr_value_of(elem_attrs(self@, i as int), attr@) == Some(s@),
                None => attr_value_of(elem_attrs(self@, i as int), attr@) is None,
            },
    {
        let node = self.node(i);
        match &node.data {
            NodeData::Element { attrs, .. } => match attr_lookup(attrs, attr) {
                None => None,
                Some(v) => Some(v.clone()),
            },
            NodeData::Text { .. } => None,
        }
    }

    /// The raw value of the named attribute on element `i`, with the empty
    /// value (untrimmed) resolving to `None`.
    pub fn attr_nonempty_or_none(&self, i: usize, attr: &str) -> (r: Option<String>)
        requires
            i < self@.len(),
        ensures
            match r {
                Some(s) => attr_nonempty(self@, i as int, attr@) == Some(s@),
                None => attr_nonempty(self@, i as int, attr@) is None,
            },
    {
        match self.attr_raw(i, attr) {
            None => None,
            Some(v) => if v.as_str().is_empty() {
                None
            } else {
                Some(v)
            },
        }
    }

}

/// Element-child enumeration on a document's elements.
pub trait ChildrenHelpers: DocView {
    /// Element children of `parent`, in document order.
    fn children_all(&self, parent: usize) -> (r: Vec<usize>)
        ensures
            r@ == children_of(self.doc_nodes(), parent as int),
            forall|m: int| 0 <= m < r@.len() ==> #[trigger] r@[m] < self.doc_nodes().len(),
    ;

    /// The first element child of `parent`, if any.
    fn children_first(&self, parent: usize) -> (r: Option<usize>)
        ensures
            children_of(self.doc_nodes(), parent as int).len() == 0 ==> r is None,
            children_of(self.doc_nodes(), parent as int).len() > 0 ==> r == Some(
                children_of(self.doc_nodes(), parent as int)[0],
            ),
    ;
}

impl ChildrenHelpers for Doc {
    fn children_all(&self, parent: usize) -> (r: Vec<usize>) {
        let n = self.len();
        let mut out: Vec<usize> = Vec::new();
        let mut j: usize = 0;
        while j < n
            invariant
                j <= n,
                n == self@.len(),
                out@ == children_upto(self@, parent as int, j as int),
                forall|m: int| 0 <= m < out@.len() ==> #[trigger] out@[m] < self@.len(),
            decreases n - j,
        {
            let node = self.node(j);
            let is_child = match &node.data {
                NodeData::Element { .. } => match node.parent {
                    Some(p) => p == parent,
                    None => false,
                },
                NodeData::Text { .. } => false,
            };
            if is_child {
                out.push(j);
                proof {
                    assert(out@ =~= children_upto(self@, parent as int, j + 1));
                }
            } else {
                proof {
                    assert(out@ =~= children_upto(self@, parent as int, j + 1));
                }
            }
            j = j + 1;
        }
        out
    }

    fn children_first(&self, parent: usize) -> (r: Option<usize>) {
        let cs = self.children_all(parent);
        if cs.len() == 0 {
            None
        } else {
            Some(cs[0])
        }
    }

}

/// Single-line text normalization of a document's elements.
pub trait FullFixedHtmlText: DocView {
    /// Single-line normalization of element `i`: every descendant text node
    /// in document order, each trimmed, joined by single spaces, whitespace
    /// collapsed and the ends trimmed.
    fn full_fixed_html_text(&self, i: usize) -> (r: String)
        requires
            self.doc_ok(),
            i < self.doc_nodes().len(),
        ensures
            r@ == full_text(self.doc_nodes(), i as int),
    ;
}

impl FullFixedHtmlText for Doc {
    #[verifier::loop_isolation(false)]
    fn full_fixed_html_text(&self, i: usize) -> (r: String) {
        let n = self.len();
        let mut parts: Vec<String> = Vec::new();
        let mut j: usize = 0;
        while j < n
            invariant
                j <= n,
                parts.deep_view() == trimmed_all(texts_upto(self@, i as int, j as int)),
            decreases n - j,
        {
            let node = self.node(j);
            let ghost prev = parts.deep_view();
            match &node.data {
                NodeData::Text { text } => {
                    if self.strict_desc(j, i) {
                        let t = trim_str(text.as_str());
                        parts.push(t);
                        proof {
                            let ts = texts_upto(self@, i as int, j as int);
                            assert(texts_upto(self@, i as int, j + 1) =~= ts.push(text@));
                            assert(parts.deep_view() =~= prev.push(trimmed(text@)));
                            assert(trimmed_all(ts.push(text@)) =~= trimmed_all(ts).push(
                                trimmed(text@),
                            ));
                            assert(parts.deep_view() =~= trimmed_all(
                                texts_upto(self@, i as int, j + 1),
                            ));
                        }
                    } else {
                        proof {
                            assert(parts.deep_view() =~= trimmed_all(
                                texts_upto(self@, i as int, j + 1),
                            ));
                        }
                    }
                },
                NodeData::Element { .. } => {
                    proof {
                        assert(parts.deep_view() =~= trimmed_all(
                            texts_upto(self@, i as int, j + 1),
                        ));
                    }
                },
            }
            j = j + 1;
        }
        let joined = join_parts(&parts, " ");
        normalize_str(joined.as_str())
    }
}

/// Multi-block text normalization of a document's elements.
pub trait FormattedText: DocView {
    /// Multi-block normalization: the single-line text of each listed
    /// element, joined with newlines, the ends trimmed.
    fn formatted_text(&self, ids: &Vec<usize>) -> (r: String)
        requires
            self.doc_ok(),
            forall|m: int| 0 <= m < ids@.len() ==> #[trigger] ids@[m] < self.doc_nodes().len(),
        ensures
            r@ == blocks_text(self.doc_nodes(), ids@),
    ;
}

impl FormattedText for Doc {
    #[verifier::loop_isolation(false)]
    fn formatted_text(&self, ids: &Vec<usize>) -> (r: String) {
        let mut parts: Vec<String> = Vec::new();
        let mut j: usize = 0;
        while j < ids.len()
            invariant
                j <= ids@.len(),
                parts.deep_view() == full_texts_of(self@, ids@.take(j as int)),
            decreases ids@.len() - j,
        {
            let ghost prev = parts.deep_view();
            let t = self.full_fixed_html_text(ids[j]);
            let ghost tv = t@;
            parts.push(t);
            proof {
                let lhs = parts.deep_view();
                let rhs = full_texts_of(self@, ids@.take(j + 1));
                assert(lhs.len() == j + 1);
                assert(rhs.len() == j + 1);
                assert forall|m: int| 0 <= m < j + 1 implies lhs[m] == rhs[m] by {
                    assert(rhs[m] == full_text(self@, ids@.take(j + 1)[m] as int));
                    assert(ids@.take(j + 1)[m] == ids@[m]);
                    if m < j {
                        assert(lhs[m] == prev[m]);
                        assert(prev[m] == full_texts_of(self@, ids@.take(j as int))[m]);
                        assert(full_texts_of(self@, ids@.take(j as int))[m] == full_text(
                            self@,
                            ids@.take(j as int)[m] as int,
                        ));
                        assert(ids@.take(j as int)[m] == ids@[m]);
                    } else {
                        assert(lhs[m] == tv);
                        assert(tv == full_text(self@, ids@[j as int] as int));
                    }
                }
                assert(lhs =~= rhs);
            }
            j = j + 1;
        }
        proof {
            assert(ids@.take(ids@.len() as int) =~= ids@);
        }
        let joined = join_parts(&parts, "\n");
        trim_str(joined.as_str())
    }
}

/// The single-line text of each listed element.
pub open spec fn full_texts_of(nodes: Seq<Node>, ids: Seq<usize>) -> Seq<Seq<char>> {
    ids.map_values(|i: usize| full_text(nodes, i as int))
}

/// Multi-block normalization of the listed elements: each normalized
/// independently, joined with newlines, the whole trimmed.
pub open spec fn blocks_text(nodes: Seq<Node>, ids: Seq<usize>) -> Seq<char> {
    trimmed(joined_with(full_texts_of(nodes, ids), "\n"@))
}

/// The raw value of `attr` on element `i`, with the empty value treated as
/// absent.
pub open spec fn attr_nonempty(nodes: Seq<Node>, i: int, attr: Seq<char>) -> Option<Seq<char>> {
    match attr_value_of(elem_attrs(nodes, i), attr) {
        None => None,
        Some(v) => if v.len() == 0 {
            None
        } else {
            Some(v)
        },
    }
}

/// The value of `attr` on element `i`, trimmed, with blank treated as absent.
pub open spec fn attr_or_none(nodes: Seq<Node>, i: int, attr: Seq<char>) -> Option<Seq<char>> {
    match attr_value_of(elem_attrs(nodes, i), attr) {
        None => None,
        Some(v) => if trimmed(v).len() == 0 {
            None
        } else {
            Some(trimmed(v))
        },
    }
}

/// Element children of `parent` among the first `n` nodes, in document order.
pub open spec fn children_upto(nodes: Seq<Node>, parent: int, n: int) -> Seq<usize>
    decreases n,
{
    if n <= 0 {
        Seq::<usize>::empty()
    } else {
        children_upto(nodes, parent, n - 1) + (if nodes[n - 1].data is Element && nodes[n
            - 1].parent == Some(parent as usize) {
            seq![(n - 1) as usize]
        } else {
            Seq::<usize>::empty()
        })
    }
}

/// Element children of `parent`, in document order.
pub open spec fn children_of(nodes: Seq<Node>, parent: int) -> Seq<usize> {
    children_upto(nodes, parent, nodes.len() as int)
}

/// The text nodes under `root` among the first `n` nodes, in document order.
pub open spec fn texts_upto(nodes: Seq<Node>, root: int, n: int) -> Seq<Seq<char>>
    decreases n,
{
    if n <= 0 {
        Seq::<Seq<char>>::empty()
    } else {
        texts_upto(nodes, root, n - 1) + (match nodes[n - 1].data {
            NodeData::Text { text } => if is_strict_desc(nodes, n - 1, root) {
                seq![text@]
            } else {
                Seq::<Seq<char>>::empty()
            },
            NodeData::Element { .. } => Seq::<Seq<char>>::empty(),
        })
    }
}

/// Every text under `root`, in document order.
pub open spec fn texts_under(nodes: Seq<Node>, root: int) -> Seq<Seq<char>> {
    texts_upto(nodes, root, nodes.len() as int)
}

/// Each part trimmed.
pub open spec fn trimmed_all(parts: Seq<Seq<char>>) -> Seq<Seq<char>> {
    parts.map_values(|t: Seq<char>| trimmed(t))
}

/// The normalized single-line text of element `root`.
pub open spec fn full_text(nodes: Seq<Node>, root: int) -> Seq<char> {
    normalized(joined_with(trimmed_all(texts_under(nodes, root)), " "@))
}

// ---------------------------------------------------------------------------
// The generic selection law.
// ---------------------------------------------------------------------------
proof fn lemma_selected_upto_membership(
    nodes: Seq<Node>,
    pat: PatternV,
    scope: Scope,
    j: usize,
    n: int,
)
    requires
        n <= nodes.len(),
        nodes.len() <= usize::MAX,
    ensures
        selected_upto_contains(nodes, pat, scope, j, n) == (j < n && pattern_matches(
            nodes,
            pat,
            scope,
            j as int,
        )),
    decreases n,
{
    if n > 0 {
        lemma_selected_upto_membership(nodes, pat, scope, j, n - 1);
        let prev = crate::pattern::selected_upto(nodes, pat, scope, n - 1);
        let cur = crate::pattern::selected_upto(nodes, pat, scope, n);
        if j < n && pattern_matches(nodes, pat, scope, j as int) {
            if j < n - 1 {
                assert(prev.contains(j));
                let k = choose|k: int| 0 <= k < prev.len() && prev[k] == j;
                assert(cur[k] == j);
                assert(cur.contains(j));
            } else {
                assert(j == (n - 1) as usize);
                assert(cur == prev + seq![(n - 1) as usize]);
                assert(cur[cur.len() - 1] == j);
                assert(cur.contains(j));
            }
        } else {
            if selected_upto_contains(nodes, pat, scope, j, n) {
                let k = choose|k: int| 0 <= k < cur.len() && cur[k] == j;
                if k < prev.len() {
                    assert(prev[k] == j);
                    assert(prev.contains(j));
                    assert(false);
                } else {
                    assert(pattern_matches(nodes, pat, scope, n - 1));
                    assert(cur == prev + seq![(n - 1) as usize]);
                    assert(j == (n - 1) as usize);
                    assert(false);
                }
            }
        }
    }
}

/// Whether `j` stands among the nodes selected from the first `n`.
pub open spec fn selected_upto_contains(
    nodes: Seq<Node>,
    pat: PatternV,
    scope: Scope,
    j: usize,
    n: int,
) -> bool {
    crate::pattern::selected_upto(nodes, pat, scope, n).contains(j)
}

/// The selection list holds exactly the nodes that match the pattern within
/// the scope.
pub proof fn lemma_selected_membership(nodes: Seq<Node>, pat: PatternV, scope: Scope, j: usize)
    requires
        nodes.len() <= usize::MAX,
    ensures
        selected(nodes, pat, scope).contains(j) == (j < nodes.len() && pattern_matches(
            nodes,
            pat,
            scope,
            j as int,
        )),
{
    lemma_selected_upto_membership(nodes, pat, scope, j, nodes.len() as int);
}

proof fn lemma_selected_upto_ordered(nodes: Seq<Node>, pat: PatternV, scope: Scope, n: int)
    requires
        n <= usize::MAX + 1,
    ensures
        forall|m: int|
            0 <= m < crate::pattern::selected_upto(nodes, pat, scope, n).len()
                ==> #[trigger] crate::pattern::selected_upto(nodes, pat, scope, n)[m] < n,
        forall|a: int, b: int|
            0 <= a < b < crate::pattern::selected_upto(nodes, pat, scope, n).len()
                ==> crate::pattern::selected_upto(nodes, pat, scope, n)[a]
                < crate::pattern::selected_upto(nodes, pat, scope, n)[b],
    decreases n,
{
    if n > 0 {
        lemma_selected_upto_ordered(nodes, pat, scope, n - 1);
        let prev = crate::pattern::selected_upto(nodes, pat, scope, n - 1);
        let cur = crate::pattern::selected_upto(nodes, pat, scope, n);
        if pattern_matches(nodes, pat, scope, n - 1) {
            assert(cur[cur.len() - 1] == (n - 1) as usize);
            assert(forall|m: int| 0 <= m < prev.len() ==> cur[m] == #[trigger] prev[m]);
        } else {
            assert(cur =~= prev);
        }
    }
}

/// The matches come back in document order: the selection list is strictly
/// increasing.
pub proof fn lemma_selected_document_order(nodes: Seq<Node>, pat: PatternV, scope: Scope)
    requires
        nodes.len() <= usize::MAX,
    ensures
        forall|a: int, b: int|
            0 <= a < b < selected(nodes, pat, scope).len() ==> selected(nodes, pat, scope)[a]
                < selected(nodes, pat, scope)[b],
{
    lemma_selected_upto_ordered(nodes, pat, scope, nodes.len() as int);
}

/// The selection contract: with exactly one match in the scope, `selectUnique`
/// returns that match; with none it reports a missing element; with two or
/// more it reports a non-unique element.
pub proof fn lemma_select_unique_contract(nodes: Seq<Node>, pat: PatternV, scope: Scope)
    ensures
        selected(nodes, pat, scope).len() == 1 ==> sel_unique(nodes, pat, scope) == Ok::<
            usize,
            CauseV,
        >(selected(nodes, pat, scope)[0]),
        selected(nodes, pat, scope).len() == 0 ==> sel_unique(nodes, pat, scope) == Err::<
            usize,
            CauseV,
        >(CauseV::MissingElement),
        selected(nodes, pat, scope).len() >= 2 ==> sel_unique(nodes, pat, scope) == Err::<
            usize,
            CauseV,
        >(CauseV::NonUniqueElement),
{
}

} // verus!
