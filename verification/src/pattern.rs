//! Declarative element patterns: a chain of steps, each constraining tag,
//! classes and attributes, joined by child or descendant combinators. A
//! pattern is matched against a document scope — the whole document or the
//! strict descendants of one element — and selection returns every match in
//! document order.

use crate::dom::{is_strict_desc, node_wf, Attr, Doc, Node, NodeData};
use crate::text::is_ws;
use vstd::prelude::*;

verus! {

/// Where a query looks: the whole document, or strictly below one element.
#[derive(Clone, Copy)]
pub enum Scope {
    Document,
    Under(usize),
}

/// A constraint on one attribute: it must be present, and when `value` is
/// given, equal to it exactly.
pub struct AttrCond {
    pub name: String,
    pub value: Option<String>,
}

/// One step of a pattern chain.
pub struct Step {
    /// True: this step's element is a direct child of the previous step's
    /// element. False: any strict descendant.
    pub child_of_prev: bool,
    /// Accepted tag names; empty accepts every tag.
    pub tags: Vec<String>,
    /// Classes that must all be present.
    pub classes: Vec<String>,
    /// Classes that must all be absent.
    pub not_classes: Vec<String>,
    /// Attribute constraints that must all hold.
    pub attrs: Vec<AttrCond>,
}

/// A compiled query pattern with a printable source form for diagnostics.
pub struct Pattern {
    /// True: the first step's element must be a direct child of the scope.
    pub anchored: bool,
    pub steps: Vec<Step>,
    pub source: String,
}

pub ghost struct AttrCondV {
    pub name: Seq<char>,
    pub value: Option<Seq<char>>,
}

pub ghost struct StepV {
    pub child_of_prev: bool,
    pub tags: Seq<Seq<char>>,
    pub classes: Seq<Seq<char>>,
    pub not_classes: Seq<Seq<char>>,
    pub attrs: Seq<AttrCondV>,
}

pub ghost struct PatternV {
    pub anchored: bool,
    pub steps: Seq<StepV>,
    pub source: Seq<char>,
}

impl View for AttrCond {
    type V = AttrCondV;

    open spec fn view(&self) -> AttrCondV {
        AttrCondV {
            name: self.name@,
            value: match self.value {
                Some(v) => Some(v@),
                None => None,
            },
        }
    }
}

impl View for Step {
    type V = StepV;

    open spec fn view(&self) -> StepV {
        StepV {
            child_of_prev: self.child_of_prev,
            tags: self.tags.deep_view(),
            classes: self.classes.deep_view(),
            not_classes: self.not_classes.deep_view(),
            attrs: self.attrs@.map_values(|a: AttrCond| a@),
        }
    }
}

impl View for Pattern {
    type V = PatternV;

    open spec fn view(&self) -> PatternV {
        PatternV {
            anchored: self.anchored,
            steps: self.steps@.map_values(|s: Step| s@),
            source: self.source@,
        }
    }
}

// ---------------------------------------------------------------------------
// Attribute lookup and class tokens.
// ---------------------------------------------------------------------------
/// The value of the first attribute named `name`, if any.
pub open spec fn attr_value_of(attrs: Seq<Attr>, name: Seq<char>) -> Option<Seq<char>>
    decreases attrs.len(),
{
    if attrs.len() == 0 {
        None
    } else if attrs[0].name@ == name {
        Some(attrs[0].value@)
    } else {
        attr_value_of(attrs.drop_first(), name)
    }
}

/// The whitespace-separated tokens of `s` from position `i` on, with `cur`
/// the token read so far.
pub open spec fn tokens_acc(s: Seq<char>, i: int, cur: Seq<char>) -> Seq<Seq<char>>
    decreases s.len() - i,
{
    if i < 0 || i >= s.len() {
        if cur.len() > 0 {
            seq![cur]
        } else {
            Seq::<Seq<char>>::empty()
        }
    } else if is_ws(s[i]) {
        (if cur.len() > 0 {
            seq![cur]
        } else {
            Seq::<Seq<char>>::empty()
        }) + tokens_acc(s, i + 1, Seq::<char>::empty())
    } else {
        tokens_acc(s, i + 1, cur.push(s[i]))
    }
}

/// The whitespace-separated tokens of `s`.
pub open spec fn ws_tokens(s: Seq<char>) -> Seq<Seq<char>> {
    tokens_acc(s, 0, Seq::<char>::empty())
}

/// The class tokens of an element's attribute list.
pub open spec fn class_tokens(attrs: Seq<Attr>) -> Seq<Seq<char>> {
    match attr_value_of(attrs, "class"@) {
        Some(v) => ws_tokens(v),
        None => Seq::<Seq<char>>::empty(),
    }
}

/// One attribute constraint holds of an attribute list.
pub open spec fn attr_cond_holds(attrs: Seq<Attr>, c: AttrCondV) -> bool {
    match attr_value_of(attrs, c.name) {
        None => false,
        Some(v) => match c.value {
            None => true,
            Some(w) => v == w,
        },
    }
}

// ---------------------------------------------------------------------------
// Matching.
// ---------------------------------------------------------------------------
/// Node `i` is an element satisfying every constraint of `step`.
pub open spec fn elem_matches_step(nodes: Seq<Node>, i: int, step: StepV) -> bool {
    0 <= i < nodes.len() && match nodes[i].data {
        NodeData::Element { tag, attrs } => {
            &&& (step.tags.len() == 0 || step.tags.contains(tag@))
            &&& (forall|k: int|
                0 <= k < step.classes.len() ==> class_tokens(attrs@).contains(#[trigger] step.classes[k]))
            &&& (forall|k: int|
                0 <= k < step.not_classes.len() ==> !class_tokens(attrs@).contains(
                    #[trigger] step.not_classes[k],
                ))
            &&& (forall|k: int|
                0 <= k < step.attrs.len() ==> attr_cond_holds(attrs@, #[trigger] step.attrs[k]))
        },
        NodeData::Text { .. } => false,
    }
}

/// The relation an anchored pattern's first step bears to the scope: its
/// element is a direct child of the scope element (or a root, for the whole
/// document).
pub open spec fn parent_matches_scope(nodes: Seq<Node>, i: int, scope: Scope) -> bool {
    match scope {
        Scope::Document => nodes[i].parent is None,
        Scope::Under(s) => nodes[i].parent == Some(s),
    }
}

/// Node `i` lies inside the scope.
pub open spec fn in_scope(nodes: Seq<Node>, i: int, scope: Scope) -> bool {
    match scope {
        Scope::Document => true,
        Scope::Under(s) => is_strict_desc(nodes, i, s as int),
    }
}

/// Node `i` closes the chain `pat.steps[0 ..= k]`: it matches step `k`, and
/// earlier steps are matched by its parent or some ancestor, as each step's
/// combinator demands.
pub open spec fn chain_matches(nodes: Seq<Node>, pat: PatternV, scope: Scope, i: int, k: int) -> bool
    decreases k,
{
    0 <= k < pat.steps.len() && elem_matches_step(nodes, i, pat.steps[k]) && (if k == 0 {
        !pat.anchored || parent_matches_scope(nodes, i, scope)
    } else if pat.steps[k].child_of_prev {
        match nodes[i].parent {
            Some(p) => chain_matches(nodes, pat, scope, p as int, k - 1),
            None => false,
        }
    } else {
        exists|a: int| is_strict_desc(nodes, i, a) && chain_matches(nodes, pat, scope, a, k - 1)
    })
}

/// Node `i` is selected by `pat` within `scope`.
pub open spec fn pattern_matches(nodes: Seq<Node>, pat: PatternV, scope: Scope, i: int) -> bool {
    in_scope(nodes, i, scope) && pat.steps.len() > 0 && chain_matches(
        nodes,
        pat,
        scope,
        i,
        pat.steps.len() - 1,
    )
}

/// Node `i` matches `pat` considered on its own, scope-free — the test a
/// pipeline uses to classify an element it already holds.
pub open spec fn element_matches(nodes: Seq<Node>, pat: PatternV, i: int) -> bool {
    pat.steps.len() > 0 && chain_matches(nodes, pat, Scope::Document, i, pat.steps.len() - 1)
}

/// The selected nodes among the first `n`, in document order.
pub open spec fn selected_upto(nodes: Seq<Node>, pat: PatternV, scope: Scope, n: int) -> Seq<usize>
    decreases n,
{
    if n <= 0 {
        Seq::<usize>::empty()
    } else {
        selected_upto(nodes, pat, scope, n - 1) + (if pattern_matches(nodes, pat, scope, n - 1) {
            seq![(n - 1) as usize]
        } else {
            Seq::<usize>::empty()
        })
    }
}

/// Every node selected by `pat` within `scope`, in document order.
pub open spec fn selected(nodes: Seq<Node>, pat: PatternV, scope: Scope) -> Seq<usize> {
    selected_upto(nodes, pat, scope, nodes.len() as int)
}

// ---------------------------------------------------------------------------
// Executable matching.
// ---------------------------------------------------------------------------
/// Character-wise string equality.
pub fn str_eq(a: &str, b: &str) -> (r: bool)
    ensures
        r == (a@ == b@),
{
    let na = a.unicode_len();
    let nb = b.unicode_len();
    if na != nb {
        return false;
    }
    let mut i: usize = 0;
    while i < na
        invariant
            i <= na,
            na == a@.len(),
            na == b@.len(),
            forall|m: int| 0 <= m < i ==> a@[m] == b@[m],
        decreases na - i,
    {
        if a.get_char(i) != b.get_char(i) {
            return false;
        }
        i = i + 1;
    }
    proof {
        assert(a@ =~= b@);
    }
    true
}

/// Whether some string of `v` reads `target`.
fn contains_str(v: &Vec<String>, target: &str) -> (r: bool)
    ensures
        r == v.deep_view().contains(target@),
{
    let mut i: usize = 0;
    while i < v.len()
        invariant
            i <= v@.len(),
            forall|m: int| 0 <= m < i ==> v.deep_view()[m] != target@,
        decreases v@.len() - i,
    {
        if str_eq(v[i].as_str(), target) {
            assert(v.deep_view()[i as int] == target@);
            return true;
        }
        i = i + 1;
    }
    false
}

/// Looks the named attribute up in an attribute list.
pub fn attr_lookup<'a>(attrs: &'a Vec<Attr>, name: &str) -> (r: Option<&'a String>)
    ensures
        match r {
            Some(v) => attr_value_of(attrs@, name@) == Some(v@),
            None => attr_value_of(attrs@, name@) is None,
        },
{
    let mut i: usize = 0;
    proof {
        assert(attrs@.skip(0) =~= attrs@);
    }
    while i < attrs.len()
        invariant
            i <= attrs@.len(),
            attr_value_of(attrs@, name@) == attr_value_of(attrs@.skip(i as int), name@),
        decreases attrs@.len() - i,
    {
        if str_eq(attrs[i].name.as_str(), name) {
            proof {
                assert(attrs@.skip(i as int)[0] == attrs@[i as int]);
            }
            return Some(&attrs[i].value);
        }
        proof {
            assert(attrs@.skip(i as int)[0] == attrs@[i as int]);
            assert(attrs@.skip(i as int).drop_first() =~= attrs@.skip(i + 1));
        }
        i = i + 1;
    }
    proof {
        assert(attrs@.skip(attrs@.len() as int) =~= Seq::<Attr>::empty());
    }
    None
}

/// Splits `s` into its whitespace-separated tokens.
pub fn split_ws_tokens(s: &str) -> (r: Vec<String>)
    ensures
        r.deep_view() == ws_tokens(s@),
{
    let n = s.unicode_len();
    let mut out: Vec<String> = Vec::new();
    let mut cur = String::new();
    let mut i: usize = 0;
    while i < n
        invariant
            i <= n,
            n == s@.len(),
            ws_tokens(s@) == out.deep_view() + tokens_acc(s@, i as int, cur@),
        decreases n - i,
    {
        let c = s.get_char(i);
        let ghost curv = cur@;
        proof {
            assert(s@[i as int] == c);
        }
        if is_ws_exec(c) {
            if !cur.as_str().is_empty() {
                let ghost prev = out.deep_view();
                out.push(cur);
                cur = String::new();
                proof {
                    assert(out@[out@.len() - 1]@ == curv);
                    assert(out.deep_view() =~= prev.push(curv));
                    assert(tokens_acc(s@, i as int, curv) == seq![curv] + tokens_acc(
                        s@,
                        i + 1,
                        Seq::<char>::empty(),
                    ));
                    assert(prev.push(curv) + tokens_acc(s@, i + 1, Seq::<char>::empty()) =~= prev
                        + (seq![curv] + tokens_acc(s@, i + 1, Seq::<char>::empty())));
                    assert(cur@ =~= Seq::<char>::empty());
                }
            } else {
                proof {
                    assert(curv =~= Seq::<char>::empty());
                    assert(tokens_acc(s@, i as int, curv) == (Seq::<Seq<char>>::empty()
                        + tokens_acc(s@, i + 1, Seq::<char>::empty())));
                    assert(Seq::<Seq<char>>::empty() + tokens_acc(s@, i + 1, Seq::<char>::empty())
                        =~= tokens_acc(s@, i + 1, Seq::<char>::empty()));
                }
            }
        } else {
            cur.push(c);
            proof {
                assert(cur@ == curv.push(c));
                assert(tokens_acc(s@, i as int, curv) == tokens_acc(s@, i + 1, curv.push(c)));
            }
        }
        i = i + 1;
    }
    let ghost curv = cur@;
    if !cur.as_str().is_empty() {
        let ghost prev = out.deep_view();
        out.push(cur);
        proof {
            assert(out@[out@.len() - 1]@ == curv);
            assert(tokens_acc(s@, n as int, curv) == seq![curv]);
            assert(out.deep_view() =~= prev + seq![curv]);
        }
    } else {
        proof {
            assert(curv.len() == 0);
            assert(tokens_acc(s@, n as int, curv) =~= Seq::<Seq<char>>::empty());
            assert(out.deep_view() + Seq::<Seq<char>>::empty() =~= out.deep_view());
        }
    }
    out
}

/// Decides `is_ws` on a concrete character.
fn is_ws_exec(c: char) -> (r: bool)
    ensures
        r == is_ws(c),
{
    c == ' ' || c == '\t' || c == '\r' || c == '\n'
}

/// Decides whether element `i` satisfies one pattern step.
#[verifier::loop_isolation(false)]
pub fn elem_step_exec(doc: &Doc, i: usize, step: &Step) -> (r: bool)
    requires
        i < doc@.len(),
    ensures
        r == elem_matches_step(doc@, i as int, step@),
{
    let node = doc.node(i);
    match &node.data {
        NodeData::Element { tag, attrs } => {
            if step.tags.len() > 0 && !contains_str(&step.tags, tag.as_str()) {
                return false;
            }
            let toks = match attr_lookup(attrs, "class") {
                Some(v) => split_ws_tokens(v.as_str()),
                None => Vec::new(),
            };
            proof {
                assert(toks.deep_view() =~= class_tokens(attrs@));
            }
            let mut k: usize = 0;
            while k < step.classes.len()
                invariant
                    k <= step.classes@.len(),
                    toks.deep_view() == class_tokens(attrs@),
                    forall|m: int|
                        0 <= m < k ==> class_tokens(attrs@).contains(
                            #[trigger] step.classes.deep_view()[m],
                        ),
                decreases step.classes@.len() - k,
            {
                if !contains_str(&toks, step.classes[k].as_str()) {
                    proof {
                        assert(step@.classes[k as int] == step.classes.deep_view()[k as int]);
                    }
                    return false;
                }
                k = k + 1;
            }
            let mut k: usize = 0;
            while k < step.not_classes.len()
                invariant
                    k <= step.not_classes@.len(),
                    toks.deep_view() == class_tokens(attrs@),
                    forall|m: int|
                        0 <= m < k ==> !class_tokens(attrs@).contains(
                            #[trigger] step.not_classes.deep_view()[m],
                        ),
                decreases step.not_classes@.len() - k,
            {
                if contains_str(&toks, step.not_classes[k].as_str()) {
                    proof {
                        assert(step@.not_classes[k as int] == step.not_classes.deep_view()[
                            k as int
                        ]);
                    }
                    return false;
                }
                k = k + 1;
            }
            let mut k: usize = 0;
            while k < step.attrs.len()
                invariant
                    k <= step.attrs@.len(),
                    forall|m: int|
                        0 <= m < k ==> attr_cond_holds(attrs@, #[trigger] step@.attrs[m]),
                decreases step.attrs@.len() - k,
            {
                let cond = &step.attrs[k];
                proof {
                    assert(step@.attrs[k as int] == step.attrs@[k as int]@);
                }
                match attr_lookup(attrs, cond.name.as_str()) {
                    None => {
                        return false;
                    },
                    Some(v) => {
                        match &cond.value {
                            None => {},
                            Some(w) => {
                                if !str_eq(v.as_str(), w.as_str()) {
                                    return false;
                                }
                            },
                        }
                    },
                }
                k = k + 1;
            }
            true
        },
        NodeData::Text { .. } => false,
    }
}

/// Decides `parent_matches_scope`.
fn parent_scope_exec(doc: &Doc, i: usize, scope: Scope) -> (r: bool)
    requires
        i < doc@.len(),
    ensures
        r == parent_matches_scope(doc@, i as int, scope),
{
    let p = doc.parent_of(i);
    match scope {
        Scope::Document => p.is_none(),
        Scope::Under(s) => match p {
            Some(pp) => pp == s,
            None => false,
        },
    }
}

/// Decides `in_scope`.
pub fn in_scope_exec(doc: &Doc, i: usize, scope: Scope) -> (r: bool)
    requires
        doc.wf(),
        i < doc@.len(),
    ensures
        r == in_scope(doc@, i as int, scope),
{
    match scope {
        Scope::Document => true,
        Scope::Under(s) => doc.strict_desc(i, s),
    }
}

/// Decides `chain_matches` for step `k` ending at node `i`.
fn chain_exec(doc: &Doc, pat: &Pattern, scope: Scope, i: usize, k: usize) -> (r: bool)
    requires
        doc.wf(),
        i < doc@.len(),
        k < pat@.steps.len(),
    ensures
        r == chain_matches(doc@, pat@, scope, i as int, k as int),
    decreases k, i,
{
    let step = &pat.steps[k];
    proof {
        assert(pat@.steps[k as int] == pat.steps@[k as int]@);
    }
    if !elem_step_exec(doc, i, step) {
        return false;
    }
    if k == 0 {
        if pat.anchored {
            parent_scope_exec(doc, i, scope)
        } else {
            true
        }
    } else if step.child_of_prev {
        proof {
            assert(node_wf(doc@, i as int));
        }
        match doc.parent_of(i) {
            Some(p) => chain_exec(doc, pat, scope, p, k - 1),
            None => false,
        }
    } else {
        anc_exec(doc, pat, scope, i, k - 1)
    }
}

/// Decides whether some strict ancestor of `i` closes the chain at step `k`.
fn anc_exec(doc: &Doc, pat: &Pattern, scope: Scope, i: usize, k: usize) -> (r: bool)
    requires
        doc.wf(),
        i < doc@.len(),
        k < pat@.steps.len(),
    ensures
        r == exists|a: int|
            is_strict_desc(doc@, i as int, a) && chain_matches(doc@, pat@, scope, a, k as int),
    decreases k, i,
{
    proof {
        assert(node_wf(doc@, i as int));
    }
    match doc.parent_of(i) {
        None => {
            proof {
                assert(forall|a: int| !is_strict_desc(doc@, i as int, a));
            }
            false
        },
        Some(p) => {
            let r1 = chain_exec(doc, pat, scope, p, k);
            if r1 {
                proof {
                    assert(is_strict_desc(doc@, i as int, p as int));
                }
                true
            } else {
                let r2 = anc_exec(doc, pat, scope, p, k);
                proof {
                    if r2 {
                        let a = choose|a: int|
                            is_strict_desc(doc@, p as int, a) && chain_matches(
                                doc@,
                                pat@,
                                scope,
                                a,
                                k as int,
                            );
                        assert(is_strict_desc(doc@, i as int, a));
                    } else {
                        assert forall|a: int|
                            is_strict_desc(doc@, i as int, a) implies !chain_matches(
                            doc@,
                            pat@,
                            scope,
                            a,
                            k as int,
                        ) by {
                            assert(a == p || is_strict_desc(doc@, p as int, a));
                        }
                    }
                }
                r2
            }
        },
    }
}

/// Decides `pattern_matches`.
pub fn pattern_matches_exec(doc: &Doc, pat: &Pattern, scope: Scope, i: usize) -> (r: bool)
    requires
        doc.wf(),
        i < doc@.len(),
        pat@.steps.len() > 0,
    ensures
        r == pattern_matches(doc@, pat@, scope, i as int),
{
    in_scope_exec(doc, i, scope) && chain_exec(doc, pat, scope, i, pat.steps.len() - 1)
}

/// Decides `element_matches`.
pub fn element_matches_exec(doc: &Doc, pat: &Pattern, i: usize) -> (r: bool)
    requires
        doc.wf(),
        i < doc@.len(),
        pat@.steps.len() > 0,
    ensures
        r == element_matches(doc@, pat@, i as int),
{
    chain_exec(doc, pat, Scope::Document, i, pat.steps.len() - 1)
}

/// Every node selected by `pat` within `scope`, in document order.
pub fn select_list(doc: &Doc, pat: &Pattern, scope: Scope) -> (r: Vec<usize>)
    requires
        doc.wf(),
        pat@.steps.len() > 0,
    ensures
        r@ == selected(doc@, pat@, scope),
        forall|m: int| 0 <= m < r@.len() ==> #[trigger] r@[m] < doc@.len(),
{
    let n = doc.len();
    let mut out: Vec<usize> = Vec::new();
    let mut j: usize = 0;
    while j < n
        invariant
            j <= n,
            n == doc@.len(),
            doc.wf(),
            pat@.steps.len() > 0,
            out@ == selected_upto(doc@, pat@, scope, j as int),
            forall|m: int| 0 <= m < out@.len() ==> #[trigger] out@[m] < doc@.len(),
        decreases n - j,
    {
        if pattern_matches_exec(doc, pat, scope, j) {
            out.push(j);
            proof {
                assert(out@ =~= selected_upto(doc@, pat@, scope, j + 1));
            }
        } else {
            proof {
                assert(out@ =~= selected_upto(doc@, pat@, scope, j + 1));
            }
        }
        j = j + 1;
    }
    out
}

// ---------------------------------------------------------------------------
// Pattern construction.
// ---------------------------------------------------------------------------
/// A pattern step, spec side.
pub open spec fn stepv(
    child_of_prev: bool,
    tags: Seq<Seq<char>>,
    classes: Seq<Seq<char>>,
    not_classes: Seq<Seq<char>>,
    attrs: Seq<AttrCondV>,
) -> StepV {
    StepV { child_of_prev, tags, classes, not_classes, attrs }
}

/// An attribute constraint, spec side.
pub open spec fn condv(name: Seq<char>, value: Option<Seq<char>>) -> AttrCondV {
    AttrCondV { name, value }
}

/// No strings, spec side.
pub open spec fn no_strs() -> Seq<Seq<char>> {
    Seq::<Seq<char>>::empty()
}

/// No attribute constraints, spec side.
pub open spec fn no_conds() -> Seq<AttrCondV> {
    Seq::<AttrCondV>::empty()
}

/// No strings.
pub fn s0() -> (r: Vec<String>)
    ensures
        r.deep_view() == Seq::<Seq<char>>::empty(),
{
    let r: Vec<String> = Vec::new();
    proof {
        assert(r.deep_view() =~= Seq::<Seq<char>>::empty());
    }
    r
}

/// One string.
pub fn s1(a: &str) -> (r: Vec<String>)
    ensures
        r.deep_view() == seq![a@],
{
    let mut r: Vec<String> = Vec::new();
    r.push(a.to_owned());
    proof {
        assert(r.deep_view() =~= seq![a@]);
    }
    r
}

/// Two strings.
pub fn s2(a: &str, b: &str) -> (r: Vec<String>)
    ensures
        r.deep_view() == seq![a@, b@],
{
    let mut r: Vec<String> = Vec::new();
    r.push(a.to_owned());
    r.push(b.to_owned());
    proof {
        assert(r.deep_view() =~= seq![a@, b@]);
    }
    r
}

/// No attribute constraints.
pub fn a0() -> (r: Vec<AttrCond>)
    ensures
        r@.map_values(|a: AttrCond| a@) == Seq::<AttrCondV>::empty(),
{
    let r: Vec<AttrCond> = Vec::new();
    proof {
        assert(r@.map_values(|a: AttrCond| a@) =~= Seq::<AttrCondV>::empty());
    }
    r
}

/// One attribute constraint.
pub fn a1(name: &str, value: Option<&str>) -> (r: Vec<AttrCond>)
    ensures
        r@.map_values(|a: AttrCond| a@) == seq![
            condv(
                name@,
                match value {
                    Some(v) => Some(v@),
                    None => None,
                },
            ),
        ],
{
    let mut r: Vec<AttrCond> = Vec::new();
    let v = match value {
        Some(v) => Some(v.to_owned()),
        None => None,
    };
    r.push(AttrCond { name: name.to_owned(), value: v });
    proof {
        assert(r@.map_values(|a: AttrCond| a@) =~= seq![
            condv(
                name@,
                match value {
                    Some(v) => Some(v@),
                    None => None,
                },
            ),
        ]);
    }
    r
}

/// Two attribute constraints, both with required values.
pub fn a2(n1: &str, v1: &str, n2: &str, v2: &str) -> (r: Vec<AttrCond>)
    ensures
        r@.map_values(|a: AttrCond| a@) == seq![
            condv(n1@, Some(v1@)),
            condv(n2@, Some(v2@)),
        ],
{
    let mut r: Vec<AttrCond> = Vec::new();
    r.push(AttrCond { name: n1.to_owned(), value: Some(v1.to_owned()) });
    r.push(AttrCond { name: n2.to_owned(), value: Some(v2.to_owned()) });
    proof {
        assert(r@.map_values(|a: AttrCond| a@) =~= seq![
            condv(n1@, Some(v1@)),
            condv(n2@, Some(v2@)),
        ]);
    }
    r
}

/// One pattern step.
pub fn step_new(
    child_of_prev: bool,
    tags: Vec<String>,
    classes: Vec<String>,
    not_classes: Vec<String>,
    attrs: Vec<AttrCond>,
) -> (r: Step)
    ensures
        r@ == stepv(
            child_of_prev,
            tags.deep_view(),
            classes.deep_view(),
            not_classes.deep_view(),
            attrs@.map_values(|a: AttrCond| a@),
        ),
{
    Step { child_of_prev, tags, classes, not_classes, attrs }
}

/// A one-step pattern.
pub fn pat_1step(anchored: bool, source: &str, step: Step) -> (r: Pattern)
    ensures
        r@ == (PatternV { anchored, steps: seq![step@], source: source@ }),
{
    let ghost sv = step@;
    let mut steps: Vec<Step> = Vec::new();
    steps.push(step);
    let r = Pattern { anchored, steps, source: source.to_owned() };
    proof {
        assert(r@.steps =~= seq![sv]);
    }
    r
}

/// A two-step pattern.
pub fn pat_2step(anchored: bool, source: &str, first: Step, second: Step) -> (r: Pattern)
    ensures
        r@ == (PatternV { anchored, steps: seq![first@, second@], source: source@ }),
{
    let ghost v1 = first@;
    let ghost v2 = second@;
    let mut steps: Vec<Step> = Vec::new();
    steps.push(first);
    steps.push(second);
    let r = Pattern { anchored, steps, source: source.to_owned() };
    proof {
        assert(r@.steps =~= seq![v1, v2]);
    }
    r
}

/// A three-step pattern.
pub fn pat_3step(anchored: bool, source: &str, first: Step, second: Step, third: Step) -> (r:
    Pattern)
    ensures
        r@ == (PatternV { anchored, steps: seq![first@, second@, third@], source: source@ }),
{
    let ghost v1 = first@;
    let ghost v2 = second@;
    let ghost v3 = third@;
    let mut steps: Vec<Step> = Vec::new();
    steps.push(first);
    steps.push(second);
    steps.push(third);
    let r = Pattern { anchored, steps, source: source.to_owned() };
    proof {
        assert(r@.steps =~= seq![v1, v2, v3]);
    }
    r
}

// ---------------------------------------------------------------------------
// Classifying a held element list.
// ---------------------------------------------------------------------------
/// The members of `ids`, kept in order, that match `pat` among the first `n`.
pub open spec fn filtered_upto(nodes: Seq<Node>, ids: Seq<usize>, pat: PatternV, n: int) -> Seq<
    usize,
>
    decreases n,
{
    if n <= 0 {
        Seq::<usize>::empty()
    } else {
        filtered_upto(nodes, ids, pat, n - 1) + (if element_matches(nodes, pat, ids[n - 1] as int) {
            seq![ids[n - 1]]
        } else {
            Seq::<usize>::empty()
        })
    }
}

/// The members of `ids` that match `pat`, in order.
pub open spec fn filtered_by(nodes: Seq<Node>, ids: Seq<usize>, pat: PatternV) -> Seq<usize> {
    filtered_upto(nodes, ids, pat, ids.len() as int)
}

/// The members of `ids`, kept in order, that match either pattern, among the
/// first `n`.
pub open spec fn filtered2_upto(
    nodes: Seq<Node>,
    ids: Seq<usize>,
    p1: PatternV,
    p2: PatternV,
    n: int,
) -> Seq<usize>
    decreases n,
{
    if n <= 0 {
        Seq::<usize>::empty()
    } else {
        filtered2_upto(nodes, ids, p1, p2, n - 1) + (if element_matches(nodes, p1, ids[n - 1] as int)
            || element_matches(nodes, p2, ids[n - 1] as int) {
            seq![ids[n - 1]]
        } else {
            Seq::<usize>::empty()
        })
    }
}

/// The members of `ids` that match either pattern, in order.
pub open spec fn filtered_by2(nodes: Seq<Node>, ids: Seq<usize>, p1: PatternV, p2: PatternV) -> Seq<
    usize,
> {
    filtered2_upto(nodes, ids, p1, p2, ids.len() as int)
}

/// Keeps, in order, the listed elements matching `pat`.
#[verifier::loop_isolation(false)]
pub fn filter_by(doc: &Doc, ids: &Vec<usize>, pat: &Pattern) -> (r: Vec<usize>)
    requires
        doc.wf(),
        pat@.steps.len() > 0,
        forall|m: int| 0 <= m < ids@.len() ==> #[trigger] ids@[m] < doc@.len(),
    ensures
        r@ == filtered_by(doc@, ids@, pat@),
        forall|m: int| 0 <= m < r@.len() ==> #[trigger] r@[m] < doc@.len(),
{
    let mut out: Vec<usize> = Vec::new();
    let mut j: usize = 0;
    while j < ids.len()
        invariant
            j <= ids@.len(),
            out@ == filtered_upto(doc@, ids@, pat@, j as int),
            forall|m: int| 0 <= m < out@.len() ==> #[trigger] out@[m] < doc@.len(),
        decreases ids@.len() - j,
    {
        if element_matches_exec(doc, pat, ids[j]) {
            out.push(ids[j]);
            proof {
                assert(out@ =~= filtered_upto(doc@, ids@, pat@, j + 1));
            }
        } else {
            proof {
                assert(out@ =~= filtered_upto(doc@, ids@, pat@, j + 1));
            }
        }
        j = j + 1;
    }
    out
}

/// Keeps, in order, the listed elements matching either pattern.
#[verifier::loop_isolation(false)]
pub fn filter_by2(doc: &Doc, ids: &Vec<usize>, p1: &Pattern, p2: &Pattern) -> (r: Vec<usize>)
    requires
        doc.wf(),
        p1@.steps.len() > 0,
        p2@.steps.len() > 0,
        forall|m: int| 0 <= m < ids@.len() ==> #[trigger] ids@[m] < doc@.len(),
    ensures
        r@ == filtered_by2(doc@, ids@, p1@, p2@),
        forall|m: int| 0 <= m < r@.len() ==> #[trigger] r@[m] < doc@.len(),
{
    let mut out: Vec<usize> = Vec::new();
    let mut j: usize = 0;
    while j < ids.len()
        invariant
            j <= ids@.len(),
            out@ == filtered2_upto(doc@, ids@, p1@, p2@, j as int),
            forall|m: int| 0 <= m < out@.len() ==> #[trigger] out@[m] < doc@.len(),
        decreases ids@.len() - j,
    {
        if element_matches_exec(doc, p1, ids[j]) || element_matches_exec(doc, p2, ids[j]) {
            out.push(ids[j]);
            proof {
                assert(out@ =~= filtered2_upto(doc@, ids@, p1@, p2@, j + 1));
            }
        } else {
            proof {
                assert(out@ =~= filtered2_upto(doc@, ids@, p1@, p2@, j + 1));
            }
        }
        j = j + 1;
    }
    out
}

} // verus!
