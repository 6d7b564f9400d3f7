//! The document tree: nodes held in document order, each pointing to its
//! parent. Children always come after their parent, which also serves as the
//! termination measure for walks up and down the tree.

use vstd::prelude::*;

verus! {

/// One attribute of an element: a name and its raw value.
pub struct Attr {
    pub name: String,
    pub value: String,
}

/// What a node holds: an element with a tag and attributes, or a text node.
pub enum NodeData {
    Element { tag: String, attrs: Vec<Attr> },
    Text { text: String },
}

/// One node of a document, with a link to its parent element.
pub struct Node {
    pub parent: Option<usize>,
    pub data: NodeData,
}

/// A parsed document: nodes in document order. Built once through
/// `push_element` / `push_text`, immutable thereafter.
pub struct Doc {
    nodes: Vec<Node>,
}

/// A single node is well formed when its parent, if any, stands before it
/// and is an element.
pub open spec fn node_wf(nodes: Seq<Node>, i: int) -> bool {
    match nodes[i].parent {
        Some(p) => p < i && nodes[p as int].data is Element,
        None => true,
    }
}

/// Every node's parent link points backwards at an element.
pub open spec fn doc_wf(nodes: Seq<Node>) -> bool {
    forall|i: int| 0 <= i < nodes.len() ==> node_wf(nodes, i)
}

/// Node `i` is a strict descendant of node `a`: the parent chain from `i`
/// reaches `a`.
pub open spec fn is_strict_desc(nodes: Seq<Node>, i: int, a: int) -> bool
    decreases i,
{
    0 <= i < nodes.len() && match nodes[i].parent {
        Some(p) => p < i && (p == a || is_strict_desc(nodes, p as int, a)),
        None => false,
    }
}

impl View for Doc {
    type V = Seq<Node>;

    closed spec fn view(&self) -> Seq<Node> {
        self.nodes@
    }
}

impl Doc {
    pub open spec fn wf(&self) -> bool {
        doc_wf(self@)
    }

    /// An empty document with no nodes yet.
    pub fn new() -> (d: Doc)
        ensures
            d@ == Seq::<Node>::empty(),
            d.wf(),
    {
        Doc { nodes: Vec::new() }
    }

    pub fn len(&self) -> (n: usize)
        ensures
            n == self@.len(),
    {
        self.nodes.len()
    }

    pub fn node(&self, i: usize) -> (n: &Node)
        requires
            i < self@.len(),
        ensures
            *n == self@[i as int],
    {
        &self.nodes[i]
    }

    /// Appends an element under `parent` (or as a root) and returns its index.
    pub fn push_element(&mut self, parent: Option<usize>, tag: String, attrs: Vec<Attr>) -> (idx:
        usize)
        requires
            old(self).wf(),
            match parent {
                Some(p) => p < old(self)@.len() && old(self)@[p as int].data is Element,
                None => true,
            },
        ensures
            final(self).wf(),
            idx == old(self)@.len(),
            final(self)@ == old(self)@.push(
                Node { parent, data: NodeData::Element { tag, attrs } },
            ),
    {
        let idx = self.nodes.len();
        self.nodes.push(Node { parent, data: NodeData::Element { tag, attrs } });
        assert forall|i: int| 0 <= i < self@.len() implies node_wf(self@, i) by {
            if i < idx {
                assert(node_wf(old(self)@, i));
            }
        }
        idx
    }

    /// Appends a text node under the element `parent` and returns its index.
    pub fn push_text(&mut self, parent: usize, text: String) -> (idx: usize)
        requires
            old(self).wf(),
            parent < old(self)@.len(),
            old(self)@[parent as int].data is Element,
        ensures
            final(self).wf(),
            idx == old(self)@.len(),
            final(self)@ == old(self)@.push(
                Node { parent: Some(parent), data: NodeData::Text { text } },
            ),
    {
        let idx = self.nodes.len();
        self.nodes.push(Node { parent: Some(parent), data: NodeData::Text { text } });
        assert forall|i: int| 0 <= i < self@.len() implies node_wf(self@, i) by {
            if i < idx {
                assert(node_wf(old(self)@, i));
            }
        }
        idx
    }

    /// Decides whether node `i` stands strictly below node `a`.
    pub fn strict_desc(&self, i: usize, a: usize) -> (r: bool)
        requires
            self.wf(),
            i < self@.len(),
        ensures
            r == is_strict_desc(self@, i as int, a as int),
        decreases i,
    {
        proof {
            assert(node_wf(self@, i as int));
        }
        match self.nodes[i].parent {
            Some(p) => p == a || self.strict_desc(p, a),
            None => false,
        }
    }

    /// The parent link of node `i`.
    pub fn parent_of(&self, i: usize) -> (p: Option<usize>)
        requires
            i < self@.len(),
        ensures
            p == self@[i as int].parent,
    {
        self.nodes[i].parent
    }
}

} // verus!
