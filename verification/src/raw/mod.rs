//! Low-level model of the demangled symbol tree.
//!
//! A [`NodeData`] owns one node of the parse tree and, recursively, its
//! children. A [`Node`] is a cheap copyable handle that borrows a node for the
//! lifetime of the tree that contains it; every accessor of the high-level API
//! works through such handles.

mod node_kind;

use vstd::prelude::*;

pub use node_kind::NodeKind;

verus! {

/// One node of a demangled symbol tree, owning its children.
pub struct NodeData {
    /// The kind of the node.
    pub kind: NodeKind,
    /// The text attached to the node, if any.
    pub text: Option<String>,
    /// The index attached to the node, if any.
    pub index: Option<u64>,
    /// The children of the node, in order.
    pub children: Vec<NodeData>,
    /// The human-readable rendering of the subtree rooted at this node.
    pub display: String,
}

impl NodeData {
    /// Create a node from its parts.
    pub fn new(
        kind: NodeKind,
        text: Option<String>,
        index: Option<u64>,
        children: Vec<NodeData>,
        display: String,
    ) -> (r: NodeData)
        ensures
            r.kind == kind,
            r.text == text,
            r.index == index,
            r.children == children,
            r.display == display,
    {
        NodeData { kind, text, index, children, display }
    }

    /// The text the node reports: its text when present and non-empty.
    pub open spec fn spec_text(self) -> Option<Seq<char>> {
        match self.text {
            Some(s) => if s@.len() > 0 { Some(s@) } else { None },
            None => None,
        }
    }
}

/// The height of a tree: one more than the height of its highest child.
pub open spec fn height(d: NodeData) -> nat
    decreases d,
{
    1 + max_height(d.children@)
}

/// The largest height among a sequence of trees (zero when empty).
pub open spec fn max_height(s: Seq<NodeData>) -> nat
    decreases s,
{
    if s.len() == 0 {
        0
    } else {
        let h = height(s.last());
        let m = max_height(s.drop_last());
        if h > m { h } else { m }
    }
}

/// The nodes of the subtree rooted at `d`, in pre-order (node first, then
/// the subtrees of its children from first to last).
pub open spec fn preorder(d: NodeData) -> Seq<NodeData>
    decreases d,
{
    seq![d] + preorder_all(d.children@)
}

/// The pre-order sequences of the trees of `s`, concatenated from first to last.
pub open spec fn preorder_all(s: Seq<NodeData>) -> Seq<NodeData>
    decreases s,
{
    if s.len() == 0 {
        Seq::empty()
    } else {
        preorder_all(s.drop_last()) + preorder(s.last())
    }
}

/// The pre-order sequences of the trees of `s`, concatenated from last to first.
pub open spec fn preorder_rev(s: Seq<NodeData>) -> Seq<NodeData>
    decreases s,
{
    if s.len() == 0 {
        Seq::empty()
    } else {
        preorder_rev(s.drop_first()) + preorder(s[0])
    }
}

/// The descendants of `d` (not `d` itself) in the order in which they are
/// enumerated: the subtrees of the children are taken from the last child
/// to the first, and each subtree is walked in pre-order.
pub open spec fn descendants(d: NodeData) -> Seq<NodeData> {
    preorder_rev(d.children@)
}

pub proof fn lemma_max_height(s: Seq<NodeData>, i: int)
    requires
        0 <= i < s.len(),
    ensures
        height(s[i]) <= max_height(s),
    decreases s.len(),
{
    if i < s.len() - 1 {
        lemma_max_height(s.drop_last(), i);
    }
}

/// A child is lower than its parent.
pub proof fn lemma_child_height(d: NodeData, i: int)
    requires
        0 <= i < d.children@.len(),
    ensures
        height(d.children@[i]) < height(d),
{
    lemma_max_height(d.children@, i);
}

proof fn lemma_preorder_height(d: NodeData)
    ensures
        forall|k: int| 0 <= k < preorder(d).len() ==> height(#[trigger] preorder(d)[k]) <= height(d),
    decreases d, 1int,
{
    assert forall|i: int| 0 <= i < d.children@.len() implies height(#[trigger] d.children@[i]) < height(d) by {
        lemma_child_height(d, i);
    }
    lemma_preorder_all_height(d, d.children@);
    let a = seq![d];
    let b = preorder_all(d.children@);
    assert forall|k: int| 0 <= k < preorder(d).len() implies height(#[trigger] preorder(d)[k]) <= height(d) by {
        if k >= 1 {
            assert(preorder(d)[k] == b[k - 1]);
        }
    }
}

proof fn lemma_preorder_all_height(p: NodeData, s: Seq<NodeData>)
    requires
        forall|i: int| 0 <= i < s.len() ==> height(#[trigger] s[i]) < height(p),
    ensures
        forall|k: int| 0 <= k < preorder_all(s).len() ==> height(#[trigger] preorder_all(s)[k]) < height(p),
    decreases s, 0int,
{
    if s.len() > 0 {
        let t = s.drop_last();
        assert forall|i: int| 0 <= i < t.len() implies height(#[trigger] t[i]) < height(p) by {
            assert(t[i] == s[i]);
        }
        lemma_preorder_all_height(p, t);
        lemma_preorder_height(s.last());
        assert(height(s[s.len() - 1]) < height(p));
        let a = preorder_all(t);
        let b = preorder(s.last());
        assert(preorder_all(s) == a + b);
        assert forall|k: int| 0 <= k < preorder_all(s).len() implies height(#[trigger] preorder_all(s)[k]) < height(p) by {
            if k < a.len() {
                assert(preorder_all(s)[k] == a[k]);
            } else {
                assert(preorder_all(s)[k] == b[k - a.len()]);
            }
        }
    }
}

proof fn lemma_preorder_rev_height(p: NodeData, s: Seq<NodeData>)
    requires
        forall|i: int| 0 <= i < s.len() ==> height(#[trigger] s[i]) < height(p),
    ensures
        forall|k: int| 0 <= k < preorder_rev(s).len() ==> height(#[trigger] preorder_rev(s)[k]) < height(p),
    decreases s.len(),
{
    if s.len() > 0 {
        let t = s.drop_first();
        assert forall|i: int| 0 <= i < t.len() implies height(#[trigger] t[i]) < height(p) by {
            assert(t[i] == s[i + 1]);
        }
        lemma_preorder_rev_height(p, t);
        lemma_preorder_height(s[0]);
        let a = preorder_rev(t);
        let b = preorder(s[0]);
        assert(preorder_rev(s) == a + b);
        assert forall|k: int| 0 <= k < preorder_rev(s).len() implies height(#[trigger] preorder_rev(s)[k]) < height(p) by {
            if k < a.len() {
                assert(preorder_rev(s)[k] == a[k]);
            } else {
                assert(preorder_rev(s)[k] == b[k - a.len()]);
            }
        }
    }
}

/// Every descendant is lower than the node it descends from.
pub proof fn lemma_descendant_height(d: NodeData, k: int)
    requires
        0 <= k < descendants(d).len(),
    ensures
        height(descendants(d)[k]) < height(d),
{
    assert forall|i: int| 0 <= i < d.children@.len() implies height(#[trigger] d.children@[i]) < height(d) by {
        lemma_child_height(d, i);
    }
    lemma_preorder_rev_height(d, d.children@);
}

proof fn lemma_preorder_rev_contains(s: Seq<NodeData>, i: int)
    requires
        0 <= i < s.len(),
    ensures
        exists|k: int| 0 <= k < preorder_rev(s).len() && preorder_rev(s)[k] == s[i],
    decreases s.len(),
{
    let a = preorder_rev(s.drop_first());
    let b = preorder(s[0]);
    assert(preorder_rev(s) == a + b);
    if i == 0 {
        assert(b[0] == s[0]);
        assert((a + b)[a.len() as int] == s[0]);
    } else {
        lemma_preorder_rev_contains(s.drop_first(), i - 1);
        let k = choose|k: int| 0 <= k < a.len() && a[k] == s.drop_first()[i - 1];
        assert((a + b)[k] == s[i]);
    }
}

/// Every child of a node is among its descendants.
pub proof fn lemma_children_are_descendants(d: NodeData, i: int)
    requires
        0 <= i < d.children@.len(),
    ensures
        exists|k: int| 0 <= k < descendants(d).len() && descendants(d)[k] == d.children@[i],
{
    lemma_preorder_rev_contains(d.children@, i);
    let k = choose|k: int|
        0 <= k < preorder_rev(d.children@).len() && preorder_rev(d.children@)[k]
            == d.children@[i];
    assert(descendants(d)[k] == d.children@[i]);
}

/// A handle on a node of a demangled symbol tree.
///
/// Nodes borrow from the tree that contains them and are valid for as long
/// as that tree is.
#[derive(Clone, Copy)]
pub struct Node<'ctx> {
    data: &'ctx NodeData,
}

/// The contents of the nodes of a sequence of handles.
pub open spec fn datas<'ctx>(s: Seq<Node<'ctx>>) -> Seq<NodeData> {
    s.map_values(|n: Node<'ctx>| n.data())
}

/// The contents of an optional node.
pub open spec fn opt_data<'ctx>(o: Option<Node<'ctx>>) -> Option<NodeData> {
    match o {
        Some(n) => Some(n.data()),
        None => None,
    }
}

/// The characters of an optional string slice.
pub open spec fn opt_str(o: Option<&str>) -> Option<Seq<char>> {
    match o {
        Some(s) => Some(s@),
        None => None,
    }
}

impl<'ctx> Node<'ctx> {
    /// The node this handle refers to.
    pub closed spec fn data(self) -> NodeData {
        *self.data
    }

    /// Create a handle on a node.
    pub fn new(data: &'ctx NodeData) -> (r: Node<'ctx>)
        ensures
            r.data() == *data,
    {
        Node { data }
    }

    /// Get the kind of this node.
    pub fn kind(&self) -> (k: NodeKind)
        ensures
            k == self.data().kind,
    {
        self.data.kind
    }

    /// Check if this node has text content.
    pub fn has_text(&self) -> (b: bool)
        ensures
            b == self.data().text is Some,
    {
        self.data.text.is_some()
    }

    /// Get the text content of this node, if any.
    ///
    /// Empty text is reported as absent.
    pub fn text(&self) -> (r: Option<&'ctx str>)
        ensures
            opt_str(r) == self.data().spec_text(),
    {
        let d: &'ctx NodeData = self.data;
        match &d.text {
            Some(s) => {
                let t: &'ctx str = s.as_str();
                if t.is_empty() {
                    None
                } else {
                    Some(t)
                }
            },
            None => None,
        }
    }

    /// Check if this node has an index value.
    pub fn has_index(&self) -> (b: bool)
        ensures
            b == self.data().index is Some,
    {
        self.data.index.is_some()
    }

    /// Get the index value of this node, if any.
    pub fn index(&self) -> (r: Option<u64>)
        ensures
            r == self.data().index,
    {
        self.data.index
    }

    /// Get the number of children.
    pub fn num_children(&self) -> (n: usize)
        ensures
            n == self.data().children@.len(),
    {
        self.data.children.len()
    }

    /// Get a child by index.
    pub fn child(&self, index: usize) -> (r: Option<Node<'ctx>>)
        ensures
            opt_data(r) == (if index < self.data().children@.len() {
                Some(self.data().children@[index as int])
            } else {
                None
            }),
    {
        let d: &'ctx NodeData = self.data;
        if index < d.children.len() {
            Some(Node { data: &d.children[index] })
        } else {
            None
        }
    }

    /// All children, in order.
    pub fn children(&self) -> (r: Vec<Node<'ctx>>)
        ensures
            datas(r@) == self.data().children@,
    {
        let d: &'ctx NodeData = self.data;
        let mut out: Vec<Node<'ctx>> = Vec::new();
        let mut i: usize = 0;
        while i < d.children.len()
            invariant
                i <= d.children@.len(),
                datas(out@) =~= d.children@.take(i as int),
            decreases d.children@.len() - i,
        {
            let n = Node { data: &d.children[i] };
            assert(n.data() == d.children@[i as int]);
            proof {
                assert(d.children@.take(i + 1) =~= d.children@.take(i as int).push(d.children@[i as int]));
            }
            out.push(n);
            i = i + 1;
        }
        out
    }

    /// Append the nodes of the subtree rooted at `node`, in pre-order.
    fn push_preorder(node: Node<'ctx>, out: &mut Vec<Node<'ctx>>)
        ensures
            datas(final(out)@) == datas(old(out)@) + preorder(node.data()),
        decreases height(node.data()),
    {
        out.push(node);
        let cs = node.children();
        let ghost start = datas(old(out)@) + seq![node.data()];
        assert(datas(out@) =~= start);
        let mut i: usize = 0;
        while i < cs.len()
            invariant
                i <= cs@.len(),
                datas(cs@) == node.data().children@,
                datas(out@) == start + preorder_all(node.data().children@.take(i as int)),
            decreases cs@.len() - i,
        {
            proof {
                lemma_child_height(node.data(), i as int);
                assert(node.data().children@.take(i + 1).drop_last() =~= node.data().children@.take(i as int));
            }
            Self::push_preorder(cs[i], out);
            i = i + 1;
        }
        proof {
            assert(node.data().children@.take(i as int) =~= node.data().children@);
        }
    }

    /// All descendants of this node (not the node itself).
    ///
    /// The subtrees of the children are enumerated from the last child to the
    /// first; each subtree is enumerated depth-first in pre-order.
    pub fn descendants(&self) -> (r: Vec<Node<'ctx>>)
        ensures
            datas(r@) == descendants(self.data()),
    {
        let cs = self.children();
        let ghost s = self.data().children@;
        let mut out: Vec<Node<'ctx>> = Vec::new();
        let mut k: usize = cs.len();
        assert(s.subrange(k as int, s.len() as int) =~= Seq::<NodeData>::empty());
        while k > 0
            invariant
                k <= cs@.len(),
                datas(cs@) == s,
                datas(out@) == preorder_rev(s.subrange(k as int, s.len() as int)),
            decreases k,
        {
            proof {
                assert(s.subrange(k - 1, s.len() as int).drop_first() =~= s.subrange(k as int, s.len() as int));
            }
            Self::push_preorder(cs[k - 1], &mut out);
            k = k - 1;
        }
        proof {
            assert(s.subrange(0, s.len() as int) =~= s);
        }
        out
    }

    /// The human-readable rendering of the subtree rooted at this node.
    pub fn to_string(&self) -> (r: String)
        ensures
            r@ == self.data().display@,
    {
        self.data.display.clone()
    }
}

/// A demangling context: it owns the parsed symbol trees, and the nodes
/// obtained from it borrow from it.
///
/// Nodes obtained from a context are valid until the context is dropped or
/// cleared.
pub struct Context {
    trees: Vec<NodeData>,
}

impl Context {
    /// The trees held by this context, in the order they were added.
    pub closed spec fn spec_trees(&self) -> Seq<NodeData> {
        self.trees@
    }

    /// Create a new, empty demangling context.
    pub fn new() -> (r: Self)
        ensures
            r.spec_trees() == Seq::<NodeData>::empty(),
    {
        Context { trees: Vec::new() }
    }

    /// Clear the context, dropping all the trees it holds.
    pub fn clear(&mut self)
        ensures
            final(self).spec_trees() == Seq::<NodeData>::empty(),
    {
        self.trees = Vec::new();
    }

    /// Add a parsed tree to the context and return its position.
    pub fn add(&mut self, tree: NodeData) -> (i: usize)
        requires
            old(self).spec_trees().len() < usize::MAX,
        ensures
            final(self).spec_trees() == old(self).spec_trees().push(tree),
            i == old(self).spec_trees().len(),
    {
        let i = self.trees.len();
        self.trees.push(tree);
        i
    }

    /// The number of trees held by this context.
    pub fn len(&self) -> (n: usize)
        ensures
            n == self.spec_trees().len(),
    {
        self.trees.len()
    }

    /// The root node of the tree at position `i`, if there is one.
    pub fn root<'ctx>(&'ctx self, i: usize) -> (r: Option<Node<'ctx>>)
        ensures
            opt_data(r) == (if i < self.spec_trees().len() {
                Some(self.spec_trees()[i as int])
            } else {
                None
            }),
    {
        if i < self.trees.len() {
            Some(Node::new(&self.trees[i]))
        } else {
            None
        }
    }
}

impl Default for Context {
    fn default() -> (r: Self)
        ensures
            r.spec_trees() == Seq::<NodeData>::empty(),
    {
        Self::new()
    }
}

/// Extracted information about a Swift function symbol.
#[derive(Clone)]
pub struct FunctionInfo {
    module_name: Option<String>,
    function_name: Option<String>,
    full_name: Option<String>,
    is_async: bool,
    is_throwing: bool,
    has_typed_throws: bool,
    parameter_types: Vec<String>,
    return_type: Option<String>,
}

/// The characters of an optional string.
pub open spec fn opt_string(o: Option<String>) -> Option<Seq<char>> {
    match o {
        Some(s) => Some(s@),
        None => None,
    }
}

impl FunctionInfo {
    /// The module containing the function.
    pub closed spec fn spec_module_name(&self) -> Option<Seq<char>> {
        opt_string(self.module_name)
    }

    /// The function name.
    pub closed spec fn spec_function_name(&self) -> Option<Seq<char>> {
        opt_string(self.function_name)
    }

    /// The full demangled name.
    pub closed spec fn spec_full_name(&self) -> Option<Seq<char>> {
        opt_string(self.full_name)
    }

    /// Whether the function is async.
    pub closed spec fn spec_is_async(&self) -> bool {
        self.is_async
    }

    /// Whether the function can throw.
    pub closed spec fn spec_is_throwing(&self) -> bool {
        self.is_throwing
    }

    /// Whether the function has typed throws.
    pub closed spec fn spec_has_typed_throws(&self) -> bool {
        self.has_typed_throws
    }

    /// The parameter types.
    pub closed spec fn spec_parameter_types(&self) -> Seq<String> {
        self.parameter_types@
    }

    /// The return type.
    pub closed spec fn spec_return_type(&self) -> Option<Seq<char>> {
        opt_string(self.return_type)
    }

    /// Gather the information extracted about a function symbol.
    pub fn new(
        module_name: Option<String>,
        function_name: Option<String>,
        full_name: Option<String>,
        is_async: bool,
        is_throwing: bool,
        has_typed_throws: bool,
        parameter_types: Vec<String>,
        return_type: Option<String>,
    ) -> (r: Self)
        ensures
            r.spec_module_name() == opt_string(module_name),
            r.spec_function_name() == opt_string(function_name),
            r.spec_full_name() == opt_string(full_name),
            r.spec_is_async() == is_async,
            r.spec_is_throwing() == is_throwing,
            r.spec_has_typed_throws() == has_typed_throws,
            r.spec_parameter_types() == parameter_types@,
            r.spec_return_type() == opt_string(return_type),
    {
        FunctionInfo {
            module_name,
            function_name,
            full_name,
            is_async,
            is_throwing,
            has_typed_throws,
            parameter_types,
            return_type,
        }
    }

    /// The module containing the function.
    pub fn module_name(&self) -> (r: Option<&str>)
        ensures
            opt_str(r) == self.spec_module_name(),
    {
        match &self.module_name {
            Some(s) => Some(s.as_str()),
            None => None,
        }
    }

    /// The function name.
    pub fn function_name(&self) -> (r: Option<&str>)
        ensures
            opt_str(r) == self.spec_function_name(),
    {
        match &self.function_name {
            Some(s) => Some(s.as_str()),
            None => None,
        }
    }

    /// The full demangled name.
    pub fn full_name(&self) -> (r: Option<&str>)
        ensures
            opt_str(r) == self.spec_full_name(),
    {
        match &self.full_name {
            Some(s) => Some(s.as_str()),
            None => None,
        }
    }

    /// Whether the function is async.
    pub fn is_async(&self) -> (b: bool)
        ensures
            b == self.spec_is_async(),
    {
        self.is_async
    }

    /// Whether the function can throw.
    pub fn is_throwing(&self) -> (b: bool)
        ensures
            b == self.spec_is_throwing(),
    {
        self.is_throwing
    }

    /// Whether the function has typed throws.
    pub fn has_typed_throws(&self) -> (b: bool)
        ensures
            b == self.spec_has_typed_throws(),
    {
        self.has_typed_throws
    }

    /// The parameter types.
    pub fn parameter_types(&self) -> (r: &[String])
        ensures
            r@ == self.spec_parameter_types(),
    {
        self.parameter_types.as_slice()
    }

    /// The return type.
    pub fn return_type(&self) -> (r: Option<&str>)
        ensures
            opt_str(r) == self.spec_return_type(),
    {
        match &self.return_type {
            Some(s) => Some(s.as_str()),
            None => None,
        }
    }
}

} // verus!
