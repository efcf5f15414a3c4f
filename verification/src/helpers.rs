//! Shared helpers over [`Node`] and [`NodeKind`], and the traits that the
//! high-level symbol types have in common.

use vstd::prelude::*;

use crate::raw::{
    datas, descendants, height, lemma_child_height, lemma_children_are_descendants, opt_data,
    opt_str, Node, NodeData, NodeKind,
};
use crate::search::{
    filter_map, first_hit, flatten, lemma_filter_map_step, lemma_first_hit_at,
    lemma_first_hit_none, lemma_take_all,
};
use crate::types::{
    opt_sig_data, reqs_match, FunctionType, GenericRequirement, GenericSignature, TypeRef,
};

verus! {

/// Whether a kind is one of the function type kinds.
pub open spec fn is_function_type_kind(k: NodeKind) -> bool {
    matches!(
        k,
        NodeKind::FunctionType | NodeKind::NoEscapeFunctionType | NodeKind::CFunctionPointer
            | NodeKind::ThinFunctionType | NodeKind::ImplFunctionType
            | NodeKind::UncurriedFunctionType
    )
}

/// Whether a kind is a type context (class, struct, enum, protocol, extension).
pub open spec fn is_type_context_kind(k: NodeKind) -> bool {
    matches!(
        k,
        NodeKind::Class | NodeKind::Structure | NodeKind::Enum | NodeKind::Protocol
            | NodeKind::Extension
    )
}

/// Whether a kind is a nominal type kind (class, struct, enum, protocol).
pub open spec fn is_nominal_kind(k: NodeKind) -> bool {
    matches!(k, NodeKind::Class | NodeKind::Structure | NodeKind::Enum | NodeKind::Protocol)
}

impl NodeKind {
    /// Check if this kind represents a function type.
    pub fn is_function_type(&self) -> (b: bool)
        ensures
            b == is_function_type_kind(*self),
    {
        matches!(
            self,
            NodeKind::FunctionType | NodeKind::NoEscapeFunctionType | NodeKind::CFunctionPointer
                | NodeKind::ThinFunctionType | NodeKind::ImplFunctionType
                | NodeKind::UncurriedFunctionType
        )
    }

    /// Check if this kind represents a type context (class, struct, enum, protocol, extension).
    pub fn is_type_context(&self) -> (b: bool)
        ensures
            b == is_type_context_kind(*self),
    {
        matches!(
            self,
            NodeKind::Class | NodeKind::Structure | NodeKind::Enum | NodeKind::Protocol
                | NodeKind::Extension
        )
    }

    /// Check if this kind is a nominal type (class, struct, enum, protocol).
    pub fn is_nominal(&self) -> (b: bool)
        ensures
            b == is_nominal_kind(*self),
    {
        matches!(self, NodeKind::Class | NodeKind::Structure | NodeKind::Enum | NodeKind::Protocol)
    }
}

/// Selects nodes of kind `k`.
pub open spec fn kind_is(k: NodeKind) -> spec_fn(NodeData) -> Option<NodeData> {
    |c: NodeData| if c.kind == k { Some(c) } else { None }
}

/// Selects nodes of kind `k1` or `k2`.
pub open spec fn kind_either(k1: NodeKind, k2: NodeKind) -> spec_fn(NodeData) -> Option<NodeData> {
    |c: NodeData| if c.kind == k1 || c.kind == k2 { Some(c) } else { None }
}

/// The first child of `d` of kind `k`.
pub open spec fn spec_child_of_kind(d: NodeData, k: NodeKind) -> Option<NodeData> {
    first_hit(d.children@, kind_is(k))
}

/// The first descendant of `d` of kind `k`, in enumeration order.
pub open spec fn spec_descendant_of_kind(d: NodeData, k: NodeKind) -> Option<NodeData> {
    first_hit(descendants(d), kind_is(k))
}

/// The text of an optional node.
pub open spec fn text_of(o: Option<NodeData>) -> Option<Seq<char>> {
    match o {
        Some(n) => n.spec_text(),
        None => None,
    }
}

/// The first child of `d`, if any.
pub open spec fn first_child(d: NodeData) -> Option<NodeData> {
    if d.children@.len() > 0 {
        Some(d.children@[0])
    } else {
        None
    }
}

/// The first child of `d`, or `d` itself when it has none.
pub open spec fn first_child_or_self(d: NodeData) -> NodeData {
    if d.children@.len() > 0 {
        d.children@[0]
    } else {
        d
    }
}

/// The first child of `d` when `d` has kind `k`.
pub open spec fn spec_unwrap_if_kind(d: NodeData, k: NodeKind) -> Option<NodeData> {
    if d.kind == k {
        first_child(d)
    } else {
        None
    }
}

/// The inner type of the first `Type` child of `d` (or that child when it has none).
pub open spec fn spec_extract_type_ref(d: NodeData) -> Option<NodeData> {
    match spec_child_of_kind(d, NodeKind::Type) {
        Some(t) => Some(first_child_or_self(t)),
        None => None,
    }
}

/// Whether some child of `d` is a type context.
pub open spec fn spec_has_type_context(d: NodeData) -> bool {
    exists|i: int| 0 <= i < d.children@.len() && is_type_context_kind(#[trigger] d.children@[i].kind)
}

/// Whether a kind may hold the module of a symbol in [`Node::find_module`].
pub open spec fn is_module_holder_kind(k: NodeKind) -> bool {
    matches!(
        k,
        NodeKind::Class | NodeKind::Structure | NodeKind::Enum | NodeKind::Protocol
            | NodeKind::Extension | NodeKind::TypeAlias
    )
}

/// For a type-context child: the text of the first module among its descendants.
pub open spec fn module_in_holder_hit() -> spec_fn(NodeData) -> Option<Option<Seq<char>>> {
    |c: NodeData|
        if is_module_holder_kind(c.kind) {
            match spec_descendant_of_kind(c, NodeKind::Module) {
                Some(m) => Some(m.spec_text()),
                None => None,
            }
        } else {
            None
        }
}

/// The module of a symbol node: the text of its first `Module` child, or else
/// of the first `Module` descendant of its first type-context child that has one.
pub open spec fn spec_find_module(d: NodeData) -> Option<Seq<char>> {
    match spec_child_of_kind(d, NodeKind::Module) {
        Some(m) => m.spec_text(),
        None => flatten(first_hit(d.children@, module_in_holder_hit())),
    }
}

/// The text of the first `Module` descendant.
pub open spec fn spec_find_module_in_descendants(d: NodeData) -> Option<Seq<char>> {
    text_of(spec_descendant_of_kind(d, NodeKind::Module))
}

/// The symbol's own generic signature: `Type -> DependentGenericType -> DependentGenericSignature`.
pub open spec fn own_signature_hit() -> spec_fn(NodeData) -> Option<NodeData> {
    |c: NodeData|
        match spec_unwrap_if_kind(c, NodeKind::Type) {
            Some(inner) => if inner.kind == NodeKind::DependentGenericType {
                spec_child_of_kind(inner, NodeKind::DependentGenericSignature)
            } else {
                None
            },
            None => None,
        }
}

/// The generic signature node of a symbol: its own, or else that of its
/// first `Extension` child.
pub open spec fn spec_find_generic_signature(d: NodeData) -> Option<NodeData> {
    match first_hit(d.children@, own_signature_hit()) {
        Some(sig) => Some(sig),
        None => match spec_child_of_kind(d, NodeKind::Extension) {
            Some(ext) => spec_child_of_kind(ext, NodeKind::DependentGenericSignature),
            None => None,
        },
    }
}

/// A function type wrapped in a `Type` node.
pub open spec fn wrapped_function_type_hit() -> spec_fn(NodeData) -> Option<NodeData> {
    |c: NodeData|
        match spec_unwrap_if_kind(c, NodeKind::Type) {
            Some(f) => if is_function_type_kind(f.kind) { Some(f) } else { None },
            None => None,
        }
}

/// A function type directly under `Type`, or under `Type -> DependentGenericType -> Type`.
pub open spec fn function_type_hit() -> spec_fn(NodeData) -> Option<NodeData> {
    |c: NodeData|
        match spec_unwrap_if_kind(c, NodeKind::Type) {
            Some(inner) => if is_function_type_kind(inner.kind) {
                Some(inner)
            } else if inner.kind == NodeKind::DependentGenericType {
                first_hit(inner.children@, wrapped_function_type_hit())
            } else {
                None
            },
            None => None,
        }
}

/// The function type node of a symbol.
pub open spec fn spec_find_function_type(d: NodeData) -> Option<NodeData> {
    first_hit(d.children@, function_type_hit())
}

/// The label of one entry of a `LabelList`: `None` for `_`.
pub open spec fn label_of(n: NodeData) -> Option<Seq<char>> {
    if n.kind == NodeKind::FirstElementMarker {
        None
    } else {
        n.spec_text()
    }
}

/// The argument labels of a symbol, read from its first `LabelList` child.
pub open spec fn spec_extract_labels(d: NodeData) -> Seq<Option<Seq<char>>> {
    match spec_child_of_kind(d, NodeKind::LabelList) {
        Some(l) => l.children@.map_values(|n: NodeData| label_of(n)),
        None => Seq::empty(),
    }
}

/// A symbol has one argument label for each entry of its label list: an
/// unnamed entry (`_`) has no label, and any other entry the entry's text.
pub proof fn lemma_extract_labels(d: NodeData, l: NodeData)
    requires
        spec_child_of_kind(d, NodeKind::LabelList) == Some(l),
    ensures
        spec_extract_labels(d).len() == l.children@.len(),
        forall|i: int|
            0 <= i < l.children@.len() ==> (#[trigger] spec_extract_labels(d)[i] == if l.children@[i].kind
                == NodeKind::FirstElementMarker {
                None
            } else {
                l.children@[i].spec_text()
            }),
{
}

/// The label views of a vector of optional labels.
pub open spec fn opt_strs(s: Seq<Option<&str>>) -> Seq<Option<Seq<char>>> {
    s.map_values(|o: Option<&str>| opt_str(o))
}

/// The text of the first `Identifier` child.
pub open spec fn spec_find_identifier(d: NodeData) -> Option<Seq<char>> {
    text_of(spec_child_of_kind(d, NodeKind::Identifier))
}

/// An identifier child, or an identifier inside a `LocalDeclName` or `PrivateDeclName` child.
pub open spec fn identifier_extended_hit() -> spec_fn(NodeData) -> Option<Option<Seq<char>>> {
    |c: NodeData|
        if c.kind == NodeKind::Identifier {
            Some(c.spec_text())
        } else if c.kind == NodeKind::LocalDeclName || c.kind == NodeKind::PrivateDeclName {
            match spec_child_of_kind(c, NodeKind::Identifier) {
                Some(i) => Some(i.spec_text()),
                None => None,
            }
        } else {
            None
        }
}

/// The name of a symbol node: its own text when it is an identifier, otherwise
/// the first identifier among its children (looking inside local and private
/// declaration names).
pub open spec fn spec_find_identifier_extended(d: NodeData) -> Option<Seq<char>> {
    if d.kind == NodeKind::Identifier {
        d.spec_text()
    } else {
        flatten(first_hit(d.children@, identifier_extended_hit()))
    }
}

/// The identifier of a nominal type node.
pub open spec fn nominal_identifier_hit() -> spec_fn(NodeData) -> Option<Option<Seq<char>>> {
    |c: NodeData|
        if is_nominal_kind(c.kind) {
            match spec_child_of_kind(c, NodeKind::Identifier) {
                Some(i) => Some(i.spec_text()),
                None => None,
            }
        } else {
            None
        }
}

/// The name of the containing type, looking through an extension.
pub open spec fn containing_type_hit() -> spec_fn(NodeData) -> Option<Option<Seq<char>>> {
    |c: NodeData|
        if is_nominal_kind(c.kind) {
            match spec_child_of_kind(c, NodeKind::Identifier) {
                Some(i) => Some(i.spec_text()),
                None => None,
            }
        } else if c.kind == NodeKind::Extension {
            first_hit(c.children@, nominal_identifier_hit())
        } else {
            None
        }
}

/// The containing type name of a symbol node.
pub open spec fn spec_find_containing_type(d: NodeData) -> Option<Seq<char>> {
    flatten(first_hit(d.children@, containing_type_hit()))
}

/// Whether a nominal kind is `k`; undefined for other kinds.
pub open spec fn nominal_is(k: NodeKind) -> spec_fn(NodeData) -> Option<bool> {
    |c: NodeData| if is_nominal_kind(c.kind) { Some(c.kind == k) } else { None }
}

/// Whether the first nominal type found (looking through an extension) has kind `k`.
pub open spec fn containing_kind_hit(k: NodeKind) -> spec_fn(NodeData) -> Option<bool> {
    |c: NodeData|
        if is_nominal_kind(c.kind) {
            Some(c.kind == k)
        } else if c.kind == NodeKind::Extension {
            first_hit(c.children@, nominal_is(k))
        } else {
            None
        }
}

/// Whether the containing type of a symbol node has kind `k`.
pub open spec fn spec_containing_type_is(d: NodeData, k: NodeKind) -> bool {
    match first_hit(d.children@, containing_kind_hit(k)) {
        Some(b) => b,
        None => false,
    }
}

/// Selects nominal type nodes (struct, class, enum, protocol).
pub open spec fn nominal_child_hit() -> spec_fn(NodeData) -> Option<NodeData> {
    |c: NodeData| if is_nominal_kind(c.kind) { Some(c) } else { None }
}

/// The node found by a kind search is an element of the searched sequence.
pub proof fn lemma_first_hit_kind_mem(s: Seq<NodeData>, k: NodeKind)
    ensures
        first_hit(s, kind_is(k)) matches Some(c) ==> exists|j: int| 0 <= j < s.len() && s[j] == c,
    decreases s.len(),
{
    if s.len() > 0 && s[0].kind != k {
        let t = s.drop_first();
        lemma_first_hit_kind_mem(t, k);
        if let Some(c) = first_hit(t, kind_is(k)) {
            let j = choose|j: int| 0 <= j < t.len() && t[j] == c;
            assert(s[j + 1] == c);
        }
    }
}

/// A child found by kind is lower than its parent.
pub proof fn lemma_child_of_kind_height(d: NodeData, k: NodeKind)
    ensures
        spec_child_of_kind(d, k) matches Some(c) ==> height(c) < height(d),
{
    lemma_first_hit_kind_mem(d.children@, k);
    if let Some(c) = spec_child_of_kind(d, k) {
        let j = choose|j: int| 0 <= j < d.children@.len() && d.children@[j] == c;
        lemma_child_height(d, j);
    }
}

/// A node with a child of some kind has a descendant of that kind.
pub proof fn lemma_child_kind_is_descendant_kind(d: NodeData, k: NodeKind)
    ensures
        spec_child_of_kind(d, k) is Some ==> spec_descendant_of_kind(d, k) is Some,
{
    lemma_first_hit_kind_mem(d.children@, k);
    if let Some(c) = spec_child_of_kind(d, k) {
        let j = choose|j: int| 0 <= j < d.children@.len() && d.children@[j] == c;
        lemma_first_hit_kind_found(d.children@, k);
        lemma_children_are_descendants(d, j);
        let m = choose|m: int| 0 <= m < descendants(d).len() && descendants(d)[m] == d.children@[j];
        crate::search::lemma_first_hit_some(descendants(d), kind_is(k), m);
    }
}

/// The node found by a kind search has that kind.
pub proof fn lemma_first_hit_kind_found(s: Seq<NodeData>, k: NodeKind)
    ensures
        first_hit(s, kind_is(k)) matches Some(c) ==> c.kind == k,
    decreases s.len(),
{
    if s.len() > 0 && s[0].kind != k {
        lemma_first_hit_kind_found(s.drop_first(), k);
    }
}

/// A symbol that is not defined in an extension has neither an extension
/// module nor an extension generic signature.
pub proof fn lemma_no_extension(d: NodeData)
    requires
        spec_child_of_kind(d, NodeKind::Extension) is None,
    ensures
        spec_extension_module_of(d) is None,
        spec_extension_signature_of(d) is None,
{
    let s = d.children@;
    assert forall|j: int| 0 <= j < s.len() implies s[j].kind != NodeKind::Extension by {
        if s[j].kind == NodeKind::Extension {
            crate::search::lemma_first_hit_some(s, kind_is(NodeKind::Extension), j);
        }
    }
    assert forall|j: int| 0 <= j < s.len() implies (#[trigger] (extension_module_hit())(s[j])) is None by {
        assert(s[j].kind != NodeKind::Extension);
    }
    assert forall|j: int| 0 <= j < s.len() implies (#[trigger] (extension_signature_hit())(s[j])) is None by {
        assert(s[j].kind != NodeKind::Extension);
    }
    lemma_first_hit_none(s, extension_module_hit());
    lemma_first_hit_none(s, extension_signature_hit());
}

/// Find the first node of kind `kind` in `nodes`.
fn find_kind_in<'ctx>(nodes: &Vec<Node<'ctx>>, kind: NodeKind) -> (r: Option<Node<'ctx>>)
    ensures
        opt_data(r) == first_hit(datas(nodes@), kind_is(kind)),
{
    let mut i: usize = 0;
    while i < nodes.len()
        invariant
            i <= nodes@.len(),
            forall|j: int| 0 <= j < i ==> (#[trigger] (kind_is(kind))(datas(nodes@)[j])) is None,
        decreases nodes@.len() - i,
    {
        let n = nodes[i];
        if n.kind() == kind {
            proof {
                lemma_first_hit_at(datas(nodes@), kind_is(kind), i as int);
            }
            return Some(n);
        }
        i = i + 1;
    }
    proof {
        lemma_first_hit_none(datas(nodes@), kind_is(kind));
    }
    None
}

/// Find the first node of kind `k1` or `k2` in `nodes`.
pub fn find_either_in<'ctx>(nodes: &Vec<Node<'ctx>>, k1: NodeKind, k2: NodeKind) -> (r: Option<Node<'ctx>>)
    ensures
        opt_data(r) == first_hit(datas(nodes@), kind_either(k1, k2)),
{
    let mut i: usize = 0;
    while i < nodes.len()
        invariant
            i <= nodes@.len(),
            forall|j: int| 0 <= j < i ==> (#[trigger] (kind_either(k1, k2))(datas(nodes@)[j])) is None,
        decreases nodes@.len() - i,
    {
        let n = nodes[i];
        let k = n.kind();
        if k == k1 || k == k2 {
            proof {
                lemma_first_hit_at(datas(nodes@), kind_either(k1, k2), i as int);
            }
            return Some(n);
        }
        i = i + 1;
    }
    proof {
        lemma_first_hit_none(datas(nodes@), kind_either(k1, k2));
    }
    None
}

/// The text of an optional node.
pub fn text_of_node<'ctx>(o: Option<Node<'ctx>>) -> (r: Option<&'ctx str>)
    ensures
        opt_str(r) == text_of(opt_data(o)),
{
    match o {
        Some(n) => n.text(),
        None => None,
    }
}

impl<'ctx> Node<'ctx> {
    /// Find the first child with the given kind.
    pub fn child_of_kind(&self, kind: NodeKind) -> (r: Option<Node<'ctx>>)
        ensures
            opt_data(r) == spec_child_of_kind(self.data(), kind),
    {
        let cs = self.children();
        find_kind_in(&cs, kind)
    }

    /// Find the first descendant with the given kind.
    pub fn descendant_of_kind(&self, kind: NodeKind) -> (r: Option<Node<'ctx>>)
        ensures
            opt_data(r) == spec_descendant_of_kind(self.data(), kind),
    {
        let ds = self.descendants();
        find_kind_in(&ds, kind)
    }

    /// The first child that is a nominal type (struct, class, enum, protocol).
    pub fn first_nominal_child(&self) -> (r: Option<Node<'ctx>>)
        ensures
            opt_data(r) == first_hit(self.data().children@, nominal_child_hit()),
    {
        let cs = self.children();
        let ghost s = self.data().children@;
        let mut i: usize = 0;
        while i < cs.len()
            invariant
                i <= cs@.len(),
                datas(cs@) == s,
                forall|j: int| 0 <= j < i ==> (#[trigger] (nominal_child_hit())(s[j])) is None,
            decreases cs@.len() - i,
        {
            proof { assert(s[i as int] == cs@[i as int].data()); }
            if cs[i].kind().is_nominal() {
                proof {
                    lemma_first_hit_at(s, nominal_child_hit(), i as int);
                    assert(s[i as int] == cs@[i as int].data());
                }
                return Some(cs[i]);
            }
            i = i + 1;
        }
        proof {
            lemma_first_hit_none(s, nominal_child_hit());
        }
        None
    }

    /// All children of the given kind, in order.
    pub fn children_of_kind(&self, kind: NodeKind) -> (r: Vec<Node<'ctx>>)
        ensures
            datas(r@) == filter_map(self.data().children@, kind_is(kind)),
    {
        let cs = self.children();
        let ghost s = self.data().children@;
        let mut out: Vec<Node<'ctx>> = Vec::new();
        let mut i: usize = 0;
        while i < cs.len()
            invariant
                i <= cs@.len(),
                datas(cs@) == s,
                datas(out@) == filter_map(s.take(i as int), kind_is(kind)),
            decreases cs@.len() - i,
        {
            proof { assert(s[i as int] == cs@[i as int].data()); }
            proof {
                lemma_filter_map_step(s, kind_is(kind), i as int);
            }
            let c = cs[i];
            if c.kind() == kind {
                let ghost before = out@;
                out.push(c);
                proof {
                    assert(datas(out@) =~= datas(before).push(c.data()));
                }
            }
            i = i + 1;
        }
        proof {
            lemma_take_all(s);
        }
        out
    }

    /// If this node's kind matches, return its first child.
    pub fn unwrap_if_kind(&self, kind: NodeKind) -> (r: Option<Node<'ctx>>)
        ensures
            opt_data(r) == spec_unwrap_if_kind(self.data(), kind),
    {
        if self.kind() == kind {
            self.child(0)
        } else {
            None
        }
    }

    /// The first child, or this node when it has none.
    pub fn first_child_or_self(&self) -> (r: Node<'ctx>)
        ensures
            r.data() == first_child_or_self(self.data()),
    {
        match self.child(0) {
            Some(c) => c,
            None => *self,
        }
    }

    /// Find the module name from this node's children and descendants.
    ///
    /// Searches for a `Module` node in the following order:
    /// 1. Direct `Module` child
    /// 2. `Module` inside type context children (class, struct, enum, protocol, extension, type alias)
    pub fn find_module(&self) -> (r: Option<&'ctx str>)
        ensures
            opt_str(r) == spec_find_module(self.data()),
    {
        if let Some(m) = self.child_of_kind(NodeKind::Module) {
            return m.text();
        }
        let cs = self.children();
        let ghost s = self.data().children@;
        let mut i: usize = 0;
        while i < cs.len()
            invariant
                i <= cs@.len(),
                datas(cs@) == s,
                forall|j: int| 0 <= j < i ==> (#[trigger] (module_in_holder_hit())(s[j])) is None,
            decreases cs@.len() - i,
        {
            proof { assert(s[i as int] == cs@[i as int].data()); }
            let c = cs[i];
            let k = c.kind();
            if matches!(
                k,
                NodeKind::Class | NodeKind::Structure | NodeKind::Enum | NodeKind::Protocol
                    | NodeKind::Extension | NodeKind::TypeAlias
            ) {
                if let Some(m) = c.descendant_of_kind(NodeKind::Module) {
                    proof {
                        lemma_first_hit_at(s, module_in_holder_hit(), i as int);
                    }
                    return m.text();
                }
            }
            i = i + 1;
        }
        proof {
            lemma_first_hit_none(s, module_in_holder_hit());
        }
        None
    }

    /// Find module by searching all descendants.
    pub fn find_module_in_descendants(&self) -> (r: Option<&'ctx str>)
        ensures
            opt_str(r) == spec_find_module_in_descendants(self.data()),
    {
        text_of_node(self.descendant_of_kind(NodeKind::Module))
    }

    /// Find the generic signature from this node's children.
    ///
    /// Searches for `DependentGenericSignature` in:
    /// 1. `Type` -> `DependentGenericType` -> `DependentGenericSignature`
    /// 2. `Extension` -> `DependentGenericSignature` (for constrained extensions)
    pub fn find_generic_signature(&self) -> (r: Option<GenericSignature<'ctx>>)
        ensures
            opt_sig_data(r) == spec_find_generic_signature(self.data()),
    {
        let cs = self.children();
        let ghost s = self.data().children@;
        let mut i: usize = 0;
        while i < cs.len()
            invariant
                i <= cs@.len(),
                datas(cs@) == s,
                forall|j: int| 0 <= j < i ==> (#[trigger] (own_signature_hit())(s[j])) is None,
            decreases cs@.len() - i,
        {
            proof { assert(s[i as int] == cs@[i as int].data()); }
            let c = cs[i];
            if let Some(inner) = c.unwrap_if_kind(NodeKind::Type) {
                if inner.kind() == NodeKind::DependentGenericType {
                    if let Some(sig) = inner.child_of_kind(NodeKind::DependentGenericSignature) {
                        proof {
                            lemma_first_hit_at(s, own_signature_hit(), i as int);
                        }
                        return Some(GenericSignature::new(sig));
                    }
                }
            }
            i = i + 1;
        }
        proof {
            lemma_first_hit_none(s, own_signature_hit());
        }
        if let Some(ext) = self.child_of_kind(NodeKind::Extension) {
            if let Some(sig) = ext.child_of_kind(NodeKind::DependentGenericSignature) {
                return Some(GenericSignature::new(sig));
            }
        }
        None
    }

    /// Find a function type from this node's children.
    ///
    /// Searches for function types in:
    /// 1. `Type` -> function type (direct)
    /// 2. `Type` -> `DependentGenericType` -> `Type` -> function type (generic functions)
    pub fn find_function_type(&self) -> (r: Option<FunctionType<'ctx>>)
        ensures
            match r {
                Some(f) => spec_find_function_type(self.data()) == Some(f.spec_raw().data()),
                None => spec_find_function_type(self.data()) is None,
            },
    {
        let cs = self.children();
        let ghost s = self.data().children@;
        let mut i: usize = 0;
        while i < cs.len()
            invariant
                i <= cs@.len(),
                datas(cs@) == s,
                forall|j: int| 0 <= j < i ==> (#[trigger] (function_type_hit())(s[j])) is None,
            decreases cs@.len() - i,
        {
            proof { assert(s[i as int] == cs@[i as int].data()); }
            let c = cs[i];
            if let Some(inner) = c.unwrap_if_kind(NodeKind::Type) {
                if inner.kind().is_function_type() {
                    proof {
                        lemma_first_hit_at(s, function_type_hit(), i as int);
                    }
                    return Some(FunctionType::new(inner));
                }
                if inner.kind() == NodeKind::DependentGenericType {
                    let ics = inner.children();
                    let ghost t = inner.data().children@;
                    let mut k: usize = 0;
                    while k < ics.len()
                        invariant
                            k <= ics@.len(),
                            datas(ics@) == t,
                            forall|j: int| 0 <= j < k ==> (#[trigger] (wrapped_function_type_hit())(t[j])) is None,
                        decreases ics@.len() - k,
                    {
                        proof { assert(t[k as int] == ics@[k as int].data()); }
                        if let Some(ft) = ics[k].unwrap_if_kind(NodeKind::Type) {
                            if ft.kind().is_function_type() {
                                proof {
                                    lemma_first_hit_at(t, wrapped_function_type_hit(), k as int);
                                    lemma_first_hit_at(s, function_type_hit(), i as int);
                                }
                                return Some(FunctionType::new(ft));
                            }
                        }
                        k = k + 1;
                    }
                    proof {
                        lemma_first_hit_none(t, wrapped_function_type_hit());
                    }
                }
            }
            i = i + 1;
        }
        proof {
            lemma_first_hit_none(s, function_type_hit());
        }
        None
    }

    /// Extract argument labels from this node's `LabelList` child.
    ///
    /// Returns a vector where each element is `Some(label)` for labeled parameters
    /// and `None` for unlabeled parameters (using `_`).
    pub fn extract_labels(&self) -> (r: Vec<Option<&'ctx str>>)
        ensures
            opt_strs(r@) == spec_extract_labels(self.data()),
    {
        let mut out: Vec<Option<&'ctx str>> = Vec::new();
        if let Some(list) = self.child_of_kind(NodeKind::LabelList) {
            let cs = list.children();
            let ghost s = list.data().children@;
            let mut i: usize = 0;
            while i < cs.len()
                invariant
                    i <= cs@.len(),
                    datas(cs@) == s,
                    opt_strs(out@) =~= s.take(i as int).map_values(|n: NodeData| label_of(n)),
                decreases cs@.len() - i,
            {
                proof { assert(s[i as int] == cs@[i as int].data()); }
                let c = cs[i];
                let label = if c.kind() == NodeKind::FirstElementMarker {
                    None
                } else {
                    c.text()
                };
                let ghost before = out@;
                out.push(label);
                proof {
                    assert(opt_str(label) == label_of(s[i as int]));
                    assert(opt_strs(out@) =~= opt_strs(before).push(opt_str(label)));
                    assert(s.take(i + 1) =~= s.take(i as int).push(s[i as int]));
                }
                i = i + 1;
            }
            proof {
                assert(s.take(s.len() as int) =~= s);
            }
        }
        out
    }

    /// Find the first `Identifier` child and return its text.
    pub fn find_identifier(&self) -> (r: Option<&'ctx str>)
        ensures
            opt_str(r) == spec_find_identifier(self.data()),
    {
        text_of_node(self.child_of_kind(NodeKind::Identifier))
    }

    /// Find identifier, also checking `LocalDeclName` and `PrivateDeclName` wrappers.
    pub fn find_identifier_extended(&self) -> (r: Option<&'ctx str>)
        ensures
            opt_str(r) == spec_find_identifier_extended(self.data()),
    {
        if self.kind() == NodeKind::Identifier {
            return self.text();
        }
        let cs = self.children();
        let ghost s = self.data().children@;
        let mut i: usize = 0;
        while i < cs.len()
            invariant
                i <= cs@.len(),
                datas(cs@) == s,
                forall|j: int| 0 <= j < i ==> (#[trigger] (identifier_extended_hit())(s[j])) is None,
            decreases cs@.len() - i,
        {
            proof { assert(s[i as int] == cs@[i as int].data()); }
            let c = cs[i];
            let k = c.kind();
            if k == NodeKind::Identifier {
                proof {
                    lemma_first_hit_at(s, identifier_extended_hit(), i as int);
                }
                return c.text();
            }
            if k == NodeKind::LocalDeclName || k == NodeKind::PrivateDeclName {
                if let Some(id) = c.child_of_kind(NodeKind::Identifier) {
                    proof {
                        lemma_first_hit_at(s, identifier_extended_hit(), i as int);
                    }
                    return id.text();
                }
            }
            i = i + 1;
        }
        proof {
            lemma_first_hit_none(s, identifier_extended_hit());
        }
        None
    }

    /// Find the containing type name from this node's children, looking
    /// inside an extension for the extended type.
    pub fn find_containing_type(&self) -> (r: Option<&'ctx str>)
        ensures
            opt_str(r) == spec_find_containing_type(self.data()),
    {
        let cs = self.children();
        let ghost s = self.data().children@;
        let mut i: usize = 0;
        while i < cs.len()
            invariant
                i <= cs@.len(),
                datas(cs@) == s,
                forall|j: int| 0 <= j < i ==> (#[trigger] (containing_type_hit())(s[j])) is None,
            decreases cs@.len() - i,
        {
            proof { assert(s[i as int] == cs@[i as int].data()); }
            let c = cs[i];
            let k = c.kind();
            if k.is_nominal() {
                if let Some(id) = c.child_of_kind(NodeKind::Identifier) {
                    proof {
                        lemma_first_hit_at(s, containing_type_hit(), i as int);
                    }
                    return id.text();
                }
            } else if k == NodeKind::Extension {
                let ics = c.children();
                let ghost t = c.data().children@;
                let mut m: usize = 0;
                while m < ics.len()
                    invariant
                        m <= ics@.len(),
                        datas(ics@) == t,
                        forall|j: int| 0 <= j < m ==> (#[trigger] (nominal_identifier_hit())(t[j])) is None,
                    decreases ics@.len() - m,
                {
                    proof { assert(t[m as int] == ics@[m as int].data()); }
                    let inner = ics[m];
                    if inner.kind().is_nominal() {
                        if let Some(id) = inner.child_of_kind(NodeKind::Identifier) {
                            proof {
                                lemma_first_hit_at(t, nominal_identifier_hit(), m as int);
                                lemma_first_hit_at(s, containing_type_hit(), i as int);
                            }
                            return id.text();
                        }
                    }
                    m = m + 1;
                }
                proof {
                    lemma_first_hit_none(t, nominal_identifier_hit());
                }
            }
            i = i + 1;
        }
        proof {
            lemma_first_hit_none(s, containing_type_hit());
        }
        None
    }

    /// Whether the first nominal type among the children (looking through an
    /// extension) has kind `kind`.
    fn containing_type_is(&self, kind: NodeKind) -> (b: bool)
        ensures
            b == spec_containing_type_is(self.data(), kind),
    {
        let cs = self.children();
        let ghost s = self.data().children@;
        let mut i: usize = 0;
        while i < cs.len()
            invariant
                i <= cs@.len(),
                datas(cs@) == s,
                forall|j: int| 0 <= j < i ==> (#[trigger] (containing_kind_hit(kind))(s[j])) is None,
            decreases cs@.len() - i,
        {
            proof { assert(s[i as int] == cs@[i as int].data()); }
            let c = cs[i];
            let k = c.kind();
            if k.is_nominal() {
                proof {
                    lemma_first_hit_at(s, containing_kind_hit(kind), i as int);
                }
                return k == kind;
            } else if k == NodeKind::Extension {
                let ics = c.children();
                let ghost t = c.data().children@;
                let mut m: usize = 0;
                while m < ics.len()
                    invariant
                        m <= ics@.len(),
                        datas(ics@) == t,
                        forall|j: int| 0 <= j < m ==> (#[trigger] (nominal_is(kind))(t[j])) is None,
                    decreases ics@.len() - m,
                {
                    proof { assert(t[m as int] == ics@[m as int].data()); }
                    let ik = ics[m].kind();
                    if ik.is_nominal() {
                        proof {
                            lemma_first_hit_at(t, nominal_is(kind), m as int);
                            lemma_first_hit_at(s, containing_kind_hit(kind), i as int);
                        }
                        return ik == kind;
                    }
                    m = m + 1;
                }
                proof {
                    lemma_first_hit_none(t, nominal_is(kind));
                }
            }
            i = i + 1;
        }
        proof {
            lemma_first_hit_none(s, containing_kind_hit(kind));
        }
        false
    }

    /// Check if the containing type is a class (reference type).
    pub fn containing_type_is_class(&self) -> (b: bool)
        ensures
            b == spec_containing_type_is(self.data(), NodeKind::Class),
    {
        self.containing_type_is(NodeKind::Class)
    }

    /// Check if the containing type is a protocol.
    pub fn containing_type_is_protocol(&self) -> (b: bool)
        ensures
            b == spec_containing_type_is(self.data(), NodeKind::Protocol),
    {
        self.containing_type_is(NodeKind::Protocol)
    }

    /// Check if this node has a type context child.
    pub fn has_type_context(&self) -> (b: bool)
        ensures
            b == spec_has_type_context(self.data()),
    {
        let cs = self.children();
        let ghost s = self.data().children@;
        let mut i: usize = 0;
        while i < cs.len()
            invariant
                i <= cs@.len(),
                datas(cs@) == s,
                forall|j: int| 0 <= j < i ==> !is_type_context_kind(#[trigger] s[j].kind),
            decreases cs@.len() - i,
        {
            proof { assert(s[i as int] == cs@[i as int].data()); }
            if cs[i].kind().is_type_context() {
                return true;
            }
            i = i + 1;
        }
        false
    }

    /// Find a `Type` child and extract its inner type as a [`TypeRef`].
    pub fn extract_type_ref(&self) -> (r: Option<TypeRef<'ctx>>)
        ensures
            match r {
                Some(t) => spec_extract_type_ref(self.data()) == Some(t.spec_raw().data()),
                None => spec_extract_type_ref(self.data()) is None,
            },
    {
        match self.child_of_kind(NodeKind::Type) {
            Some(t) => Some(TypeRef::new(t.first_child_or_self())),
            None => None,
        }
    }
}


/// The function type node of an optional function type.
pub open spec fn opt_fn_data<'ctx>(o: Option<FunctionType<'ctx>>) -> Option<NodeData> {
    match o {
        Some(f) => Some(f.spec_raw().data()),
        None => None,
    }
}

/// Whether a function type node is async.
pub open spec fn spec_fn_is_async(f: NodeData) -> bool {
    spec_descendant_of_kind(f, NodeKind::AsyncAnnotation) is Some
}

/// Whether a function type node throws.
pub open spec fn spec_fn_is_throwing(f: NodeData) -> bool {
    first_hit(descendants(f), kind_either(NodeKind::ThrowsAnnotation, NodeKind::TypedThrowsAnnotation)) is Some
}

/// The requirements of an optional signature node.
pub open spec fn reqs_of_opt<'ctx>(rs: Seq<GenericRequirement<'ctx>>, sig: Option<NodeData>) -> bool {
    match sig {
        Some(n) => reqs_match(rs, n),
        None => rs.len() == 0,
    }
}

/// Requirements of an optional signature.
pub fn requirements_of<'ctx>(sig: Option<GenericSignature<'ctx>>) -> (r: Vec<GenericRequirement<'ctx>>)
    ensures
        reqs_of_opt(r@, opt_sig_data(sig)),
{
    match sig {
        Some(s) => s.requirements(),
        None => Vec::new(),
    }
}

/// Trait for types that may have a generic signature.
///
/// This provides a uniform interface for accessing generic constraints
/// on functions, constructors, closures, accessors, and enum cases.
pub trait HasGenericSignature<'ctx> {
    /// The node of this symbol's generic signature, if any.
    spec fn spec_generic_signature(&self) -> Option<NodeData>;

    /// Get the generic signature if this symbol has generic constraints.
    fn generic_signature(&self) -> (r: Option<GenericSignature<'ctx>>)
        ensures
            opt_sig_data(r) == self.spec_generic_signature(),
    ;

    /// Get the generic requirements (constraints) for this symbol.
    fn generic_requirements(&self) -> (r: Vec<GenericRequirement<'ctx>>)
        ensures
            reqs_of_opt(r@, self.spec_generic_signature()),
    {
        requirements_of(self.generic_signature())
    }

    /// Check if this symbol is generic.
    fn is_generic(&self) -> (b: bool)
        ensures
            b == self.spec_generic_signature() is Some,
    {
        self.generic_signature().is_some()
    }
}

/// Trait for types that have a function signature.
///
/// This provides a uniform interface for accessing function type information
/// on functions, constructors and closures.
pub trait HasFunctionSignature<'ctx> {
    /// The node of this symbol's function type, if any.
    spec fn spec_signature(&self) -> Option<NodeData>;

    /// Get the function signature (type).
    fn signature(&self) -> (r: Option<FunctionType<'ctx>>)
        ensures
            opt_fn_data(r) == self.spec_signature(),
    ;

    /// Check if this function is async.
    fn is_async(&self) -> (b: bool)
        ensures
            b == match self.spec_signature() {
                Some(f) => spec_fn_is_async(f),
                None => false,
            },
    {
        match self.signature() {
            Some(s) => s.is_async(),
            None => false,
        }
    }

    /// Check if this function throws.
    fn is_throwing(&self) -> (b: bool)
        ensures
            b == match self.spec_signature() {
                Some(f) => spec_fn_is_throwing(f),
                None => false,
            },
    {
        match self.signature() {
            Some(s) => s.is_throwing(),
            None => false,
        }
    }
}

/// Selects the module of an extension child.
pub open spec fn extension_module_hit() -> spec_fn(NodeData) -> Option<Option<Seq<char>>> {
    |c: NodeData|
        if c.kind == NodeKind::Extension {
            match spec_child_of_kind(c, NodeKind::Module) {
                Some(m) => Some(m.spec_text()),
                None => None,
            }
        } else {
            None
        }
}

/// Selects the generic signature of an extension child.
pub open spec fn extension_signature_hit() -> spec_fn(NodeData) -> Option<NodeData> {
    |c: NodeData|
        if c.kind == NodeKind::Extension {
            spec_child_of_kind(c, NodeKind::DependentGenericSignature)
        } else {
            None
        }
}

/// The module of the first extension child that names one.
pub open spec fn spec_extension_module_of(d: NodeData) -> Option<Seq<char>> {
    flatten(first_hit(d.children@, extension_module_hit()))
}

/// The generic signature of the first extension child that has one.
pub open spec fn spec_extension_signature_of(d: NodeData) -> Option<NodeData> {
    first_hit(d.children@, extension_signature_hit())
}

/// Whether some child is an extension.
pub fn is_extension_of<'ctx>(node: Node<'ctx>) -> (b: bool)
    ensures
        b == spec_child_of_kind(node.data(), NodeKind::Extension) is Some,
{
    node.child_of_kind(NodeKind::Extension).is_some()
}

/// The module of the first extension child that names one.
pub fn extension_module_of<'ctx>(node: Node<'ctx>) -> (r: Option<&'ctx str>)
    ensures
        opt_str(r) == spec_extension_module_of(node.data()),
{
    let cs = node.children();
    let ghost s = node.data().children@;
    let mut i: usize = 0;
    while i < cs.len()
        invariant
            i <= cs@.len(),
            datas(cs@) == s,
            forall|j: int| 0 <= j < i ==> (#[trigger] (extension_module_hit())(s[j])) is None,
        decreases cs@.len() - i,
    {
        proof { assert(s[i as int] == cs@[i as int].data()); }
        let c = cs[i];
        if c.kind() == NodeKind::Extension {
            if let Some(m) = c.child_of_kind(NodeKind::Module) {
                proof {
                    lemma_first_hit_at(s, extension_module_hit(), i as int);
                }
                return m.text();
            }
        }
        i = i + 1;
    }
    proof {
        lemma_first_hit_none(s, extension_module_hit());
    }
    None
}

/// The generic signature of the first extension child that has one.
pub fn extension_signature_of<'ctx>(node: Node<'ctx>) -> (r: Option<GenericSignature<'ctx>>)
    ensures
        opt_sig_data(r) == spec_extension_signature_of(node.data()),
{
    let cs = node.children();
    let ghost s = node.data().children@;
    let mut i: usize = 0;
    while i < cs.len()
        invariant
            i <= cs@.len(),
            datas(cs@) == s,
            forall|j: int| 0 <= j < i ==> (#[trigger] (extension_signature_hit())(s[j])) is None,
        decreases cs@.len() - i,
    {
        proof { assert(s[i as int] == cs@[i as int].data()); }
        let c = cs[i];
        if c.kind() == NodeKind::Extension {
            if let Some(sig) = c.child_of_kind(NodeKind::DependentGenericSignature) {
                proof {
                    lemma_first_hit_at(s, extension_signature_hit(), i as int);
                }
                return Some(GenericSignature::new(sig));
            }
        }
        i = i + 1;
    }
    proof {
        lemma_first_hit_none(s, extension_signature_hit());
    }
    None
}

/// Trait for types that can be defined in an extension.
///
/// This provides a uniform interface for accessing extension context information
/// on functions, constructors, accessors, and closures.
pub trait HasExtensionContext<'ctx> {
    /// The node of this symbol.
    spec fn spec_node(&self) -> NodeData;

    /// Whether this symbol is defined in an extension.
    spec fn spec_is_extension(&self) -> bool;

    /// The module of the extension that defines this symbol.
    spec fn spec_extension_module(&self) -> Option<Seq<char>>;

    /// The generic signature node of the extension that defines this symbol.
    spec fn spec_extension_generic_signature(&self) -> Option<NodeData>;

    /// Get the raw node for this symbol.
    fn raw(&self) -> (r: Node<'ctx>)
        ensures
            r.data() == self.spec_node(),
    ;

    /// Check if this symbol is defined in an extension.
    fn is_extension(&self) -> (b: bool)
        ensures
            b == self.spec_is_extension(),
    ;

    /// Get the module where the extension is defined, if this is an extension member.
    fn extension_module(&self) -> (r: Option<&'ctx str>)
        ensures
            opt_str(r) == self.spec_extension_module(),
    ;

    /// Get the generic signature from the extension context, if any.
    ///
    /// This is separate from [`HasGenericSignature::generic_signature`] which returns the
    /// symbol's own generic constraints. Extension constraints define
    /// when the extension applies (e.g., `extension Array where Element: Comparable`).
    fn extension_generic_signature(&self) -> (r: Option<GenericSignature<'ctx>>)
        ensures
            opt_sig_data(r) == self.spec_extension_generic_signature(),
    ;

    /// Get the generic requirements from the extension context, if any.
    fn extension_generic_requirements(&self) -> (r: Vec<GenericRequirement<'ctx>>)
        ensures
            reqs_of_opt(r@, self.spec_extension_generic_signature()),
    {
        requirements_of(self.extension_generic_signature())
    }
}

/// Trait for types that can provide their containing module.
pub trait HasModule<'ctx> {
    /// The module of this symbol.
    spec fn spec_module(&self) -> Option<Seq<char>>;

    /// Get the module name where this symbol is defined.
    fn module(&self) -> (r: Option<&'ctx str>)
        ensures
            opt_str(r) == self.spec_module(),
    ;
}

} // verus!
