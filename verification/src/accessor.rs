//! Accessor symbol representation.
//!
//! This module provides types for representing Swift property accessors
//! (getters, setters, etc.).

use vstd::prelude::*;

use crate::context::{extract_context, join_dotted, SymbolContext};
use crate::helpers::{
    is_type_context_kind, kind_is, own_signature_hit, spec_child_of_kind, spec_extract_type_ref,
    spec_find_identifier, spec_find_module_in_descendants, text_of, HasExtensionContext,
    HasGenericSignature,
};
use crate::raw::{datas, height, lemma_child_height, opt_str, Node, NodeData, NodeKind};
use crate::search::{first_hit, flatten, lemma_first_hit_at, lemma_first_hit_none};
use crate::types::{opt_sig_data, opt_type_data, GenericSignature, TypeRef};

verus! {

/// The kind of accessor.
#[derive(Debug, Clone, Copy, PartialEq, Eq, Structural)]
pub enum AccessorKind {
    /// A getter.
    Getter,
    /// A setter.
    Setter,
    /// A modify accessor (for inout access).
    Modify,
    /// A read accessor (for borrowing).
    Read,
    /// A willSet observer.
    WillSet,
    /// A didSet observer.
    DidSet,
    /// A global getter.
    GlobalGetter,
    /// materializeForSet accessor (older Swift).
    MaterializeForSet,
    /// An init accessor.
    Init,
    /// An unsafe addressor.
    UnsafeAddressor,
    /// An unsafe mutable addressor.
    UnsafeMutableAddressor,
    /// An owning addressor.
    OwningAddressor,
    /// An owning mutable addressor.
    OwningMutableAddressor,
    /// A native owning addressor.
    NativeOwningAddressor,
    /// A native owning mutable addressor.
    NativeOwningMutableAddressor,
    /// A native pinning addressor.
    NativePinningAddressor,
    /// A native pinning mutable addressor.
    NativePinningMutableAddressor,
    /// A subscript (when no explicit getter/setter node).
    Subscript,
    /// Other accessor kind.
    Other,
}

/// The human-readable name of an accessor kind.
pub open spec fn accessor_kind_name(k: AccessorKind) -> Seq<char> {
    match k {
        AccessorKind::Getter => "getter"@,
        AccessorKind::Setter => "setter"@,
        AccessorKind::Modify => "modify"@,
        AccessorKind::Read => "read"@,
        AccessorKind::WillSet => "willSet"@,
        AccessorKind::DidSet => "didSet"@,
        AccessorKind::GlobalGetter => "globalGetter"@,
        AccessorKind::MaterializeForSet => "materializeForSet"@,
        AccessorKind::Init => "init"@,
        AccessorKind::UnsafeAddressor => "unsafeAddressor"@,
        AccessorKind::UnsafeMutableAddressor => "unsafeMutableAddressor"@,
        AccessorKind::OwningAddressor => "owningAddressor"@,
        AccessorKind::OwningMutableAddressor => "owningMutableAddressor"@,
        AccessorKind::NativeOwningAddressor => "nativeOwningAddressor"@,
        AccessorKind::NativeOwningMutableAddressor => "nativeOwningMutableAddressor"@,
        AccessorKind::NativePinningAddressor => "nativePinningAddressor"@,
        AccessorKind::NativePinningMutableAddressor => "nativePinningMutableAddressor"@,
        AccessorKind::Subscript => "subscript"@,
        AccessorKind::Other => "other"@,
    }
}

impl AccessorKind {
    /// Get a human-readable name for this accessor kind.
    pub fn name(&self) -> (r: &'static str)
        ensures
            r@ == accessor_kind_name(*self),
    {
        match self {
            AccessorKind::Getter => "getter",
            AccessorKind::Setter => "setter",
            AccessorKind::Modify => "modify",
            AccessorKind::Read => "read",
            AccessorKind::WillSet => "willSet",
            AccessorKind::DidSet => "didSet",
            AccessorKind::GlobalGetter => "globalGetter",
            AccessorKind::MaterializeForSet => "materializeForSet",
            AccessorKind::Init => "init",
            AccessorKind::UnsafeAddressor => "unsafeAddressor",
            AccessorKind::UnsafeMutableAddressor => "unsafeMutableAddressor",
            AccessorKind::OwningAddressor => "owningAddressor",
            AccessorKind::OwningMutableAddressor => "owningMutableAddressor",
            AccessorKind::NativeOwningAddressor => "nativeOwningAddressor",
            AccessorKind::NativeOwningMutableAddressor => "nativeOwningMutableAddressor",
            AccessorKind::NativePinningAddressor => "nativePinningAddressor",
            AccessorKind::NativePinningMutableAddressor => "nativePinningMutableAddressor",
            AccessorKind::Subscript => "subscript",
            AccessorKind::Other => "other",
        }
    }
}

/// The accessor kind of a node kind.
pub open spec fn accessor_kind_of(k: NodeKind) -> AccessorKind {
    match k {
        NodeKind::Getter => AccessorKind::Getter,
        NodeKind::Setter => AccessorKind::Setter,
        NodeKind::ModifyAccessor | NodeKind::Modify2Accessor => AccessorKind::Modify,
        NodeKind::ReadAccessor | NodeKind::Read2Accessor => AccessorKind::Read,
        NodeKind::WillSet => AccessorKind::WillSet,
        NodeKind::DidSet => AccessorKind::DidSet,
        NodeKind::GlobalGetter => AccessorKind::GlobalGetter,
        NodeKind::MaterializeForSet => AccessorKind::MaterializeForSet,
        NodeKind::InitAccessor => AccessorKind::Init,
        NodeKind::UnsafeAddressor => AccessorKind::UnsafeAddressor,
        NodeKind::UnsafeMutableAddressor => AccessorKind::UnsafeMutableAddressor,
        NodeKind::OwningAddressor => AccessorKind::OwningAddressor,
        NodeKind::OwningMutableAddressor => AccessorKind::OwningMutableAddressor,
        NodeKind::NativeOwningAddressor => AccessorKind::NativeOwningAddressor,
        NodeKind::NativeOwningMutableAddressor => AccessorKind::NativeOwningMutableAddressor,
        NodeKind::NativePinningAddressor => AccessorKind::NativePinningAddressor,
        NodeKind::NativePinningMutableAddressor => AccessorKind::NativePinningMutableAddressor,
        NodeKind::Subscript => AccessorKind::Subscript,
        _ => AccessorKind::Other,
    }
}

/// Whether an accessor kind mutates its property.
pub open spec fn is_mutating_kind(k: AccessorKind) -> bool {
    matches!(
        k,
        AccessorKind::Setter | AccessorKind::Modify | AccessorKind::WillSet | AccessorKind::DidSet
            | AccessorKind::MaterializeForSet | AccessorKind::Init
            | AccessorKind::UnsafeMutableAddressor | AccessorKind::OwningMutableAddressor
            | AccessorKind::NativeOwningMutableAddressor
            | AccessorKind::NativePinningMutableAddressor
    )
}

/// The accessor kind names the node kind it is read from: a modify or
/// modify2 accessor node gives `Modify`, a read or read2 accessor node gives
/// `Read`, and every other accessor node its own kind; no other node gives
/// any of these kinds.
pub proof fn lemma_accessor_kinds(k: NodeKind)
    ensures
        (accessor_kind_of(k) == AccessorKind::Getter) <==> k == NodeKind::Getter,
        (accessor_kind_of(k) == AccessorKind::Setter) <==> k == NodeKind::Setter,
        (accessor_kind_of(k) == AccessorKind::Modify) <==> (k == NodeKind::ModifyAccessor || k == NodeKind::Modify2Accessor),
        (accessor_kind_of(k) == AccessorKind::Read) <==> (k == NodeKind::ReadAccessor || k == NodeKind::Read2Accessor),
        (accessor_kind_of(k) == AccessorKind::WillSet) <==> k == NodeKind::WillSet,
        (accessor_kind_of(k) == AccessorKind::DidSet) <==> k == NodeKind::DidSet,
        (accessor_kind_of(k) == AccessorKind::GlobalGetter) <==> k == NodeKind::GlobalGetter,
        (accessor_kind_of(k) == AccessorKind::MaterializeForSet) <==> k == NodeKind::MaterializeForSet,
        (accessor_kind_of(k) == AccessorKind::Init) <==> k == NodeKind::InitAccessor,
        (accessor_kind_of(k) == AccessorKind::UnsafeAddressor) <==> k == NodeKind::UnsafeAddressor,
        (accessor_kind_of(k) == AccessorKind::UnsafeMutableAddressor) <==> k == NodeKind::UnsafeMutableAddressor,
        (accessor_kind_of(k) == AccessorKind::OwningAddressor) <==> k == NodeKind::OwningAddressor,
        (accessor_kind_of(k) == AccessorKind::OwningMutableAddressor) <==> k == NodeKind::OwningMutableAddressor,
        (accessor_kind_of(k) == AccessorKind::NativeOwningAddressor) <==> k == NodeKind::NativeOwningAddressor,
        (accessor_kind_of(k) == AccessorKind::NativeOwningMutableAddressor) <==> k == NodeKind::NativeOwningMutableAddressor,
        (accessor_kind_of(k) == AccessorKind::NativePinningAddressor) <==> k == NodeKind::NativePinningAddressor,
        (accessor_kind_of(k) == AccessorKind::NativePinningMutableAddressor) <==> k == NodeKind::NativePinningMutableAddressor,
        (accessor_kind_of(k) == AccessorKind::Subscript) <==> k == NodeKind::Subscript,
{
}

/// The accessors that mutate their property are exactly those read from
/// setter, modify, observer (`willSet`, `didSet`), materializeForSet, init
/// and mutable addressor nodes; getters, read accessors, immutable addressors
/// and subscripts do not mutate.
pub proof fn lemma_accessor_mutating(k: NodeKind)
    ensures
        is_mutating_kind(accessor_kind_of(k)) <==> (k == NodeKind::Setter || k == NodeKind::ModifyAccessor || k == NodeKind::Modify2Accessor || k == NodeKind::WillSet || k == NodeKind::DidSet || k == NodeKind::MaterializeForSet || k == NodeKind::InitAccessor || k == NodeKind::UnsafeMutableAddressor || k == NodeKind::OwningMutableAddressor || k == NodeKind::NativeOwningMutableAddressor || k == NodeKind::NativePinningMutableAddressor),
{
}

/// The property name decided by one child of an accessor node.
pub open spec fn property_name_hit() -> spec_fn(NodeData) -> Option<Option<Seq<char>>> {
    |c: NodeData|
        if c.kind == NodeKind::Variable {
            match spec_child_of_kind(c, NodeKind::Identifier) {
                Some(i) => Some(i.spec_text()),
                None => None,
            }
        } else if c.kind == NodeKind::Identifier {
            Some(c.spec_text())
        } else if c.kind == NodeKind::Subscript {
            Some(Some("subscript"@))
        } else {
            None
        }
}

/// The property name of an accessor node.
pub open spec fn spec_property_name(d: NodeData) -> Option<Seq<char>> {
    flatten(first_hit(d.children@, property_name_hit()))
}

/// The property type found in a `Variable` child.
pub open spec fn variable_type_hit() -> spec_fn(NodeData) -> Option<NodeData> {
    |c: NodeData| if c.kind == NodeKind::Variable { spec_extract_type_ref(c) } else { None }
}

/// The property type of an accessor node: that of its first variable that
/// has one, or else its own.
pub open spec fn spec_property_type(d: NodeData) -> Option<NodeData> {
    match first_hit(d.children@, variable_type_hit()) {
        Some(t) => Some(t),
        None => spec_extract_type_ref(d),
    }
}

/// The module decided by a child of a `Variable` node.
pub open spec fn variable_inner_module_hit() -> spec_fn(NodeData) -> Option<Option<Seq<char>>> {
    |c: NodeData|
        if c.kind == NodeKind::Module {
            Some(c.spec_text())
        } else if is_type_context_kind(c.kind) {
            match spec_find_module_in_descendants(c) {
                Some(m) => Some(Some(m)),
                None => None,
            }
        } else {
            None
        }
}

/// The module found in the containing type of a `Variable` child.
pub open spec fn variable_module_hit() -> spec_fn(NodeData) -> Option<Option<Seq<char>>> {
    |c: NodeData|
        if c.kind == NodeKind::Variable {
            first_hit(c.children@, variable_inner_module_hit())
        } else {
            None
        }
}

/// The module inside a type-context child.
pub open spec fn context_module_hit() -> spec_fn(NodeData) -> Option<Seq<char>> {
    |c: NodeData|
        if is_type_context_kind(c.kind) {
            spec_find_module_in_descendants(c)
        } else {
            None
        }
}

/// The module of an accessor node: its `Module` child, else the module of the
/// containing type of its variable, else the module inside a type context.
pub open spec fn spec_accessor_module(d: NodeData) -> Option<Seq<char>> {
    match spec_child_of_kind(d, NodeKind::Module) {
        Some(m) => m.spec_text(),
        None => match first_hit(d.children@, variable_module_hit()) {
            Some(t) => t,
            None => first_hit(d.children@, context_module_hit()),
        },
    }
}

/// Selects type-context nodes.
pub open spec fn type_context_hit() -> spec_fn(NodeData) -> Option<NodeData> {
    |c: NodeData| if is_type_context_kind(c.kind) { Some(c) } else { None }
}

/// The containing type decided by one child of an accessor node.
pub open spec fn containing_node_hit() -> spec_fn(NodeData) -> Option<NodeData> {
    |c: NodeData|
        if c.kind == NodeKind::Variable {
            first_hit(c.children@, type_context_hit())
        } else if is_type_context_kind(c.kind) {
            Some(c)
        } else {
            None
        }
}

/// The containing type node of an accessor node.
pub open spec fn spec_containing_node(d: NodeData) -> Option<NodeData> {
    first_hit(d.children@, containing_node_hit())
}

/// Whether a node takes part in a type path.
pub open spec fn is_path_holder(c: NodeData) -> bool {
    is_type_context_kind(c.kind) || c.kind == NodeKind::TypeAlias
}

/// The names on the type path of a type node, outermost first: through an
/// extension, the path of the extended type; otherwise the paths of the
/// nested type contexts, then the node's own identifier.
pub open spec fn type_path(d: NodeData) -> Seq<Seq<char>>
    decreases d,
{
    if d.kind == NodeKind::Extension {
        extension_path(d.children@)
    } else {
        type_path_list(d.children@) + match spec_find_identifier(d) {
            Some(n) => seq![n],
            None => Seq::empty(),
        }
    }
}

/// The type paths of the path holders of `s`, concatenated in order.
pub open spec fn type_path_list(s: Seq<NodeData>) -> Seq<Seq<char>>
    decreases s,
{
    if s.len() == 0 {
        Seq::empty()
    } else {
        type_path_list(s.drop_last()) + if is_path_holder(s.last()) {
            type_path(s.last())
        } else {
            Seq::empty()
        }
    }
}

/// The type path of the first path holder of `s`.
pub open spec fn extension_path(s: Seq<NodeData>) -> Seq<Seq<char>>
    decreases s,
{
    if s.len() == 0 {
        Seq::empty()
    } else if is_path_holder(s[0]) {
        type_path(s[0])
    } else {
        extension_path(s.drop_first())
    }
}

/// The views of a sequence of string slices.
pub open spec fn str_views(s: Seq<&str>) -> Seq<Seq<char>> {
    s.map_values(|t: &str| t@)
}

/// The extension node decided by one child of an accessor node.
pub open spec fn extension_node_hit() -> spec_fn(NodeData) -> Option<NodeData> {
    |c: NodeData|
        if c.kind == NodeKind::Variable {
            first_hit(c.children@, kind_is(NodeKind::Extension))
        } else if c.kind == NodeKind::Extension {
            Some(c)
        } else {
            None
        }
}

/// The extension node of an accessor node, looking inside its variable too.
pub open spec fn spec_accessor_extension(d: NodeData) -> Option<NodeData> {
    first_hit(d.children@, extension_node_hit())
}

/// The generic signature found on a child of an accessor node, or on a child
/// of its subscript or variable.
pub open spec fn accessor_signature_hit() -> spec_fn(NodeData) -> Option<NodeData> {
    |c: NodeData|
        match (own_signature_hit())(c) {
            Some(s) => Some(s),
            None => if c.kind == NodeKind::Subscript || c.kind == NodeKind::Variable {
                first_hit(c.children@, own_signature_hit())
            } else {
                None
            },
        }
}

proof fn lemma_extension_path_at(s: Seq<NodeData>, i: int)
    requires
        0 <= i < s.len(),
        forall|j: int| 0 <= j < i ==> !is_path_holder(#[trigger] s[j]),
        is_path_holder(s[i]),
    ensures
        extension_path(s) == type_path(s[i]),
    decreases i,
{
    if i > 0 {
        let t = s.drop_first();
        assert forall|j: int| 0 <= j < i - 1 implies !is_path_holder(#[trigger] t[j]) by {
            assert(t[j] == s[j + 1]);
        }
        assert(t[i - 1] == s[i]);
        lemma_extension_path_at(t, i - 1);
    }
}

proof fn lemma_extension_path_none(s: Seq<NodeData>)
    requires
        forall|j: int| 0 <= j < s.len() ==> !is_path_holder(#[trigger] s[j]),
    ensures
        extension_path(s) == Seq::<Seq<char>>::empty(),
    decreases s.len(),
{
    if s.len() > 0 {
        let t = s.drop_first();
        assert forall|j: int| 0 <= j < t.len() implies !is_path_holder(#[trigger] t[j]) by {
            assert(t[j] == s[j + 1]);
        }
        lemma_extension_path_none(t);
    }
}

/// Append the names on the type path of `node`.
fn collect_type_path_components<'ctx>(node: Node<'ctx>, components: &mut Vec<&'ctx str>)
    ensures
        str_views(final(components)@) == str_views(old(components)@) + type_path(node.data()),
    decreases height(node.data()),
{
    let cs = node.children();
    let ghost s = node.data().children@;
    if node.kind() == NodeKind::Extension {
        let mut i: usize = 0;
        while i < cs.len()
            invariant
                i <= cs@.len(),
                datas(cs@) == s,
                forall|j: int| 0 <= j < i ==> !is_path_holder(#[trigger] s[j]),
                str_views(components@) == str_views(old(components)@),
            decreases cs@.len() - i,
        {
            proof { assert(s[i as int] == cs@[i as int].data()); }
            let c = cs[i];
            if c.kind().is_type_context() || c.kind() == NodeKind::TypeAlias {
                proof {
                    lemma_child_height(node.data(), i as int);
                    lemma_extension_path_at(s, i as int);
                }
                collect_type_path_components(c, components);
                return;
            }
            i = i + 1;
        }
        proof {
            lemma_extension_path_none(s);
            assert(str_views(components@) =~= str_views(old(components)@) + type_path(node.data()));
        }
        return;
    }
    let mut i: usize = 0;
    while i < cs.len()
        invariant
            i <= cs@.len(),
            datas(cs@) == s,
            s == node.data().children@,
            str_views(components@) == str_views(old(components)@) + type_path_list(s.take(i as int)),
        decreases cs@.len() - i,
    {
        proof {
            assert(s[i as int] == cs@[i as int].data());
            assert(s.take(i + 1).drop_last() =~= s.take(i as int));
            assert(s.take(i + 1).last() == s[i as int]);
        }
        let c = cs[i];
        if c.kind().is_type_context() || c.kind() == NodeKind::TypeAlias {
            proof {
                lemma_child_height(node.data(), i as int);
            }
            collect_type_path_components(c, components);
            proof {
                assert(str_views(components@) =~= str_views(old(components)@) + type_path_list(
                    s.take(i + 1),
                ));
            }
        } else {
            proof {
                assert(str_views(components@) =~= str_views(old(components)@) + type_path_list(
                    s.take(i + 1),
                ));
            }
        }
        i = i + 1;
    }
    proof {
        assert(s.take(s.len() as int) =~= s);
    }
    let ghost before = components@;
    match node.find_identifier() {
        Some(name) => {
            components.push(name);
            proof {
                assert(str_views(components@) =~= str_views(before).push(name@));
            }
        },
        None => {},
    }
    proof {
        assert(str_views(components@) =~= str_views(old(components)@) + type_path(node.data()));
    }
}

/// The names joined with dots.
fn join_with_dots(parts: &Vec<&str>) -> (s: String)
    ensures
        s@ == join_dotted(str_views(parts@)),
{
    let ghost names = str_views(parts@);
    let mut out = String::new();
    let mut i: usize = 0;
    while i < parts.len()
        invariant
            i <= parts@.len(),
            names == str_views(parts@),
            out@ == join_dotted(names.take(i as int)),
        decreases parts@.len() - i,
    {
        let name = parts[i];
        proof {
            assert(names.take(i + 1).drop_last() =~= names.take(i as int));
            assert(names.take(i + 1).last() == name@);
        }
        if i > 0 {
            out.append(".");
        } else {
            proof {
                assert(out@ =~= Seq::<char>::empty());
            }
        }
        out.append(name);
        proof {
            if i == 0 {
                assert(out@ =~= names.take(1)[0]);
            }
        }
        i = i + 1;
    }
    proof {
        assert(names.take(names.len() as int) =~= names);
    }
    out
}

/// A Swift property accessor symbol.
#[derive(Clone, Copy)]
pub struct Accessor<'ctx> {
    raw: Node<'ctx>,
    is_static: bool,
}

impl<'ctx> Accessor<'ctx> {
    /// The node of this accessor.
    pub closed spec fn spec_raw(self) -> Node<'ctx> {
        self.raw
    }

    /// Whether this accessor was marked static.
    pub closed spec fn spec_is_static(self) -> bool {
        self.is_static
    }

    /// Create an Accessor from a raw node.
    pub fn new(raw: Node<'ctx>) -> (r: Self)
        ensures
            r.spec_raw() == raw,
            !r.spec_is_static(),
    {
        Self { raw, is_static: false }
    }

    /// Create an Accessor from a raw node, marking it as static.
    pub fn new_static(raw: Node<'ctx>) -> (r: Self)
        ensures
            r.spec_raw() == raw,
            r.spec_is_static(),
    {
        Self { raw, is_static: true }
    }

    /// Get the underlying raw node.
    pub fn raw(&self) -> (r: Node<'ctx>)
        ensures
            r == self.spec_raw(),
    {
        self.raw
    }

    /// Get the context (location) where this accessor is defined.
    pub fn context(&self) -> (c: SymbolContext<'ctx>)
        ensures
            c.spec_raw() == self.spec_raw(),
    {
        extract_context(self.raw)
    }

    /// Get the kind of accessor.
    pub fn kind(&self) -> (k: AccessorKind)
        ensures
            k == accessor_kind_of(self.spec_raw().data().kind),
    {
        match self.raw.kind() {
            NodeKind::Getter => AccessorKind::Getter,
            NodeKind::Setter => AccessorKind::Setter,
            NodeKind::ModifyAccessor | NodeKind::Modify2Accessor => AccessorKind::Modify,
            NodeKind::ReadAccessor | NodeKind::Read2Accessor => AccessorKind::Read,
            NodeKind::WillSet => AccessorKind::WillSet,
            NodeKind::DidSet => AccessorKind::DidSet,
            NodeKind::GlobalGetter => AccessorKind::GlobalGetter,
            NodeKind::MaterializeForSet => AccessorKind::MaterializeForSet,
            NodeKind::InitAccessor => AccessorKind::Init,
            NodeKind::UnsafeAddressor => AccessorKind::UnsafeAddressor,
            NodeKind::UnsafeMutableAddressor => AccessorKind::UnsafeMutableAddressor,
            NodeKind::OwningAddressor => AccessorKind::OwningAddressor,
            NodeKind::OwningMutableAddressor => AccessorKind::OwningMutableAddressor,
            NodeKind::NativeOwningAddressor => AccessorKind::NativeOwningAddressor,
            NodeKind::NativeOwningMutableAddressor => AccessorKind::NativeOwningMutableAddressor,
            NodeKind::NativePinningAddressor => AccessorKind::NativePinningAddressor,
            NodeKind::NativePinningMutableAddressor => AccessorKind::NativePinningMutableAddressor,
            NodeKind::Subscript => AccessorKind::Subscript,
            _ => AccessorKind::Other,
        }
    }

    /// Get the property name: the identifier of its variable, its own
    /// identifier, or `subscript` for a subscript.
    pub fn property_name(&self) -> (r: Option<&'ctx str>)
        ensures
            opt_str(r) == spec_property_name(self.spec_raw().data()),
    {
        let cs = self.raw.children();
        let ghost s = self.raw.data().children@;
        let mut i: usize = 0;
        while i < cs.len()
            invariant
                i <= cs@.len(),
                datas(cs@) == s,
                forall|j: int| 0 <= j < i ==> (#[trigger] (property_name_hit())(s[j])) is None,
            decreases cs@.len() - i,
        {
            proof { assert(s[i as int] == cs@[i as int].data()); }
            let c = cs[i];
            if c.kind() == NodeKind::Variable {
                if let Some(id) = c.child_of_kind(NodeKind::Identifier) {
                    proof {
                        lemma_first_hit_at(s, property_name_hit(), i as int);
                    }
                    return id.text();
                }
            }
            if c.kind() == NodeKind::Identifier {
                proof {
                    lemma_first_hit_at(s, property_name_hit(), i as int);
                }
                return c.text();
            }
            if c.kind() == NodeKind::Subscript {
                proof {
                    lemma_first_hit_at(s, property_name_hit(), i as int);
                }
                return Some("subscript");
            }
            i = i + 1;
        }
        proof {
            lemma_first_hit_none(s, property_name_hit());
        }
        None
    }

    /// Get the property type.
    pub fn property_type(&self) -> (r: Option<TypeRef<'ctx>>)
        ensures
            opt_type_data(r) == spec_property_type(self.spec_raw().data()),
    {
        let cs = self.raw.children();
        let ghost s = self.raw.data().children@;
        let mut i: usize = 0;
        while i < cs.len()
            invariant
                i <= cs@.len(),
                datas(cs@) == s,
                forall|j: int| 0 <= j < i ==> (#[trigger] (variable_type_hit())(s[j])) is None,
            decreases cs@.len() - i,
        {
            proof { assert(s[i as int] == cs@[i as int].data()); }
            let c = cs[i];
            if c.kind() == NodeKind::Variable {
                if let Some(t) = c.extract_type_ref() {
                    proof {
                        lemma_first_hit_at(s, variable_type_hit(), i as int);
                    }
                    return Some(t);
                }
            }
            i = i + 1;
        }
        proof {
            lemma_first_hit_none(s, variable_type_hit());
        }
        self.raw.extract_type_ref()
    }

    /// Get the module containing this accessor.
    ///
    /// Inside a variable, only its containing type is searched, not the
    /// property type.
    pub fn module(&self) -> (r: Option<&'ctx str>)
        ensures
            opt_str(r) == spec_accessor_module(self.spec_raw().data()),
    {
        if let Some(m) = self.raw.child_of_kind(NodeKind::Module) {
            return m.text();
        }
        let cs = self.raw.children();
        let ghost s = self.raw.data().children@;
        let mut i: usize = 0;
        while i < cs.len()
            invariant
                i <= cs@.len(),
                datas(cs@) == s,
                forall|j: int| 0 <= j < i ==> (#[trigger] (variable_module_hit())(s[j])) is None,
            decreases cs@.len() - i,
        {
            proof { assert(s[i as int] == cs@[i as int].data()); }
            let c = cs[i];
            if c.kind() == NodeKind::Variable {
                let ics = c.children();
                let ghost t = c.data().children@;
                let mut k: usize = 0;
                while k < ics.len()
                    invariant
                        k <= ics@.len(),
                        datas(ics@) == t,
                        forall|j: int| 0 <= j < k ==> (#[trigger] (variable_inner_module_hit())(t[j])) is None,
                    decreases ics@.len() - k,
                {
                    proof { assert(t[k as int] == ics@[k as int].data()); }
                    let inner = ics[k];
                    if inner.kind() == NodeKind::Module {
                        proof {
                            lemma_first_hit_at(t, variable_inner_module_hit(), k as int);
                            lemma_first_hit_at(s, variable_module_hit(), i as int);
                        }
                        return inner.text();
                    }
                    if inner.kind().is_type_context() {
                        if let Some(m) = inner.find_module_in_descendants() {
                            proof {
                                lemma_first_hit_at(t, variable_inner_module_hit(), k as int);
                                lemma_first_hit_at(s, variable_module_hit(), i as int);
                            }
                            return Some(m);
                        }
                    }
                    k = k + 1;
                }
                proof {
                    lemma_first_hit_none(t, variable_inner_module_hit());
                }
            }
            i = i + 1;
        }
        proof {
            lemma_first_hit_none(s, variable_module_hit());
        }
        let mut i: usize = 0;
        while i < cs.len()
            invariant
                i <= cs@.len(),
                datas(cs@) == s,
                forall|j: int| 0 <= j < i ==> (#[trigger] (context_module_hit())(s[j])) is None,
            decreases cs@.len() - i,
        {
            proof { assert(s[i as int] == cs@[i as int].data()); }
            let c = cs[i];
            if c.kind().is_type_context() {
                if let Some(m) = c.find_module_in_descendants() {
                    proof {
                        lemma_first_hit_at(s, context_module_hit(), i as int);
                    }
                    return Some(m);
                }
            }
            i = i + 1;
        }
        proof {
            lemma_first_hit_none(s, context_module_hit());
        }
        None
    }

    /// Get the containing type if this is a computed property or method accessor.
    ///
    /// For nested types, returns the full dot-separated path (e.g., "ArchiveEncryptionContext.Profile").
    pub fn containing_type(&self) -> (r: Option<String>)
        ensures
            match r {
                Some(p) => spec_containing_node(self.spec_raw().data()) matches Some(n) && p@
                    == join_dotted(type_path(n)),
                None => spec_containing_node(self.spec_raw().data()) is None,
            },
    {
        match self.find_containing_type_node() {
            Some(node) => {
                let mut components: Vec<&'ctx str> = Vec::new();
                collect_type_path_components(node, &mut components);
                proof {
                    assert(str_views(components@) =~= type_path(node.data()));
                }
                Some(join_with_dots(&components))
            },
            None => None,
        }
    }

    /// Check if the containing type is a class (reference type).
    pub fn containing_type_is_class(&self) -> (b: bool)
        ensures
            b == (spec_containing_node(self.spec_raw().data()) matches Some(n) && n.kind
                == NodeKind::Class),
    {
        match self.find_containing_type_node() {
            Some(node) => node.kind() == NodeKind::Class,
            None => false,
        }
    }

    fn find_containing_type_node(&self) -> (r: Option<Node<'ctx>>)
        ensures
            match r {
                Some(n) => spec_containing_node(self.spec_raw().data()) == Some(n.data()),
                None => spec_containing_node(self.spec_raw().data()) is None,
            },
    {
        let cs = self.raw.children();
        let ghost s = self.raw.data().children@;
        let mut i: usize = 0;
        while i < cs.len()
            invariant
                i <= cs@.len(),
                datas(cs@) == s,
                forall|j: int| 0 <= j < i ==> (#[trigger] (containing_node_hit())(s[j])) is None,
            decreases cs@.len() - i,
        {
            proof { assert(s[i as int] == cs@[i as int].data()); }
            let c = cs[i];
            if c.kind() == NodeKind::Variable {
                let ics = c.children();
                let ghost t = c.data().children@;
                let mut k: usize = 0;
                while k < ics.len()
                    invariant
                        k <= ics@.len(),
                        datas(ics@) == t,
                        forall|j: int| 0 <= j < k ==> (#[trigger] (type_context_hit())(t[j])) is None,
                    decreases ics@.len() - k,
                {
                    proof { assert(t[k as int] == ics@[k as int].data()); }
                    if ics[k].kind().is_type_context() {
                        proof {
                            lemma_first_hit_at(t, type_context_hit(), k as int);
                            lemma_first_hit_at(s, containing_node_hit(), i as int);
                        }
                        return Some(ics[k]);
                    }
                    k = k + 1;
                }
                proof {
                    lemma_first_hit_none(t, type_context_hit());
                }
            }
            if c.kind().is_type_context() {
                proof {
                    lemma_first_hit_at(s, containing_node_hit(), i as int);
                }
                return Some(c);
            }
            i = i + 1;
        }
        proof {
            lemma_first_hit_none(s, containing_node_hit());
        }
        None
    }

    /// Check if this is a subscript accessor.
    pub fn is_subscript(&self) -> (b: bool)
        ensures
            b == (self.spec_raw().data().kind == NodeKind::Subscript || spec_child_of_kind(
                self.spec_raw().data(),
                NodeKind::Subscript,
            ) is Some),
    {
        self.raw.kind() == NodeKind::Subscript || self.raw.child_of_kind(NodeKind::Subscript).is_some()
    }

    fn find_extension_node(&self) -> (r: Option<Node<'ctx>>)
        ensures
            match r {
                Some(n) => spec_accessor_extension(self.spec_raw().data()) == Some(n.data()),
                None => spec_accessor_extension(self.spec_raw().data()) is None,
            },
    {
        let cs = self.raw.children();
        let ghost s = self.raw.data().children@;
        let mut i: usize = 0;
        while i < cs.len()
            invariant
                i <= cs@.len(),
                datas(cs@) == s,
                forall|j: int| 0 <= j < i ==> (#[trigger] (extension_node_hit())(s[j])) is None,
            decreases cs@.len() - i,
        {
            proof { assert(s[i as int] == cs@[i as int].data()); }
            let c = cs[i];
            if c.kind() == NodeKind::Variable {
                if let Some(e) = c.child_of_kind(NodeKind::Extension) {
                    proof {
                        lemma_first_hit_at(s, extension_node_hit(), i as int);
                    }
                    return Some(e);
                }
            }
            if c.kind() == NodeKind::Extension {
                proof {
                    lemma_first_hit_at(s, extension_node_hit(), i as int);
                }
                return Some(c);
            }
            i = i + 1;
        }
        proof {
            lemma_first_hit_none(s, extension_node_hit());
        }
        None
    }

    /// Check if this is a static property accessor.
    pub fn is_static(&self) -> (b: bool)
        ensures
            b == self.spec_is_static(),
    {
        self.is_static
    }

    /// Check if this accessor mutates the property.
    pub fn is_mutating(&self) -> (b: bool)
        ensures
            b == is_mutating_kind(accessor_kind_of(self.spec_raw().data().kind)),
    {
        matches!(
            self.kind(),
            AccessorKind::Setter | AccessorKind::Modify | AccessorKind::WillSet
                | AccessorKind::DidSet | AccessorKind::MaterializeForSet | AccessorKind::Init
                | AccessorKind::UnsafeMutableAddressor | AccessorKind::OwningMutableAddressor
                | AccessorKind::NativeOwningMutableAddressor
                | AccessorKind::NativePinningMutableAddressor
        )
    }

    /// The human-readable rendering of this accessor.
    pub fn to_string(&self) -> (r: String)
        ensures
            r@ == self.spec_raw().data().display@,
    {
        self.raw.to_string()
    }
}

impl<'ctx> HasGenericSignature<'ctx> for Accessor<'ctx> {
    open spec fn spec_generic_signature(&self) -> Option<NodeData> {
        first_hit(self.spec_raw().data().children@, accessor_signature_hit())
    }

    fn generic_signature(&self) -> (r: Option<GenericSignature<'ctx>>) {
        let cs = self.raw.children();
        let ghost s = self.raw.data().children@;
        let mut i: usize = 0;
        while i < cs.len()
            invariant
                i <= cs@.len(),
                datas(cs@) == s,
                forall|j: int| 0 <= j < i ==> (#[trigger] (accessor_signature_hit())(s[j])) is None,
            decreases cs@.len() - i,
        {
            proof { assert(s[i as int] == cs@[i as int].data()); }
            let c = cs[i];
            if let Some(sig) = own_signature_of(c) {
                proof {
                    lemma_first_hit_at(s, accessor_signature_hit(), i as int);
                }
                return Some(sig);
            }
            if c.kind() == NodeKind::Subscript || c.kind() == NodeKind::Variable {
                let ics = c.children();
                let ghost t = c.data().children@;
                let mut k: usize = 0;
                while k < ics.len()
                    invariant
                        k <= ics@.len(),
                        datas(ics@) == t,
                        forall|j: int| 0 <= j < k ==> (#[trigger] (own_signature_hit())(t[j])) is None,
                    decreases ics@.len() - k,
                {
                    proof { assert(t[k as int] == ics@[k as int].data()); }
                    if let Some(sig) = own_signature_of(ics[k]) {
                        proof {
                            lemma_first_hit_at(t, own_signature_hit(), k as int);
                            lemma_first_hit_at(s, accessor_signature_hit(), i as int);
                        }
                        return Some(sig);
                    }
                    k = k + 1;
                }
                proof {
                    lemma_first_hit_none(t, own_signature_hit());
                }
            }
            i = i + 1;
        }
        proof {
            lemma_first_hit_none(s, accessor_signature_hit());
        }
        None
    }
}

/// The generic signature of a `Type -> DependentGenericType` node.
fn own_signature_of<'ctx>(c: Node<'ctx>) -> (r: Option<GenericSignature<'ctx>>)
    ensures
        opt_sig_data(r) == (own_signature_hit())(c.data()),
{
    if let Some(inner) = c.unwrap_if_kind(NodeKind::Type) {
        if inner.kind() == NodeKind::DependentGenericType {
            if let Some(sig) = inner.child_of_kind(NodeKind::DependentGenericSignature) {
                return Some(GenericSignature::new(sig));
            }
        }
    }
    None
}

impl<'ctx> HasExtensionContext<'ctx> for Accessor<'ctx> {
    open spec fn spec_node(&self) -> NodeData {
        self.spec_raw().data()
    }

    open spec fn spec_is_extension(&self) -> bool {
        spec_accessor_extension(self.spec_raw().data()) is Some
    }

    open spec fn spec_extension_module(&self) -> Option<Seq<char>> {
        match spec_accessor_extension(self.spec_raw().data()) {
            Some(e) => text_of(spec_child_of_kind(e, NodeKind::Module)),
            None => None,
        }
    }

    open spec fn spec_extension_generic_signature(&self) -> Option<NodeData> {
        match spec_accessor_extension(self.spec_raw().data()) {
            Some(e) => spec_child_of_kind(e, NodeKind::DependentGenericSignature),
            None => None,
        }
    }

    fn raw(&self) -> (r: Node<'ctx>) {
        self.raw
    }

    fn is_extension(&self) -> (b: bool) {
        self.find_extension_node().is_some()
    }

    fn extension_module(&self) -> (r: Option<&'ctx str>) {
        match self.find_extension_node() {
            Some(ext) => match ext.child_of_kind(NodeKind::Module) {
                Some(m) => m.text(),
                None => None,
            },
            None => None,
        }
    }

    fn extension_generic_signature(&self) -> (r: Option<GenericSignature<'ctx>>) {
        match self.find_extension_node() {
            Some(ext) => match ext.child_of_kind(NodeKind::DependentGenericSignature) {
                Some(sig) => Some(GenericSignature::new(sig)),
                None => None,
            },
            None => None,
        }
    }
}

} // verus!
