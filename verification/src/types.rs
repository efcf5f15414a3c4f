//! Type representation for Swift symbols.
//!
//! This module provides semantic types for representing Swift types
//! extracted from demangled symbols.

use vstd::prelude::*;

use crate::helpers::{
    first_child, first_child_or_self, kind_either, kind_is, spec_child_of_kind,
    spec_descendant_of_kind, spec_find_identifier, spec_unwrap_if_kind, text_of, text_of_node,
    find_either_in, lemma_child_of_kind_height, nominal_child_hit,
};
use crate::raw::{
    datas, descendants, height, lemma_child_height, opt_data, opt_str, Node, NodeData, NodeKind,
};
use crate::search::{
    filter_map, first_hit, flatten, lemma_filter_map_step, lemma_first_hit_at,
    lemma_filter_map_first, lemma_first_hit_none, lemma_take_all,
};

verus! {

/// The node of an optional type reference.
pub open spec fn opt_type_data<'ctx>(o: Option<TypeRef<'ctx>>) -> Option<NodeData> {
    match o {
        Some(t) => Some(t.spec_raw().data()),
        None => None,
    }
}

/// The node of an optional boxed type reference.
pub open spec fn opt_box_data<'ctx>(o: Option<Box<TypeRef<'ctx>>>) -> Option<NodeData> {
    match o {
        Some(t) => Some(t.spec_raw().data()),
        None => None,
    }
}

/// The nodes of a sequence of type references.
pub open spec fn type_datas<'ctx>(s: Seq<TypeRef<'ctx>>) -> Seq<NodeData> {
    s.map_values(|t: TypeRef<'ctx>| t.spec_raw().data())
}

/// The node of an optional generic signature.
pub open spec fn opt_sig_data<'ctx>(o: Option<GenericSignature<'ctx>>) -> Option<NodeData> {
    match o {
        Some(s) => Some(s.spec_raw().data()),
        None => None,
    }
}

/// The `i`-th child of `d`, if any.
pub open spec fn nth_child(d: NodeData, i: int) -> Option<NodeData> {
    if 0 <= i < d.children@.len() {
        Some(d.children@[i])
    } else {
        None
    }
}

/// The inner type of the `i`-th child of `d` when that child is a `Type` node.
pub open spec fn nth_type_inner(d: NodeData, i: int) -> Option<NodeData> {
    match nth_child(d, i) {
        Some(c) => if c.kind == NodeKind::Type { first_child(c) } else { None },
        None => None,
    }
}

/// The inner type of the first `Type` child of `d`.
pub open spec fn type_child_inner(d: NodeData) -> Option<NodeData> {
    match spec_child_of_kind(d, NodeKind::Type) {
        Some(t) => first_child(t),
        None => None,
    }
}

/// Kinds classified as named types.
pub open spec fn is_named_kind(k: NodeKind) -> bool {
    matches!(
        k,
        NodeKind::Class | NodeKind::Structure | NodeKind::Enum | NodeKind::Protocol
            | NodeKind::TypeAlias | NodeKind::OtherNominalType | NodeKind::BoundGenericClass
            | NodeKind::BoundGenericStructure | NodeKind::BoundGenericEnum
            | NodeKind::BoundGenericProtocol | NodeKind::BoundGenericTypeAlias
            | NodeKind::BoundGenericOtherNominalType | NodeKind::Module
    )
}

/// Kinds of bound generic types.
pub open spec fn is_bound_generic_kind(k: NodeKind) -> bool {
    matches!(
        k,
        NodeKind::BoundGenericClass | NodeKind::BoundGenericStructure | NodeKind::BoundGenericEnum
            | NodeKind::BoundGenericProtocol | NodeKind::BoundGenericTypeAlias
            | NodeKind::BoundGenericOtherNominalType
    )
}

/// Kinds classified as (non-SIL) function types.
pub open spec fn is_function_like_kind(k: NodeKind) -> bool {
    matches!(
        k,
        NodeKind::FunctionType | NodeKind::NoEscapeFunctionType | NodeKind::CFunctionPointer
            | NodeKind::ThinFunctionType | NodeKind::AutoClosureType
            | NodeKind::EscapingAutoClosureType | NodeKind::ObjCBlock | NodeKind::EscapingObjCBlock
            | NodeKind::ConcurrentFunctionType | NodeKind::GlobalActorFunctionType
            | NodeKind::DifferentiableFunctionType | NodeKind::IsolatedAnyFunctionType
            | NodeKind::NonIsolatedCallerFunctionType | NodeKind::SendingResultFunctionType
            | NodeKind::UncurriedFunctionType
    )
}

/// Kinds whose type is their first child, wrapped once.
pub open spec fn is_single_wrapper_kind(k: NodeKind) -> bool {
    matches!(
        k,
        NodeKind::SugaredOptional | NodeKind::SugaredArray | NodeKind::InOut | NodeKind::Shared
            | NodeKind::Owned | NodeKind::Sending | NodeKind::Isolated | NodeKind::NoDerivative
            | NodeKind::CompileTimeLiteral | NodeKind::DynamicSelf
            | NodeKind::ConstrainedExistential
    )
}

/// Whether `r` is the fallback classification of `d`.
pub open spec fn is_other_of<'ctx>(r: TypeKind<'ctx>, d: NodeData) -> bool {
    r matches TypeKind::Other(n) && n.data() == d
}

/// Whether `r` wraps `inner` in the variant that a single-wrapper kind `k` maps to.
pub open spec fn wraps_as<'ctx>(r: TypeKind<'ctx>, k: NodeKind, inner: NodeData) -> bool {
    match r {
        TypeKind::Optional(b) => k == NodeKind::SugaredOptional && b.spec_raw().data() == inner,
        TypeKind::Array(b) => k == NodeKind::SugaredArray && b.spec_raw().data() == inner,
        TypeKind::InOut(b) => k == NodeKind::InOut && b.spec_raw().data() == inner,
        TypeKind::Shared(b) => k == NodeKind::Shared && b.spec_raw().data() == inner,
        TypeKind::Owned(b) => k == NodeKind::Owned && b.spec_raw().data() == inner,
        TypeKind::Weak(b) => k == NodeKind::Weak && b.spec_raw().data() == inner,
        TypeKind::Unowned(b) => k == NodeKind::Unowned && b.spec_raw().data() == inner,
        TypeKind::Sending(b) => k == NodeKind::Sending && b.spec_raw().data() == inner,
        TypeKind::Isolated(b) => k == NodeKind::Isolated && b.spec_raw().data() == inner,
        TypeKind::NoDerivative(b) => k == NodeKind::NoDerivative && b.spec_raw().data() == inner,
        TypeKind::CompileTimeLiteral(b) => k == NodeKind::CompileTimeLiteral && b.spec_raw().data()
            == inner,
        TypeKind::DynamicSelf(b) => k == NodeKind::DynamicSelf && b.spec_raw().data() == inner,
        TypeKind::ConstrainedExistential(b) => k == NodeKind::ConstrainedExistential
            && b.spec_raw().data() == inner,
        _ => false,
    }
}

/// The type node under a `Metatype`: its first child, or its second when the
/// first is a `MetatypeRepresentation`.
pub open spec fn metatype_inner(d: NodeData) -> Option<NodeData> {
    match first_child(d) {
        Some(inner) => if inner.kind == NodeKind::MetatypeRepresentation {
            nth_child(d, 1)
        } else {
            Some(inner)
        },
        None => None,
    }
}

/// The index of an optional node, or zero.
pub open spec fn index_or_zero(o: Option<NodeData>) -> u64 {
    match o {
        Some(n) => match n.index {
            Some(i) => i,
            None => 0,
        },
        None => 0,
    }
}

/// The index of the inner node of an optional `Type` wrapper, as a signed integer.
pub open spec fn fixed_array_size(o: Option<NodeData>) -> Option<i64> {
    match o {
        Some(t) => match first_child(t) {
            Some(n) => match n.index {
                Some(i) => Some(i as i64),
                None => None,
            },
            None => None,
        },
        None => None,
    }
}

/// Selects the inner type of `Type` children.
pub open spec fn type_inner_hit() -> spec_fn(NodeData) -> Option<NodeData> {
    |c: NodeData| if c.kind == NodeKind::Type { first_child(c) } else { None }
}

/// The name of an associated type reference.
pub open spec fn assoc_name(d: NodeData) -> Option<Seq<char>> {
    match spec_child_of_kind(d, NodeKind::DependentAssociatedTypeRef) {
        Some(r) => text_of(spec_child_of_kind(r, NodeKind::Identifier)),
        None => None,
    }
}

/// The field of a SIL box layout entry: its type and whether it is mutable.
pub open spec fn box_field_hit() -> spec_fn(NodeData) -> Option<(NodeData, bool)> {
    |f: NodeData|
        match first_child(f) {
            Some(t) => Some(
                (
                    if t.kind == NodeKind::Type { first_child_or_self(t) } else { t },
                    f.kind == NodeKind::SILBoxMutableField,
                ),
            ),
            None => None,
        }
}

/// Selects the inner type of `Type` children, requiring an inner node.
pub open spec fn unwrap_type_hit() -> spec_fn(NodeData) -> Option<NodeData> {
    |c: NodeData| spec_unwrap_if_kind(c, NodeKind::Type)
}

/// The fields of all `SILBoxLayout` children of a box type, in order.
pub open spec fn box_fields(s: Seq<NodeData>) -> Seq<(NodeData, bool)>
    decreases s.len(),
{
    if s.len() == 0 {
        Seq::empty()
    } else {
        let rest = box_fields(s.drop_last());
        let c = s.last();
        if c.kind == NodeKind::SILBoxLayout {
            rest + filter_map(c.children@, box_field_hit())
        } else {
            rest
        }
    }
}

/// The substitutions of all `TypeList` children of a box type, in order.
pub open spec fn box_substitutions(s: Seq<NodeData>) -> Seq<NodeData>
    decreases s.len(),
{
    if s.len() == 0 {
        Seq::empty()
    } else {
        let rest = box_substitutions(s.drop_last());
        let c = s.last();
        if c.kind == NodeKind::TypeList {
            rest + filter_map(c.children@, unwrap_type_hit())
        } else {
            rest
        }
    }
}

/// The views of SIL box fields.
pub open spec fn field_views<'ctx>(s: Seq<SILBoxField<'ctx>>) -> Seq<(NodeData, bool)> {
    s.map_values(|f: SILBoxField<'ctx>| (f.type_ref.spec_raw().data(), f.is_mutable))
}

/// The nodes of tuple elements.
pub open spec fn element_datas<'ctx>(s: Seq<TupleElement<'ctx>>) -> Seq<NodeData> {
    s.map_values(|e: TupleElement<'ctx>| e.spec_raw().data())
}

/// Whether `r` is the classification of the type node `d`.
pub open spec fn type_kind_spec<'ctx>(r: TypeKind<'ctx>, d: NodeData) -> bool
    decreases height(d),
{
    let k = d.kind;
    if is_named_kind(k) {
        r matches TypeKind::Named(n) && n.spec_raw().data() == d
    } else if is_function_like_kind(k) {
        r matches TypeKind::Function(f) && f.spec_raw().data() == d
    } else if k == NodeKind::ImplFunctionType {
        r matches TypeKind::ImplFunction(f) && f.spec_raw().data() == d
    } else if k == NodeKind::Tuple {
        r matches TypeKind::Tuple(v) && element_datas(v@) == filter_map(
            d.children@,
            kind_is(NodeKind::TupleElement),
        )
    } else if is_single_wrapper_kind(k) {
        match first_child(d) {
            Some(c) => wraps_as(r, k, c),
            None => is_other_of(r, d),
        }
    } else if k == NodeKind::Weak || k == NodeKind::Unowned {
        match first_child(d) {
            Some(t) => match first_child(t) {
                Some(c) => wraps_as(r, k, c),
                None => is_other_of(r, d),
            },
            None => is_other_of(r, d),
        }
    } else if k == NodeKind::SugaredDictionary {
        match (nth_child(d, 0), nth_child(d, 1)) {
            (Some(key), Some(value)) => r matches TypeKind::Dictionary { key: kb, value: vb }
                && kb.spec_raw().data() == key && vb.spec_raw().data() == value,
            _ => is_other_of(r, d),
        }
    } else if k == NodeKind::DependentGenericParamType {
        r == TypeKind::GenericParam {
            depth: index_or_zero(nth_child(d, 0)),
            index: index_or_zero(nth_child(d, 1)),
        }
    } else if k == NodeKind::Metatype || k == NodeKind::ExistentialMetatype {
        match metatype_inner(d) {
            Some(t) => r matches TypeKind::Metatype(b) && b.spec_raw().data() == t,
            None => is_other_of(r, d),
        }
    } else if k == NodeKind::ProtocolList || k == NodeKind::ProtocolListWithClass || k
        == NodeKind::ProtocolListWithAnyObject {
        let ps = filter_map(descendants(d), kind_either(NodeKind::Protocol, NodeKind::Type));
        if ps.len() == 0 {
            r is Any
        } else {
            r matches TypeKind::Existential(v) && type_datas(v@) == ps
        }
    } else if k == NodeKind::BuiltinTypeName {
        r matches TypeKind::Builtin(s) && s@ == (match d.spec_text() {
            Some(t) => t,
            None => Seq::empty(),
        })
    } else if k == NodeKind::BuiltinFixedArray {
        r matches TypeKind::BuiltinFixedArray { size, element } && size == fixed_array_size(
            nth_child(d, 0),
        ) && opt_box_data(element) == (match nth_child(d, 1) {
            Some(t) => first_child(t),
            None => None,
        })
    } else if k == NodeKind::Pack {
        r matches TypeKind::Pack(v) && type_datas(v@) == filter_map(d.children@, type_inner_hit())
    } else if k == NodeKind::Integer {
        r == TypeKind::ValueGeneric(
            match d.index {
                Some(i) => i as i64,
                None => 0,
            },
        )
    } else if k == NodeKind::ErrorType {
        r is Error
    } else if k == NodeKind::Type {
        match first_child(d) {
            Some(inner) => {
                proof {
                    lemma_child_height(d, 0);
                }
                type_kind_spec(r, inner)
            },
            None => is_other_of(r, d),
        }
    } else if k == NodeKind::DependentGenericType {
        let sig = spec_child_of_kind(d, NodeKind::DependentGenericSignature);
        let inner = type_child_inner(d);
        match (sig, inner) {
            (Some(s), Some(i)) => r matches TypeKind::Generic { signature, inner: b }
                && signature.spec_raw().data() == s && b.spec_raw().data() == i,
            (None, Some(i)) => {
                proof {
                    lemma_child_of_kind_height(d, NodeKind::Type);
                    let t = spec_child_of_kind(d, NodeKind::Type).unwrap();
                    lemma_child_height(t, 0);
                }
                type_kind_spec(r, i)
            },
            _ => is_other_of(r, d),
        }
    } else if k == NodeKind::DependentMemberType {
        match type_child_inner(d) {
            Some(base) => r matches TypeKind::AssociatedType { base: b, name } && b.spec_raw().data()
                == base && opt_str(name) == assoc_name(d),
            None => is_other_of(r, d),
        }
    } else if k == NodeKind::OpaqueType {
        r matches TypeKind::Opaque { source, index } && index == (match spec_child_of_kind(
            d,
            NodeKind::Index,
        ) {
            Some(i) => i.index,
            None => None,
        }) && match spec_child_of_kind(d, NodeKind::OpaqueReturnTypeOf) {
            Some(o) => source matches Some(src) && src.describes_return_type_of(o),
            None => source is None,
        }
    } else if k == NodeKind::OpaqueReturnType {
        r matches TypeKind::Opaque { source, index } && index is None && match spec_child_of_kind(
            d,
            NodeKind::OpaqueReturnTypeParent,
        ) {
            Some(p) => source matches Some(src) && src.describes_return_type_parent(p),
            None => source is None,
        }
    } else if k == NodeKind::SILBoxTypeWithLayout || k == NodeKind::SILBoxType {
        r matches TypeKind::SILBox { fields, substitutions } && field_views(fields@) == box_fields(
            d.children@,
        ) && type_datas(substitutions@) == box_substitutions(d.children@)
    } else {
        is_other_of(r, d)
    }
}

/// A reference to a Swift type.
///
/// This wraps a raw node and provides methods to extract type information.
/// The type information is parsed lazily when accessed.
#[derive(Clone, Copy)]
pub struct TypeRef<'ctx> {
    raw: Node<'ctx>,
}

impl<'ctx> TypeRef<'ctx> {
    /// The node this type refers to.
    pub closed spec fn spec_raw(self) -> Node<'ctx> {
        self.raw
    }

    /// Create a TypeRef from a raw node.
    pub fn new(raw: Node<'ctx>) -> (r: Self)
        ensures
            r.spec_raw() == raw,
    {
        Self { raw }
    }

    /// Get the underlying raw node.
    pub fn raw(&self) -> (r: Node<'ctx>)
        ensures
            r == self.spec_raw(),
    {
        self.raw
    }

    /// Get the kind of this type.
    pub fn kind(&self) -> (r: TypeKind<'ctx>)
        ensures
            type_kind_spec(r, self.spec_raw().data()),
    {
        self.classify()
    }

    /// Get a display string for this type.
    pub fn display(&self) -> (s: String)
        ensures
            s@ == self.spec_raw().data().display@,
    {
        self.raw.to_string()
    }

    /// The human-readable rendering of this type (its display string).
    pub fn to_string(&self) -> (s: String)
        ensures
            s@ == self.spec_raw().data().display@,
    {
        self.display()
    }

    /// Get generic arguments if this is a generic type.
    ///
    /// Returns an empty vector if this is not a generic type.
    pub fn generic_args(&self) -> (v: Vec<TypeRef<'ctx>>)
        ensures
            type_datas(v@) == match named_target(self.spec_raw().data()) {
                Some(n) => named_generic_args(n),
                None => Seq::empty(),
            },
    {
        let k = self.kind();
        proof {
            lemma_named_target(k, self.spec_raw().data());
        }
        match k {
            TypeKind::Named(named) => named.generic_args(),
            _ => Vec::new(),
        }
    }

    /// Check if this is a generic type.
    pub fn is_generic(&self) -> (b: bool)
        ensures
            b == match named_target(self.spec_raw().data()) {
                Some(n) => is_bound_generic_kind(n.kind),
                None => false,
            },
    {
        let k = self.kind();
        proof {
            lemma_named_target(k, self.spec_raw().data());
        }
        match k {
            TypeKind::Named(named) => named.is_generic(),
            _ => false,
        }
    }

    /// Wrap the first child in a boxed type reference.
    fn wrap_first(&self) -> (r: Option<Box<TypeRef<'ctx>>>)
        ensures
            opt_box_data(r) == first_child(self.spec_raw().data()),
    {
        match self.raw.child(0) {
            Some(inner) => Some(Box::new(TypeRef::new(inner))),
            None => None,
        }
    }

    /// Wrap the first child of the first child in a boxed type reference.
    fn wrap_nested_first(&self) -> (r: Option<Box<TypeRef<'ctx>>>)
        ensures
            opt_box_data(r) == match first_child(self.spec_raw().data()) {
                Some(t) => first_child(t),
                None => None,
            },
    {
        match self.raw.child(0) {
            Some(t) => match t.child(0) {
                Some(inner) => Some(Box::new(TypeRef::new(inner))),
                None => None,
            },
            None => None,
        }
    }

    fn classify(&self) -> (r: TypeKind<'ctx>)
        ensures
            type_kind_spec(r, self.spec_raw().data()),
        decreases height(self.spec_raw().data()),
    {
        let raw = self.raw;
        let k = raw.kind();
        let ghost d = raw.data();
        match k {
            NodeKind::Class | NodeKind::Structure | NodeKind::Enum | NodeKind::Protocol
            | NodeKind::TypeAlias | NodeKind::OtherNominalType | NodeKind::BoundGenericClass
            | NodeKind::BoundGenericStructure | NodeKind::BoundGenericEnum
            | NodeKind::BoundGenericProtocol | NodeKind::BoundGenericTypeAlias
            | NodeKind::BoundGenericOtherNominalType | NodeKind::Module => {
                TypeKind::Named(NamedType::new(raw))
            },
            NodeKind::FunctionType | NodeKind::NoEscapeFunctionType | NodeKind::CFunctionPointer
            | NodeKind::ThinFunctionType | NodeKind::AutoClosureType
            | NodeKind::EscapingAutoClosureType | NodeKind::ObjCBlock
            | NodeKind::EscapingObjCBlock | NodeKind::ConcurrentFunctionType
            | NodeKind::GlobalActorFunctionType | NodeKind::DifferentiableFunctionType
            | NodeKind::IsolatedAnyFunctionType | NodeKind::NonIsolatedCallerFunctionType
            | NodeKind::SendingResultFunctionType | NodeKind::UncurriedFunctionType => {
                TypeKind::Function(FunctionType::new(raw))
            },
            NodeKind::ImplFunctionType => TypeKind::ImplFunction(ImplFunctionType::new(raw)),
            NodeKind::Tuple => {
                let cs = raw.children();
                let ghost s = d.children@;
                let mut elements: Vec<TupleElement<'ctx>> = Vec::new();
                let mut i: usize = 0;
                while i < cs.len()
                    invariant
                        i <= cs@.len(),
                        datas(cs@) == s,
                        element_datas(elements@) == filter_map(
                            s.take(i as int),
                            kind_is(NodeKind::TupleElement),
                        ),
                    decreases cs@.len() - i,
                {
                    proof { assert(s[i as int] == cs@[i as int].data()); }
                    proof {
                        lemma_filter_map_step(s, kind_is(NodeKind::TupleElement), i as int);
                    }
                    let c = cs[i];
                    if c.kind() == NodeKind::TupleElement {
                        let ghost before = elements@;
                        elements.push(TupleElement::new(c));
                        proof {
                            assert(element_datas(elements@) =~= element_datas(before).push(c.data()));
                        }
                    }
                    i = i + 1;
                }
                proof {
                    lemma_take_all(s);
                }
                TypeKind::Tuple(elements)
            },
            NodeKind::SugaredOptional => match self.wrap_first() {
                Some(b) => TypeKind::Optional(b),
                None => TypeKind::Other(raw),
            },
            NodeKind::SugaredArray => match self.wrap_first() {
                Some(b) => TypeKind::Array(b),
                None => TypeKind::Other(raw),
            },
            NodeKind::SugaredDictionary => match (raw.child(0), raw.child(1)) {
                (Some(key), Some(value)) => TypeKind::Dictionary {
                    key: Box::new(TypeRef::new(key)),
                    value: Box::new(TypeRef::new(value)),
                },
                _ => TypeKind::Other(raw),
            },
            NodeKind::DependentGenericParamType => {
                let depth = match raw.child(0) {
                    Some(c) => match c.index() {
                        Some(i) => i,
                        None => 0,
                    },
                    None => 0,
                };
                let index = match raw.child(1) {
                    Some(c) => match c.index() {
                        Some(i) => i,
                        None => 0,
                    },
                    None => 0,
                };
                TypeKind::GenericParam { depth, index }
            },
            NodeKind::Metatype | NodeKind::ExistentialMetatype => {
                match raw.child(0) {
                    Some(inner) => {
                        let type_node = if inner.kind() == NodeKind::MetatypeRepresentation {
                            raw.child(1)
                        } else {
                            Some(inner)
                        };
                        match type_node {
                            Some(t) => TypeKind::Metatype(Box::new(TypeRef::new(t))),
                            None => TypeKind::Other(raw),
                        }
                    },
                    None => TypeKind::Other(raw),
                }
            },
            NodeKind::ProtocolList | NodeKind::ProtocolListWithClass
            | NodeKind::ProtocolListWithAnyObject => {
                let ds = raw.descendants();
                let ghost s = descendants(d);
                let mut protocols: Vec<TypeRef<'ctx>> = Vec::new();
                let mut i: usize = 0;
                while i < ds.len()
                    invariant
                        i <= ds@.len(),
                        datas(ds@) == s,
                        type_datas(protocols@) == filter_map(
                            s.take(i as int),
                            kind_either(NodeKind::Protocol, NodeKind::Type),
                        ),
                    decreases ds@.len() - i,
                {
                    proof { assert(s[i as int] == ds@[i as int].data()); }
                    proof {
                        lemma_filter_map_step(
                            s,
                            kind_either(NodeKind::Protocol, NodeKind::Type),
                            i as int,
                        );
                    }
                    let n = ds[i];
                    let nk = n.kind();
                    if nk == NodeKind::Protocol || nk == NodeKind::Type {
                        let ghost before = protocols@;
                        protocols.push(TypeRef::new(n));
                        proof {
                            assert(type_datas(protocols@) =~= type_datas(before).push(n.data()));
                        }
                    }
                    i = i + 1;
                }
                proof {
                    lemma_take_all(s);
                }
                if protocols.len() == 0 {
                    TypeKind::Any
                } else {
                    TypeKind::Existential(protocols)
                }
            },
            NodeKind::BuiltinTypeName => {
                let name: &'ctx str = match raw.text() {
                    Some(t) => t,
                    None => {
                        proof {
                            reveal_strlit("");
                            assert(""@ =~= Seq::<char>::empty());
                        }
                        ""
                    },
                };
                TypeKind::Builtin(name)
            },
            NodeKind::BuiltinFixedArray => {
                let size = match raw.child(0) {
                    Some(t) => match t.child(0) {
                        Some(n) => match n.index() {
                            Some(i) => Some(i as i64),
                            None => None,
                        },
                        None => None,
                    },
                    None => None,
                };
                let element = match raw.child(1) {
                    Some(t) => match t.child(0) {
                        Some(n) => Some(Box::new(TypeRef::new(n))),
                        None => None,
                    },
                    None => None,
                };
                TypeKind::BuiltinFixedArray { size, element }
            },
            NodeKind::InOut => match self.wrap_first() {
                Some(b) => TypeKind::InOut(b),
                None => TypeKind::Other(raw),
            },
            NodeKind::Shared => match self.wrap_first() {
                Some(b) => TypeKind::Shared(b),
                None => TypeKind::Other(raw),
            },
            NodeKind::Owned => match self.wrap_first() {
                Some(b) => TypeKind::Owned(b),
                None => TypeKind::Other(raw),
            },
            NodeKind::Weak => match self.wrap_nested_first() {
                Some(b) => TypeKind::Weak(b),
                None => TypeKind::Other(raw),
            },
            NodeKind::Unowned => match self.wrap_nested_first() {
                Some(b) => TypeKind::Unowned(b),
                None => TypeKind::Other(raw),
            },
            NodeKind::Sending => match self.wrap_first() {
                Some(b) => TypeKind::Sending(b),
                None => TypeKind::Other(raw),
            },
            NodeKind::Isolated => match self.wrap_first() {
                Some(b) => TypeKind::Isolated(b),
                None => TypeKind::Other(raw),
            },
            NodeKind::NoDerivative => match self.wrap_first() {
                Some(b) => TypeKind::NoDerivative(b),
                None => TypeKind::Other(raw),
            },
            NodeKind::Pack => {
                let cs = raw.children();
                let ghost s = d.children@;
                let mut elements: Vec<TypeRef<'ctx>> = Vec::new();
                let mut i: usize = 0;
                while i < cs.len()
                    invariant
                        i <= cs@.len(),
                        datas(cs@) == s,
                        type_datas(elements@) == filter_map(s.take(i as int), type_inner_hit()),
                    decreases cs@.len() - i,
                {
                    proof { assert(s[i as int] == cs@[i as int].data()); }
                    proof {
                        lemma_filter_map_step(s, type_inner_hit(), i as int);
                    }
                    let c = cs[i];
                    if c.kind() == NodeKind::Type {
                        if let Some(inner) = c.child(0) {
                            let ghost before = elements@;
                            elements.push(TypeRef::new(inner));
                            proof {
                                assert(type_datas(elements@) =~= type_datas(before).push(inner.data()));
                            }
                        }
                    }
                    i = i + 1;
                }
                proof {
                    lemma_take_all(s);
                }
                TypeKind::Pack(elements)
            },
            NodeKind::Integer => {
                let value = match raw.index() {
                    Some(i) => i as i64,
                    None => 0,
                };
                TypeKind::ValueGeneric(value)
            },
            NodeKind::CompileTimeLiteral => match self.wrap_first() {
                Some(b) => TypeKind::CompileTimeLiteral(b),
                None => TypeKind::Other(raw),
            },
            NodeKind::ErrorType => TypeKind::Error,
            NodeKind::Type => {
                match raw.child(0) {
                    Some(inner) => {
                        proof {
                            lemma_child_height(d, 0);
                        }
                        TypeRef::new(inner).classify()
                    },
                    None => TypeKind::Other(raw),
                }
            },
            NodeKind::DynamicSelf => match self.wrap_first() {
                Some(b) => TypeKind::DynamicSelf(b),
                None => TypeKind::Other(raw),
            },
            NodeKind::ConstrainedExistential => match self.wrap_first() {
                Some(b) => TypeKind::ConstrainedExistential(b),
                None => TypeKind::Other(raw),
            },
            NodeKind::DependentGenericType => {
                let signature = raw.child_of_kind(NodeKind::DependentGenericSignature);
                let type_child = raw.child_of_kind(NodeKind::Type);
                let inner = match type_child {
                    Some(t) => t.child(0),
                    None => None,
                };
                match (signature, inner) {
                    (Some(sig), Some(inner_node)) => TypeKind::Generic {
                        signature: GenericSignature::new(sig),
                        inner: Box::new(TypeRef::new(inner_node)),
                    },
                    (None, Some(inner_node)) => {
                        proof {
                            lemma_child_of_kind_height(d, NodeKind::Type);
                            lemma_child_height(type_child.unwrap().data(), 0);
                        }
                        TypeRef::new(inner_node).classify()
                    },
                    _ => TypeKind::Other(raw),
                }
            },
            NodeKind::DependentMemberType => {
                let base = match raw.child_of_kind(NodeKind::Type) {
                    Some(t) => match t.child(0) {
                        Some(inner) => Some(Box::new(TypeRef::new(inner))),
                        None => None,
                    },
                    None => None,
                };
                let name = match raw.child_of_kind(NodeKind::DependentAssociatedTypeRef) {
                    Some(r) => text_of_node(r.child_of_kind(NodeKind::Identifier)),
                    None => None,
                };
                match base {
                    Some(b) => TypeKind::AssociatedType { base: b, name },
                    None => TypeKind::Other(raw),
                }
            },
            NodeKind::OpaqueType => {
                let source = match raw.child_of_kind(NodeKind::OpaqueReturnTypeOf) {
                    Some(o) => Some(OpaqueSource::from_opaque_return_type_of(o)),
                    None => None,
                };
                let index = match raw.child_of_kind(NodeKind::Index) {
                    Some(i) => i.index(),
                    None => None,
                };
                TypeKind::Opaque { source, index }
            },
            NodeKind::OpaqueReturnType => {
                let source = match raw.child_of_kind(NodeKind::OpaqueReturnTypeParent) {
                    Some(p) => Some(OpaqueSource::from_opaque_return_type_parent(p)),
                    None => None,
                };
                TypeKind::Opaque { source, index: None }
            },
            NodeKind::SILBoxTypeWithLayout | NodeKind::SILBoxType => {
                let (fields, substitutions) = sil_box_parts(raw);
                TypeKind::SILBox { fields, substitutions }
            },
            _ => TypeKind::Other(raw),
        }
    }
}

/// Collect the fields and substitutions of a SIL box type node.
fn sil_box_parts<'ctx>(raw: Node<'ctx>) -> (r: (Vec<SILBoxField<'ctx>>, Vec<TypeRef<'ctx>>))
    ensures
        field_views(r.0@) == box_fields(raw.data().children@),
        type_datas(r.1@) == box_substitutions(raw.data().children@),
{
    let cs = raw.children();
    let ghost s = raw.data().children@;
    let mut fields: Vec<SILBoxField<'ctx>> = Vec::new();
    let mut substitutions: Vec<TypeRef<'ctx>> = Vec::new();
    let mut i: usize = 0;
    while i < cs.len()
        invariant
            i <= cs@.len(),
            datas(cs@) == s,
            field_views(fields@) == box_fields(s.take(i as int)),
            type_datas(substitutions@) == box_substitutions(s.take(i as int)),
        decreases cs@.len() - i,
    {
        proof { assert(s[i as int] == cs@[i as int].data()); }
        let child = cs[i];
        proof {
            assert(s.take(i + 1).drop_last() =~= s.take(i as int));
            assert(s.take(i + 1).last() == s[i as int]);
        }
        let ck = child.kind();
        if ck == NodeKind::SILBoxLayout {
            let fcs = child.children();
            let ghost t = child.data().children@;
            let ghost base = field_views(fields@);
            let mut m: usize = 0;
            while m < fcs.len()
                invariant
                    m <= fcs@.len(),
                    datas(fcs@) == t,
                    field_views(fields@) == base + filter_map(t.take(m as int), box_field_hit()),
                decreases fcs@.len() - m,
            {
                proof { assert(t[m as int] == fcs@[m as int].data()); }
                proof {
                    lemma_filter_map_step(t, box_field_hit(), m as int);
                }
                let field_node = fcs[m];
                let is_mutable = field_node.kind() == NodeKind::SILBoxMutableField;
                if let Some(type_node) = field_node.child(0) {
                    let inner = if type_node.kind() == NodeKind::Type {
                        type_node.first_child_or_self()
                    } else {
                        type_node
                    };
                    let ghost before = fields@;
                    fields.push(SILBoxField { type_ref: TypeRef::new(inner), is_mutable });
                    proof {
                        assert(field_views(fields@) =~= field_views(before).push(
                            (inner.data(), is_mutable),
                        ));
                    }
                }
                m = m + 1;
            }
            proof {
                lemma_take_all(t);
            }
        } else if ck == NodeKind::TypeList {
            let tcs = child.children();
            let ghost t = child.data().children@;
            let ghost base = type_datas(substitutions@);
            let mut m: usize = 0;
            while m < tcs.len()
                invariant
                    m <= tcs@.len(),
                    datas(tcs@) == t,
                    type_datas(substitutions@) == base + filter_map(t.take(m as int), unwrap_type_hit()),
                decreases tcs@.len() - m,
            {
                proof { assert(t[m as int] == tcs@[m as int].data()); }
                proof {
                    lemma_filter_map_step(t, unwrap_type_hit(), m as int);
                }
                if let Some(inner) = tcs[m].unwrap_if_kind(NodeKind::Type) {
                    let ghost before = substitutions@;
                    substitutions.push(TypeRef::new(inner));
                    proof {
                        assert(type_datas(substitutions@) =~= type_datas(before).push(inner.data()));
                    }
                }
                m = m + 1;
            }
            proof {
                lemma_take_all(t);
            }
        }
        i = i + 1;
    }
    proof {
        lemma_take_all(s);
    }
    (fields, substitutions)
}


/// The node that the classification of `d` makes a [`NamedType`] from, if any.
pub open spec fn named_target(d: NodeData) -> Option<NodeData>
    decreases height(d),
{
    if is_named_kind(d.kind) {
        Some(d)
    } else if d.kind == NodeKind::Type {
        match first_child(d) {
            Some(inner) => {
                proof {
                    lemma_child_height(d, 0);
                }
                named_target(inner)
            },
            None => None,
        }
    } else if d.kind == NodeKind::DependentGenericType {
        match (spec_child_of_kind(d, NodeKind::DependentGenericSignature), type_child_inner(d)) {
            (None, Some(i)) => {
                proof {
                    lemma_child_of_kind_height(d, NodeKind::Type);
                    let t = spec_child_of_kind(d, NodeKind::Type).unwrap();
                    lemma_child_height(t, 0);
                }
                named_target(i)
            },
            _ => None,
        }
    } else {
        None
    }
}

/// A classification is named exactly when [`named_target`] is defined, and then
/// it is built from that node.
pub proof fn lemma_named_target<'ctx>(k: TypeKind<'ctx>, d: NodeData)
    requires
        type_kind_spec(k, d),
    ensures
        match k {
            TypeKind::Named(n) => named_target(d) == Some(n.spec_raw().data()),
            _ => named_target(d) is None,
        },
    decreases height(d),
{
    if d.kind == NodeKind::Type {
        if let Some(inner) = first_child(d) {
            lemma_child_height(d, 0);
            lemma_named_target(k, inner);
        }
    } else if d.kind == NodeKind::DependentGenericType {
        match (spec_child_of_kind(d, NodeKind::DependentGenericSignature), type_child_inner(d)) {
            (None, Some(i)) => {
                lemma_child_of_kind_height(d, NodeKind::Type);
                let t = spec_child_of_kind(d, NodeKind::Type).unwrap();
                lemma_child_height(t, 0);
                lemma_named_target(k, i);
            },
            _ => {},
        }
    }
}

/// The kind of a Swift type.
pub enum TypeKind<'ctx> {
    /// A named type (class, struct, enum, protocol, type alias).
    Named(NamedType<'ctx>),
    /// A function type.
    Function(FunctionType<'ctx>),
    /// A SIL implementation function type (with detailed conventions).
    ImplFunction(ImplFunctionType<'ctx>),
    /// A tuple type.
    Tuple(Vec<TupleElement<'ctx>>),
    /// An optional type (`T?`).
    Optional(Box<TypeRef<'ctx>>),
    /// An array type (`[T]`).
    Array(Box<TypeRef<'ctx>>),
    /// A dictionary type (`[K: V]`).
    Dictionary { key: Box<TypeRef<'ctx>>, value: Box<TypeRef<'ctx>> },
    /// A generic type parameter.
    GenericParam { depth: u64, index: u64 },
    /// A metatype (`T.Type`).
    Metatype(Box<TypeRef<'ctx>>),
    /// An existential type (protocol composition).
    Existential(Vec<TypeRef<'ctx>>),
    /// The `Any` type (empty protocol composition).
    Any,
    /// A builtin type.
    Builtin(&'ctx str),
    /// A builtin fixed array type.
    BuiltinFixedArray { size: Option<i64>, element: Option<Box<TypeRef<'ctx>>> },
    /// An inout parameter type.
    InOut(Box<TypeRef<'ctx>>),
    /// A shared/borrowed parameter type (`__shared` / `borrowing`).
    Shared(Box<TypeRef<'ctx>>),
    /// An owned/consuming parameter type (`__owned` / `consuming`).
    Owned(Box<TypeRef<'ctx>>),
    /// A weak reference type.
    Weak(Box<TypeRef<'ctx>>),
    /// An unowned reference type.
    Unowned(Box<TypeRef<'ctx>>),
    /// A sending parameter/result type (for region-based isolation).
    Sending(Box<TypeRef<'ctx>>),
    /// An isolated parameter type (actor isolation).
    Isolated(Box<TypeRef<'ctx>>),
    /// A `@noDerivative` type (autodiff).
    NoDerivative(Box<TypeRef<'ctx>>),
    /// A variadic generic pack type.
    Pack(Vec<TypeRef<'ctx>>),
    /// A value generic parameter (integer literal as generic argument).
    ValueGeneric(i64),
    /// A compile-time literal type (macro-related).
    CompileTimeLiteral(Box<TypeRef<'ctx>>),
    /// Dynamic Self type.
    DynamicSelf(Box<TypeRef<'ctx>>),
    /// Constrained existential type.
    ConstrainedExistential(Box<TypeRef<'ctx>>),
    /// An associated type (`T.AssociatedType`).
    AssociatedType { base: Box<TypeRef<'ctx>>, name: Option<&'ctx str> },
    /// An opaque type (`some Protocol` return type).
    Opaque {
        /// Information about the function that defines this opaque type.
        source: Option<OpaqueSource<'ctx>>,
        /// The index of this opaque type (for multiple `some` returns).
        index: Option<u64>,
    },
    /// A generic type with constraints (e.g., `<A where A: Protocol>(A) -> A.Mince`).
    Generic {
        /// The generic signature containing type parameters and constraints.
        signature: GenericSignature<'ctx>,
        /// The inner type being constrained.
        inner: Box<TypeRef<'ctx>>,
    },
    /// An error type (invalid/failed demangling).
    Error,
    /// A SIL box type (captured values in closures).
    SILBox {
        /// The field types in the box.
        fields: Vec<SILBoxField<'ctx>>,
        /// Substituted types.
        substitutions: Vec<TypeRef<'ctx>>,
    },
    /// Fallback for unhandled type kinds.
    Other(Node<'ctx>),
}

/// A field in a SIL box type.
pub struct SILBoxField<'ctx> {
    /// The type of the field.
    pub type_ref: TypeRef<'ctx>,
    /// Whether the field is mutable.
    pub is_mutable: bool,
}

/// Information about the source of an opaque return type.
///
/// This captures the defining function for a `some Protocol` return type.
#[derive(Clone, Copy)]
pub struct OpaqueSource<'ctx> {
    /// The module containing the defining function.
    pub module: Option<&'ctx str>,
    /// The containing type (struct, class, enum) if this is a method.
    pub containing_type: Option<&'ctx str>,
    /// The name of the defining function.
    pub name: Option<&'ctx str>,
    /// The mangled name of the defining function (fallback for OpaqueReturnType).
    pub mangled_name: Option<&'ctx str>,
}

impl<'ctx> OpaqueSource<'ctx> {
    /// Whether this source describes the function under an `OpaqueReturnTypeOf` node.
    pub open spec fn describes_return_type_of(self, o: NodeData) -> bool {
        match spec_child_of_kind(o, NodeKind::Function) {
            Some(f) => opt_str(self.module) == text_of(spec_descendant_of_kind(f, NodeKind::Module))
                && opt_str(self.containing_type) == (match first_hit(f.children@, nominal_child_hit()) {
                Some(t) => text_of(spec_child_of_kind(t, NodeKind::Identifier)),
                None => None,
            }) && opt_str(self.name) == spec_find_identifier(f) && self.mangled_name is None,
            None => self.module is None && self.containing_type is None && self.name is None
                && self.mangled_name is None,
        }
    }

    /// Whether this source describes an `OpaqueReturnTypeParent` node.
    pub open spec fn describes_return_type_parent(self, p: NodeData) -> bool {
        self.module is None && self.containing_type is None && self.name is None && opt_str(
            self.mangled_name,
        ) == p.spec_text()
    }

    /// Create an OpaqueSource from an OpaqueReturnTypeOf node.
    fn from_opaque_return_type_of(node: Node<'ctx>) -> (r: Self)
        ensures
            r.describes_return_type_of(node.data()),
    {
        match node.child_of_kind(NodeKind::Function) {
            Some(func) => {
                let module = text_of_node(func.descendant_of_kind(NodeKind::Module));
                let containing_type = match func.first_nominal_child() {
                    Some(t) => text_of_node(t.child_of_kind(NodeKind::Identifier)),
                    None => None,
                };
                let name = func.find_identifier();
                OpaqueSource { module, containing_type, name, mangled_name: None }
            },
            None => OpaqueSource { module: None, containing_type: None, name: None, mangled_name: None },
        }
    }

    /// Create an OpaqueSource from an OpaqueReturnTypeParent node.
    fn from_opaque_return_type_parent(node: Node<'ctx>) -> (r: Self)
        ensures
            r.describes_return_type_parent(node.data()),
    {
        OpaqueSource { module: None, containing_type: None, name: None, mangled_name: node.text() }
    }
}


/// The name of a named type node: the text of its first `Identifier` child,
/// looking through `Type` wrappers, or else its own text.
pub open spec fn named_extract_name(d: NodeData) -> Option<Seq<char>>
    decreases height(d),
{
    match spec_child_of_kind(d, NodeKind::Identifier) {
        Some(i) => i.spec_text(),
        None => match spec_unwrap_if_kind(d, NodeKind::Type) {
            Some(inner) => {
                proof {
                    lemma_child_height(d, 0);
                }
                named_extract_name(inner)
            },
            None => d.spec_text(),
        },
    }
}

/// The simple name of a named type node (bound generic types are named by their base).
pub open spec fn spec_named_name(d: NodeData) -> Option<Seq<char>> {
    if is_bound_generic_kind(d.kind) {
        match first_child(d) {
            Some(c) => named_extract_name(c),
            None => None,
        }
    } else {
        named_extract_name(d)
    }
}

/// Selects the inner type of a `Type` child, or the child itself when it has none.
pub open spec fn type_or_self_hit() -> spec_fn(NodeData) -> Option<NodeData> {
    |c: NodeData| if c.kind == NodeKind::Type { Some(first_child_or_self(c)) } else { None }
}

/// The generic arguments of a named type node: the types listed in the second
/// child of a bound generic type.
pub open spec fn named_generic_args(d: NodeData) -> Seq<NodeData> {
    if is_bound_generic_kind(d.kind) {
        match nth_child(d, 1) {
            Some(list) => filter_map(list.children@, type_or_self_hit()),
            None => Seq::empty(),
        }
    } else {
        Seq::empty()
    }
}

/// Kinds that [`named_module`] looks into.
pub open spec fn is_module_search_kind(k: NodeKind) -> bool {
    matches!(
        k,
        NodeKind::Type | NodeKind::Class | NodeKind::Structure | NodeKind::Enum
            | NodeKind::Protocol | NodeKind::TypeAlias
    )
}

/// The module found among a sequence of children, searched in order: a
/// `Module` child decides; a type or nominal child decides when a module is
/// found inside it.
pub open spec fn named_module_list(s: Seq<NodeData>) -> Option<Option<Seq<char>>>
    decreases s,
{
    if s.len() == 0 {
        None
    } else {
        let c = s[0];
        if c.kind == NodeKind::Module {
            Some(c.spec_text())
        } else if is_module_search_kind(c.kind) {
            match named_module(c) {
                Some(m) => Some(Some(m)),
                None => named_module_list(s.drop_first()),
            }
        } else {
            named_module_list(s.drop_first())
        }
    }
}

/// The module of a named type node.
pub open spec fn named_module(d: NodeData) -> Option<Seq<char>>
    decreases d,
{
    if is_bound_generic_kind(d.kind) {
        if d.children@.len() > 0 {
            flatten(named_module_list(d.children@[0].children@))
        } else {
            flatten(named_module_list(d.children@))
        }
    } else if d.kind == NodeKind::Type {
        if d.children@.len() > 0 {
            named_module(d.children@[0])
        } else {
            None
        }
    } else {
        flatten(named_module_list(d.children@))
    }
}

/// A named Swift type (class, struct, enum, protocol, type alias).
#[derive(Clone, Copy)]
pub struct NamedType<'ctx> {
    raw: Node<'ctx>,
}

impl<'ctx> NamedType<'ctx> {
    /// The node of this type.
    pub closed spec fn spec_raw(self) -> Node<'ctx> {
        self.raw
    }

    fn new(raw: Node<'ctx>) -> (r: Self)
        ensures
            r.spec_raw() == raw,
    {
        Self { raw }
    }

    /// Get the underlying raw node.
    pub fn raw(&self) -> (r: Node<'ctx>)
        ensures
            r == self.spec_raw(),
    {
        self.raw
    }

    /// Get the simple name of this type (without module qualification).
    pub fn name(&self) -> (r: Option<&'ctx str>)
        ensures
            opt_str(r) == spec_named_name(self.spec_raw().data()),
    {
        if is_bound_generic(self.raw.kind()) {
            match self.raw.child(0) {
                Some(c) => Self::extract_name(c),
                None => None,
            }
        } else {
            Self::extract_name(self.raw)
        }
    }

    fn extract_name(node: Node<'ctx>) -> (r: Option<&'ctx str>)
        ensures
            opt_str(r) == named_extract_name(node.data()),
        decreases height(node.data()),
    {
        if let Some(id) = node.child_of_kind(NodeKind::Identifier) {
            return id.text();
        }
        if let Some(inner) = node.unwrap_if_kind(NodeKind::Type) {
            proof {
                lemma_child_height(node.data(), 0);
            }
            return Self::extract_name(inner);
        }
        node.text()
    }

    /// Get the module containing this type.
    pub fn module(&self) -> (r: Option<&'ctx str>)
        ensures
            opt_str(r) == named_module(self.spec_raw().data()),
    {
        Self::find_module_in_node(self.raw)
    }

    fn find_module_in_list(cs: &Vec<Node<'ctx>>, bound: Ghost<NodeData>) -> (r: Option<Option<&'ctx str>>)
        requires
            forall|j: int| 0 <= j < cs@.len() ==> height(#[trigger] cs@[j].data()) < height(bound@),
        ensures
            match r {
                Some(o) => named_module_list(datas(cs@)) == Some(opt_str(o)),
                None => named_module_list(datas(cs@)) is None,
            },
        decreases height(bound@), 1int,
    {
        let ghost s = datas(cs@);
        proof {
            assert(s.skip(0) =~= s);
        }
        let mut i: usize = 0;
        while i < cs.len()
            invariant
                i <= cs@.len(),
                s == datas(cs@),
                named_module_list(s) == named_module_list(s.skip(i as int)),
                forall|j: int| 0 <= j < cs@.len() ==> height(#[trigger] cs@[j].data()) < height(bound@),
            decreases cs@.len() - i,
        {
            proof { assert(datas(cs@)[i as int] == cs@[i as int].data()); }
            let c = cs[i];
            let ghost t = s.skip(i as int);
            proof {
                assert(t[0] == c.data());
                assert(t.drop_first() =~= s.skip(i + 1));
            }
            let k = c.kind();
            if k == NodeKind::Module {
                return Some(c.text());
            }
            if matches!(
                k,
                NodeKind::Type | NodeKind::Class | NodeKind::Structure | NodeKind::Enum
                    | NodeKind::Protocol | NodeKind::TypeAlias
            ) {
                if let Some(m) = Self::find_module_in_node_bounded(c, bound) {
                    return Some(Some(m));
                }
            }
            i = i + 1;
        }
        proof {
            assert(s.skip(i as int).len() == 0);
        }
        None
    }

    fn find_module_in_node_bounded(node: Node<'ctx>, bound: Ghost<NodeData>) -> (r: Option<&'ctx str>)
        requires
            height(node.data()) < height(bound@),
        ensures
            opt_str(r) == named_module(node.data()),
        decreases height(bound@), 0int,
    {
        Self::find_module_in_node(node)
    }

    fn find_module_in_node(node: Node<'ctx>) -> (r: Option<&'ctx str>)
        ensures
            opt_str(r) == named_module(node.data()),
        decreases height(node.data()), 2int,
    {
        let k = node.kind();
        let ghost d = node.data();
        if k == NodeKind::Type {
            return match node.child(0) {
                Some(c) => {
                    proof {
                        lemma_child_height(d, 0);
                    }
                    Self::find_module_in_node(c)
                },
                None => None,
            };
        }
        let search = if is_bound_generic(k) {
            node.first_child_or_self()
        } else {
            node
        };
        let cs = search.children();
        proof {
            if d.children@.len() > 0 {
                lemma_child_height(d, 0);
            }
            assert forall|j: int| 0 <= j < cs@.len() implies height(#[trigger] cs@[j].data()) < height(d) by {
                assert(cs@[j].data() == datas(cs@)[j]);
                lemma_child_height(search.data(), j);
            }
        }
        match Self::find_module_in_list(&cs, Ghost(d)) {
            Some(o) => o,
            None => None,
        }
    }

    /// Get the full qualified name of this type.
    pub fn full_name(&self) -> (s: String)
        ensures
            s@ == self.spec_raw().data().display@,
    {
        self.raw.to_string()
    }

    /// Get the generic arguments if this is a bound generic type.
    pub fn generic_args(&self) -> (v: Vec<TypeRef<'ctx>>)
        ensures
            type_datas(v@) == named_generic_args(self.spec_raw().data()),
    {
        let mut out: Vec<TypeRef<'ctx>> = Vec::new();
        if is_bound_generic(self.raw.kind()) {
            if let Some(list) = self.raw.child(1) {
                let cs = list.children();
                let ghost s = list.data().children@;
                let mut i: usize = 0;
                while i < cs.len()
                    invariant
                        i <= cs@.len(),
                        datas(cs@) == s,
                        type_datas(out@) == filter_map(s.take(i as int), type_or_self_hit()),
                    decreases cs@.len() - i,
                {
                    proof { assert(s[i as int] == cs@[i as int].data()); }
                    proof {
                        lemma_filter_map_step(s, type_or_self_hit(), i as int);
                    }
                    let c = cs[i];
                    if c.kind() == NodeKind::Type {
                        let t = c.first_child_or_self();
                        let ghost before = out@;
                        out.push(TypeRef::new(t));
                        proof {
                            assert(type_datas(out@) =~= type_datas(before).push(t.data()));
                        }
                    }
                    i = i + 1;
                }
                proof {
                    lemma_take_all(s);
                }
            }
        }
        out
    }

    /// Check if this is a class type (reference type, always a pointer at the ABI level).
    pub fn is_class(&self) -> (b: bool)
        ensures
            b == (self.spec_raw().data().kind == NodeKind::Class || self.spec_raw().data().kind
                == NodeKind::BoundGenericClass),
    {
        let k = self.raw.kind();
        k == NodeKind::Class || k == NodeKind::BoundGenericClass
    }

    /// Check if this is a bound generic type.
    pub fn is_generic(&self) -> (b: bool)
        ensures
            b == is_bound_generic_kind(self.spec_raw().data().kind),
    {
        is_bound_generic(self.raw.kind())
    }
}

/// Whether a kind is a bound generic type kind.
fn is_bound_generic(k: NodeKind) -> (b: bool)
    ensures
        b == is_bound_generic_kind(k),
{
    matches!(
        k,
        NodeKind::BoundGenericClass | NodeKind::BoundGenericStructure | NodeKind::BoundGenericEnum
            | NodeKind::BoundGenericProtocol | NodeKind::BoundGenericTypeAlias
            | NodeKind::BoundGenericOtherNominalType
    )
}


/// The view of a function parameter: its label, the node of its type, and
/// whether it is variadic.
pub type ParamView = (Option<Seq<char>>, NodeData, bool);

/// The views of a sequence of function parameters.
pub open spec fn param_views<'ctx>(s: Seq<FunctionParam<'ctx>>) -> Seq<ParamView> {
    s.map_values(|p: FunctionParam<'ctx>| (opt_str(p.label), p.type_ref.spec_raw().data(), p.is_variadic))
}

/// The state while reading a tuple element: label, type node, variadic flag.
pub type ElementState = (Option<Seq<char>>, Option<NodeData>, bool);

/// One step of reading a tuple element's children.
pub open spec fn element_step(st: ElementState, c: NodeData) -> ElementState {
    if c.kind == NodeKind::TupleElementName {
        (c.spec_text(), st.1, st.2)
    } else if c.kind == NodeKind::Type {
        (st.0, Some(first_child_or_self(c)), st.2)
    } else if c.kind == NodeKind::VariadicMarker {
        (st.0, st.1, true)
    } else if st.1 is None {
        (st.0, Some(c), st.2)
    } else {
        st
    }
}

/// The state after reading a sequence of tuple element children in order.
pub open spec fn element_fold(s: Seq<NodeData>) -> ElementState
    decreases s.len(),
{
    if s.len() == 0 {
        (None, None, false)
    } else {
        element_step(element_fold(s.drop_last()), s.last())
    }
}

/// The parameter described by a `TupleElement` node: its last label, its last
/// type (or first other child when it has no type), and whether it is variadic.
pub open spec fn param_of_element(n: NodeData) -> ParamView {
    let st = element_fold(n.children@);
    (st.0, match st.1 {
        Some(t) => t,
        None => n,
    }, st.2)
}

/// The children of kind `k` of a sequence, in order.
pub open spec fn children_of_kind(s: Seq<NodeData>, k: NodeKind) -> Seq<NodeData> {
    filter_map(s, kind_is(k))
}

/// Reading the children of a tuple element keeps the text of the last name
/// child as the label (none without a name child), the last type child
/// (looked through) as the type, and marks the element variadic exactly when
/// some child is a variadic marker.
pub proof fn lemma_element_fold(s: Seq<NodeData>)
    ensures
        element_fold(s).2 == (children_of_kind(s, NodeKind::VariadicMarker).len() > 0),
        element_fold(s).0 == if children_of_kind(s, NodeKind::TupleElementName).len() > 0 {
            children_of_kind(s, NodeKind::TupleElementName).last().spec_text()
        } else {
            None
        },
        children_of_kind(s, NodeKind::Type).len() > 0 ==> element_fold(s).1 == Some(
            first_child_or_self(children_of_kind(s, NodeKind::Type).last()),
        ),
    decreases s.len(),
{
    if s.len() > 0 {
        lemma_element_fold(s.drop_last());
    }
}

/// A search for kind `k` finds a node exactly when some child has kind `k`.
pub proof fn lemma_kind_search(s: Seq<NodeData>, k: NodeKind)
    ensures
        first_hit(s, kind_is(k)) is Some <==> children_of_kind(s, k).len() > 0,
    decreases s.len(),
{
    if s.len() > 0 {
        lemma_filter_map_first(s, kind_is(k));
        lemma_kind_search(s.drop_first(), k);
    }
}

/// A parameter read from a tuple element is variadic exactly when the element
/// has a variadic marker child; its label is the text of the element's last
/// name child, and none when it has no name child; its type is the last type
/// child, looked through, when it has one.
pub proof fn lemma_param_of_element(n: NodeData)
    ensures
        param_of_element(n).2 <==> spec_child_of_kind(n, NodeKind::VariadicMarker) is Some,
        param_of_element(n).0 == if children_of_kind(n.children@, NodeKind::TupleElementName).len()
            > 0 {
            children_of_kind(n.children@, NodeKind::TupleElementName).last().spec_text()
        } else {
            None
        },
        children_of_kind(n.children@, NodeKind::Type).len() > 0 ==> param_of_element(n).1
            == first_child_or_self(children_of_kind(n.children@, NodeKind::Type).last()),
{
    lemma_element_fold(n.children@);
    lemma_kind_search(n.children@, NodeKind::VariadicMarker);
}

/// Selects the parameters described by tuple elements.
pub open spec fn element_param_hit() -> spec_fn(NodeData) -> Option<ParamView> {
    |c: NodeData| if c.kind == NodeKind::TupleElement { Some(param_of_element(c)) } else { None }
}

/// The parameters described by an `ArgumentTuple` node.
pub open spec fn params_of_argument_tuple(a: NodeData) -> Seq<ParamView> {
    match first_child(a) {
        None => Seq::empty(),
        Some(n) => {
            let t = if n.kind == NodeKind::Type { first_child_or_self(n) } else { n };
            if t.kind == NodeKind::Tuple {
                filter_map(t.children@, element_param_hit())
            } else if t.children@.len() == 0 && t.spec_text() is None {
                Seq::empty()
            } else {
                seq![(None, t, false)]
            }
        },
    }
}

/// The type node of an `ImplParameter`.
pub open spec fn impl_param_type(c: NodeData) -> NodeData {
    match type_child_inner(c) {
        Some(t) => t,
        None => c,
    }
}

/// Selects the parameters of SIL function types.
pub open spec fn impl_param_hit() -> spec_fn(NodeData) -> Option<ParamView> {
    |c: NodeData|
        if c.kind == NodeKind::ImplParameter {
            Some((None, impl_param_type(c), false))
        } else {
            None
        }
}

/// What decides the parameters of a function type node.
pub open spec fn params_hit(d: NodeData) -> spec_fn(NodeData) -> Option<Seq<ParamView>> {
    |c: NodeData|
        if c.kind == NodeKind::ArgumentTuple {
            Some(params_of_argument_tuple(c))
        } else if c.kind == NodeKind::ImplParameter {
            Some(filter_map(d.children@, impl_param_hit()))
        } else {
            None
        }
}

/// The parameters of a function type node.
pub open spec fn spec_parameters(d: NodeData) -> Seq<ParamView> {
    match first_hit(d.children@, params_hit(d)) {
        Some(p) => p,
        None => Seq::empty(),
    }
}

/// What decides the return type of a function type node.
pub open spec fn return_hit() -> spec_fn(NodeData) -> Option<Option<NodeData>> {
    |c: NodeData|
        if c.kind == NodeKind::ReturnType {
            Some(
                match first_child(c) {
                    Some(t) => Some(first_child_or_self(t)),
                    None => None,
                },
            )
        } else if c.kind == NodeKind::ImplResult {
            Some(
                match spec_child_of_kind(c, NodeKind::Type) {
                    Some(t) => Some(first_child_or_self(t)),
                    None => None,
                },
            )
        } else {
            None
        }
}

/// The return type node of a function type node.
pub open spec fn spec_return_type(d: NodeData) -> Option<NodeData> {
    flatten(first_hit(d.children@, return_hit()))
}

/// The calling convention named by a convention text.
pub open spec fn convention_of_text(t: Seq<char>) -> FunctionConvention {
    if t == "c"@ {
        FunctionConvention::C
    } else if t == "block"@ {
        FunctionConvention::Block
    } else if t == "thin"@ {
        FunctionConvention::Thin
    } else {
        FunctionConvention::Swift
    }
}

/// The convention given by a convention child with text.
pub open spec fn convention_hit() -> spec_fn(NodeData) -> Option<FunctionConvention> {
    |c: NodeData|
        if (c.kind == NodeKind::ImplFunctionConvention || c.kind
            == NodeKind::ImplFunctionConventionName) && c.spec_text() is Some {
            Some(convention_of_text(c.spec_text().unwrap()))
        } else {
            None
        }
}

/// The calling convention of a function type node.
pub open spec fn spec_convention(d: NodeData) -> FunctionConvention {
    if d.kind == NodeKind::CFunctionPointer {
        FunctionConvention::C
    } else if d.kind == NodeKind::ObjCBlock || d.kind == NodeKind::EscapingObjCBlock {
        FunctionConvention::Block
    } else if d.kind == NodeKind::ThinFunctionType {
        FunctionConvention::Thin
    } else {
        match first_hit(d.children@, convention_hit()) {
            Some(c) => c,
            None => FunctionConvention::Swift,
        }
    }
}

/// Whether two strings have the same characters.
pub fn str_eq(a: &str, b: &str) -> (r: bool)
    ensures
        r == (a@ == b@),
{
    let n = a.unicode_len();
    if n != b.unicode_len() {
        return false;
    }
    let mut i: usize = 0;
    while i < n
        invariant
            n == a@.len(),
            n == b@.len(),
            i <= n,
            forall|j: int| 0 <= j < i ==> a@[j] == b@[j],
        decreases n - i,
    {
        if a.get_char(i) != b.get_char(i) {
            return false;
        }
        i = i + 1;
    }
    proof {
        assert(a@ =~= b@);
    }
    true
}

/// A Swift function type.
#[derive(Clone, Copy)]
pub struct FunctionType<'ctx> {
    raw: Node<'ctx>,
}

impl<'ctx> FunctionType<'ctx> {
    /// The node of this function type.
    pub closed spec fn spec_raw(self) -> Node<'ctx> {
        self.raw
    }

    /// Create a FunctionType from a raw node.
    pub fn new(raw: Node<'ctx>) -> (r: Self)
        ensures
            r.spec_raw() == raw,
    {
        Self { raw }
    }

    /// Get the underlying raw node.
    pub fn raw(&self) -> (r: Node<'ctx>)
        ensures
            r == self.spec_raw(),
    {
        self.raw
    }

    /// Get the parameters of this function type.
    pub fn parameters(&self) -> (v: Vec<FunctionParam<'ctx>>)
        ensures
            param_views(v@) == spec_parameters(self.spec_raw().data()),
    {
        let cs = self.raw.children();
        let ghost d = self.raw.data();
        let ghost s = d.children@;
        let mut i: usize = 0;
        while i < cs.len()
            invariant
                i <= cs@.len(),
                datas(cs@) == s,
                s == d.children@,
                d == self.spec_raw().data(),
                forall|j: int| 0 <= j < i ==> (#[trigger] (params_hit(d))(s[j])) is None,
            decreases cs@.len() - i,
        {
            proof { assert(s[i as int] == cs@[i as int].data()); }
            let c = cs[i];
            if c.kind() == NodeKind::ArgumentTuple {
                proof {
                    lemma_first_hit_at(s, params_hit(d), i as int);
                }
                return Self::extract_params_from_argument_tuple(c);
            }
            if c.kind() == NodeKind::ImplParameter {
                proof {
                    lemma_first_hit_at(s, params_hit(d), i as int);
                }
                return self.extract_impl_params();
            }
            i = i + 1;
        }
        proof {
            lemma_first_hit_none(s, params_hit(d));
        }
        Vec::new()
    }

    fn extract_params_from_argument_tuple(arg_tuple: Node<'ctx>) -> (v: Vec<FunctionParam<'ctx>>)
        ensures
            param_views(v@) == params_of_argument_tuple(arg_tuple.data()),
    {
        let type_node = match arg_tuple.child(0) {
            Some(n) => if n.kind() == NodeKind::Type {
                n.first_child_or_self()
            } else {
                n
            },
            None => return Vec::new(),
        };
        if type_node.kind() == NodeKind::Tuple {
            let cs = type_node.children();
            let ghost s = type_node.data().children@;
            let mut out: Vec<FunctionParam<'ctx>> = Vec::new();
            let mut i: usize = 0;
            while i < cs.len()
                invariant
                    i <= cs@.len(),
                    datas(cs@) == s,
                    param_views(out@) == filter_map(s.take(i as int), element_param_hit()),
                decreases cs@.len() - i,
            {
                proof { assert(s[i as int] == cs@[i as int].data()); }
                proof {
                    lemma_filter_map_step(s, element_param_hit(), i as int);
                }
                let c = cs[i];
                if c.kind() == NodeKind::TupleElement {
                    let p = FunctionParam::from_tuple_element(c);
                    let ghost before = out@;
                    out.push(p);
                    proof {
                        assert(param_views(out@) =~= param_views(before).push(param_of_element(c.data())));
                    }
                }
                i = i + 1;
            }
            proof {
                lemma_take_all(s);
            }
            out
        } else if type_node.num_children() == 0 && type_node.text().is_none() {
            Vec::new()
        } else {
            let mut out: Vec<FunctionParam<'ctx>> = Vec::new();
            out.push(FunctionParam { label: None, type_ref: TypeRef::new(type_node), is_variadic: false });
            proof {
                assert(param_views(out@) =~= seq![(None::<Seq<char>>, type_node.data(), false)]);
            }
            out
        }
    }

    fn extract_impl_params(&self) -> (v: Vec<FunctionParam<'ctx>>)
        ensures
            param_views(v@) == filter_map(self.spec_raw().data().children@, impl_param_hit()),
    {
        let cs = self.raw.children();
        let ghost s = self.raw.data().children@;
        let mut out: Vec<FunctionParam<'ctx>> = Vec::new();
        let mut i: usize = 0;
        while i < cs.len()
            invariant
                i <= cs@.len(),
                datas(cs@) == s,
                param_views(out@) == filter_map(s.take(i as int), impl_param_hit()),
            decreases cs@.len() - i,
        {
            proof { assert(s[i as int] == cs@[i as int].data()); }
            proof {
                lemma_filter_map_step(s, impl_param_hit(), i as int);
            }
            let c = cs[i];
            if c.kind() == NodeKind::ImplParameter {
                let type_node = match c.child_of_kind(NodeKind::Type) {
                    Some(t) => match t.child(0) {
                        Some(x) => x,
                        None => c,
                    },
                    None => c,
                };
                let ghost before = out@;
                out.push(FunctionParam { label: None, type_ref: TypeRef::new(type_node), is_variadic: false });
                proof {
                    assert(param_views(out@) =~= param_views(before).push((None, impl_param_type(c.data()), false)));
                }
            }
            i = i + 1;
        }
        proof {
            lemma_take_all(s);
        }
        out
    }

    /// Get the return type of this function.
    pub fn return_type(&self) -> (r: Option<TypeRef<'ctx>>)
        ensures
            opt_type_data(r) == spec_return_type(self.spec_raw().data()),
    {
        let cs = self.raw.children();
        let ghost s = self.raw.data().children@;
        let mut i: usize = 0;
        while i < cs.len()
            invariant
                i <= cs@.len(),
                datas(cs@) == s,
                forall|j: int| 0 <= j < i ==> (#[trigger] (return_hit())(s[j])) is None,
            decreases cs@.len() - i,
        {
            proof { assert(s[i as int] == cs@[i as int].data()); }
            let c = cs[i];
            if c.kind() == NodeKind::ReturnType {
                proof {
                    lemma_first_hit_at(s, return_hit(), i as int);
                }
                return match c.child(0) {
                    Some(t) => Some(TypeRef::new(t.first_child_or_self())),
                    None => None,
                };
            }
            if c.kind() == NodeKind::ImplResult {
                proof {
                    lemma_first_hit_at(s, return_hit(), i as int);
                }
                return match c.child_of_kind(NodeKind::Type) {
                    Some(t) => Some(TypeRef::new(t.first_child_or_self())),
                    None => None,
                };
            }
            i = i + 1;
        }
        proof {
            lemma_first_hit_none(s, return_hit());
        }
        None
    }

    /// Check if this function is async.
    pub fn is_async(&self) -> (b: bool)
        ensures
            b == spec_descendant_of_kind(self.spec_raw().data(), NodeKind::AsyncAnnotation) is Some,
    {
        self.raw.descendant_of_kind(NodeKind::AsyncAnnotation).is_some()
    }

    /// Check if this function throws.
    pub fn is_throwing(&self) -> (b: bool)
        ensures
            b == first_hit(
                descendants(self.spec_raw().data()),
                kind_either(NodeKind::ThrowsAnnotation, NodeKind::TypedThrowsAnnotation),
            ) is Some,
    {
        let ds = self.raw.descendants();
        find_either_in(&ds, NodeKind::ThrowsAnnotation, NodeKind::TypedThrowsAnnotation).is_some()
    }

    /// Get the thrown error type if this function has typed throws.
    pub fn thrown_error_type(&self) -> (r: Option<TypeRef<'ctx>>)
        ensures
            opt_type_data(r) == match spec_descendant_of_kind(
                self.spec_raw().data(),
                NodeKind::TypedThrowsAnnotation,
            ) {
                Some(n) => first_child(n),
                None => None,
            },
    {
        match self.raw.descendant_of_kind(NodeKind::TypedThrowsAnnotation) {
            Some(n) => match n.child(0) {
                Some(c) => Some(TypeRef::new(c)),
                None => None,
            },
            None => None,
        }
    }

    /// Get the calling convention of this function.
    pub fn convention(&self) -> (c: FunctionConvention)
        ensures
            c == spec_convention(self.spec_raw().data()),
    {
        let k = self.raw.kind();
        if k == NodeKind::CFunctionPointer {
            return FunctionConvention::C;
        }
        if k == NodeKind::ObjCBlock || k == NodeKind::EscapingObjCBlock {
            return FunctionConvention::Block;
        }
        if k == NodeKind::ThinFunctionType {
            return FunctionConvention::Thin;
        }
        let cs = self.raw.children();
        let ghost s = self.raw.data().children@;
        let mut i: usize = 0;
        while i < cs.len()
            invariant
                i <= cs@.len(),
                datas(cs@) == s,
                forall|j: int| 0 <= j < i ==> (#[trigger] (convention_hit())(s[j])) is None,
            decreases cs@.len() - i,
        {
            proof { assert(s[i as int] == cs@[i as int].data()); }
            let c = cs[i];
            let ck = c.kind();
            if ck == NodeKind::ImplFunctionConvention || ck == NodeKind::ImplFunctionConventionName {
                if let Some(text) = c.text() {
                    proof {
                        lemma_first_hit_at(s, convention_hit(), i as int);
                    }
                    return if str_eq(text, "c") {
                        FunctionConvention::C
                    } else if str_eq(text, "block") {
                        FunctionConvention::Block
                    } else if str_eq(text, "thin") {
                        FunctionConvention::Thin
                    } else {
                        FunctionConvention::Swift
                    };
                }
            }
            i = i + 1;
        }
        proof {
            lemma_first_hit_none(s, convention_hit());
        }
        FunctionConvention::Swift
    }

    /// Check if this function type escapes.
    pub fn is_escaping(&self) -> (b: bool)
        ensures
            b == !(self.spec_raw().data().kind == NodeKind::NoEscapeFunctionType
                || self.spec_raw().data().kind == NodeKind::AutoClosureType),
    {
        let k = self.raw.kind();
        !(k == NodeKind::NoEscapeFunctionType || k == NodeKind::AutoClosureType)
    }

    /// Check if this is an autoclosure.
    pub fn is_autoclosure(&self) -> (b: bool)
        ensures
            b == (self.spec_raw().data().kind == NodeKind::AutoClosureType
                || self.spec_raw().data().kind == NodeKind::EscapingAutoClosureType),
    {
        let k = self.raw.kind();
        k == NodeKind::AutoClosureType || k == NodeKind::EscapingAutoClosureType
    }

    /// Check if this function has a sending result.
    pub fn has_sending_result(&self) -> (b: bool)
        ensures
            b == spec_child_of_kind(self.spec_raw().data(), NodeKind::SendingResultFunctionType) is Some,
    {
        self.raw.child_of_kind(NodeKind::SendingResultFunctionType).is_some()
    }
}

/// A parameter in a function type.
pub struct FunctionParam<'ctx> {
    /// The parameter label, if any.
    pub label: Option<&'ctx str>,
    /// The type of the parameter.
    pub type_ref: TypeRef<'ctx>,
    /// Whether this is a variadic parameter (T...).
    pub is_variadic: bool,
}

impl<'ctx> FunctionParam<'ctx> {
    fn from_tuple_element(node: Node<'ctx>) -> (p: Self)
        ensures
            (opt_str(p.label), p.type_ref.spec_raw().data(), p.is_variadic) == param_of_element(node.data()),
    {
        let cs = node.children();
        let ghost s = node.data().children@;
        let mut label: Option<&'ctx str> = None;
        let mut type_node: Option<Node<'ctx>> = None;
        let mut is_variadic = false;
        let mut i: usize = 0;
        while i < cs.len()
            invariant
                i <= cs@.len(),
                datas(cs@) == s,
                (opt_str(label), opt_data(type_node), is_variadic) == element_fold(s.take(i as int)),
            decreases cs@.len() - i,
        {
            proof { assert(s[i as int] == cs@[i as int].data()); }
            proof {
                assert(s.take(i + 1).drop_last() =~= s.take(i as int));
                assert(s.take(i + 1).last() == s[i as int]);
            }
            let child = cs[i];
            let k = child.kind();
            if k == NodeKind::TupleElementName {
                label = child.text();
            } else if k == NodeKind::Type {
                type_node = Some(child.first_child_or_self());
            } else if k == NodeKind::VariadicMarker {
                is_variadic = true;
            } else if type_node.is_none() {
                type_node = Some(child);
            }
            i = i + 1;
        }
        proof {
            lemma_take_all(s);
        }
        let t = match type_node {
            Some(t) => t,
            None => node,
        };
        FunctionParam { label, type_ref: TypeRef::new(t), is_variadic }
    }
}

/// The calling convention of a function type.
#[derive(Debug, Clone, Copy, PartialEq, Eq, Structural)]
pub enum FunctionConvention {
    /// Swift calling convention (default).
    Swift,
    /// C calling convention (`@convention(c)`).
    C,
    /// Objective-C block calling convention (`@convention(block)`).
    Block,
    /// Thin function (no context).
    Thin,
}


/// A tuple element.
#[derive(Clone, Copy)]
pub struct TupleElement<'ctx> {
    raw: Node<'ctx>,
}

impl<'ctx> TupleElement<'ctx> {
    /// The node of this element.
    pub closed spec fn spec_raw(self) -> Node<'ctx> {
        self.raw
    }

    /// Create a TupleElement from a raw node.
    pub fn new(raw: Node<'ctx>) -> (r: Self)
        ensures
            r.spec_raw() == raw,
    {
        Self { raw }
    }

    /// Get the underlying raw node.
    pub fn raw(&self) -> (r: Node<'ctx>)
        ensures
            r == self.spec_raw(),
    {
        self.raw
    }

    /// Get the label of this tuple element, if any.
    pub fn label(&self) -> (r: Option<&'ctx str>)
        ensures
            opt_str(r) == text_of(spec_child_of_kind(self.spec_raw().data(), NodeKind::TupleElementName)),
    {
        text_of_node(self.raw.child_of_kind(NodeKind::TupleElementName))
    }

    /// Get the type of this tuple element.
    pub fn type_ref(&self) -> (t: TypeRef<'ctx>)
        ensures
            t.spec_raw().data() == match type_child_inner(self.spec_raw().data()) {
                Some(n) => n,
                None => self.spec_raw().data(),
            },
    {
        let type_node = match self.raw.child_of_kind(NodeKind::Type) {
            Some(c) => match c.child(0) {
                Some(n) => n,
                None => self.raw,
            },
            None => self.raw,
        };
        TypeRef::new(type_node)
    }

    /// Check if this is a variadic element (T...).
    pub fn is_variadic(&self) -> (b: bool)
        ensures
            b == spec_child_of_kind(self.spec_raw().data(), NodeKind::VariadicMarker) is Some,
    {
        self.raw.child_of_kind(NodeKind::VariadicMarker).is_some()
    }
}

/// The text of the first `ImplConvention` child.
pub open spec fn impl_convention(d: NodeData) -> Option<Seq<char>> {
    text_of(spec_child_of_kind(d, NodeKind::ImplConvention))
}

/// A parameter in a SIL implementation function type.
#[derive(Clone, Copy)]
pub struct ImplParam<'ctx> {
    raw: Node<'ctx>,
}

impl<'ctx> ImplParam<'ctx> {
    /// The node of this parameter.
    pub closed spec fn spec_raw(self) -> Node<'ctx> {
        self.raw
    }

    fn new(raw: Node<'ctx>) -> (r: Self)
        ensures
            r.spec_raw() == raw,
    {
        Self { raw }
    }

    /// Get the convention (e.g., "@guaranteed", "@owned", "@in", "@inout").
    pub fn convention(&self) -> (r: Option<&'ctx str>)
        ensures
            opt_str(r) == impl_convention(self.spec_raw().data()),
    {
        text_of_node(self.raw.child_of_kind(NodeKind::ImplConvention))
    }

    /// Get the type of this parameter.
    pub fn type_ref(&self) -> (r: Option<TypeRef<'ctx>>)
        ensures
            opt_type_data(r) == type_child_inner(self.spec_raw().data()),
    {
        match self.raw.child_of_kind(NodeKind::Type) {
            Some(t) => match t.child(0) {
                Some(n) => Some(TypeRef::new(n)),
                None => None,
            },
            None => None,
        }
    }

    /// Check if this parameter has the "sending" attribute.
    pub fn is_sending(&self) -> (b: bool)
        ensures
            b == spec_child_of_kind(self.spec_raw().data(), NodeKind::ImplParameterSending) is Some,
    {
        self.raw.child_of_kind(NodeKind::ImplParameterSending).is_some()
    }
}

/// A result in a SIL implementation function type.
#[derive(Clone, Copy)]
pub struct ImplResult<'ctx> {
    raw: Node<'ctx>,
}

impl<'ctx> ImplResult<'ctx> {
    /// The node of this result.
    pub closed spec fn spec_raw(self) -> Node<'ctx> {
        self.raw
    }

    fn new(raw: Node<'ctx>) -> (r: Self)
        ensures
            r.spec_raw() == raw,
    {
        Self { raw }
    }

    /// Get the convention (e.g., "@owned", "@out").
    pub fn convention(&self) -> (r: Option<&'ctx str>)
        ensures
            opt_str(r) == impl_convention(self.spec_raw().data()),
    {
        text_of_node(self.raw.child_of_kind(NodeKind::ImplConvention))
    }

    /// Get the type of this result.
    pub fn type_ref(&self) -> (r: Option<TypeRef<'ctx>>)
        ensures
            opt_type_data(r) == type_child_inner(self.spec_raw().data()),
    {
        match self.raw.child_of_kind(NodeKind::Type) {
            Some(t) => match t.child(0) {
                Some(n) => Some(TypeRef::new(n)),
                None => None,
            },
            None => None,
        }
    }
}

/// The nodes of SIL parameters.
pub open spec fn impl_param_datas<'ctx>(s: Seq<ImplParam<'ctx>>) -> Seq<NodeData> {
    s.map_values(|p: ImplParam<'ctx>| p.spec_raw().data())
}

/// The nodes of SIL results.
pub open spec fn impl_result_datas<'ctx>(s: Seq<ImplResult<'ctx>>) -> Seq<NodeData> {
    s.map_values(|p: ImplResult<'ctx>| p.spec_raw().data())
}

/// Selects the substitution lists of a SIL function type.
pub open spec fn substitutions_hit() -> spec_fn(NodeData) -> Option<Seq<NodeData>> {
    |c: NodeData|
        if c.kind == NodeKind::ImplPatternSubstitutions || c.kind
            == NodeKind::ImplInvocationSubstitutions {
            Some(filter_map(c.children@, type_inner_hit()))
        } else {
            None
        }
}

/// Build type references for the inner types of the `Type` children of a node.
fn inner_types_of<'ctx>(node: Node<'ctx>) -> (v: Vec<TypeRef<'ctx>>)
    ensures
        type_datas(v@) == filter_map(node.data().children@, type_inner_hit()),
{
    let cs = node.children();
    let ghost s = node.data().children@;
    let mut out: Vec<TypeRef<'ctx>> = Vec::new();
    let mut i: usize = 0;
    while i < cs.len()
        invariant
            i <= cs@.len(),
            datas(cs@) == s,
            type_datas(out@) == filter_map(s.take(i as int), type_inner_hit()),
        decreases cs@.len() - i,
    {
        proof { assert(s[i as int] == cs@[i as int].data()); }
        proof {
            lemma_filter_map_step(s, type_inner_hit(), i as int);
        }
        let c = cs[i];
        if c.kind() == NodeKind::Type {
            if let Some(inner) = c.child(0) {
                let ghost before = out@;
                out.push(TypeRef::new(inner));
                proof {
                    assert(type_datas(out@) =~= type_datas(before).push(inner.data()));
                }
            }
        }
        i = i + 1;
    }
    proof {
        lemma_take_all(s);
    }
    out
}

/// A SIL implementation function type.
///
/// This represents a function type with detailed SIL-level information
/// including calling conventions, parameter passing conventions, and ownership.
#[derive(Clone, Copy)]
pub struct ImplFunctionType<'ctx> {
    raw: Node<'ctx>,
}

impl<'ctx> ImplFunctionType<'ctx> {
    /// The node of this function type.
    pub closed spec fn spec_raw(self) -> Node<'ctx> {
        self.raw
    }

    /// Create an ImplFunctionType from a raw node.
    pub fn new(raw: Node<'ctx>) -> (r: Self)
        ensures
            r.spec_raw() == raw,
    {
        Self { raw }
    }

    /// Get the underlying raw node.
    pub fn raw(&self) -> (r: Node<'ctx>)
        ensures
            r == self.spec_raw(),
    {
        self.raw
    }

    /// Get the callee convention (e.g., "@callee_guaranteed", "@callee_owned").
    pub fn callee_convention(&self) -> (r: Option<&'ctx str>)
        ensures
            opt_str(r) == impl_convention(self.spec_raw().data()),
    {
        text_of_node(self.raw.child_of_kind(NodeKind::ImplConvention))
    }

    /// Get the parameters with their conventions.
    pub fn parameters(&self) -> (v: Vec<ImplParam<'ctx>>)
        ensures
            impl_param_datas(v@) == filter_map(self.spec_raw().data().children@, kind_is(NodeKind::ImplParameter)),
    {
        let ns = self.raw.children_of_kind(NodeKind::ImplParameter);
        let mut out: Vec<ImplParam<'ctx>> = Vec::new();
        let mut i: usize = 0;
        while i < ns.len()
            invariant
                i <= ns@.len(),
                impl_param_datas(out@) =~= datas(ns@).take(i as int),
            decreases ns@.len() - i,
        {
            proof { assert(datas(ns@)[i as int] == ns@[i as int].data()); }
            out.push(ImplParam::new(ns[i]));
            proof {
                assert(datas(ns@).take(i + 1) =~= datas(ns@).take(i as int).push(ns@[i as int].data()));
            }
            i = i + 1;
        }
        proof {
            lemma_take_all(datas(ns@));
        }
        out
    }

    /// Get the results with their conventions.
    pub fn results(&self) -> (v: Vec<ImplResult<'ctx>>)
        ensures
            impl_result_datas(v@) == filter_map(self.spec_raw().data().children@, kind_is(NodeKind::ImplResult)),
    {
        let ns = self.raw.children_of_kind(NodeKind::ImplResult);
        let mut out: Vec<ImplResult<'ctx>> = Vec::new();
        let mut i: usize = 0;
        while i < ns.len()
            invariant
                i <= ns@.len(),
                impl_result_datas(out@) =~= datas(ns@).take(i as int),
            decreases ns@.len() - i,
        {
            proof { assert(datas(ns@)[i as int] == ns@[i as int].data()); }
            out.push(ImplResult::new(ns[i]));
            proof {
                assert(datas(ns@).take(i + 1) =~= datas(ns@).take(i as int).push(ns@[i as int].data()));
            }
            i = i + 1;
        }
        proof {
            lemma_take_all(datas(ns@));
        }
        out
    }

    /// Get the error result if present.
    pub fn error_result(&self) -> (r: Option<ImplResult<'ctx>>)
        ensures
            match r {
                Some(e) => spec_child_of_kind(self.spec_raw().data(), NodeKind::ImplErrorResult) == Some(e.spec_raw().data()),
                None => spec_child_of_kind(self.spec_raw().data(), NodeKind::ImplErrorResult) is None,
            },
    {
        match self.raw.child_of_kind(NodeKind::ImplErrorResult) {
            Some(n) => Some(ImplResult::new(n)),
            None => None,
        }
    }

    /// Get the generic signature if this is a substituted function type.
    pub fn generic_signature(&self) -> (r: Option<GenericSignature<'ctx>>)
        ensures
            opt_sig_data(r) == spec_child_of_kind(self.spec_raw().data(), NodeKind::DependentGenericSignature),
    {
        match self.raw.child_of_kind(NodeKind::DependentGenericSignature) {
            Some(n) => Some(GenericSignature::new(n)),
            None => None,
        }
    }

    /// Get the substitution types (the "for <...>" part).
    pub fn substitutions(&self) -> (v: Vec<TypeRef<'ctx>>)
        ensures
            type_datas(v@) == match first_hit(self.spec_raw().data().children@, substitutions_hit()) {
                Some(t) => t,
                None => Seq::empty(),
            },
    {
        let cs = self.raw.children();
        let ghost s = self.raw.data().children@;
        let mut i: usize = 0;
        while i < cs.len()
            invariant
                i <= cs@.len(),
                datas(cs@) == s,
                forall|j: int| 0 <= j < i ==> (#[trigger] (substitutions_hit())(s[j])) is None,
            decreases cs@.len() - i,
        {
            proof { assert(s[i as int] == cs@[i as int].data()); }
            let c = cs[i];
            let k = c.kind();
            if k == NodeKind::ImplPatternSubstitutions || k == NodeKind::ImplInvocationSubstitutions {
                proof {
                    lemma_first_hit_at(s, substitutions_hit(), i as int);
                }
                return inner_types_of(c);
            }
            i = i + 1;
        }
        proof {
            lemma_first_hit_none(s, substitutions_hit());
        }
        Vec::new()
    }

    /// Check if this function is escaping.
    pub fn is_escaping(&self) -> (b: bool)
        ensures
            b == spec_child_of_kind(self.spec_raw().data(), NodeKind::ImplEscaping) is Some,
    {
        self.raw.child_of_kind(NodeKind::ImplEscaping).is_some()
    }

    /// Check if this function has a sending result.
    pub fn has_sending_result(&self) -> (b: bool)
        ensures
            b == spec_child_of_kind(self.spec_raw().data(), NodeKind::ImplSendingResult) is Some,
    {
        self.raw.child_of_kind(NodeKind::ImplSendingResult).is_some()
    }
}

/// Selects the generic parameter counts of a signature.
pub open spec fn param_count_hit() -> spec_fn(NodeData) -> Option<u64> {
    |c: NodeData| if c.kind == NodeKind::DependentGenericParamCount { c.index } else { None }
}

/// Kinds of generic requirements.
pub open spec fn is_requirement_kind(k: NodeKind) -> bool {
    matches!(
        k,
        NodeKind::DependentGenericConformanceRequirement
            | NodeKind::DependentGenericSameTypeRequirement
            | NodeKind::DependentGenericLayoutRequirement
    )
}

/// Selects the requirement nodes of a signature.
pub open spec fn requirement_hit() -> spec_fn(NodeData) -> Option<NodeData> {
    |c: NodeData| if is_requirement_kind(c.kind) { Some(c) } else { None }
}

/// Whether `r` is the requirement described by the node `n`.
pub open spec fn requirement_of<'ctx>(r: GenericRequirement<'ctx>, n: NodeData) -> bool {
    if n.kind == NodeKind::DependentGenericConformanceRequirement {
        r.spec_kind() matches GenericRequirementKind::Conformance { subject, constraint }
            && opt_type_data(subject) == nth_type_inner(n, 0) && opt_type_data(constraint)
            == nth_type_inner(n, 1)
    } else if n.kind == NodeKind::DependentGenericSameTypeRequirement {
        r.spec_kind() matches GenericRequirementKind::SameType { first, second } && opt_type_data(
            first,
        ) == nth_type_inner(n, 0) && opt_type_data(second) == nth_type_inner(n, 1)
    } else if n.kind == NodeKind::DependentGenericLayoutRequirement {
        r.spec_kind() matches GenericRequirementKind::Layout { subject, layout } && opt_type_data(
            subject,
        ) == type_child_inner(n) && opt_str(layout) == text_of(
            spec_child_of_kind(n, NodeKind::Identifier),
        )
    } else {
        false
    }
}

/// Whether `rs` are the requirements of the signature node `d`, in order.
pub open spec fn reqs_match<'ctx>(rs: Seq<GenericRequirement<'ctx>>, d: NodeData) -> bool {
    let ns = filter_map(d.children@, requirement_hit());
    &&& rs.len() == ns.len()
    &&& forall|i: int| 0 <= i < rs.len() ==> requirement_of(#[trigger] rs[i], ns[i])
}

/// A generic signature describing generic parameters and their constraints.
#[derive(Clone, Copy)]
pub struct GenericSignature<'ctx> {
    raw: Node<'ctx>,
}

impl<'ctx> GenericSignature<'ctx> {
    /// The `DependentGenericSignature` node.
    pub closed spec fn spec_raw(self) -> Node<'ctx> {
        self.raw
    }

    /// Create a GenericSignature from a raw DependentGenericSignature node.
    pub fn new(raw: Node<'ctx>) -> (r: Self)
        ensures
            r.spec_raw() == raw,
    {
        Self { raw }
    }

    /// Get the underlying raw node.
    pub fn raw(&self) -> (r: Node<'ctx>)
        ensures
            r == self.spec_raw(),
    {
        self.raw
    }

    /// Get the number of generic parameters at each depth level.
    ///
    /// Returns a vector where index 0 is depth 0 params, index 1 is depth 1 params, etc.
    pub fn param_counts(&self) -> (v: Vec<u64>)
        ensures
            v@ == filter_map(self.spec_raw().data().children@, param_count_hit()),
    {
        let cs = self.raw.children();
        let ghost s = self.raw.data().children@;
        let mut out: Vec<u64> = Vec::new();
        let mut i: usize = 0;
        while i < cs.len()
            invariant
                i <= cs@.len(),
                datas(cs@) == s,
                out@ == filter_map(s.take(i as int), param_count_hit()),
            decreases cs@.len() - i,
        {
            proof { assert(s[i as int] == cs@[i as int].data()); }
            proof {
                lemma_filter_map_step(s, param_count_hit(), i as int);
            }
            let c = cs[i];
            if c.kind() == NodeKind::DependentGenericParamCount {
                if let Some(n) = c.index() {
                    out.push(n);
                }
            }
            i = i + 1;
        }
        proof {
            lemma_take_all(s);
        }
        out
    }

    /// Get all generic requirements (constraints).
    pub fn requirements(&self) -> (v: Vec<GenericRequirement<'ctx>>)
        ensures
            reqs_match(v@, self.spec_raw().data()),
    {
        let cs = self.raw.children();
        let ghost s = self.raw.data().children@;
        let mut out: Vec<GenericRequirement<'ctx>> = Vec::new();
        let mut i: usize = 0;
        while i < cs.len()
            invariant
                i <= cs@.len(),
                datas(cs@) == s,
                out@.len() == filter_map(s.take(i as int), requirement_hit()).len(),
                forall|j: int| 0 <= j < out@.len() ==> requirement_of(#[trigger] out@[j], filter_map(s.take(i as int), requirement_hit())[j]),
            decreases cs@.len() - i,
        {
            proof { assert(s[i as int] == cs@[i as int].data()); }
            proof {
                lemma_filter_map_step(s, requirement_hit(), i as int);
            }
            let c = cs[i];
            let k = c.kind();
            if k == NodeKind::DependentGenericConformanceRequirement {
                out.push(GenericRequirement::from_conformance_node(c));
            } else if k == NodeKind::DependentGenericSameTypeRequirement {
                out.push(GenericRequirement::from_same_type_node(c));
            } else if k == NodeKind::DependentGenericLayoutRequirement {
                out.push(GenericRequirement::from_layout_node(c));
            }
            i = i + 1;
        }
        proof {
            lemma_take_all(s);
        }
        out
    }
}

/// The inner type of the `i`-th child when it is a `Type` node.
fn nth_type_inner_of<'ctx>(node: Node<'ctx>, i: usize) -> (r: Option<TypeRef<'ctx>>)
    ensures
        opt_type_data(r) == nth_type_inner(node.data(), i as int),
{
    match node.child(i) {
        Some(c) => if c.kind() == NodeKind::Type {
            match c.child(0) {
                Some(n) => Some(TypeRef::new(n)),
                None => None,
            }
        } else {
            None
        },
        None => None,
    }
}

/// The display of an optional type, or `?`.
pub open spec fn display_or_unknown<'ctx>(o: Option<TypeRef<'ctx>>) -> Seq<char> {
    match o {
        Some(t) => t.spec_raw().data().display@,
        None => "?"@,
    }
}

/// Render an optional type, or `?`.
fn display_or_unknown_of<'ctx>(o: Option<TypeRef<'ctx>>) -> (s: String)
    ensures
        s@ == display_or_unknown(o),
{
    match o {
        Some(t) => t.display(),
        None => String::from_str("?"),
    }
}

/// The display string of a requirement: `subject: constraint`,
/// `first == second`, or `subject: layout`, with `?` for what is missing.
pub open spec fn requirement_display<'ctx>(k: GenericRequirementKind<'ctx>) -> Seq<char> {
    match k {
        GenericRequirementKind::Conformance { subject, constraint } => display_or_unknown(subject)
            + ": "@ + display_or_unknown(constraint),
        GenericRequirementKind::SameType { first, second } => display_or_unknown(first) + " == "@
            + display_or_unknown(second),
        GenericRequirementKind::Layout { subject, layout } => display_or_unknown(subject) + ": "@
            + match layout {
            Some(l) => l@,
            None => "?"@,
        },
    }
}

/// A same-type requirement renders as its two types joined by ` == `, and
/// never as the conformance requirement between the same two types, which
/// joins them by `: `.
pub proof fn lemma_requirement_display_kinds<'ctx>(a: Option<TypeRef<'ctx>>, b: Option<TypeRef<'ctx>>)
    ensures
        requirement_display(GenericRequirementKind::SameType { first: a, second: b })
            == display_or_unknown(a) + " == "@ + display_or_unknown(b),
        requirement_display(GenericRequirementKind::Conformance { subject: a, constraint: b })
            == display_or_unknown(a) + ": "@ + display_or_unknown(b),
        requirement_display(GenericRequirementKind::SameType { first: a, second: b })
            != requirement_display(GenericRequirementKind::Conformance { subject: a, constraint: b }),
{
    reveal_strlit(" == ");
    reveal_strlit(": ");
    let s = requirement_display(GenericRequirementKind::SameType { first: a, second: b });
    let c = requirement_display(GenericRequirementKind::Conformance { subject: a, constraint: b });
    assert(s.len() == display_or_unknown(a).len() + 4 + display_or_unknown(b).len());
    assert(c.len() == display_or_unknown(a).len() + 2 + display_or_unknown(b).len());
}

/// A generic requirement (constraint) on a generic parameter.
#[derive(Clone, Copy)]
pub struct GenericRequirement<'ctx> {
    kind: GenericRequirementKind<'ctx>,
}

impl<'ctx> GenericRequirement<'ctx> {
    /// The kind of this requirement.
    pub closed spec fn spec_kind(self) -> GenericRequirementKind<'ctx> {
        self.kind
    }

    fn from_conformance_node(node: Node<'ctx>) -> (r: Self)
        requires
            node.data().kind == NodeKind::DependentGenericConformanceRequirement,
        ensures
            requirement_of(r, node.data()),
    {
        let subject = nth_type_inner_of(node, 0);
        let constraint = nth_type_inner_of(node, 1);
        Self { kind: GenericRequirementKind::Conformance { subject, constraint } }
    }

    fn from_same_type_node(node: Node<'ctx>) -> (r: Self)
        requires
            node.data().kind == NodeKind::DependentGenericSameTypeRequirement,
        ensures
            requirement_of(r, node.data()),
    {
        let first = nth_type_inner_of(node, 0);
        let second = nth_type_inner_of(node, 1);
        Self { kind: GenericRequirementKind::SameType { first, second } }
    }

    fn from_layout_node(node: Node<'ctx>) -> (r: Self)
        requires
            node.data().kind == NodeKind::DependentGenericLayoutRequirement,
        ensures
            requirement_of(r, node.data()),
    {
        let subject = match node.child_of_kind(NodeKind::Type) {
            Some(c) => match c.child(0) {
                Some(n) => Some(TypeRef::new(n)),
                None => None,
            },
            None => None,
        };
        let layout = text_of_node(node.child_of_kind(NodeKind::Identifier));
        Self { kind: GenericRequirementKind::Layout { subject, layout } }
    }

    /// Get the kind of this requirement.
    pub fn kind(&self) -> (r: &GenericRequirementKind<'ctx>)
        ensures
            *r == self.spec_kind(),
    {
        &self.kind
    }

    /// The human-readable rendering of this requirement (its display string).
    pub fn to_string(&self) -> (s: String)
        ensures
            s@ == requirement_display(self.spec_kind()),
    {
        self.display()
    }

    /// Get a display string for this requirement.
    pub fn display(&self) -> (s: String)
        ensures
            s@ == requirement_display(self.spec_kind()),
    {
        match self.kind {
            GenericRequirementKind::Conformance { subject, constraint } => {
                let mut s = display_or_unknown_of(subject);
                s.append(": ");
                let c = display_or_unknown_of(constraint);
                s.append(c.as_str());
                s
            },
            GenericRequirementKind::SameType { first, second } => {
                let mut s = display_or_unknown_of(first);
                s.append(" == ");
                let c = display_or_unknown_of(second);
                s.append(c.as_str());
                s
            },
            GenericRequirementKind::Layout { subject, layout } => {
                let mut s = display_or_unknown_of(subject);
                s.append(": ");
                match layout {
                    Some(l) => s.append(l),
                    None => s.append("?"),
                }
                s
            },
        }
    }
}

/// The kind of generic requirement.
#[derive(Clone, Copy)]
pub enum GenericRequirementKind<'ctx> {
    /// A conformance requirement (`T: Protocol`).
    Conformance { subject: Option<TypeRef<'ctx>>, constraint: Option<TypeRef<'ctx>> },
    /// A same-type requirement (`T == U` or `T == SomeType`).
    SameType { first: Option<TypeRef<'ctx>>, second: Option<TypeRef<'ctx>> },
    /// A layout requirement (`T: _NativeClass`, etc.).
    Layout { subject: Option<TypeRef<'ctx>>, layout: Option<&'ctx str> },
}


/// The node whose kind decides the classification of `d`: `Type` wrappers and
/// unconstrained `DependentGenericType` wrappers are looked through.
pub open spec fn resolve_type(d: NodeData) -> NodeData
    decreases height(d),
{
    if d.kind == NodeKind::Type && d.children@.len() > 0 {
        proof {
            lemma_child_height(d, 0);
        }
        resolve_type(d.children@[0])
    } else if d.kind == NodeKind::DependentGenericType && spec_child_of_kind(
        d,
        NodeKind::DependentGenericSignature,
    ) is None && type_child_inner(d) is Some {
        proof {
            lemma_child_of_kind_height(d, NodeKind::Type);
            let t = spec_child_of_kind(d, NodeKind::Type).unwrap();
            lemma_child_height(t, 0);
        }
        resolve_type(type_child_inner(d).unwrap())
    } else {
        d
    }
}

/// Whether the classification of `d` is an optional type.
pub open spec fn spec_is_optional_type(d: NodeData) -> bool {
    resolve_type(d).kind == NodeKind::SugaredOptional && first_child(resolve_type(d)) is Some
}

/// Whether the classification of `d` is a metatype.
pub open spec fn spec_is_metatype_type(d: NodeData) -> bool {
    (resolve_type(d).kind == NodeKind::Metatype || resolve_type(d).kind
        == NodeKind::ExistentialMetatype) && metatype_inner(resolve_type(d)) is Some
}

/// The variant of a classification is decided by the kind of the node that
/// [`resolve_type`] reaches: named kinds give named types, function kinds
/// function types, and each wrapper kind (optional, array, inout, weak, ...)
/// its own variant when it has something to wrap.
pub proof fn lemma_type_kind_shape<'ctx>(k: TypeKind<'ctx>, d: NodeData)
    requires
        type_kind_spec(k, d),
    ensures
        (k is Optional) == spec_is_optional_type(d),
        (k is Metatype) == spec_is_metatype_type(d),
        (k is Named) == is_named_kind(resolve_type(d).kind),
        (k is Function) == is_function_like_kind(resolve_type(d).kind),
        (k is ImplFunction) == (resolve_type(d).kind == NodeKind::ImplFunctionType),
        (k is Tuple) == (resolve_type(d).kind == NodeKind::Tuple),
        (k is Array) == (resolve_type(d).kind == NodeKind::SugaredArray && first_child(resolve_type(d)) is Some),
        (k is InOut) == (resolve_type(d).kind == NodeKind::InOut && first_child(resolve_type(d)) is Some),
        (k is Shared) == (resolve_type(d).kind == NodeKind::Shared && first_child(resolve_type(d)) is Some),
        (k is Owned) == (resolve_type(d).kind == NodeKind::Owned && first_child(resolve_type(d)) is Some),
        (k is Sending) == (resolve_type(d).kind == NodeKind::Sending && first_child(resolve_type(d)) is Some),
        (k is Isolated) == (resolve_type(d).kind == NodeKind::Isolated && first_child(resolve_type(d)) is Some),
        (k is NoDerivative) == (resolve_type(d).kind == NodeKind::NoDerivative && first_child(resolve_type(d)) is Some),
        (k is CompileTimeLiteral) == (resolve_type(d).kind == NodeKind::CompileTimeLiteral && first_child(resolve_type(d)) is Some),
        (k is DynamicSelf) == (resolve_type(d).kind == NodeKind::DynamicSelf && first_child(resolve_type(d)) is Some),
        (k is ConstrainedExistential) == (resolve_type(d).kind == NodeKind::ConstrainedExistential && first_child(resolve_type(d)) is Some),
        (k is Weak) == (resolve_type(d).kind == NodeKind::Weak && first_child(resolve_type(d)) is Some && first_child(first_child(resolve_type(d)).unwrap()) is Some),
        (k is Unowned) == (resolve_type(d).kind == NodeKind::Unowned && first_child(resolve_type(d)) is Some && first_child(first_child(resolve_type(d)).unwrap()) is Some),
        (k is GenericParam) == (resolve_type(d).kind == NodeKind::DependentGenericParamType),
        (k is Builtin) == (resolve_type(d).kind == NodeKind::BuiltinTypeName),
        (k is BuiltinFixedArray) == (resolve_type(d).kind == NodeKind::BuiltinFixedArray),
        (k is Pack) == (resolve_type(d).kind == NodeKind::Pack),
        (k is ValueGeneric) == (resolve_type(d).kind == NodeKind::Integer),
        (k is Error) == (resolve_type(d).kind == NodeKind::ErrorType),
        (k is Opaque) == (resolve_type(d).kind == NodeKind::OpaqueType || resolve_type(d).kind == NodeKind::OpaqueReturnType),
        (k is SILBox) == (resolve_type(d).kind == NodeKind::SILBoxTypeWithLayout || resolve_type(d).kind == NodeKind::SILBoxType),
        (k is AssociatedType) == (resolve_type(d).kind == NodeKind::DependentMemberType && type_child_inner(resolve_type(d)) is Some),
        (k is Dictionary) == (resolve_type(d).kind == NodeKind::SugaredDictionary && nth_child(resolve_type(d), 0) is Some && nth_child(resolve_type(d), 1) is Some),
    decreases height(d),
{
    if d.kind == NodeKind::Type && d.children@.len() > 0 {
        lemma_child_height(d, 0);
        lemma_type_kind_shape(k, d.children@[0]);
    } else if d.kind == NodeKind::DependentGenericType && spec_child_of_kind(
        d,
        NodeKind::DependentGenericSignature,
    ) is None && type_child_inner(d) is Some {
        lemma_child_of_kind_height(d, NodeKind::Type);
        let t = spec_child_of_kind(d, NodeKind::Type).unwrap();
        lemma_child_height(t, 0);
        lemma_type_kind_shape(k, type_child_inner(d).unwrap());
    }
}

/// Whether a type reference is classified as an optional type.
pub fn is_optional_type<'ctx>(t: &TypeRef<'ctx>) -> (b: bool)
    ensures
        b == spec_is_optional_type(t.spec_raw().data()),
{
    let k = t.kind();
    proof {
        lemma_type_kind_shape(k, t.spec_raw().data());
    }
    match k {
        TypeKind::Optional(_) => true,
        _ => false,
    }
}

/// Whether a type reference is classified as a metatype.
pub fn is_metatype_type<'ctx>(t: &TypeRef<'ctx>) -> (b: bool)
    ensures
        b == spec_is_metatype_type(t.spec_raw().data()),
{
    let k = t.kind();
    proof {
        lemma_type_kind_shape(k, t.spec_raw().data());
    }
    match k {
        TypeKind::Metatype(_) => true,
        _ => false,
    }
}

} // verus!
