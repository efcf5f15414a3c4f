//! Type metadata symbol representation.
//!
//! Type metadata symbols represent runtime type information used by Swift
//! for dynamic dispatch, reflection, and generic instantiation.

use vstd::prelude::*;

use crate::helpers::spec_extract_type_ref;
use crate::raw::{datas, Node, NodeData, NodeKind};
use crate::search::{first_hit, lemma_first_hit_at, lemma_first_hit_none};
use crate::symbol::{symbol_view, view_raw, Symbol, SymbolView};
use crate::types::{opt_type_data, TypeRef};

verus! {

/// The kind of type metadata.
#[derive(Debug, Clone, Copy, PartialEq, Eq, Structural)]
pub enum MetadataKind {
    /// Type metadata.
    Type,
    /// Full type metadata (includes value witness table pointer).
    FullType,
    /// Type metadata access function.
    AccessFunction,
    /// Type metadata completion function.
    CompletionFunction,
    /// Type metadata instantiation function (for generics).
    InstantiationFunction,
    /// Type metadata instantiation cache.
    InstantiationCache,
    /// Type metadata lazy cache.
    LazyCache,
    /// Type metadata singleton initialization cache.
    SingletonInitializationCache,
    /// Type metadata demangling cache.
    DemanglingCache,
    /// Generic type metadata pattern.
    GenericPattern,
    /// Metadata instantiation cache.
    MetadataInstantiationCache,
    /// Non-canonical specialized generic type metadata.
    NoncanonicalSpecializedGeneric,
    /// Non-canonical specialized generic type metadata cache.
    NoncanonicalSpecializedGenericCache,
    /// Canonical specialized generic type metadata access function.
    CanonicalSpecializedGenericAccessFunction,
    /// Associated type metadata accessor.
    AssociatedTypeAccessor,
    /// Default associated type metadata accessor.
    DefaultAssociatedTypeAccessor,
    /// Class metadata base offset.
    ClassBaseOffset,
    /// Objective-C metadata update function.
    ObjCUpdateFunction,
    /// Field offset.
    FieldOffset,
    /// Metaclass.
    Metaclass,
    /// Instance variable initializer.
    IVarInitializer,
    /// Instance variable destroyer.
    IVarDestroyer,
    /// Has symbol query (runtime availability check).
    HasSymbolQuery,
    /// Default override.
    DefaultOverride,
    /// Property wrapper backing initializer.
    PropertyWrapperBackingInitializer,
    /// Method lookup function (dynamic dispatch).
    MethodLookupFunction,
    /// Other metadata kind.
    Other,
}

/// The human-readable name of a metadata kind.
pub open spec fn metadata_kind_name(k: MetadataKind) -> Seq<char> {
    match k {
        MetadataKind::Type => "type metadata"@,
        MetadataKind::FullType => "full type metadata"@,
        MetadataKind::AccessFunction => "type metadata access function"@,
        MetadataKind::CompletionFunction => "type metadata completion function"@,
        MetadataKind::InstantiationFunction => "type metadata instantiation function"@,
        MetadataKind::InstantiationCache => "type metadata instantiation cache"@,
        MetadataKind::LazyCache => "type metadata lazy cache"@,
        MetadataKind::SingletonInitializationCache => "type metadata singleton initialization cache"@,
        MetadataKind::DemanglingCache => "type metadata demangling cache"@,
        MetadataKind::GenericPattern => "generic type metadata pattern"@,
        MetadataKind::MetadataInstantiationCache => "metadata instantiation cache"@,
        MetadataKind::NoncanonicalSpecializedGeneric => "non-canonical specialized generic type metadata"@,
        MetadataKind::NoncanonicalSpecializedGenericCache => "non-canonical specialized generic type metadata cache"@,
        MetadataKind::CanonicalSpecializedGenericAccessFunction => "canonical specialized generic type metadata access function"@,
        MetadataKind::AssociatedTypeAccessor => "associated type metadata accessor"@,
        MetadataKind::DefaultAssociatedTypeAccessor => "default associated type metadata accessor"@,
        MetadataKind::ClassBaseOffset => "class metadata base offset"@,
        MetadataKind::ObjCUpdateFunction => "Objective-C metadata update function"@,
        MetadataKind::FieldOffset => "field offset"@,
        MetadataKind::Metaclass => "metaclass"@,
        MetadataKind::IVarInitializer => "instance variable initializer"@,
        MetadataKind::IVarDestroyer => "instance variable destroyer"@,
        MetadataKind::HasSymbolQuery => "has symbol query"@,
        MetadataKind::DefaultOverride => "default override"@,
        MetadataKind::PropertyWrapperBackingInitializer => "property wrapper backing initializer"@,
        MetadataKind::MethodLookupFunction => "method lookup function"@,
        MetadataKind::Other => "metadata"@,
    }
}

impl MetadataKind {
    /// Get a human-readable name for this metadata kind.
    pub fn name(&self) -> (r: &'static str)
        ensures
            r@ == metadata_kind_name(*self),
    {
        match self {
            MetadataKind::Type => "type metadata",
            MetadataKind::FullType => "full type metadata",
            MetadataKind::AccessFunction => "type metadata access function",
            MetadataKind::CompletionFunction => "type metadata completion function",
            MetadataKind::InstantiationFunction => "type metadata instantiation function",
            MetadataKind::InstantiationCache => "type metadata instantiation cache",
            MetadataKind::LazyCache => "type metadata lazy cache",
            MetadataKind::SingletonInitializationCache => "type metadata singleton initialization cache",
            MetadataKind::DemanglingCache => "type metadata demangling cache",
            MetadataKind::GenericPattern => "generic type metadata pattern",
            MetadataKind::MetadataInstantiationCache => "metadata instantiation cache",
            MetadataKind::NoncanonicalSpecializedGeneric => "non-canonical specialized generic type metadata",
            MetadataKind::NoncanonicalSpecializedGenericCache => "non-canonical specialized generic type metadata cache",
            MetadataKind::CanonicalSpecializedGenericAccessFunction => "canonical specialized generic type metadata access function",
            MetadataKind::AssociatedTypeAccessor => "associated type metadata accessor",
            MetadataKind::DefaultAssociatedTypeAccessor => "default associated type metadata accessor",
            MetadataKind::ClassBaseOffset => "class metadata base offset",
            MetadataKind::ObjCUpdateFunction => "Objective-C metadata update function",
            MetadataKind::FieldOffset => "field offset",
            MetadataKind::Metaclass => "metaclass",
            MetadataKind::IVarInitializer => "instance variable initializer",
            MetadataKind::IVarDestroyer => "instance variable destroyer",
            MetadataKind::HasSymbolQuery => "has symbol query",
            MetadataKind::DefaultOverride => "default override",
            MetadataKind::PropertyWrapperBackingInitializer => "property wrapper backing initializer",
            MetadataKind::MethodLookupFunction => "method lookup function",
            MetadataKind::Other => "metadata",
        }
    }
}

/// The metadata kind of a node kind.
pub open spec fn metadata_kind_of(k: NodeKind) -> MetadataKind {
    match k {
        NodeKind::TypeMetadata => MetadataKind::Type,
        NodeKind::FullTypeMetadata => MetadataKind::FullType,
        NodeKind::TypeMetadataAccessFunction => MetadataKind::AccessFunction,
        NodeKind::TypeMetadataCompletionFunction => MetadataKind::CompletionFunction,
        NodeKind::TypeMetadataInstantiationFunction => MetadataKind::InstantiationFunction,
        NodeKind::TypeMetadataInstantiationCache => MetadataKind::InstantiationCache,
        NodeKind::TypeMetadataLazyCache => MetadataKind::LazyCache,
        NodeKind::TypeMetadataSingletonInitializationCache => MetadataKind::SingletonInitializationCache,
        NodeKind::TypeMetadataDemanglingCache => MetadataKind::DemanglingCache,
        NodeKind::GenericTypeMetadataPattern => MetadataKind::GenericPattern,
        NodeKind::MetadataInstantiationCache => MetadataKind::MetadataInstantiationCache,
        NodeKind::NoncanonicalSpecializedGenericTypeMetadata => MetadataKind::NoncanonicalSpecializedGeneric,
        NodeKind::NoncanonicalSpecializedGenericTypeMetadataCache => MetadataKind::NoncanonicalSpecializedGenericCache,
        NodeKind::CanonicalSpecializedGenericTypeMetadataAccessFunction => MetadataKind::CanonicalSpecializedGenericAccessFunction,
        NodeKind::AssociatedTypeMetadataAccessor => MetadataKind::AssociatedTypeAccessor,
        NodeKind::DefaultAssociatedTypeMetadataAccessor => MetadataKind::DefaultAssociatedTypeAccessor,
        NodeKind::ClassMetadataBaseOffset => MetadataKind::ClassBaseOffset,
        NodeKind::ObjCMetadataUpdateFunction => MetadataKind::ObjCUpdateFunction,
        NodeKind::FieldOffset => MetadataKind::FieldOffset,
        NodeKind::Metaclass => MetadataKind::Metaclass,
        NodeKind::IVarInitializer => MetadataKind::IVarInitializer,
        NodeKind::IVarDestroyer => MetadataKind::IVarDestroyer,
        NodeKind::HasSymbolQuery => MetadataKind::HasSymbolQuery,
        NodeKind::DefaultOverride => MetadataKind::DefaultOverride,
        NodeKind::PropertyWrapperBackingInitializer => MetadataKind::PropertyWrapperBackingInitializer,
        NodeKind::MethodLookupFunction => MetadataKind::MethodLookupFunction,
        _ => MetadataKind::Other,
    }
}

/// Each node kind that has a metadata kind has its own: two node kinds with the same
/// kind, other than `Other`, are the same node kind.
pub proof fn lemma_metadata_kind_injective(a: NodeKind, b: NodeKind)
    requires
        metadata_kind_of(a) != MetadataKind::Other,
        metadata_kind_of(a) == metadata_kind_of(b),
    ensures
        a == b,
{
}

/// Whether a metadata kind is an accessor (a function that returns metadata).
pub open spec fn is_accessor_kind(k: MetadataKind) -> bool {
    matches!(
        k,
        MetadataKind::AccessFunction | MetadataKind::AssociatedTypeAccessor
            | MetadataKind::DefaultAssociatedTypeAccessor
            | MetadataKind::CanonicalSpecializedGenericAccessFunction
    )
}

/// Whether a metadata kind is a cache for metadata.
pub open spec fn is_cache_kind(k: MetadataKind) -> bool {
    matches!(
        k,
        MetadataKind::InstantiationCache | MetadataKind::LazyCache
            | MetadataKind::SingletonInitializationCache | MetadataKind::DemanglingCache
            | MetadataKind::MetadataInstantiationCache
            | MetadataKind::NoncanonicalSpecializedGenericCache
    )
}

/// Metadata accessors are read from the metadata access function and
/// associated type accessor nodes, and caches from the metadata cache nodes;
/// no metadata is both.
pub proof fn lemma_metadata_accessors_and_caches(k: NodeKind)
    ensures
        is_accessor_kind(metadata_kind_of(k)) <==> (k == NodeKind::TypeMetadataAccessFunction || k == NodeKind::AssociatedTypeMetadataAccessor || k == NodeKind::DefaultAssociatedTypeMetadataAccessor || k == NodeKind::CanonicalSpecializedGenericTypeMetadataAccessFunction),
        is_cache_kind(metadata_kind_of(k)) <==> (k == NodeKind::TypeMetadataInstantiationCache || k == NodeKind::TypeMetadataLazyCache || k == NodeKind::TypeMetadataSingletonInitializationCache || k == NodeKind::TypeMetadataDemanglingCache || k == NodeKind::MetadataInstantiationCache || k == NodeKind::NoncanonicalSpecializedGenericTypeMetadataCache),
        !(is_accessor_kind(metadata_kind_of(k)) && is_cache_kind(metadata_kind_of(k))),
{
}

/// Selects the type nodes that metadata can be directly about.
pub open spec fn metadata_type_hit() -> spec_fn(NodeData) -> Option<NodeData> {
    |c: NodeData|
        if matches!(
            c.kind,
            NodeKind::Class | NodeKind::Structure | NodeKind::Enum | NodeKind::Protocol
                | NodeKind::BoundGenericClass | NodeKind::BoundGenericStructure
                | NodeKind::BoundGenericEnum
        ) {
            Some(c)
        } else {
            None
        }
}

/// The type a metadata node is for: its `Type` child (looked through), or
/// else its first class, struct, enum, protocol or bound generic child.
pub open spec fn spec_metadata_type(d: NodeData) -> Option<NodeData> {
    match spec_extract_type_ref(d) {
        Some(t) => Some(t),
        None => first_hit(d.children@, metadata_type_hit()),
    }
}

/// The model of the symbol that a metadata symbol marks, if any.
pub open spec fn metadata_inner_view<'ctx>(m: Metadata<'ctx>) -> Option<Box<SymbolView>>
    decreases m,
{
    match m.spec_inner() {
        Some(b) => Some(Box::new(symbol_view(*b))),
        None => None,
    }
}

/// The model of a metadata symbol: its node and the symbol it marks, if any.
pub open spec fn metadata_view<'ctx>(m: Metadata<'ctx>) -> SymbolView {
    symbol_view(Symbol::Metadata(m))
}

/// A Swift type metadata symbol.
pub struct Metadata<'ctx> {
    raw: Node<'ctx>,
    inner: Option<Box<Symbol<'ctx>>>,
}

impl<'ctx> Metadata<'ctx> {
    /// The node of this metadata symbol.
    pub closed spec fn spec_raw(self) -> Node<'ctx> {
        self.raw
    }

    /// The symbol this one marks, if any.
    pub closed spec fn spec_inner(self) -> Option<Box<Symbol<'ctx>>> {
        self.inner
    }

    /// Create a Metadata from a raw node.
    pub fn new(raw: Node<'ctx>) -> (r: Self)
        ensures
            r.spec_raw() == raw,
            r.spec_inner() is None,
            metadata_view(r) == SymbolView::Metadata(raw.data(), None),
    {
        proof {
            reveal_with_fuel(symbol_view, 2);
        }
        Self { raw, inner: None }
    }

    /// Create a Metadata with an inner symbol (for sibling patterns like DefaultOverride).
    pub fn with_inner(raw: Node<'ctx>, inner: Symbol<'ctx>) -> (r: Self)
        ensures
            r.spec_raw() == raw,
            r.spec_inner() == Some(Box::new(inner)),
            metadata_view(r) == SymbolView::Metadata(raw.data(), Some(Box::new(symbol_view(inner)))),
    {
        proof {
            reveal_with_fuel(symbol_view, 2);
        }
        Self { raw, inner: Some(Box::new(inner)) }
    }

    /// Get the inner symbol, if any.
    pub fn inner(&self) -> (r: Option<&Symbol<'ctx>>)
        ensures
            r is Some <==> self.spec_inner() is Some,
            r matches Some(s) ==> self.spec_inner() == Some(Box::new(*s)),
            metadata_view(*self) == SymbolView::Metadata(
                self.spec_raw().data(),
                match r {
                    Some(s) => Some(Box::new(symbol_view(*s))),
                    None => None,
                },
            ),
    {
        proof {
            reveal_with_fuel(symbol_view, 2);
        }
        match &self.inner {
            Some(b) => Some(&**b),
            None => None,
        }
    }

    /// Get the underlying raw node.
    pub fn raw(&self) -> (r: Node<'ctx>)
        ensures
            r == self.spec_raw(),
            r.data() == view_raw(metadata_view(*self)),
    {
        self.raw
    }

    /// Get the kind of metadata.
    pub fn kind(&self) -> (k: MetadataKind)
        ensures
            k == metadata_kind_of(self.spec_raw().data().kind),
    {
        match self.raw.kind() {
            NodeKind::TypeMetadata => MetadataKind::Type,
            NodeKind::FullTypeMetadata => MetadataKind::FullType,
            NodeKind::TypeMetadataAccessFunction => MetadataKind::AccessFunction,
            NodeKind::TypeMetadataCompletionFunction => MetadataKind::CompletionFunction,
            NodeKind::TypeMetadataInstantiationFunction => MetadataKind::InstantiationFunction,
            NodeKind::TypeMetadataInstantiationCache => MetadataKind::InstantiationCache,
            NodeKind::TypeMetadataLazyCache => MetadataKind::LazyCache,
            NodeKind::TypeMetadataSingletonInitializationCache => MetadataKind::SingletonInitializationCache,
            NodeKind::TypeMetadataDemanglingCache => MetadataKind::DemanglingCache,
            NodeKind::GenericTypeMetadataPattern => MetadataKind::GenericPattern,
            NodeKind::MetadataInstantiationCache => MetadataKind::MetadataInstantiationCache,
            NodeKind::NoncanonicalSpecializedGenericTypeMetadata => MetadataKind::NoncanonicalSpecializedGeneric,
            NodeKind::NoncanonicalSpecializedGenericTypeMetadataCache => MetadataKind::NoncanonicalSpecializedGenericCache,
            NodeKind::CanonicalSpecializedGenericTypeMetadataAccessFunction => MetadataKind::CanonicalSpecializedGenericAccessFunction,
            NodeKind::AssociatedTypeMetadataAccessor => MetadataKind::AssociatedTypeAccessor,
            NodeKind::DefaultAssociatedTypeMetadataAccessor => MetadataKind::DefaultAssociatedTypeAccessor,
            NodeKind::ClassMetadataBaseOffset => MetadataKind::ClassBaseOffset,
            NodeKind::ObjCMetadataUpdateFunction => MetadataKind::ObjCUpdateFunction,
            NodeKind::FieldOffset => MetadataKind::FieldOffset,
            NodeKind::Metaclass => MetadataKind::Metaclass,
            NodeKind::IVarInitializer => MetadataKind::IVarInitializer,
            NodeKind::IVarDestroyer => MetadataKind::IVarDestroyer,
            NodeKind::HasSymbolQuery => MetadataKind::HasSymbolQuery,
            NodeKind::DefaultOverride => MetadataKind::DefaultOverride,
            NodeKind::PropertyWrapperBackingInitializer => MetadataKind::PropertyWrapperBackingInitializer,
            NodeKind::MethodLookupFunction => MetadataKind::MethodLookupFunction,
            _ => MetadataKind::Other,
        }
    }

    /// Get the type this metadata is for.
    pub fn metadata_type(&self) -> (r: Option<TypeRef<'ctx>>)
        ensures
            opt_type_data(r) == spec_metadata_type(self.spec_raw().data()),
    {
        if let Some(type_ref) = self.raw.extract_type_ref() {
            return Some(type_ref);
        }
        let cs = self.raw.children();
        let ghost s = self.raw.data().children@;
        let mut i: usize = 0;
        while i < cs.len()
            invariant
                i <= cs@.len(),
                datas(cs@) == s,
                forall|j: int| 0 <= j < i ==> (#[trigger] (metadata_type_hit())(s[j])) is None,
            decreases cs@.len() - i,
        {
            proof { assert(s[i as int] == cs@[i as int].data()); }
            let c = cs[i];
            match c.kind() {
                NodeKind::Class | NodeKind::Structure | NodeKind::Enum | NodeKind::Protocol
                | NodeKind::BoundGenericClass | NodeKind::BoundGenericStructure
                | NodeKind::BoundGenericEnum => {
                    proof {
                        lemma_first_hit_at(s, metadata_type_hit(), i as int);
                    }
                    return Some(TypeRef::new(c));
                },
                _ => {},
            }
            i = i + 1;
        }
        proof {
            lemma_first_hit_none(s, metadata_type_hit());
        }
        None
    }

    /// Check if this is a metadata accessor (function that returns metadata).
    pub fn is_accessor(&self) -> (b: bool)
        ensures
            b == is_accessor_kind(metadata_kind_of(self.spec_raw().data().kind)),
    {
        matches!(
            self.kind(),
            MetadataKind::AccessFunction | MetadataKind::AssociatedTypeAccessor
                | MetadataKind::DefaultAssociatedTypeAccessor
                | MetadataKind::CanonicalSpecializedGenericAccessFunction
        )
    }

    /// Check if this is a cache for metadata.
    pub fn is_cache(&self) -> (b: bool)
        ensures
            b == is_cache_kind(metadata_kind_of(self.spec_raw().data().kind)),
    {
        matches!(
            self.kind(),
            MetadataKind::InstantiationCache | MetadataKind::LazyCache
                | MetadataKind::SingletonInitializationCache | MetadataKind::DemanglingCache
                | MetadataKind::MetadataInstantiationCache
                | MetadataKind::NoncanonicalSpecializedGenericCache
        )
    }

    /// The human-readable rendering of this metadata symbol.
    pub fn to_string(&self) -> (r: String)
        ensures
            r@ == self.spec_raw().data().display@,
    {
        self.raw.to_string()
    }
}

} // verus!
