//! Constructor and destructor symbol representation.
//!
//! This module provides types for representing Swift initializers and deinitializers.

use vstd::prelude::*;

use crate::context::{extract_context, SymbolContext};
use crate::helpers::{
    spec_child_of_kind,
    extension_module_of, extension_signature_of, is_extension_of, spec_extension_module_of,
    spec_extension_signature_of,
    opt_strs, spec_containing_type_is, spec_extract_labels,
    spec_find_containing_type, spec_find_function_type, spec_find_generic_signature,
    spec_find_module, HasExtensionContext, HasFunctionSignature, HasGenericSignature, HasModule,
};
use crate::raw::{datas, opt_str, Node, NodeData, NodeKind};
use crate::search::{first_hit, lemma_first_hit_at, lemma_first_hit_none};
use crate::types::{
    is_optional_type, opt_type_data, spec_is_optional_type, spec_return_type, FunctionType,
    GenericSignature, TypeRef,
};

verus! {

/// The kind of constructor.
#[derive(Debug, Clone, Copy, PartialEq, Eq, Structural)]
pub enum ConstructorKind {
    /// A regular constructor (init).
    Regular,
    /// An allocating constructor (allocates memory then initializes).
    Allocating,
}

/// The kind of destructor.
#[derive(Debug, Clone, Copy, PartialEq, Eq, Structural)]
pub enum DestructorKind {
    /// A regular destructor (deinit).
    Regular,
    /// A deallocating destructor (deinitializes then deallocates).
    Deallocating,
    /// An isolated deallocating destructor (for actors).
    IsolatedDeallocating,
}

/// The constructor kind of a node kind.
pub open spec fn constructor_kind_of(k: NodeKind) -> ConstructorKind {
    if k == NodeKind::Allocator {
        ConstructorKind::Allocating
    } else {
        ConstructorKind::Regular
    }
}

/// The destructor kind of a node kind.
pub open spec fn destructor_kind_of(k: NodeKind) -> DestructorKind {
    if k == NodeKind::Deallocator {
        DestructorKind::Deallocating
    } else if k == NodeKind::IsolatedDeallocator {
        DestructorKind::IsolatedDeallocating
    } else {
        DestructorKind::Regular
    }
}

/// Exactly the allocator nodes give allocating constructors; exactly the
/// deallocator nodes give deallocating destructors and exactly the isolated
/// deallocator nodes isolated deallocating ones, so the destructor, the
/// deallocator and the isolated deallocator nodes have three different kinds.
pub proof fn lemma_constructor_destructor_kinds(k: NodeKind)
    ensures
        (constructor_kind_of(k) == ConstructorKind::Allocating) <==> k == NodeKind::Allocator,
        (destructor_kind_of(k) == DestructorKind::Deallocating) <==> k == NodeKind::Deallocator,
        (destructor_kind_of(k) == DestructorKind::IsolatedDeallocating) <==> k
            == NodeKind::IsolatedDeallocator,
{
}

/// Whether a constructor node's signature returns an optional type.
pub open spec fn spec_is_failable(d: NodeData) -> bool {
    match spec_find_function_type(d) {
        Some(f) => match spec_return_type(f) {
            Some(t) => spec_is_optional_type(t),
            None => false,
        },
        None => false,
    }
}

/// Selects class, struct and enum nodes.
pub open spec fn destroyed_type_hit() -> spec_fn(NodeData) -> Option<NodeData> {
    |c: NodeData|
        if c.kind == NodeKind::Class || c.kind == NodeKind::Structure || c.kind == NodeKind::Enum {
            Some(c)
        } else {
            None
        }
}

/// A Swift constructor (initializer) symbol.
#[derive(Clone, Copy)]
pub struct Constructor<'ctx> {
    raw: Node<'ctx>,
}

impl<'ctx> Constructor<'ctx> {
    /// The node of this constructor.
    pub closed spec fn spec_raw(self) -> Node<'ctx> {
        self.raw
    }

    /// Create a Constructor from a raw node.
    pub fn new(raw: Node<'ctx>) -> (r: Self)
        ensures
            r.spec_raw() == raw,
    {
        Self { raw }
    }

    /// Get the underlying raw node.
    pub fn raw(&self) -> (r: Node<'ctx>)
        ensures
            r == self.spec_raw(),
    {
        self.raw
    }

    /// Get the context (location) where this constructor is defined.
    pub fn context(&self) -> (c: SymbolContext<'ctx>)
        ensures
            c.spec_raw() == self.spec_raw(),
    {
        extract_context(self.raw)
    }

    /// Get the kind of constructor.
    pub fn kind(&self) -> (k: ConstructorKind)
        ensures
            k == constructor_kind_of(self.spec_raw().data().kind),
    {
        match self.raw.kind() {
            NodeKind::Allocator => ConstructorKind::Allocating,
            _ => ConstructorKind::Regular,
        }
    }

    /// Get the type containing this constructor.
    pub fn containing_type(&self) -> (r: Option<&'ctx str>)
        ensures
            opt_str(r) == spec_find_containing_type(self.spec_raw().data()),
    {
        self.raw.find_containing_type()
    }

    /// Check if the containing type is a class (reference type).
    pub fn containing_type_is_class(&self) -> (b: bool)
        ensures
            b == spec_containing_type_is(self.spec_raw().data(), NodeKind::Class),
    {
        self.raw.containing_type_is_class()
    }

    /// Check if the containing type is a protocol.
    pub fn containing_type_is_protocol(&self) -> (b: bool)
        ensures
            b == spec_containing_type_is(self.spec_raw().data(), NodeKind::Protocol),
    {
        self.raw.containing_type_is_protocol()
    }

    /// Get the argument labels for this constructor.
    pub fn labels(&self) -> (r: Vec<Option<&'ctx str>>)
        ensures
            opt_strs(r@) == spec_extract_labels(self.spec_raw().data()),
    {
        self.raw.extract_labels()
    }

    /// Check if this is a failable initializer (returns optional).
    pub fn is_failable(&self) -> (b: bool)
        ensures
            b == spec_is_failable(self.spec_raw().data()),
    {
        match self.signature() {
            Some(sig) => match sig.return_type() {
                Some(ret) => is_optional_type(&ret),
                None => false,
            },
            None => false,
        }
    }

    /// The human-readable rendering of this constructor.
    pub fn to_string(&self) -> (r: String)
        ensures
            r@ == self.spec_raw().data().display@,
    {
        self.raw.to_string()
    }
}

impl<'ctx> HasGenericSignature<'ctx> for Constructor<'ctx> {
    open spec fn spec_generic_signature(&self) -> Option<NodeData> {
        spec_find_generic_signature(self.spec_raw().data())
    }

    fn generic_signature(&self) -> (r: Option<GenericSignature<'ctx>>) {
        self.raw.find_generic_signature()
    }
}

impl<'ctx> HasFunctionSignature<'ctx> for Constructor<'ctx> {
    open spec fn spec_signature(&self) -> Option<NodeData> {
        spec_find_function_type(self.spec_raw().data())
    }

    fn signature(&self) -> (r: Option<FunctionType<'ctx>>) {
        self.raw.find_function_type()
    }
}

impl<'ctx> HasExtensionContext<'ctx> for Constructor<'ctx> {
    open spec fn spec_node(&self) -> NodeData {
        self.spec_raw().data()
    }

    open spec fn spec_is_extension(&self) -> bool {
        spec_child_of_kind(self.spec_raw().data(), NodeKind::Extension) is Some
    }

    open spec fn spec_extension_module(&self) -> Option<Seq<char>> {
        spec_extension_module_of(self.spec_raw().data())
    }

    open spec fn spec_extension_generic_signature(&self) -> Option<NodeData> {
        spec_extension_signature_of(self.spec_raw().data())
    }

    fn raw(&self) -> (r: Node<'ctx>) {
        self.raw
    }

    fn is_extension(&self) -> (b: bool) {
        is_extension_of(self.raw)
    }

    fn extension_module(&self) -> (r: Option<&'ctx str>) {
        extension_module_of(self.raw)
    }

    fn extension_generic_signature(&self) -> (r: Option<GenericSignature<'ctx>>) {
        extension_signature_of(self.raw)
    }
}

impl<'ctx> HasModule<'ctx> for Constructor<'ctx> {
    open spec fn spec_module(&self) -> Option<Seq<char>> {
        spec_find_module(self.spec_raw().data())
    }

    fn module(&self) -> (r: Option<&'ctx str>) {
        self.raw.find_module()
    }
}

/// A Swift destructor (deinitializer) symbol.
#[derive(Clone, Copy)]
pub struct Destructor<'ctx> {
    raw: Node<'ctx>,
}

impl<'ctx> Destructor<'ctx> {
    /// The node of this destructor.
    pub closed spec fn spec_raw(self) -> Node<'ctx> {
        self.raw
    }

    /// Create a Destructor from a raw node.
    pub fn new(raw: Node<'ctx>) -> (r: Self)
        ensures
            r.spec_raw() == raw,
    {
        Self { raw }
    }

    /// Get the underlying raw node.
    pub fn raw(&self) -> (r: Node<'ctx>)
        ensures
            r == self.spec_raw(),
    {
        self.raw
    }

    /// Get the context (location) where this destructor is defined.
    pub fn context(&self) -> (c: SymbolContext<'ctx>)
        ensures
            c.spec_raw() == self.spec_raw(),
    {
        extract_context(self.raw)
    }

    /// Get the kind of destructor.
    pub fn kind(&self) -> (k: DestructorKind)
        ensures
            k == destructor_kind_of(self.spec_raw().data().kind),
    {
        match self.raw.kind() {
            NodeKind::Deallocator => DestructorKind::Deallocating,
            NodeKind::IsolatedDeallocator => DestructorKind::IsolatedDeallocating,
            _ => DestructorKind::Regular,
        }
    }

    /// Get the type containing this destructor.
    pub fn containing_type(&self) -> (r: Option<&'ctx str>)
        ensures
            opt_str(r) == spec_find_containing_type(self.spec_raw().data()),
    {
        self.raw.find_containing_type()
    }

    /// Check if the containing type is a class (reference type).
    pub fn containing_type_is_class(&self) -> (b: bool)
        ensures
            b == spec_containing_type_is(self.spec_raw().data(), NodeKind::Class),
    {
        self.raw.containing_type_is_class()
    }

    /// Check if the containing type is a protocol.
    pub fn containing_type_is_protocol(&self) -> (b: bool)
        ensures
            b == spec_containing_type_is(self.spec_raw().data(), NodeKind::Protocol),
    {
        self.raw.containing_type_is_protocol()
    }

    /// Get the type being destroyed: the first class, struct or enum child.
    pub fn destroyed_type(&self) -> (r: Option<TypeRef<'ctx>>)
        ensures
            opt_type_data(r) == first_hit(self.spec_raw().data().children@, destroyed_type_hit()),
    {
        let cs = self.raw.children();
        let ghost s = self.raw.data().children@;
        let mut i: usize = 0;
        while i < cs.len()
            invariant
                i <= cs@.len(),
                datas(cs@) == s,
                forall|j: int| 0 <= j < i ==> (#[trigger] (destroyed_type_hit())(s[j])) is None,
            decreases cs@.len() - i,
        {
            proof { assert(s[i as int] == cs@[i as int].data()); }
            let c = cs[i];
            match c.kind() {
                NodeKind::Class | NodeKind::Structure | NodeKind::Enum => {
                    proof {
                        lemma_first_hit_at(s, destroyed_type_hit(), i as int);
                    }
                    return Some(TypeRef::new(c));
                },
                _ => {},
            }
            i = i + 1;
        }
        proof {
            lemma_first_hit_none(s, destroyed_type_hit());
        }
        None
    }

    /// The human-readable rendering of this destructor.
    pub fn to_string(&self) -> (r: String)
        ensures
            r@ == self.spec_raw().data().display@,
    {
        self.raw.to_string()
    }
}

impl<'ctx> HasModule<'ctx> for Destructor<'ctx> {
    open spec fn spec_module(&self) -> Option<Seq<char>> {
        spec_find_module(self.spec_raw().data())
    }

    fn module(&self) -> (r: Option<&'ctx str>) {
        self.raw.find_module()
    }
}

} // verus!
