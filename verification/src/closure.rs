//! Closure symbol representation.
//!
//! This module provides types for representing Swift closures.

use vstd::prelude::*;

use crate::context::{extract_context, SymbolContext};
use crate::function::Function;
use crate::helpers::{
    extension_module_of, extension_signature_of, is_extension_of, spec_extension_module_of,
    spec_extension_signature_of,
    spec_child_of_kind, spec_find_function_type, spec_find_generic_signature, spec_find_module,
    HasExtensionContext, HasFunctionSignature, HasGenericSignature,
};
use crate::raw::{datas, opt_str, Node, NodeData, NodeKind};
use crate::search::{first_hit, lemma_first_hit_at, lemma_first_hit_none};
use crate::types::{FunctionType, GenericSignature};

verus! {

/// The kind of closure.
#[derive(Debug, Clone, Copy, PartialEq, Eq, Structural)]
pub enum ClosureKind {
    /// An explicit closure (written with `{ ... }`).
    Explicit,
    /// An implicit closure (compiler-generated, e.g., for lazy properties).
    Implicit,
}

/// The human-readable name of a closure kind.
pub open spec fn closure_kind_name(k: ClosureKind) -> Seq<char> {
    match k {
        ClosureKind::Explicit => "explicit"@,
        ClosureKind::Implicit => "implicit"@,
    }
}

impl ClosureKind {
    /// Get a human-readable name for this closure kind.
    pub fn name(&self) -> (r: &'static str)
        ensures
            r@ == closure_kind_name(*self),
    {
        match self {
            ClosureKind::Explicit => "explicit",
            ClosureKind::Implicit => "implicit",
        }
    }
}

/// The closure kind of a node kind.
pub open spec fn closure_kind_of(k: NodeKind) -> ClosureKind {
    if k == NodeKind::ImplicitClosure {
        ClosureKind::Implicit
    } else {
        ClosureKind::Explicit
    }
}

/// Exactly the implicit closure nodes give implicit closures.
pub proof fn lemma_closure_kind(k: NodeKind)
    ensures
        (closure_kind_of(k) == ClosureKind::Implicit) <==> k == NodeKind::ImplicitClosure,
{
}

/// A `Module` child, or the module among the direct children of a `Function` child.
pub open spec fn closure_module_hit() -> spec_fn(NodeData) -> Option<Option<Seq<char>>> {
    |c: NodeData|
        if c.kind == NodeKind::Module {
            Some(c.spec_text())
        } else if c.kind == NodeKind::Function {
            match spec_child_of_kind(c, NodeKind::Module) {
                Some(m) => Some(m.spec_text()),
                None => None,
            }
        } else {
            None
        }
}

/// The module of a closure node: from its own or its parent function's
/// `Module` child, or else as for any symbol.
pub open spec fn spec_closure_module(d: NodeData) -> Option<Seq<char>> {
    match first_hit(d.children@, closure_module_hit()) {
        Some(t) => t,
        None => spec_find_module(d),
    }
}

/// The discriminator of a closure node: its index, or else the index of its
/// first `Number` child.
pub open spec fn spec_discriminator(d: NodeData) -> Option<u64> {
    match d.index {
        Some(i) => Some(i),
        None => match spec_child_of_kind(d, NodeKind::Number) {
            Some(n) => n.index,
            None => None,
        },
    }
}

/// The generic signature found in a `Function` child.
pub open spec fn parent_signature_hit() -> spec_fn(NodeData) -> Option<NodeData> {
    |c: NodeData|
        if c.kind == NodeKind::Function {
            spec_find_generic_signature(c)
        } else {
            None
        }
}

/// The generic signature of a closure node: its own, or else that of the
/// first parent function that has one.
pub open spec fn spec_closure_signature(d: NodeData) -> Option<NodeData> {
    match spec_find_generic_signature(d) {
        Some(s) => Some(s),
        None => first_hit(d.children@, parent_signature_hit()),
    }
}

/// A Swift closure symbol.
#[derive(Clone, Copy)]
pub struct Closure<'ctx> {
    raw: Node<'ctx>,
}

impl<'ctx> Closure<'ctx> {
    /// The node of this closure.
    pub closed spec fn spec_raw(self) -> Node<'ctx> {
        self.raw
    }

    /// Create a Closure from a raw node.
    pub fn new(raw: Node<'ctx>) -> (r: Self)
        ensures
            r.spec_raw() == raw,
    {
        Self { raw }
    }

    /// Get the underlying raw node.
    pub fn raw(&self) -> (r: Node<'ctx>)
        ensures
            r == self.spec_raw(),
    {
        self.raw
    }

    /// Get the parent context where this closure is defined.
    pub fn parent_context(&self) -> (c: SymbolContext<'ctx>)
        ensures
            c.spec_raw() == self.spec_raw(),
    {
        extract_context(self.raw)
    }

    /// Get the closure index (for distinguishing multiple closures in the same context).
    pub fn index(&self) -> (r: Option<u64>)
        ensures
            r == self.spec_raw().data().index,
    {
        self.raw.index()
    }

    /// Get the kind of closure.
    pub fn kind(&self) -> (k: ClosureKind)
        ensures
            k == closure_kind_of(self.spec_raw().data().kind),
    {
        match self.raw.kind() {
            NodeKind::ImplicitClosure => ClosureKind::Implicit,
            _ => ClosureKind::Explicit,
        }
    }

    /// Get the module containing the parent function.
    ///
    /// Only the direct children of the parent function are searched, so that
    /// modules inside parameter types are not taken for it.
    pub fn module(&self) -> (r: Option<&'ctx str>)
        ensures
            opt_str(r) == spec_closure_module(self.spec_raw().data()),
    {
        let cs = self.raw.children();
        let ghost s = self.raw.data().children@;
        let mut i: usize = 0;
        while i < cs.len()
            invariant
                i <= cs@.len(),
                datas(cs@) == s,
                forall|j: int| 0 <= j < i ==> (#[trigger] (closure_module_hit())(s[j])) is None,
            decreases cs@.len() - i,
        {
            proof { assert(s[i as int] == cs@[i as int].data()); }
            let c = cs[i];
            if c.kind() == NodeKind::Module {
                proof {
                    lemma_first_hit_at(s, closure_module_hit(), i as int);
                }
                return c.text();
            }
            if c.kind() == NodeKind::Function {
                if let Some(m) = c.child_of_kind(NodeKind::Module) {
                    proof {
                        lemma_first_hit_at(s, closure_module_hit(), i as int);
                    }
                    return m.text();
                }
            }
            i = i + 1;
        }
        proof {
            lemma_first_hit_none(s, closure_module_hit());
        }
        self.raw.find_module()
    }

    /// Get the parent function if available.
    pub fn parent_function(&self) -> (r: Option<Function<'ctx>>)
        ensures
            match r {
                Some(f) => spec_child_of_kind(self.spec_raw().data(), NodeKind::Function) == Some(
                    f.spec_raw().data(),
                ) && !f.spec_is_static(),
                None => spec_child_of_kind(self.spec_raw().data(), NodeKind::Function) is None,
            },
    {
        match self.raw.child_of_kind(NodeKind::Function) {
            Some(n) => Some(Function::new(n)),
            None => None,
        }
    }

    /// Get the discriminator (unique identifier within parent).
    pub fn discriminator(&self) -> (r: Option<u64>)
        ensures
            r == spec_discriminator(self.spec_raw().data()),
    {
        if let Some(idx) = self.raw.index() {
            return Some(idx);
        }
        match self.raw.child_of_kind(NodeKind::Number) {
            Some(n) => n.index(),
            None => None,
        }
    }

    /// The human-readable rendering of this closure.
    pub fn to_string(&self) -> (r: String)
        ensures
            r@ == self.spec_raw().data().display@,
    {
        self.raw.to_string()
    }
}

impl<'ctx> HasGenericSignature<'ctx> for Closure<'ctx> {
    open spec fn spec_generic_signature(&self) -> Option<NodeData> {
        spec_closure_signature(self.spec_raw().data())
    }

    fn generic_signature(&self) -> (r: Option<GenericSignature<'ctx>>) {
        if let Some(sig) = self.raw.find_generic_signature() {
            return Some(sig);
        }
        let cs = self.raw.children();
        let ghost s = self.raw.data().children@;
        let mut i: usize = 0;
        while i < cs.len()
            invariant
                i <= cs@.len(),
                datas(cs@) == s,
                forall|j: int| 0 <= j < i ==> (#[trigger] (parent_signature_hit())(s[j])) is None,
            decreases cs@.len() - i,
        {
            proof { assert(s[i as int] == cs@[i as int].data()); }
            let c = cs[i];
            if c.kind() == NodeKind::Function {
                if let Some(sig) = c.find_generic_signature() {
                    proof {
                        lemma_first_hit_at(s, parent_signature_hit(), i as int);
                    }
                    return Some(sig);
                }
            }
            i = i + 1;
        }
        proof {
            lemma_first_hit_none(s, parent_signature_hit());
        }
        None
    }
}

impl<'ctx> HasFunctionSignature<'ctx> for Closure<'ctx> {
    open spec fn spec_signature(&self) -> Option<NodeData> {
        spec_find_function_type(self.spec_raw().data())
    }

    fn signature(&self) -> (r: Option<FunctionType<'ctx>>) {
        self.raw.find_function_type()
    }
}

impl<'ctx> HasExtensionContext<'ctx> for Closure<'ctx> {
    open spec fn spec_node(&self) -> NodeData {
        self.spec_raw().data()
    }

    open spec fn spec_is_extension(&self) -> bool {
        spec_child_of_kind(self.spec_raw().data(), NodeKind::Extension) is Some
    }

    open spec fn spec_extension_module(&self) -> Option<Seq<char>> {
        spec_extension_module_of(self.spec_raw().data())
    }

    open spec fn spec_extension_generic_signature(&self) -> Option<NodeData> {
        spec_extension_signature_of(self.spec_raw().data())
    }

    fn raw(&self) -> (r: Node<'ctx>) {
        self.raw
    }

    fn is_extension(&self) -> (b: bool) {
        is_extension_of(self.raw)
    }

    fn extension_module(&self) -> (r: Option<&'ctx str>) {
        extension_module_of(self.raw)
    }

    fn extension_generic_signature(&self) -> (r: Option<GenericSignature<'ctx>>) {
        extension_signature_of(self.raw)
    }
}

} // verus!
