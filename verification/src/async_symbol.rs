//! Async and coroutine symbol representation.
//!
//! These symbols mark the entry points that the compiler generates for async
//! functions and coroutines: function pointers, resume partial functions and
//! continuation prototypes.

use vstd::prelude::*;

use crate::helpers::spec_child_of_kind;
use crate::raw::{Node, NodeKind};
use crate::symbol::{symbol_view, view_raw, Symbol, SymbolView};

verus! {

/// The kind of async or coroutine symbol.
#[derive(Debug, Clone, Copy, PartialEq, Eq, Structural)]
pub enum AsyncSymbolKind {
    /// An async function pointer.
    FunctionPointer,
    /// A coroutine function pointer.
    CoroFunctionPointer,
    /// A partial function resumed after an await.
    AwaitResumePartialFunction,
    /// A partial function resumed after a suspension.
    SuspendResumePartialFunction,
    /// A coroutine continuation prototype.
    CoroutineContinuationPrototype,
    /// Other async symbol.
    Other,
}

/// The async symbol kind of a node kind.
pub open spec fn async_symbol_kind_of(k: NodeKind) -> AsyncSymbolKind {
    match k {
        NodeKind::AsyncFunctionPointer => AsyncSymbolKind::FunctionPointer,
        NodeKind::CoroFunctionPointer => AsyncSymbolKind::CoroFunctionPointer,
        NodeKind::AsyncAwaitResumePartialFunction => AsyncSymbolKind::AwaitResumePartialFunction,
        NodeKind::AsyncSuspendResumePartialFunction => AsyncSymbolKind::SuspendResumePartialFunction,
        NodeKind::CoroutineContinuationPrototype => AsyncSymbolKind::CoroutineContinuationPrototype,
        _ => AsyncSymbolKind::Other,
    }
}

/// Each node kind that has an async symbol kind has its own: two node kinds with the same
/// kind, other than `Other`, are the same node kind.
pub proof fn lemma_async_symbol_kind_injective(a: NodeKind, b: NodeKind)
    requires
        async_symbol_kind_of(a) != AsyncSymbolKind::Other,
        async_symbol_kind_of(a) == async_symbol_kind_of(b),
    ensures
        a == b,
{
}

/// The model of the symbol that a async symbol marks, if any.
pub open spec fn async_inner_view<'ctx>(a: AsyncSymbol<'ctx>) -> Option<Box<SymbolView>>
    decreases a,
{
    match a.spec_inner() {
        Some(b) => Some(Box::new(symbol_view(*b))),
        None => None,
    }
}

/// The model of a async symbol: its node and the symbol it marks, if any.
pub open spec fn async_view<'ctx>(a: AsyncSymbol<'ctx>) -> SymbolView {
    symbol_view(Symbol::Async(a))
}

/// A Swift async or coroutine symbol.
pub struct AsyncSymbol<'ctx> {
    raw: Node<'ctx>,
    inner: Option<Box<Symbol<'ctx>>>,
}

impl<'ctx> AsyncSymbol<'ctx> {
    /// The node of this async symbol.
    pub closed spec fn spec_raw(self) -> Node<'ctx> {
        self.raw
    }

    /// The symbol this one marks, if any.
    pub closed spec fn spec_inner(self) -> Option<Box<Symbol<'ctx>>> {
        self.inner
    }

    /// Create an AsyncSymbol from a raw node.
    pub fn new(raw: Node<'ctx>) -> (r: Self)
        ensures
            r.spec_raw() == raw,
            r.spec_inner() is None,
            async_view(r) == SymbolView::Async(raw.data(), None),
    {
        proof {
            reveal_with_fuel(symbol_view, 2);
        }
        Self { raw, inner: None }
    }

    /// Create an AsyncSymbol marking a sibling symbol.
    pub fn with_inner(raw: Node<'ctx>, inner: Symbol<'ctx>) -> (r: Self)
        ensures
            r.spec_raw() == raw,
            r.spec_inner() == Some(Box::new(inner)),
            async_view(r) == SymbolView::Async(raw.data(), Some(Box::new(symbol_view(inner)))),
    {
        proof {
            reveal_with_fuel(symbol_view, 2);
        }
        Self { raw, inner: Some(Box::new(inner)) }
    }

    /// Get the inner symbol, if any.
    pub fn inner(&self) -> (r: Option<&Symbol<'ctx>>)
        ensures
            r is Some <==> self.spec_inner() is Some,
            r matches Some(s) ==> self.spec_inner() == Some(Box::new(*s)),
            async_view(*self) == SymbolView::Async(
                self.spec_raw().data(),
                match r {
                    Some(s) => Some(Box::new(symbol_view(*s))),
                    None => None,
                },
            ),
    {
        proof {
            reveal_with_fuel(symbol_view, 2);
        }
        match &self.inner {
            Some(b) => Some(&**b),
            None => None,
        }
    }

    /// Get the underlying raw node.
    pub fn raw(&self) -> (r: Node<'ctx>)
        ensures
            r == self.spec_raw(),
            r.data() == view_raw(async_view(*self)),
    {
        self.raw
    }

    /// Get the kind of async symbol.
    pub fn kind(&self) -> (k: AsyncSymbolKind)
        ensures
            k == async_symbol_kind_of(self.spec_raw().data().kind),
    {
        match self.raw.kind() {
            NodeKind::AsyncFunctionPointer => AsyncSymbolKind::FunctionPointer,
            NodeKind::CoroFunctionPointer => AsyncSymbolKind::CoroFunctionPointer,
            NodeKind::AsyncAwaitResumePartialFunction => AsyncSymbolKind::AwaitResumePartialFunction,
            NodeKind::AsyncSuspendResumePartialFunction => AsyncSymbolKind::SuspendResumePartialFunction,
            NodeKind::CoroutineContinuationPrototype => AsyncSymbolKind::CoroutineContinuationPrototype,
            _ => AsyncSymbolKind::Other,
        }
    }

    /// Get the index of a resume partial function: the index of its first
    /// `Number` child.
    pub fn partial_index(&self) -> (r: Option<u64>)
        ensures
            r == match spec_child_of_kind(self.spec_raw().data(), NodeKind::Number) {
                Some(c) => c.index,
                None => None,
            },
    {
        match self.raw.child_of_kind(NodeKind::Number) {
            Some(c) => c.index(),
            None => None,
        }
    }

    /// The human-readable rendering of this async symbol.
    pub fn to_string(&self) -> (r: String)
        ensures
            r@ == self.spec_raw().data().display@,
    {
        self.raw.to_string()
    }
}

} // verus!
