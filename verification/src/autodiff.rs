//! Automatic differentiation symbol representation.
//!
//! These symbols represent Swift's automatic differentiation features
//! used in machine learning and scientific computing.

use vstd::prelude::*;

use crate::function::Function;
use crate::helpers::{spec_child_of_kind, spec_descendant_of_kind, spec_find_module, HasModule};
use crate::raw::{opt_str, Node, NodeData, NodeKind};

verus! {

/// The kind of automatic differentiation symbol.
#[derive(Debug, Clone, Copy, PartialEq, Eq, Structural)]
pub enum AutoDiffKind {
    /// An auto-diff derivative function.
    Function,
    /// A differentiability witness.
    DifferentiabilityWitness,
    /// A derivative vtable thunk.
    DerivativeVTableThunk,
    /// A subset parameters thunk.
    SubsetParametersThunk,
    /// A self-reordering reabstraction thunk.
    SelfReorderingReabstractionThunk,
    /// Other auto-diff symbol.
    Other,
}

/// The human-readable name of an automatic differentiation kind.
pub open spec fn autodiff_kind_name(k: AutoDiffKind) -> Seq<char> {
    match k {
        AutoDiffKind::Function => "auto-diff function"@,
        AutoDiffKind::DifferentiabilityWitness => "differentiability witness"@,
        AutoDiffKind::DerivativeVTableThunk => "derivative vtable thunk"@,
        AutoDiffKind::SubsetParametersThunk => "subset parameters thunk"@,
        AutoDiffKind::SelfReorderingReabstractionThunk => "self-reordering reabstraction thunk"@,
        AutoDiffKind::Other => "auto-diff symbol"@,
    }
}

impl AutoDiffKind {
    /// Get a human-readable name for this auto-diff kind.
    pub fn name(&self) -> (r: &'static str)
        ensures
            r@ == autodiff_kind_name(*self),
    {
        match self {
            AutoDiffKind::Function => "auto-diff function",
            AutoDiffKind::DifferentiabilityWitness => "differentiability witness",
            AutoDiffKind::DerivativeVTableThunk => "derivative vtable thunk",
            AutoDiffKind::SubsetParametersThunk => "subset parameters thunk",
            AutoDiffKind::SelfReorderingReabstractionThunk => "self-reordering reabstraction thunk",
            AutoDiffKind::Other => "auto-diff symbol",
        }
    }
}

/// The automatic differentiation kind of a node kind.
pub open spec fn autodiff_kind_of(k: NodeKind) -> AutoDiffKind {
    match k {
        NodeKind::AutoDiffFunction => AutoDiffKind::Function,
        NodeKind::DifferentiabilityWitness => AutoDiffKind::DifferentiabilityWitness,
        NodeKind::AutoDiffDerivativeVTableThunk => AutoDiffKind::DerivativeVTableThunk,
        NodeKind::AutoDiffSubsetParametersThunk => AutoDiffKind::SubsetParametersThunk,
        NodeKind::AutoDiffSelfReorderingReabstractionThunk => AutoDiffKind::SelfReorderingReabstractionThunk,
        _ => AutoDiffKind::Other,
    }
}

/// Each node kind that has an automatic differentiation kind has its own: two node kinds with the same
/// kind, other than `Other`, are the same node kind.
pub proof fn lemma_autodiff_kind_injective(a: NodeKind, b: NodeKind)
    requires
        autodiff_kind_of(a) != AutoDiffKind::Other,
        autodiff_kind_of(a) == autodiff_kind_of(b),
    ensures
        a == b,
{
}

/// The module of an automatic differentiation node: that of its inner
/// function, or else the first module among its descendants.
pub open spec fn spec_autodiff_module(d: NodeData) -> Option<Seq<char>> {
    match spec_child_of_kind(d, NodeKind::Function) {
        Some(f) => spec_find_module(f),
        None => match spec_descendant_of_kind(d, NodeKind::Module) {
            Some(m) => m.spec_text(),
            None => None,
        },
    }
}

/// A Swift automatic differentiation symbol.
#[derive(Clone, Copy)]
pub struct AutoDiff<'ctx> {
    raw: Node<'ctx>,
}

impl<'ctx> AutoDiff<'ctx> {
    /// The node of this auto-diff symbol.
    pub closed spec fn spec_raw(self) -> Node<'ctx> {
        self.raw
    }

    /// Create a AutoDiff from a raw node.
    pub fn new(raw: Node<'ctx>) -> (r: Self)
        ensures
            r.spec_raw() == raw,
    {
        Self { raw }
    }

    /// Get the underlying raw node.
    pub fn raw(&self) -> (r: Node<'ctx>)
        ensures
            r == self.spec_raw(),
    {
        self.raw
    }

    /// The human-readable rendering of this auto-diff symbol.
    pub fn to_string(&self) -> (r: String)
        ensures
            r@ == self.spec_raw().data().display@,
    {
        self.raw.to_string()
    }

    /// Get the kind of auto-diff symbol.
    pub fn kind(&self) -> (k: AutoDiffKind)
        ensures
            k == autodiff_kind_of(self.spec_raw().data().kind),
    {
        match self.raw.kind() {
            NodeKind::AutoDiffFunction => AutoDiffKind::Function,
            NodeKind::DifferentiabilityWitness => AutoDiffKind::DifferentiabilityWitness,
            NodeKind::AutoDiffDerivativeVTableThunk => AutoDiffKind::DerivativeVTableThunk,
            NodeKind::AutoDiffSubsetParametersThunk => AutoDiffKind::SubsetParametersThunk,
            NodeKind::AutoDiffSelfReorderingReabstractionThunk => AutoDiffKind::SelfReorderingReabstractionThunk,
            _ => AutoDiffKind::Other,
        }
    }

    /// Get the inner function being differentiated, if any.
    pub fn inner_function(&self) -> (r: Option<Function<'ctx>>)
        ensures
            match r {
                Some(f) => spec_child_of_kind(self.spec_raw().data(), NodeKind::Function) == Some(
                    f.spec_raw().data(),
                ) && !f.spec_is_static(),
                None => spec_child_of_kind(self.spec_raw().data(), NodeKind::Function) is None,
            },
    {
        match self.raw.child_of_kind(NodeKind::Function) {
            Some(c) => Some(Function::new(c)),
            None => None,
        }
    }

    /// Get the module containing this auto-diff symbol.
    pub fn module(&self) -> (r: Option<&'ctx str>)
        ensures
            opt_str(r) == spec_autodiff_module(self.spec_raw().data()),
    {
        if let Some(func) = self.inner_function() {
            return func.module();
        }
        match self.raw.descendant_of_kind(NodeKind::Module) {
            Some(m) => m.text(),
            None => None,
        }
    }
}

} // verus!
