//! Thunk symbol representation.
//!
//! Thunks are wrapper functions that adapt calling conventions, perform
//! protocol dispatch, or handle partial application.

use vstd::prelude::*;

use crate::function::Function;
use crate::helpers::{
    spec_child_of_kind, spec_extract_type_ref, spec_find_module, spec_find_module_in_descendants,
    spec_unwrap_if_kind, text_of, HasModule,
};
use crate::macro_symbol::nth_child_of_kind;
use crate::raw::{datas, height, lemma_child_height, opt_str, Node, NodeData, NodeKind};
use crate::search::{first_hit, lemma_first_hit_at, lemma_first_hit_none};
use crate::symbol::{
    attribute_skip, classify_spec, distributed_inner_view, first_child_or_other_view,
    first_child_view, lemma_descendant_of_kind_height, metadata_skip, opt_box_view,
    opt_symbol_view, selected_child_view, skipping, symbol_view, thunk_marker_spec, thunk_spec,
    thunk_view, view_raw, Symbol, SymbolView,
};
use crate::types::{opt_sig_data, opt_type_data, GenericSignature, ImplFunctionType, TypeRef};
use crate::witness_table::{
    conformance_child, conformance_module_of, opt_conformance_data, second_type_child, second_type_from,
    ProtocolConformance,
};

verus! {

/// The kind of autodiff thunk.
#[derive(Debug, Clone, Copy, PartialEq, Eq, Structural)]
pub enum AutoDiffThunkKind {
    /// Subset parameters thunk.
    SubsetParameters,
    /// Derivative vtable thunk.
    DerivativeVTable,
    /// Unknown autodiff kind.
    Unknown,
}

/// The human-readable name of an autodiff thunk kind.
pub open spec fn autodiff_thunk_kind_name(k: AutoDiffThunkKind) -> Seq<char> {
    match k {
        AutoDiffThunkKind::SubsetParameters => "autodiff subset parameters thunk"@,
        AutoDiffThunkKind::DerivativeVTable => "autodiff derivative vtable thunk"@,
        AutoDiffThunkKind::Unknown => "autodiff thunk"@,
    }
}

impl AutoDiffThunkKind {
    /// Get a human-readable name for this autodiff kind.
    pub fn name(&self) -> (r: &'static str)
        ensures
            r@ == autodiff_thunk_kind_name(*self),
    {
        match self {
            Self::SubsetParameters => "autodiff subset parameters thunk",
            Self::DerivativeVTable => "autodiff derivative vtable thunk",
            Self::Unknown => "autodiff thunk",
        }
    }
}

/// The autodiff thunk kind of a node kind.
pub open spec fn autodiff_thunk_kind_of(k: NodeKind) -> AutoDiffThunkKind {
    if k == NodeKind::AutoDiffSubsetParametersThunk {
        AutoDiffThunkKind::SubsetParameters
    } else if k == NodeKind::AutoDiffDerivativeVTableThunk {
        AutoDiffThunkKind::DerivativeVTable
    } else {
        AutoDiffThunkKind::Unknown
    }
}

/// Each node kind that has an automatic differentiation thunk kind has its own: two node kinds with the same
/// kind, other than `Unknown`, are the same node kind.
pub proof fn lemma_autodiff_thunk_kind_injective(a: NodeKind, b: NodeKind)
    requires
        autodiff_thunk_kind_of(a) != AutoDiffThunkKind::Unknown,
        autodiff_thunk_kind_of(a) == autodiff_thunk_kind_of(b),
    ensures
        a == b,
{
}

/// The kind of dispatch thunk.
#[derive(Debug, Clone, Copy, PartialEq, Eq, Structural)]
pub enum DispatchKind {
    /// Protocol dispatch - looks up in witness table.
    Protocol,
    /// VTable dispatch - looks up in class vtable.
    VTable,
    /// Distributed actor dispatch.
    Distributed,
}

/// The human-readable name of a dispatch kind.
pub open spec fn dispatch_kind_name(k: DispatchKind) -> Seq<char> {
    match k {
        DispatchKind::Protocol => "dispatch thunk"@,
        DispatchKind::VTable => "vtable thunk"@,
        DispatchKind::Distributed => "distributed thunk"@,
    }
}

impl DispatchKind {
    /// Get a human-readable name for this dispatch kind.
    pub fn name(&self) -> (r: &'static str)
        ensures
            r@ == dispatch_kind_name(*self),
    {
        match self {
            Self::Protocol => "dispatch thunk",
            Self::VTable => "vtable thunk",
            Self::Distributed => "distributed thunk",
        }
    }
}

/// Other thunk kinds that don't need specialized handling.
#[derive(Debug, Clone, Copy, PartialEq, Eq, Structural)]
pub enum OtherThunkKind {
    /// Curry thunk.
    Curry,
    /// KeyPath getter thunk.
    KeyPathGetter,
    /// KeyPath setter thunk.
    KeyPathSetter,
    /// KeyPath method thunk.
    KeyPathMethod,
    /// KeyPath equality thunk.
    KeyPathEquals,
    /// KeyPath hash thunk.
    KeyPathHash,
    /// Back deployment thunk.
    BackDeployment,
    /// Back deployment fallback.
    BackDeploymentFallback,
    /// Merged function.
    Merged,
    /// Inlined generic function.
    InlinedGeneric,
    /// Unknown thunk.
    Unknown,
}

/// The human-readable name of another thunk kind.
pub open spec fn other_thunk_kind_name(k: OtherThunkKind) -> Seq<char> {
    match k {
        OtherThunkKind::Curry => "curry thunk"@,
        OtherThunkKind::KeyPathGetter => "keypath getter thunk"@,
        OtherThunkKind::KeyPathSetter => "keypath setter thunk"@,
        OtherThunkKind::KeyPathMethod => "keypath method thunk"@,
        OtherThunkKind::KeyPathEquals => "keypath equals thunk"@,
        OtherThunkKind::KeyPathHash => "keypath hash thunk"@,
        OtherThunkKind::BackDeployment => "back deployment thunk"@,
        OtherThunkKind::BackDeploymentFallback => "back deployment fallback"@,
        OtherThunkKind::Merged => "merged function"@,
        OtherThunkKind::InlinedGeneric => "inlined generic function"@,
        OtherThunkKind::Unknown => "thunk"@,
    }
}

impl OtherThunkKind {
    /// Get a human-readable name for this thunk kind.
    pub fn name(&self) -> (r: &'static str)
        ensures
            r@ == other_thunk_kind_name(*self),
    {
        match self {
            Self::Curry => "curry thunk",
            Self::KeyPathGetter => "keypath getter thunk",
            Self::KeyPathSetter => "keypath setter thunk",
            Self::KeyPathMethod => "keypath method thunk",
            Self::KeyPathEquals => "keypath equals thunk",
            Self::KeyPathHash => "keypath hash thunk",
            Self::BackDeployment => "back deployment thunk",
            Self::BackDeploymentFallback => "back deployment fallback",
            Self::Merged => "merged function",
            Self::InlinedGeneric => "inlined generic function",
            Self::Unknown => "thunk",
        }
    }
}

/// The human-readable name of the kind of a thunk model.
pub open spec fn thunk_kind_name(v: SymbolView) -> Seq<char> {
    match v {
        SymbolView::ThunkReabstraction(_) => "reabstraction thunk"@,
        SymbolView::ThunkWitness(_, self_conformance) => if self_conformance {
            "protocol self-conformance witness"@
        } else {
            "protocol witness"@
        },
        SymbolView::ThunkAutoDiff(_, k) => autodiff_thunk_kind_name(k),
        SymbolView::ThunkDispatch(_, k, _) => dispatch_kind_name(k),
        SymbolView::ThunkPartialApply(_, is_objc, _) => if is_objc {
            "partial apply ObjC forwarder"@
        } else {
            "partial apply forwarder"@
        },
        SymbolView::ThunkOther(k, _, _) => other_thunk_kind_name(k),
        _ => Seq::empty(),
    }
}

/// The module of a protocol witness thunk node: that of its conformance, or
/// else the first module among its descendants.
pub open spec fn witness_module(d: NodeData) -> Option<Seq<char>> {
    match conformance_module_of(spec_child_of_kind(d, NodeKind::ProtocolConformance)) {
        Some(m) => Some(m),
        None => spec_find_module_in_descendants(d),
    }
}

/// The module of an autodiff thunk node: that of its function, or else the
/// first module among its descendants.
pub open spec fn autodiff_thunk_module(d: NodeData) -> Option<Seq<char>> {
    match spec_child_of_kind(d, NodeKind::Function) {
        Some(f) => match spec_find_module(f) {
            Some(m) => Some(m),
            None => spec_find_module_in_descendants(d),
        },
        None => spec_find_module_in_descendants(d),
    }
}

/// The module of a thunk model.
pub open spec fn thunk_module(v: SymbolView) -> Option<Seq<char>> {
    match v {
        SymbolView::ThunkWitness(d, _) => witness_module(d),
        SymbolView::ThunkAutoDiff(d, _) => autodiff_thunk_module(d),
        _ => spec_find_module_in_descendants(view_raw(v)),
    }
}

/// The inner symbol of a protocol witness thunk node: its `Function` child,
/// or else its first child that is not the conformance.
pub open spec fn witness_inner_spec(d: NodeData) -> Option<SymbolView> {
    match spec_child_of_kind(d, NodeKind::Function) {
        Some(f) => Some(classify_spec(f, false)),
        None => match first_hit(
            d.children@,
            skipping(|k: NodeKind| k == NodeKind::ProtocolConformance),
        ) {
            Some(c) => Some(classify_spec(c, false)),
            None => None,
        },
    }
}

/// Selects the SIL function type of a `Type` child.
pub open spec fn impl_function_type_hit() -> spec_fn(NodeData) -> Option<NodeData> {
    |c: NodeData|
        match spec_unwrap_if_kind(c, NodeKind::Type) {
            Some(inner) => if inner.kind == NodeKind::ImplFunctionType {
                Some(inner)
            } else {
                None
            },
            None => None,
        }
}

/// The text of the `n`-th index subset child.
pub open spec fn index_subset_text(d: NodeData, n: int) -> Option<Seq<char>> {
    text_of(nth_child_of_kind(d, NodeKind::IndexSubset, n))
}

/// A Swift thunk symbol.
pub enum Thunk<'ctx> {
    /// Reabstraction thunk - converts between calling conventions.
    Reabstraction(ReabstractionThunk<'ctx>),
    /// Protocol witness thunk - adapts concrete impl to protocol requirement.
    ProtocolWitness(ProtocolWitnessThunk<'ctx>),
    /// AutoDiff thunk - handles automatic differentiation.
    AutoDiff(AutoDiffThunk<'ctx>),
    /// Dispatch thunk - looks up implementation in witness table or vtable.
    Dispatch { inner: Box<Symbol<'ctx>>, kind: DispatchKind, raw: Node<'ctx> },
    /// Partial application thunk - unpacks captured context.
    PartialApply { inner: Option<Box<Symbol<'ctx>>>, is_objc: bool, raw: Node<'ctx> },
    /// Other thunk types.
    Other { kind: OtherThunkKind, inner: Option<Box<Symbol<'ctx>>>, raw: Node<'ctx> },
}

/// The classification of the first child, or `Other` of the node when it has none.
fn first_child_or_other<'ctx>(raw: Node<'ctx>) -> (r: Symbol<'ctx>)
    ensures
        symbol_view(r) == first_child_or_other_view(raw.data()),
    decreases height(raw.data()), 0int,
{
    match raw.child(0) {
        Some(c) => {
            proof {
                lemma_child_height(raw.data(), 0);
            }
            Symbol::classify_node(c)
        },
        None => Symbol::Other(raw),
    }
}

/// The classification of the first child, if any.
fn first_child_symbol<'ctx>(raw: Node<'ctx>) -> (r: Option<Box<Symbol<'ctx>>>)
    ensures
        opt_box_view(r) == first_child_view(raw.data()),
    decreases height(raw.data()), 0int,
{
    match raw.child(0) {
        Some(c) => {
            proof {
                lemma_child_height(raw.data(), 0);
            }
            Some(Box::new(Symbol::classify_node(c)))
        },
        None => None,
    }
}

/// The inner symbol of a distributed thunk, which may be its first child or
/// a `Function` among its descendants.
fn distributed_inner<'ctx>(raw: Node<'ctx>) -> (r: Symbol<'ctx>)
    ensures
        symbol_view(r) == distributed_inner_view(raw.data()),
    decreases height(raw.data()), 0int,
{
    match raw.child(0) {
        Some(c) => {
            proof {
                lemma_child_height(raw.data(), 0);
            }
            Symbol::classify_node(c)
        },
        None => match raw.descendant_of_kind(NodeKind::Function) {
            Some(f) => {
                proof {
                    lemma_descendant_of_kind_height(raw.data(), NodeKind::Function);
                }
                Symbol::classify_node(f)
            },
            None => Symbol::Other(raw),
        },
    }
}

/// Find the inner symbol in a thunk node, skipping attribute nodes.
fn find_inner_symbol<'ctx>(raw: Node<'ctx>) -> (r: Option<Box<Symbol<'ctx>>>)
    ensures
        opt_box_view(r) == selected_child_view(raw.data(), attribute_skip()),
    decreases height(raw.data()), 0int,
{
    let cs = raw.children();
    let ghost s = raw.data().children@;
    let mut i: usize = 0;
    while i < cs.len()
        invariant
            i <= cs@.len(),
            datas(cs@) == s,
            s == raw.data().children@,
            forall|j: int| 0 <= j < i ==> (#[trigger] (skipping(attribute_skip()))(s[j])) is None,
        decreases cs@.len() - i,
    {
        proof { assert(s[i as int] == cs@[i as int].data()); }
        let child = cs[i];
        match child.kind() {
            NodeKind::ObjCAttribute | NodeKind::NonObjCAttribute | NodeKind::DynamicAttribute => {},
            _ => {
                proof {
                    lemma_first_hit_at(s, skipping(attribute_skip()), i as int);
                    lemma_child_height(raw.data(), i as int);
                }
                return Some(Box::new(Symbol::classify_node(child)));
            },
        }
        i = i + 1;
    }
    proof {
        lemma_first_hit_none(s, skipping(attribute_skip()));
    }
    None
}

/// Find the inner symbol, skipping metadata nodes like SpecializationPassID.
fn find_inner_symbol_skip_metadata<'ctx>(raw: Node<'ctx>) -> (r: Option<Box<Symbol<'ctx>>>)
    ensures
        opt_box_view(r) == selected_child_view(raw.data(), metadata_skip()),
    decreases height(raw.data()), 0int,
{
    let cs = raw.children();
    let ghost s = raw.data().children@;
    let mut i: usize = 0;
    while i < cs.len()
        invariant
            i <= cs@.len(),
            datas(cs@) == s,
            s == raw.data().children@,
            forall|j: int| 0 <= j < i ==> (#[trigger] (skipping(metadata_skip()))(s[j])) is None,
        decreases cs@.len() - i,
    {
        proof { assert(s[i as int] == cs@[i as int].data()); }
        let child = cs[i];
        match child.kind() {
            NodeKind::SpecializationPassID | NodeKind::Number | NodeKind::Index => {},
            _ => {
                proof {
                    lemma_first_hit_at(s, skipping(metadata_skip()), i as int);
                    lemma_child_height(raw.data(), i as int);
                }
                return Some(Box::new(Symbol::classify_node(child)));
            },
        }
        i = i + 1;
    }
    proof {
        lemma_first_hit_none(s, skipping(metadata_skip()));
    }
    None
}

impl<'ctx> Thunk<'ctx> {
    /// Create a Thunk from a raw node.
    pub fn new(raw: Node<'ctx>) -> (r: Self)
        ensures
            thunk_view(r) == thunk_spec(raw.data()),
        decreases height(raw.data()), 1int,
    {
        match raw.kind() {
            NodeKind::ReabstractionThunk | NodeKind::ReabstractionThunkHelper
            | NodeKind::ReabstractionThunkHelperWithSelf
            | NodeKind::ReabstractionThunkHelperWithGlobalActor
            | NodeKind::AutoDiffSelfReorderingReabstractionThunk => Self::Reabstraction(
                ReabstractionThunk::new(raw),
            ),
            NodeKind::ProtocolWitness | NodeKind::ProtocolSelfConformanceWitness => Self::ProtocolWitness(
                ProtocolWitnessThunk::new(raw),
            ),
            NodeKind::AutoDiffSubsetParametersThunk
            | NodeKind::AutoDiffDerivativeVTableThunk => Self::AutoDiff(AutoDiffThunk::new(raw)),
            NodeKind::DispatchThunk => Self::Dispatch {
                inner: Box::new(first_child_or_other(raw)),
                kind: DispatchKind::Protocol,
                raw,
            },
            NodeKind::VTableThunk => Self::Dispatch {
                inner: Box::new(first_child_or_other(raw)),
                kind: DispatchKind::VTable,
                raw,
            },
            NodeKind::DistributedThunk => Self::Dispatch {
                inner: Box::new(distributed_inner(raw)),
                kind: DispatchKind::Distributed,
                raw,
            },
            NodeKind::PartialApplyForwarder => Self::PartialApply {
                inner: find_inner_symbol(raw),
                is_objc: false,
                raw,
            },
            NodeKind::PartialApplyObjCForwarder => Self::PartialApply {
                inner: find_inner_symbol(raw),
                is_objc: true,
                raw,
            },
            NodeKind::CurryThunk => Self::Other {
                kind: OtherThunkKind::Curry,
                inner: first_child_symbol(raw),
                raw,
            },
            NodeKind::KeyPathGetterThunkHelper => Self::Other {
                kind: OtherThunkKind::KeyPathGetter,
                inner: first_child_symbol(raw),
                raw,
            },
            NodeKind::KeyPathSetterThunkHelper => Self::Other {
                kind: OtherThunkKind::KeyPathSetter,
                inner: first_child_symbol(raw),
                raw,
            },
            NodeKind::KeyPathUnappliedMethodThunkHelper
            | NodeKind::KeyPathAppliedMethodThunkHelper => Self::Other {
                kind: OtherThunkKind::KeyPathMethod,
                inner: first_child_symbol(raw),
                raw,
            },
            NodeKind::KeyPathEqualsThunkHelper => Self::Other {
                kind: OtherThunkKind::KeyPathEquals,
                inner: first_child_symbol(raw),
                raw,
            },
            NodeKind::KeyPathHashThunkHelper => Self::Other {
                kind: OtherThunkKind::KeyPathHash,
                inner: first_child_symbol(raw),
                raw,
            },
            NodeKind::BackDeploymentThunk => Self::Other {
                kind: OtherThunkKind::BackDeployment,
                inner: first_child_symbol(raw),
                raw,
            },
            NodeKind::BackDeploymentFallback => Self::Other {
                kind: OtherThunkKind::BackDeploymentFallback,
                inner: first_child_symbol(raw),
                raw,
            },
            NodeKind::MergedFunction => Self::Other {
                kind: OtherThunkKind::Merged,
                inner: find_inner_symbol_skip_metadata(raw),
                raw,
            },
            NodeKind::InlinedGenericFunction => Self::Other {
                kind: OtherThunkKind::InlinedGeneric,
                inner: find_inner_symbol_skip_metadata(raw),
                raw,
            },
            _ => Self::Other { kind: OtherThunkKind::Unknown, inner: first_child_symbol(raw), raw },
        }
    }

    /// Create a Thunk marker with an already-classified inner symbol.
    ///
    /// This is used for sibling patterns where the inner symbol is the next sibling
    /// in Global, not a child of the marker node.
    pub fn new_marker(raw: Node<'ctx>, inner: Symbol<'ctx>) -> (r: Self)
        ensures
            thunk_view(r) == thunk_marker_spec(raw.data(), symbol_view(inner)),
    {
        match raw.kind() {
            NodeKind::DistributedThunk => Self::Dispatch {
                inner: Box::new(inner),
                kind: DispatchKind::Distributed,
                raw,
            },
            NodeKind::MergedFunction => Self::Other {
                kind: OtherThunkKind::Merged,
                inner: Some(Box::new(inner)),
                raw,
            },
            NodeKind::InlinedGenericFunction => Self::Other {
                kind: OtherThunkKind::InlinedGeneric,
                inner: Some(Box::new(inner)),
                raw,
            },
            _ => Self::Other { kind: OtherThunkKind::Unknown, inner: Some(Box::new(inner)), raw },
        }
    }

    /// Get the underlying raw node.
    pub fn raw(&self) -> (r: Node<'ctx>)
        ensures
            r.data() == view_raw(thunk_view(*self)),
    {
        match self {
            Self::Reabstraction(t) => t.raw,
            Self::ProtocolWitness(t) => t.raw,
            Self::AutoDiff(t) => t.raw,
            Self::Dispatch { raw, .. } => *raw,
            Self::PartialApply { raw, .. } => *raw,
            Self::Other { raw, .. } => *raw,
        }
    }

    /// Get the module containing this thunk.
    pub fn module(&self) -> (r: Option<&'ctx str>)
        ensures
            opt_str(r) == thunk_module(thunk_view(*self)),
    {
        match self {
            Self::Reabstraction(t) => t.module(),
            Self::ProtocolWitness(t) => t.module(),
            Self::AutoDiff(t) => t.module(),
            Self::Dispatch { raw, .. } => raw.find_module_in_descendants(),
            Self::PartialApply { raw, .. } => raw.find_module_in_descendants(),
            Self::Other { raw, .. } => raw.find_module_in_descendants(),
        }
    }

    /// Get a human-readable description of this thunk kind.
    pub fn kind_name(&self) -> (r: &'static str)
        ensures
            r@ == thunk_kind_name(thunk_view(*self)),
    {
        match self {
            Self::Reabstraction(_) => "reabstraction thunk",
            Self::ProtocolWitness(t) => {
                if t.is_self_conformance {
                    "protocol self-conformance witness"
                } else {
                    "protocol witness"
                }
            },
            Self::AutoDiff(t) => t.kind.name(),
            Self::Dispatch { kind, .. } => kind.name(),
            Self::PartialApply { is_objc, .. } => {
                if *is_objc {
                    "partial apply ObjC forwarder"
                } else {
                    "partial apply forwarder"
                }
            },
            Self::Other { kind, .. } => kind.name(),
        }
    }

    /// The human-readable rendering of this thunk.
    pub fn to_string(&self) -> (r: String)
        ensures
            r@ == view_raw(thunk_view(*self)).display@,
    {
        self.raw().to_string()
    }
}

/// A reabstraction thunk that converts between calling conventions.
#[derive(Clone, Copy)]
pub struct ReabstractionThunk<'ctx> {
    raw: Node<'ctx>,
}

impl<'ctx> ReabstractionThunk<'ctx> {
    /// The node of this thunk.
    pub closed spec fn spec_raw(self) -> Node<'ctx> {
        self.raw
    }

    fn new(raw: Node<'ctx>) -> (r: Self)
        ensures
            r.spec_raw() == raw,
    {
        Self { raw }
    }

    /// Get the target function type (the "to" type): the first `Type` child.
    pub fn target(&self) -> (r: Option<TypeRef<'ctx>>)
        ensures
            opt_type_data(r) == spec_extract_type_ref(self.spec_raw().data()),
    {
        self.raw.extract_type_ref()
    }

    /// Get the source function type (the "from" type): the second `Type` child.
    pub fn source(&self) -> (r: Option<TypeRef<'ctx>>)
        ensures
            opt_type_data(r) == second_type_from(self.spec_raw().data().children@, false),
    {
        second_type_child(self.raw)
    }

    /// Get the generic signature if this is a generic reabstraction thunk.
    pub fn generic_signature(&self) -> (r: Option<GenericSignature<'ctx>>)
        ensures
            opt_sig_data(r) == spec_child_of_kind(
                self.spec_raw().data(),
                NodeKind::DependentGenericSignature,
            ),
    {
        match self.raw.child_of_kind(NodeKind::DependentGenericSignature) {
            Some(s) => Some(GenericSignature::new(s)),
            None => None,
        }
    }

    /// Get the module containing this thunk.
    pub fn module(&self) -> (r: Option<&'ctx str>)
        ensures
            opt_str(r) == spec_find_module_in_descendants(self.spec_raw().data()),
    {
        self.raw.find_module_in_descendants()
    }
}

/// A protocol witness thunk that adapts a concrete implementation to a protocol requirement.
#[derive(Clone, Copy)]
pub struct ProtocolWitnessThunk<'ctx> {
    raw: Node<'ctx>,
    is_self_conformance: bool,
}

impl<'ctx> ProtocolWitnessThunk<'ctx> {
    /// The node of this thunk.
    pub closed spec fn spec_raw(self) -> Node<'ctx> {
        self.raw
    }

    /// Whether this thunk is a self-conformance witness.
    pub closed spec fn spec_is_self_conformance(self) -> bool {
        self.is_self_conformance
    }

    fn new(raw: Node<'ctx>) -> (r: Self)
        ensures
            r.spec_raw() == raw,
            r.spec_is_self_conformance() == (raw.data().kind
                == NodeKind::ProtocolSelfConformanceWitness),
    {
        Self { raw, is_self_conformance: raw.kind() == NodeKind::ProtocolSelfConformanceWitness }
    }

    /// Get the protocol conformance.
    pub fn conformance(&self) -> (r: Option<ProtocolConformance<'ctx>>)
        ensures
            opt_conformance_data(r) == spec_child_of_kind(
                self.spec_raw().data(),
                NodeKind::ProtocolConformance,
            ),
    {
        conformance_child(self.raw)
    }

    /// Get the inner function being witnessed: the `Function` child, or else
    /// the first child that is not the conformance.
    pub fn inner(&self) -> (r: Option<Symbol<'ctx>>)
        ensures
            opt_symbol_view(r) == witness_inner_spec(self.spec_raw().data()),
    {
        if let Some(f) = self.raw.child_of_kind(NodeKind::Function) {
            return Some(Symbol::classify_node(f));
        }
        let cs = self.raw.children();
        let ghost s = self.raw.data().children@;
        let ghost f = skipping(|k: NodeKind| k == NodeKind::ProtocolConformance);
        let mut i: usize = 0;
        while i < cs.len()
            invariant
                i <= cs@.len(),
                datas(cs@) == s,
                f == skipping(|k: NodeKind| k == NodeKind::ProtocolConformance),
                forall|j: int| 0 <= j < i ==> (#[trigger] f(s[j])) is None,
            decreases cs@.len() - i,
        {
            proof { assert(s[i as int] == cs@[i as int].data()); }
            let child = cs[i];
            if child.kind() != NodeKind::ProtocolConformance {
                proof {
                    lemma_first_hit_at(s, f, i as int);
                }
                return Some(Symbol::classify_node(child));
            }
            i = i + 1;
        }
        proof {
            lemma_first_hit_none(s, f);
        }
        None
    }

    /// Check if this is a self-conformance witness.
    pub fn is_self_conformance(&self) -> (b: bool)
        ensures
            b == self.spec_is_self_conformance(),
    {
        self.is_self_conformance
    }

    /// Get the module containing this thunk.
    pub fn module(&self) -> (r: Option<&'ctx str>)
        ensures
            opt_str(r) == witness_module(self.spec_raw().data()),
    {
        if let Some(c) = self.conformance() {
            if let Some(m) = c.module() {
                return Some(m);
            }
        }
        self.raw.find_module_in_descendants()
    }
}

/// An automatic differentiation thunk.
#[derive(Clone, Copy)]
pub struct AutoDiffThunk<'ctx> {
    raw: Node<'ctx>,
    kind: AutoDiffThunkKind,
}

impl<'ctx> AutoDiffThunk<'ctx> {
    /// The node of this thunk.
    pub closed spec fn spec_raw(self) -> Node<'ctx> {
        self.raw
    }

    /// The kind of this thunk.
    pub closed spec fn spec_kind(self) -> AutoDiffThunkKind {
        self.kind
    }

    fn new(raw: Node<'ctx>) -> (r: Self)
        ensures
            r.spec_raw() == raw,
            r.spec_kind() == autodiff_thunk_kind_of(raw.data().kind),
    {
        let kind = match raw.kind() {
            NodeKind::AutoDiffSubsetParametersThunk => AutoDiffThunkKind::SubsetParameters,
            NodeKind::AutoDiffDerivativeVTableThunk => AutoDiffThunkKind::DerivativeVTable,
            _ => AutoDiffThunkKind::Unknown,
        };
        Self { raw, kind }
    }

    /// Get the kind of autodiff thunk.
    pub fn kind(&self) -> (k: AutoDiffThunkKind)
        ensures
            k == self.spec_kind(),
    {
        self.kind
    }

    /// Get the original function being differentiated.
    pub fn function(&self) -> (r: Option<Function<'ctx>>)
        ensures
            match r {
                Some(f) => spec_child_of_kind(self.spec_raw().data(), NodeKind::Function) == Some(
                    f.spec_raw().data(),
                ) && !f.spec_is_static(),
                None => spec_child_of_kind(self.spec_raw().data(), NodeKind::Function) is None,
            },
    {
        match self.raw.child_of_kind(NodeKind::Function) {
            Some(c) => Some(Function::new(c)),
            None => None,
        }
    }

    /// Get the autodiff function kind (forward, reverse, etc.).
    pub fn autodiff_function_kind(&self) -> (r: Option<u64>)
        ensures
            r == match spec_child_of_kind(self.spec_raw().data(), NodeKind::AutoDiffFunctionKind) {
                Some(c) => c.index,
                None => None,
            },
    {
        match self.raw.child_of_kind(NodeKind::AutoDiffFunctionKind) {
            Some(c) => c.index(),
            None => None,
        }
    }

    /// Get the function type of this thunk (with full SIL conventions).
    pub fn function_type(&self) -> (r: Option<ImplFunctionType<'ctx>>)
        ensures
            match r {
                Some(t) => first_hit(self.spec_raw().data().children@, impl_function_type_hit())
                    == Some(t.spec_raw().data()),
                None => first_hit(self.spec_raw().data().children@, impl_function_type_hit()) is None,
            },
    {
        let cs = self.raw.children();
        let ghost s = self.raw.data().children@;
        let mut i: usize = 0;
        while i < cs.len()
            invariant
                i <= cs@.len(),
                datas(cs@) == s,
                forall|j: int| 0 <= j < i ==> (#[trigger] (impl_function_type_hit())(s[j])) is None,
            decreases cs@.len() - i,
        {
            proof { assert(s[i as int] == cs@[i as int].data()); }
            if let Some(inner) = cs[i].unwrap_if_kind(NodeKind::Type) {
                if inner.kind() == NodeKind::ImplFunctionType {
                    proof {
                        lemma_first_hit_at(s, impl_function_type_hit(), i as int);
                    }
                    return Some(ImplFunctionType::new(inner));
                }
            }
            i = i + 1;
        }
        proof {
            lemma_first_hit_none(s, impl_function_type_hit());
        }
        None
    }

    fn index_subset(&self, n: usize) -> (r: Option<&'ctx str>)
        ensures
            opt_str(r) == index_subset_text(self.spec_raw().data(), n as int),
    {
        let subsets = self.raw.children_of_kind(NodeKind::IndexSubset);
        if n < subsets.len() {
            proof {
                assert(datas(subsets@)[n as int] == subsets@[n as int].data());
            }
            subsets[n].text()
        } else {
            None
        }
    }

    /// Get the parameter indices (as a string like "SSS" where S=selected, U=unselected):
    /// the second index subset.
    pub fn parameter_indices(&self) -> (r: Option<&'ctx str>)
        ensures
            opt_str(r) == index_subset_text(self.spec_raw().data(), 1),
    {
        self.index_subset(1)
    }

    /// Get the result indices (as a string like "S" where S=selected, U=unselected):
    /// the first index subset.
    pub fn result_indices(&self) -> (r: Option<&'ctx str>)
        ensures
            opt_str(r) == index_subset_text(self.spec_raw().data(), 0),
    {
        self.index_subset(0)
    }

    /// Get the "to" parameter indices for subset parameters thunks: the third
    /// index subset.
    pub fn to_parameter_indices(&self) -> (r: Option<&'ctx str>)
        ensures
            opt_str(r) == index_subset_text(self.spec_raw().data(), 2),
    {
        self.index_subset(2)
    }

    /// Get the module containing this thunk.
    pub fn module(&self) -> (r: Option<&'ctx str>)
        ensures
            opt_str(r) == autodiff_thunk_module(self.spec_raw().data()),
    {
        if let Some(f) = self.function() {
            if let Some(m) = f.module() {
                return Some(m);
            }
        }
        self.raw.find_module_in_descendants()
    }
}

} // verus!
