//! Top-level symbol representation.
//!
//! This module provides the main `Symbol` enum that categorizes demangled Swift symbols
//! into specific types for easier consumption, together with its mathematical
//! model, [`SymbolView`], and the specification of the classification.

use vstd::prelude::*;

use crate::accessor::{accessor_kind_of, Accessor, AccessorKind};
use crate::async_symbol::{async_inner_view, async_symbol_kind_of, async_view, AsyncSymbol, AsyncSymbolKind};
use crate::autodiff::AutoDiff;
use crate::closure::Closure;
use crate::constructor::{Constructor, Destructor};
use crate::context::{extract_context, SymbolContext};
use crate::descriptor::{descriptor_kind_of, Descriptor, DescriptorKind};
use crate::enum_case::EnumCase;
use crate::function::Function;
use crate::helpers::{
    spec_child_of_kind, spec_descendant_of_kind,
    spec_extract_type_ref, spec_find_identifier, spec_find_module, text_of, HasModule,
};
use crate::macro_symbol::{macro_symbol_kind_of, MacroSymbol, MacroSymbolKind};
use crate::metadata::{metadata_inner_view, metadata_kind_of, metadata_view, Metadata, MetadataKind};
use crate::outlined::Outlined;
use crate::raw::{
    datas, descendants, height, lemma_child_height, lemma_descendant_height, opt_str, Node,
    NodeData, NodeKind,
};
use crate::search::{
    filter_map, first_hit, flatten, lemma_first_hit_at,
    lemma_first_hit_none, lemma_first_hit_select,
};
use crate::specialization::Specialization;
use crate::thunk::{
    autodiff_thunk_kind_of, AutoDiffThunkKind, DispatchKind, OtherThunkKind, Thunk,
};
use crate::types::{opt_type_data, TypeRef};
use crate::witness_table::{witness_table_kind_of, WitnessTable, WitnessTableKind};

verus! {

/// The mathematical model of a classified symbol: for each kind of symbol,
/// the node it was built from and the models of the symbols it wraps.
pub enum SymbolView {
    /// A function node and whether it is static.
    Function(NodeData, bool),
    /// A constructor node.
    Constructor(NodeData),
    /// A destructor node.
    Destructor(NodeData),
    /// An enum case node.
    EnumCase(NodeData),
    /// An accessor node and whether it is static.
    Accessor(NodeData, bool),
    /// A variable node.
    Variable(NodeData),
    /// A closure node.
    Closure(NodeData),
    /// A reabstraction thunk node.
    ThunkReabstraction(NodeData),
    /// A protocol witness thunk node and whether it is a self-conformance witness.
    ThunkWitness(NodeData, bool),
    /// An automatic differentiation thunk node and its kind.
    ThunkAutoDiff(NodeData, AutoDiffThunkKind),
    /// A dispatch thunk: its inner symbol, its kind and its node.
    ThunkDispatch(Box<SymbolView>, DispatchKind, NodeData),
    /// A partial application thunk: its inner symbol, whether it forwards to
    /// Objective-C, and its node.
    ThunkPartialApply(Option<Box<SymbolView>>, bool, NodeData),
    /// Another thunk: its kind, its inner symbol and its node.
    ThunkOther(OtherThunkKind, Option<Box<SymbolView>>, NodeData),
    /// A specialization node and the symbol it specializes.
    Specialization(NodeData, Box<SymbolView>),
    /// A witness table node.
    WitnessTable(NodeData),
    /// A descriptor node.
    Descriptor(NodeData),
    /// A metadata node and the symbol it marks, if any.
    Metadata(NodeData, Option<Box<SymbolView>>),
    /// A type node.
    Type(NodeData),
    /// An attribute, its node, and the symbol it applies to.
    Attributed(SymbolAttribute, NodeData, Box<SymbolView>),
    /// A default argument initializer node.
    DefaultArgument(NodeData),
    /// An outlined operation node and its context symbol.
    Outlined(NodeData, Box<SymbolView>),
    /// An async or coroutine node and the symbol it marks, if any.
    Async(NodeData, Option<Box<SymbolView>>),
    /// A macro node.
    Macro(NodeData),
    /// An automatic differentiation node.
    AutoDiff(NodeData),
    /// A bare identifier node.
    Identifier(NodeData),
    /// An unmangled suffix and the symbol it follows.
    Suffixed(Seq<char>, Box<SymbolView>),
    /// Any other node.
    Other(NodeData),
}

/// The node a symbol model stands for (for a suffixed symbol, that of the
/// symbol it follows).
pub open spec fn view_raw(v: SymbolView) -> NodeData
    decreases v,
{
    match v {
        SymbolView::Function(d, _) => d,
        SymbolView::Constructor(d) => d,
        SymbolView::Destructor(d) => d,
        SymbolView::EnumCase(d) => d,
        SymbolView::Accessor(d, _) => d,
        SymbolView::Variable(d) => d,
        SymbolView::Closure(d) => d,
        SymbolView::ThunkReabstraction(d) => d,
        SymbolView::ThunkWitness(d, _) => d,
        SymbolView::ThunkAutoDiff(d, _) => d,
        SymbolView::ThunkDispatch(_, _, d) => d,
        SymbolView::ThunkPartialApply(_, _, d) => d,
        SymbolView::ThunkOther(_, _, d) => d,
        SymbolView::Specialization(d, _) => d,
        SymbolView::WitnessTable(d) => d,
        SymbolView::Descriptor(d) => d,
        SymbolView::Metadata(d, _) => d,
        SymbolView::Type(d) => d,
        SymbolView::Attributed(_, d, _) => d,
        SymbolView::DefaultArgument(d) => d,
        SymbolView::Outlined(d, _) => d,
        SymbolView::Async(d, _) => d,
        SymbolView::Macro(d) => d,
        SymbolView::AutoDiff(d) => d,
        SymbolView::Identifier(d) => d,
        SymbolView::Suffixed(_, inner) => view_raw(*inner),
        SymbolView::Other(d) => d,
    }
}

/// The model of a symbol.
pub open spec fn symbol_view<'ctx>(s: Symbol<'ctx>) -> SymbolView
    decreases s,
{
    match s {
        Symbol::Function(f) => SymbolView::Function(f.spec_raw().data(), f.spec_is_static()),
        Symbol::Constructor(c) => SymbolView::Constructor(c.spec_raw().data()),
        Symbol::Destructor(c) => SymbolView::Destructor(c.spec_raw().data()),
        Symbol::EnumCase(e) => SymbolView::EnumCase(e.spec_raw().data()),
        Symbol::Accessor(a) => SymbolView::Accessor(a.spec_raw().data(), a.spec_is_static()),
        Symbol::Variable(v) => SymbolView::Variable(v.spec_raw().data()),
        Symbol::Closure(c) => SymbolView::Closure(c.spec_raw().data()),
        Symbol::Thunk(t) => match t {
            Thunk::Reabstraction(r) => SymbolView::ThunkReabstraction(r.spec_raw().data()),
            Thunk::ProtocolWitness(p) => SymbolView::ThunkWitness(
                p.spec_raw().data(),
                p.spec_is_self_conformance(),
            ),
            Thunk::AutoDiff(a) => SymbolView::ThunkAutoDiff(a.spec_raw().data(), a.spec_kind()),
            Thunk::Dispatch { inner, kind, raw } => SymbolView::ThunkDispatch(
                Box::new(symbol_view(*inner)),
                kind,
                raw.data(),
            ),
            Thunk::PartialApply { inner, is_objc, raw } => SymbolView::ThunkPartialApply(
                match inner {
                    Some(b) => Some(Box::new(symbol_view(*b))),
                    None => None,
                },
                is_objc,
                raw.data(),
            ),
            Thunk::Other { kind, inner, raw } => SymbolView::ThunkOther(
                kind,
                match inner {
                    Some(b) => Some(Box::new(symbol_view(*b))),
                    None => None,
                },
                raw.data(),
            ),
        },
        Symbol::Specialization(s) => SymbolView::Specialization(
            s.specialization.spec_raw().data(),
            Box::new(symbol_view(*s.inner)),
        ),
        Symbol::WitnessTable(w) => SymbolView::WitnessTable(w.spec_raw().data()),
        Symbol::Descriptor(d) => SymbolView::Descriptor(d.spec_raw().data()),
        Symbol::Metadata(m) => SymbolView::Metadata(m.spec_raw().data(), metadata_inner_view(m)),
        Symbol::Type(t) => SymbolView::Type(t.spec_raw().data()),
        Symbol::Attributed(a) => SymbolView::Attributed(
            a.attribute,
            a.raw.data(),
            Box::new(symbol_view(*a.inner)),
        ),
        Symbol::DefaultArgument(d) => SymbolView::DefaultArgument(d.spec_raw().data()),
        Symbol::Outlined(o) => SymbolView::Outlined(
            o.outlined.spec_raw().data(),
            Box::new(symbol_view(*o.context)),
        ),
        Symbol::Async(a) => SymbolView::Async(a.spec_raw().data(), async_inner_view(a)),
        Symbol::Macro(m) => SymbolView::Macro(m.spec_raw().data()),
        Symbol::AutoDiff(a) => SymbolView::AutoDiff(a.spec_raw().data()),
        Symbol::Identifier(n) => SymbolView::Identifier(n.data()),
        Symbol::Suffixed(s) => SymbolView::Suffixed(s.suffix@, Box::new(symbol_view(*s.inner))),
        Symbol::Other(n) => SymbolView::Other(n.data()),
    }
}

/// The model of a thunk.
pub open spec fn thunk_view<'ctx>(t: Thunk<'ctx>) -> SymbolView {
    symbol_view(Symbol::Thunk(t))
}

/// The model of an optional symbol.
pub open spec fn opt_symbol_view<'ctx>(o: Option<Symbol<'ctx>>) -> Option<SymbolView> {
    match o {
        Some(s) => Some(symbol_view(s)),
        None => None,
    }
}

/// The model of an optional boxed symbol.
pub open spec fn opt_box_view<'ctx>(o: Option<Box<Symbol<'ctx>>>) -> Option<Box<SymbolView>> {
    match o {
        Some(b) => Some(Box::new(symbol_view(*b))),
        None => None,
    }
}

/// A search that keeps the nodes whose kind is not skipped.
pub open spec fn skipping(skip: spec_fn(NodeKind) -> bool) -> spec_fn(NodeData) -> Option<NodeData> {
    |c: NodeData| if skip(c.kind) { None } else { Some(c) }
}

/// Attribute kinds that partial application thunks look past.
pub open spec fn attribute_skip() -> spec_fn(NodeKind) -> bool {
    |k: NodeKind|
        k == NodeKind::ObjCAttribute || k == NodeKind::NonObjCAttribute || k
            == NodeKind::DynamicAttribute
}

/// Metadata kinds that merged and inlined functions look past.
pub open spec fn metadata_skip() -> spec_fn(NodeKind) -> bool {
    |k: NodeKind|
        k == NodeKind::SpecializationPassID || k == NodeKind::Number || k == NodeKind::Index
}

/// A child selected by skipping kinds is lower than its parent.
pub proof fn lemma_skipping_height(d: NodeData, skip: spec_fn(NodeKind) -> bool)
    ensures
        first_hit(d.children@, skipping(skip)) matches Some(c) ==> height(c) < height(d),
{
    lemma_first_hit_select(d.children@, skipping(skip));
    if let Some(c) = first_hit(d.children@, skipping(skip)) {
        let j = choose|j: int| 0 <= j < d.children@.len() && d.children@[j] == c;
        lemma_child_height(d, j);
    }
}

/// A descendant found by kind is lower than the node it descends from.
pub proof fn lemma_descendant_of_kind_height(d: NodeData, k: NodeKind)
    ensures
        spec_descendant_of_kind(d, k) matches Some(c) ==> height(c) < height(d),
{
    crate::helpers::lemma_first_hit_kind_mem(descendants(d), k);
    if let Some(c) = spec_descendant_of_kind(d, k) {
        let j = choose|j: int| 0 <= j < descendants(d).len() && descendants(d)[j] == c;
        lemma_descendant_height(d, j);
    }
}

/// The classification of a node, with the static flag of an enclosing
/// `Static` node.
pub open spec fn classify_spec(d: NodeData, is_static: bool) -> SymbolView
    decreases height(d), 2int,
{
    match d.kind {
        NodeKind::Static => if d.children@.len() > 0 {
            proof {
                lemma_child_height(d, 0);
            }
            classify_spec(d.children@[0], true)
        } else {
            SymbolView::Other(d)
        },
        NodeKind::Function => SymbolView::Function(d, is_static),
        NodeKind::Constructor |
            NodeKind::Allocator => SymbolView::Constructor(d),
        NodeKind::Destructor |
            NodeKind::Deallocator |
            NodeKind::IsolatedDeallocator => SymbolView::Destructor(d),
        NodeKind::EnumCase => SymbolView::EnumCase(d),
        NodeKind::Getter |
            NodeKind::Setter |
            NodeKind::ModifyAccessor |
            NodeKind::Modify2Accessor |
            NodeKind::ReadAccessor |
            NodeKind::Read2Accessor |
            NodeKind::WillSet |
            NodeKind::DidSet |
            NodeKind::GlobalGetter |
            NodeKind::MaterializeForSet |
            NodeKind::InitAccessor |
            NodeKind::UnsafeAddressor |
            NodeKind::UnsafeMutableAddressor |
            NodeKind::OwningAddressor |
            NodeKind::OwningMutableAddressor |
            NodeKind::NativeOwningAddressor |
            NodeKind::NativeOwningMutableAddressor |
            NodeKind::NativePinningAddressor |
            NodeKind::NativePinningMutableAddressor => SymbolView::Accessor(d, is_static),
        NodeKind::Variable => SymbolView::Variable(d),
        NodeKind::ExplicitClosure |
            NodeKind::ImplicitClosure => SymbolView::Closure(d),
        NodeKind::DispatchThunk |
            NodeKind::VTableThunk |
            NodeKind::DistributedThunk |
            NodeKind::ReabstractionThunk |
            NodeKind::ReabstractionThunkHelper |
            NodeKind::ReabstractionThunkHelperWithSelf |
            NodeKind::ReabstractionThunkHelperWithGlobalActor |
            NodeKind::AutoDiffSelfReorderingReabstractionThunk |
            NodeKind::PartialApplyForwarder |
            NodeKind::PartialApplyObjCForwarder |
            NodeKind::CurryThunk |
            NodeKind::ProtocolWitness |
            NodeKind::ProtocolSelfConformanceWitness |
            NodeKind::KeyPathGetterThunkHelper |
            NodeKind::KeyPathSetterThunkHelper |
            NodeKind::KeyPathUnappliedMethodThunkHelper |
            NodeKind::KeyPathAppliedMethodThunkHelper |
            NodeKind::KeyPathEqualsThunkHelper |
            NodeKind::KeyPathHashThunkHelper |
            NodeKind::AutoDiffSubsetParametersThunk |
            NodeKind::AutoDiffDerivativeVTableThunk |
            NodeKind::BackDeploymentThunk |
            NodeKind::BackDeploymentFallback |
            NodeKind::MergedFunction |
            NodeKind::InlinedGenericFunction => thunk_spec(d),
        NodeKind::ProtocolWitnessTable |
            NodeKind::ProtocolWitnessTableAccessor |
            NodeKind::ProtocolWitnessTablePattern |
            NodeKind::GenericProtocolWitnessTable |
            NodeKind::GenericProtocolWitnessTableInstantiationFunction |
            NodeKind::ResilientProtocolWitnessTable |
            NodeKind::LazyProtocolWitnessTableAccessor |
            NodeKind::LazyProtocolWitnessTableCacheVariable |
            NodeKind::ProtocolSelfConformanceWitnessTable |
            NodeKind::ValueWitnessTable |
            NodeKind::ValueWitness |
            NodeKind::AssociatedTypeWitnessTableAccessor |
            NodeKind::BaseWitnessTableAccessor |
            NodeKind::ConcreteProtocolConformance => SymbolView::WitnessTable(d),
        NodeKind::ProtocolConformanceDescriptor |
            NodeKind::ProtocolConformanceDescriptorRecord |
            NodeKind::OpaqueTypeDescriptor |
            NodeKind::OpaqueTypeDescriptorRecord |
            NodeKind::OpaqueTypeDescriptorAccessor |
            NodeKind::OpaqueTypeDescriptorAccessorImpl |
            NodeKind::OpaqueTypeDescriptorAccessorKey |
            NodeKind::OpaqueTypeDescriptorAccessorVar |
            NodeKind::NominalTypeDescriptor |
            NodeKind::NominalTypeDescriptorRecord |
            NodeKind::PropertyDescriptor |
            NodeKind::ProtocolDescriptor |
            NodeKind::ProtocolDescriptorRecord |
            NodeKind::ProtocolRequirementsBaseDescriptor |
            NodeKind::MethodDescriptor |
            NodeKind::AssociatedTypeDescriptor |
            NodeKind::AssociatedConformanceDescriptor |
            NodeKind::DefaultAssociatedConformanceAccessor |
            NodeKind::BaseConformanceDescriptor |
            NodeKind::ExtensionDescriptor |
            NodeKind::AnonymousDescriptor |
            NodeKind::ModuleDescriptor |
            NodeKind::ReflectionMetadataAssocTypeDescriptor |
            NodeKind::AccessibleFunctionRecord => SymbolView::Descriptor(d),
        NodeKind::TypeMetadata |
            NodeKind::FullTypeMetadata |
            NodeKind::TypeMetadataAccessFunction |
            NodeKind::TypeMetadataCompletionFunction |
            NodeKind::TypeMetadataInstantiationFunction |
            NodeKind::TypeMetadataInstantiationCache |
            NodeKind::TypeMetadataLazyCache |
            NodeKind::TypeMetadataSingletonInitializationCache |
            NodeKind::TypeMetadataDemanglingCache |
            NodeKind::GenericTypeMetadataPattern |
            NodeKind::MetadataInstantiationCache |
            NodeKind::NoncanonicalSpecializedGenericTypeMetadata |
            NodeKind::NoncanonicalSpecializedGenericTypeMetadataCache |
            NodeKind::CanonicalSpecializedGenericTypeMetadataAccessFunction |
            NodeKind::AssociatedTypeMetadataAccessor |
            NodeKind::DefaultAssociatedTypeMetadataAccessor |
            NodeKind::ClassMetadataBaseOffset |
            NodeKind::ObjCMetadataUpdateFunction |
            NodeKind::FieldOffset |
            NodeKind::Metaclass |
            NodeKind::IVarInitializer |
            NodeKind::IVarDestroyer |
            NodeKind::HasSymbolQuery |
            NodeKind::DefaultOverride |
            NodeKind::PropertyWrapperBackingInitializer |
            NodeKind::MethodLookupFunction => SymbolView::Metadata(d, None),
        NodeKind::DefaultArgumentInitializer => SymbolView::DefaultArgument(d),
        NodeKind::TypeMangling => if d.children@.len() > 0 {
            SymbolView::Type(d.children@[0])
        } else {
            SymbolView::Other(d)
        },
        NodeKind::Class |
            NodeKind::Structure |
            NodeKind::Enum |
            NodeKind::Protocol |
            NodeKind::TypeAlias |
            NodeKind::OtherNominalType |
            NodeKind::BuiltinTypeName |
            NodeKind::BoundGenericStructure |
            NodeKind::BoundGenericClass |
            NodeKind::BoundGenericEnum |
            NodeKind::Tuple |
            NodeKind::BuiltinFixedArray => SymbolView::Type(d),
        NodeKind::Subscript => SymbolView::Accessor(d, is_static),
        NodeKind::AsyncAwaitResumePartialFunction |
            NodeKind::AsyncSuspendResumePartialFunction |
            NodeKind::AsyncFunctionPointer |
            NodeKind::CoroFunctionPointer |
            NodeKind::CoroutineContinuationPrototype => SymbolView::Async(d, None),
        NodeKind::Macro |
            NodeKind::FreestandingMacroExpansion |
            NodeKind::MacroExpansionUniqueName |
            NodeKind::AccessorAttachedMacroExpansion |
            NodeKind::BodyAttachedMacroExpansion |
            NodeKind::ConformanceAttachedMacroExpansion |
            NodeKind::ExtensionAttachedMacroExpansion |
            NodeKind::MemberAttachedMacroExpansion |
            NodeKind::MemberAttributeAttachedMacroExpansion |
            NodeKind::PeerAttachedMacroExpansion |
            NodeKind::PreambleAttachedMacroExpansion => SymbolView::Macro(d),
        NodeKind::AutoDiffFunction |
            NodeKind::DifferentiabilityWitness => SymbolView::AutoDiff(d),
        NodeKind::Identifier => SymbolView::Identifier(d),
        _ => SymbolView::Other(d),
    }
}

/// The classification of the first child, or `Other` of the node when it has none.
pub open spec fn first_child_or_other_view(d: NodeData) -> SymbolView
    decreases height(d), 0int,
{
    if d.children@.len() > 0 {
        proof {
            lemma_child_height(d, 0);
        }
        classify_spec(d.children@[0], false)
    } else {
        SymbolView::Other(d)
    }
}

/// The classification of the first child, if any.
pub open spec fn first_child_view(d: NodeData) -> Option<Box<SymbolView>>
    decreases height(d), 0int,
{
    if d.children@.len() > 0 {
        proof {
            lemma_child_height(d, 0);
        }
        Some(Box::new(classify_spec(d.children@[0], false)))
    } else {
        None
    }
}

/// The inner symbol of a distributed thunk: its first child, or else its
/// first `Function` descendant, or else the thunk node itself as `Other`.
pub open spec fn distributed_inner_view(d: NodeData) -> SymbolView
    decreases height(d), 0int,
{
    if d.children@.len() > 0 {
        proof {
            lemma_child_height(d, 0);
        }
        classify_spec(d.children@[0], false)
    } else {
        match spec_descendant_of_kind(d, NodeKind::Function) {
            Some(f) => {
                proof {
                    lemma_descendant_of_kind_height(d, NodeKind::Function);
                }
                classify_spec(f, false)
            },
            None => SymbolView::Other(d),
        }
    }
}

/// The classification of the first child whose kind is not skipped.
pub open spec fn selected_child_view(d: NodeData, skip: spec_fn(NodeKind) -> bool) -> Option<
    Box<SymbolView>,
>
    decreases height(d), 0int,
{
    match first_hit(d.children@, skipping(skip)) {
        Some(c) => {
            proof {
                lemma_skipping_height(d, skip);
            }
            Some(Box::new(classify_spec(c, false)))
        },
        None => None,
    }
}

/// The model of the thunk built from a thunk node.
pub open spec fn thunk_spec(d: NodeData) -> SymbolView
    decreases height(d), 1int,
{
    match d.kind {
        NodeKind::ReabstractionThunk | NodeKind::ReabstractionThunkHelper
        | NodeKind::ReabstractionThunkHelperWithSelf
        | NodeKind::ReabstractionThunkHelperWithGlobalActor
        | NodeKind::AutoDiffSelfReorderingReabstractionThunk => SymbolView::ThunkReabstraction(d),
        NodeKind::ProtocolWitness | NodeKind::ProtocolSelfConformanceWitness => SymbolView::ThunkWitness(
            d,
            d.kind == NodeKind::ProtocolSelfConformanceWitness,
        ),
        NodeKind::AutoDiffSubsetParametersThunk
        | NodeKind::AutoDiffDerivativeVTableThunk => SymbolView::ThunkAutoDiff(
            d,
            autodiff_thunk_kind_of(d.kind),
        ),
        NodeKind::DispatchThunk => SymbolView::ThunkDispatch(
            Box::new(first_child_or_other_view(d)),
            DispatchKind::Protocol,
            d,
        ),
        NodeKind::VTableThunk => SymbolView::ThunkDispatch(
            Box::new(first_child_or_other_view(d)),
            DispatchKind::VTable,
            d,
        ),
        NodeKind::DistributedThunk => SymbolView::ThunkDispatch(
            Box::new(distributed_inner_view(d)),
            DispatchKind::Distributed,
            d,
        ),
        NodeKind::PartialApplyForwarder => SymbolView::ThunkPartialApply(
            selected_child_view(d, attribute_skip()),
            false,
            d,
        ),
        NodeKind::PartialApplyObjCForwarder => SymbolView::ThunkPartialApply(
            selected_child_view(d, attribute_skip()),
            true,
            d,
        ),
        NodeKind::CurryThunk => SymbolView::ThunkOther(
            OtherThunkKind::Curry,
            first_child_view(d),
            d,
        ),
        NodeKind::KeyPathGetterThunkHelper => SymbolView::ThunkOther(
            OtherThunkKind::KeyPathGetter,
            first_child_view(d),
            d,
        ),
        NodeKind::KeyPathSetterThunkHelper => SymbolView::ThunkOther(
            OtherThunkKind::KeyPathSetter,
            first_child_view(d),
            d,
        ),
        NodeKind::KeyPathUnappliedMethodThunkHelper
        | NodeKind::KeyPathAppliedMethodThunkHelper => SymbolView::ThunkOther(
            OtherThunkKind::KeyPathMethod,
            first_child_view(d),
            d,
        ),
        NodeKind::KeyPathEqualsThunkHelper => SymbolView::ThunkOther(
            OtherThunkKind::KeyPathEquals,
            first_child_view(d),
            d,
        ),
        NodeKind::KeyPathHashThunkHelper => SymbolView::ThunkOther(
            OtherThunkKind::KeyPathHash,
            first_child_view(d),
            d,
        ),
        NodeKind::BackDeploymentThunk => SymbolView::ThunkOther(
            OtherThunkKind::BackDeployment,
            first_child_view(d),
            d,
        ),
        NodeKind::BackDeploymentFallback => SymbolView::ThunkOther(
            OtherThunkKind::BackDeploymentFallback,
            first_child_view(d),
            d,
        ),
        NodeKind::MergedFunction => SymbolView::ThunkOther(
            OtherThunkKind::Merged,
            selected_child_view(d, metadata_skip()),
            d,
        ),
        NodeKind::InlinedGenericFunction => SymbolView::ThunkOther(
            OtherThunkKind::InlinedGeneric,
            selected_child_view(d, metadata_skip()),
            d,
        ),
        _ => SymbolView::ThunkOther(OtherThunkKind::Unknown, first_child_view(d), d),
    }
}

/// The model of a thunk marker wrapping an already classified symbol.
pub open spec fn thunk_marker_spec(d: NodeData, inner: SymbolView) -> SymbolView {
    if d.kind == NodeKind::DistributedThunk {
        SymbolView::ThunkDispatch(Box::new(inner), DispatchKind::Distributed, d)
    } else if d.kind == NodeKind::MergedFunction {
        SymbolView::ThunkOther(OtherThunkKind::Merged, Some(Box::new(inner)), d)
    } else if d.kind == NodeKind::InlinedGenericFunction {
        SymbolView::ThunkOther(OtherThunkKind::InlinedGeneric, Some(Box::new(inner)), d)
    } else {
        SymbolView::ThunkOther(OtherThunkKind::Unknown, Some(Box::new(inner)), d)
    }
}

/// Whether a kind is a specialization.
pub open spec fn is_specialization_node_kind(k: NodeKind) -> bool {
    matches!(
        k,
        NodeKind::GenericSpecialization | NodeKind::GenericSpecializationNotReAbstracted
            | NodeKind::GenericSpecializationInResilienceDomain
            | NodeKind::GenericSpecializationPrespecialized | NodeKind::GenericPartialSpecialization
            | NodeKind::GenericPartialSpecializationNotReAbstracted
            | NodeKind::FunctionSignatureSpecialization
    )
}

/// Whether a kind is an outlined operation.
pub open spec fn is_outlined_node_kind(k: NodeKind) -> bool {
    matches!(
        k,
        NodeKind::OutlinedBridgedMethod | NodeKind::OutlinedVariable | NodeKind::OutlinedCopy
            | NodeKind::OutlinedConsume | NodeKind::OutlinedRetain | NodeKind::OutlinedRelease
            | NodeKind::OutlinedInitializeWithTake | NodeKind::OutlinedInitializeWithCopy
            | NodeKind::OutlinedAssignWithTake | NodeKind::OutlinedAssignWithCopy
            | NodeKind::OutlinedDestroy | NodeKind::OutlinedInitializeWithCopyNoValueWitness
            | NodeKind::OutlinedInitializeWithTakeNoValueWitness
            | NodeKind::OutlinedAssignWithCopyNoValueWitness
            | NodeKind::OutlinedAssignWithTakeNoValueWitness
            | NodeKind::OutlinedDestroyNoValueWitness | NodeKind::OutlinedReadOnlyObject
    )
}

/// The attribute a node kind stands for, if any.
pub open spec fn attribute_of(k: NodeKind) -> Option<SymbolAttribute> {
    match k {
        NodeKind::ObjCAttribute => Some(SymbolAttribute::ObjC),
        NodeKind::NonObjCAttribute => Some(SymbolAttribute::NonObjC),
        NodeKind::DynamicAttribute => Some(SymbolAttribute::Dynamic),
        NodeKind::DistributedAccessor => Some(SymbolAttribute::Distributed),
        _ => None,
    }
}

/// Whether a kind marks an async or coroutine entry point.
pub open spec fn is_async_marker_node_kind(k: NodeKind) -> bool {
    matches!(
        k,
        NodeKind::CoroFunctionPointer | NodeKind::AsyncFunctionPointer
            | NodeKind::AsyncAwaitResumePartialFunction
            | NodeKind::AsyncSuspendResumePartialFunction
    )
}

/// Whether a kind is a metadata marker.
pub open spec fn is_metadata_marker_node_kind(k: NodeKind) -> bool {
    matches!(k, NodeKind::DefaultOverride | NodeKind::HasSymbolQuery)
}

/// Whether a kind is a thunk marker.
pub open spec fn is_thunk_marker_node_kind(k: NodeKind) -> bool {
    matches!(
        k,
        NodeKind::InlinedGenericFunction | NodeKind::MergedFunction | NodeKind::DistributedThunk
    )
}

/// Whether a kind is any marker that wraps its next sibling.
pub open spec fn is_marker_node_kind(k: NodeKind) -> bool {
    is_async_marker_node_kind(k) || is_metadata_marker_node_kind(k) || is_thunk_marker_node_kind(
        k,
    )
}

/// The chain of specializations starting at child `i` of the root: each
/// specialization wraps the next sibling, down to the first sibling that is
/// not a specialization.
pub open spec fn spec_chain(root: NodeData, i: int) -> SymbolView
    decreases root.children@.len() - i,
{
    let s = root.children@;
    if i < 0 || i >= s.len() {
        SymbolView::Other(root)
    } else {
        let cur = s[i];
        if is_specialization_node_kind(cur.kind) {
            let inner = if i + 1 < s.len() {
                if is_specialization_node_kind(s[i + 1].kind) {
                    spec_chain(root, i + 1)
                } else {
                    classify_spec(s[i + 1], false)
                }
            } else {
                SymbolView::Other(cur)
            };
            SymbolView::Specialization(cur, Box::new(inner))
        } else {
            classify_spec(cur, false)
        }
    }
}

/// The chain of markers starting at child `i` of the root: each marker wraps
/// the next sibling, down to the first sibling that is not a marker.
pub open spec fn marker_chain_spec(root: NodeData, i: int) -> SymbolView
    decreases root.children@.len() - i,
{
    let s = root.children@;
    if i < 0 || i >= s.len() {
        SymbolView::Other(root)
    } else if i + 1 >= s.len() {
        SymbolView::Other(s[i])
    } else {
        let inner = if is_marker_node_kind(s[i + 1].kind) {
            marker_chain_spec(root, i + 1)
        } else {
            classify_spec(s[i + 1], false)
        };
        marker_layer(s[i], inner)
    }
}

/// The layer that a marker node puts around the symbol it marks: an async
/// symbol, a metadata symbol or a thunk; a node that is no marker adds none.
pub open spec fn marker_layer(cur: NodeData, inner: SymbolView) -> SymbolView {
    if is_async_marker_node_kind(cur.kind) {
        SymbolView::Async(cur, Some(Box::new(inner)))
    } else if is_metadata_marker_node_kind(cur.kind) {
        SymbolView::Metadata(cur, Some(Box::new(inner)))
    } else if is_thunk_marker_node_kind(cur.kind) {
        thunk_marker_spec(cur, inner)
    } else {
        inner
    }
}

/// Whether an outlined operation looks past a sibling: attributes and suffixes.
pub open spec fn is_outlined_skip(c: NodeData) -> bool {
    attribute_of(c.kind) is Some || c.kind == NodeKind::Suffix
}

/// The index of the context of an outlined operation, searching from `i`:
/// the first sibling that is neither an attribute nor a suffix.
pub open spec fn outlined_context_index(s: Seq<NodeData>, i: int) -> int
    decreases s.len() - i,
{
    if i < 0 || i >= s.len() {
        i
    } else if is_outlined_skip(s[i]) {
        outlined_context_index(s, i + 1)
    } else {
        i
    }
}

/// Selects attribute nodes.
pub open spec fn attribute_node_hit() -> spec_fn(NodeData) -> Option<NodeData> {
    |c: NodeData| if attribute_of(c.kind) is Some { Some(c) } else { None }
}

/// A symbol model wrapped by attributes, the first attribute outermost.
pub open spec fn wrap_attributes(attrs: Seq<NodeData>, inner: SymbolView) -> SymbolView
    decreases attrs.len(),
{
    if attrs.len() == 0 {
        inner
    } else {
        SymbolView::Attributed(
            attribute_of(attrs[0].kind).unwrap(),
            attrs[0],
            Box::new(wrap_attributes(attrs.drop_first(), inner)),
        )
    }
}

/// The model of an outlined operation symbol whose operation is the first child of the root.
pub open spec fn outlined_spec(root: NodeData) -> SymbolView {
    let s = root.children@;
    let first = s[0];
    let ci = outlined_context_index(s, 1);
    if ci < s.len() {
        let attrs = filter_map(s.subrange(1, ci), attribute_node_hit());
        SymbolView::Outlined(first, Box::new(wrap_attributes(attrs, classify_spec(s[ci], false))))
    } else {
        match spec_extract_type_ref(first) {
            Some(t) => SymbolView::Outlined(first, Box::new(SymbolView::Type(t))),
            None => SymbolView::Outlined(first, Box::new(SymbolView::Other(first))),
        }
    }
}

/// The model of the symbol read from a root node, if it is one.
///
/// The root must be a `Global` node with at least one child. Its first child
/// decides the shape: a specialization chain, an outlined operation with its
/// context, an attribute applied to the next sibling, a marker chain, or a
/// plain symbol, followed by an unmangled suffix when the root has one.
pub open spec fn from_node_spec(root: NodeData) -> Option<SymbolView> {
    let s = root.children@;
    if root.kind != NodeKind::Global || s.len() == 0 {
        None
    } else {
        let first = s[0];
        if is_specialization_node_kind(first.kind) {
            Some(spec_chain(root, 0))
        } else if is_outlined_node_kind(first.kind) {
            Some(outlined_spec(root))
        } else if attribute_of(first.kind) is Some && s.len() > 1 {
            Some(
                SymbolView::Attributed(
                    attribute_of(first.kind).unwrap(),
                    first,
                    Box::new(classify_spec(s[1], false)),
                ),
            )
        } else if is_marker_node_kind(first.kind) {
            Some(marker_chain_spec(root, 0))
        } else {
            let inner = classify_spec(first, false);
            match text_of(spec_child_of_kind(root, NodeKind::Suffix)) {
                Some(t) => Some(SymbolView::Suffixed(t, Box::new(inner))),
                None => Some(inner),
            }
        }
    }
}

/// Whether a model is one of the thunk models.
pub open spec fn is_thunk_view(v: SymbolView) -> bool {
    v is ThunkReabstraction || v is ThunkWitness || v is ThunkAutoDiff || v is ThunkDispatch
        || v is ThunkPartialApply || v is ThunkOther
}

/// A thunk model refers back to the thunk node it was built from.
pub proof fn lemma_thunk_raw(d: NodeData)
    ensures
        view_raw(thunk_spec(d)) == d,
{
}

/// A classified symbol refers back to the node it was built from, except for
/// a `Static` wrapper (which is looked through) and a type mangling (whose
/// type is its child).
pub proof fn lemma_classify_raw(d: NodeData, is_static: bool)
    requires
        d.kind != NodeKind::Static,
        d.kind != NodeKind::TypeMangling,
    ensures
        view_raw(classify_spec(d, is_static)) == d,
{
    lemma_thunk_raw(d);
}

/// The kinds whose classification records the static flag: functions,
/// accessors and subscripts.
pub open spec fn is_static_sensitive_kind(k: NodeKind) -> bool {
    matches!(k, NodeKind::Function | NodeKind::Getter | NodeKind::Setter | NodeKind::ModifyAccessor | NodeKind::Modify2Accessor | NodeKind::ReadAccessor | NodeKind::Read2Accessor | NodeKind::WillSet | NodeKind::DidSet | NodeKind::GlobalGetter | NodeKind::MaterializeForSet | NodeKind::InitAccessor | NodeKind::UnsafeAddressor | NodeKind::UnsafeMutableAddressor | NodeKind::OwningAddressor | NodeKind::OwningMutableAddressor | NodeKind::NativeOwningAddressor | NodeKind::NativeOwningMutableAddressor | NodeKind::NativePinningAddressor | NodeKind::NativePinningMutableAddressor | NodeKind::Subscript)
}

/// The static flag of an enclosing `Static` node reaches exactly the
/// functions, accessors and subscripts: classifying any other node gives the
/// same model with or without it.
pub proof fn lemma_static_flag(d: NodeData)
    requires
        d.kind != NodeKind::Static,
    ensures
        (classify_spec(d, true) == classify_spec(d, false)) <==> !is_static_sensitive_kind(d.kind),
{
    if is_static_sensitive_kind(d.kind) {
        assert(classify_spec(d, true) != classify_spec(d, false));
    } else {
        assert(classify_spec(d, true) == classify_spec(d, false));
    }
}

/// A `Static` node with a child is classified as its child, marked static.
pub proof fn lemma_static_wrapper(d: NodeData, is_static: bool)
    requires
        d.kind == NodeKind::Static,
        d.children@.len() > 0,
    ensures
        classify_spec(d, is_static) == classify_spec(d.children@[0], true),
{
}

/// A root node yields a symbol exactly when it is a `Global` node with at
/// least one child.
pub proof fn lemma_from_node_defined(root: NodeData)
    ensures
        from_node_spec(root) is Some <==> (root.kind == NodeKind::Global && root.children@.len()
            > 0),
{
}

/// Classifying a single node never yields a specialization or an attributed
/// symbol: those come only from the sibling patterns of a root.
pub proof fn lemma_classify_not_wrapper(d: NodeData, is_static: bool)
    ensures
        !(classify_spec(d, is_static) is Specialization),
        !(classify_spec(d, is_static) is Attributed),
    decreases height(d),
{
    lemma_thunk_is_thunk(d);
    if d.kind == NodeKind::Static && d.children@.len() > 0 {
        lemma_child_height(d, 0);
        lemma_classify_not_wrapper(d.children@[0], true);
        assert(classify_spec(d, is_static) == classify_spec(d.children@[0], true));
    }
}

/// The model of a symbol tells which kind of symbol it is: each kind of
/// symbol has its own kind of model, and every thunk has a thunk model.
pub proof fn lemma_symbol_view_variant<'ctx>(s: Symbol<'ctx>)
    ensures
        is_thunk_view(symbol_view(s)) <==> (s is Thunk),
        (symbol_view(s) is Function) <==> (s is Function),
        (symbol_view(s) is Constructor) <==> (s is Constructor),
        (symbol_view(s) is Destructor) <==> (s is Destructor),
        (symbol_view(s) is EnumCase) <==> (s is EnumCase),
        (symbol_view(s) is Accessor) <==> (s is Accessor),
        (symbol_view(s) is Variable) <==> (s is Variable),
        (symbol_view(s) is Closure) <==> (s is Closure),
        (symbol_view(s) is Specialization) <==> (s is Specialization),
        (symbol_view(s) is WitnessTable) <==> (s is WitnessTable),
        (symbol_view(s) is Descriptor) <==> (s is Descriptor),
        (symbol_view(s) is Metadata) <==> (s is Metadata),
        (symbol_view(s) is Type) <==> (s is Type),
        (symbol_view(s) is Attributed) <==> (s is Attributed),
        (symbol_view(s) is DefaultArgument) <==> (s is DefaultArgument),
        (symbol_view(s) is Outlined) <==> (s is Outlined),
        (symbol_view(s) is Async) <==> (s is Async),
        (symbol_view(s) is Macro) <==> (s is Macro),
        (symbol_view(s) is AutoDiff) <==> (s is AutoDiff),
        (symbol_view(s) is Identifier) <==> (s is Identifier),
        (symbol_view(s) is Suffixed) <==> (s is Suffixed),
        (symbol_view(s) is Other) <==> (s is Other),
{
}

/// Which kind of symbol a node classifies as is decided by its node kind,
/// and agrees with the kind that each kind of symbol reads from its node:
/// functions from function nodes; constructors from constructor and
/// allocator nodes; destructors from destructor, deallocator and isolated
/// deallocator nodes; accessors, witness tables, descriptors, metadata, async
/// symbols and macros from exactly the nodes to which their own kind
/// function gives a kind other than `Other`; and so on.
pub proof fn lemma_classify_kinds(d: NodeData, is_static: bool)
    requires
        d.kind != NodeKind::Static,
    ensures
        classify_spec(d, is_static) is Function <==> d.kind == NodeKind::Function,
        classify_spec(d, is_static) is Constructor <==> (d.kind == NodeKind::Constructor || d.kind
            == NodeKind::Allocator),
        classify_spec(d, is_static) is Destructor <==> (d.kind == NodeKind::Destructor || d.kind
            == NodeKind::Deallocator || d.kind == NodeKind::IsolatedDeallocator),
        classify_spec(d, is_static) is EnumCase <==> d.kind == NodeKind::EnumCase,
        classify_spec(d, is_static) is Accessor <==> accessor_kind_of(d.kind) != AccessorKind::Other,
        classify_spec(d, is_static) is Variable <==> d.kind == NodeKind::Variable,
        classify_spec(d, is_static) is Closure <==> (d.kind == NodeKind::ExplicitClosure || d.kind
            == NodeKind::ImplicitClosure),
        classify_spec(d, is_static) is WitnessTable <==> witness_table_kind_of(d.kind)
            != WitnessTableKind::Other,
        classify_spec(d, is_static) is Descriptor <==> descriptor_kind_of(d.kind)
            != DescriptorKind::Other,
        classify_spec(d, is_static) is Metadata <==> metadata_kind_of(d.kind) != MetadataKind::Other,
        classify_spec(d, is_static) is Async <==> async_symbol_kind_of(d.kind)
            != AsyncSymbolKind::Other,
        classify_spec(d, is_static) is Macro <==> macro_symbol_kind_of(d.kind)
            != MacroSymbolKind::Other,
        classify_spec(d, is_static) is AutoDiff <==> (d.kind == NodeKind::AutoDiffFunction || d.kind
            == NodeKind::DifferentiabilityWitness),
        classify_spec(d, is_static) is DefaultArgument <==> d.kind
            == NodeKind::DefaultArgumentInitializer,
        classify_spec(d, is_static) is Identifier <==> d.kind == NodeKind::Identifier,
{
    lemma_thunk_is_thunk(d);
}

/// The dispatch kind of a dispatch thunk model.
pub open spec fn thunk_dispatch_kind(v: SymbolView) -> Option<DispatchKind> {
    match v {
        SymbolView::ThunkDispatch(_, k, _) => Some(k),
        _ => None,
    }
}

/// The kind of a model of another thunk.
pub open spec fn thunk_other_kind(v: SymbolView) -> Option<OtherThunkKind> {
    match v {
        SymbolView::ThunkOther(k, _, _) => Some(k),
        _ => None,
    }
}

/// Each kind of thunk comes from its own thunk nodes: reabstraction thunks
/// from the reabstraction nodes, witness thunks from the protocol witness
/// nodes (self-conformance exactly from the self-conformance witness),
/// protocol, vtable and distributed dispatch thunks each from their own node,
/// partial application forwarders (forwarding to Objective-C exactly from the
/// Objective-C forwarder), and each other kind of thunk from its own nodes.
pub proof fn lemma_thunk_kinds(d: NodeData)
    ensures
        thunk_spec(d) is ThunkReabstraction <==> (d.kind == NodeKind::ReabstractionThunk || d.kind == NodeKind::ReabstractionThunkHelper || d.kind == NodeKind::ReabstractionThunkHelperWithSelf || d.kind == NodeKind::ReabstractionThunkHelperWithGlobalActor || d.kind == NodeKind::AutoDiffSelfReorderingReabstractionThunk),
        thunk_spec(d) is ThunkWitness <==> (d.kind == NodeKind::ProtocolWitness || d.kind == NodeKind::ProtocolSelfConformanceWitness),
        (thunk_spec(d) matches SymbolView::ThunkWitness(_, self_conformance) && self_conformance) <==> d.kind
            == NodeKind::ProtocolSelfConformanceWitness,
        thunk_spec(d) is ThunkAutoDiff <==> (d.kind == NodeKind::AutoDiffSubsetParametersThunk || d.kind == NodeKind::AutoDiffDerivativeVTableThunk),
        (thunk_dispatch_kind(thunk_spec(d)) == Some(DispatchKind::Protocol)) <==> d.kind == NodeKind::DispatchThunk,
        (thunk_dispatch_kind(thunk_spec(d)) == Some(DispatchKind::VTable)) <==> d.kind == NodeKind::VTableThunk,
        (thunk_dispatch_kind(thunk_spec(d)) == Some(DispatchKind::Distributed)) <==> d.kind == NodeKind::DistributedThunk,
        thunk_spec(d) is ThunkPartialApply <==> (d.kind == NodeKind::PartialApplyForwarder || d.kind == NodeKind::PartialApplyObjCForwarder),
        (thunk_spec(d) matches SymbolView::ThunkPartialApply(_, objc, _) && objc) <==> d.kind
            == NodeKind::PartialApplyObjCForwarder,
        (thunk_other_kind(thunk_spec(d)) == Some(OtherThunkKind::Curry)) <==> (d.kind == NodeKind::CurryThunk),
        (thunk_other_kind(thunk_spec(d)) == Some(OtherThunkKind::KeyPathGetter)) <==> (d.kind == NodeKind::KeyPathGetterThunkHelper),
        (thunk_other_kind(thunk_spec(d)) == Some(OtherThunkKind::KeyPathSetter)) <==> (d.kind == NodeKind::KeyPathSetterThunkHelper),
        (thunk_other_kind(thunk_spec(d)) == Some(OtherThunkKind::KeyPathMethod)) <==> (d.kind == NodeKind::KeyPathUnappliedMethodThunkHelper || d.kind == NodeKind::KeyPathAppliedMethodThunkHelper),
        (thunk_other_kind(thunk_spec(d)) == Some(OtherThunkKind::KeyPathEquals)) <==> (d.kind == NodeKind::KeyPathEqualsThunkHelper),
        (thunk_other_kind(thunk_spec(d)) == Some(OtherThunkKind::KeyPathHash)) <==> (d.kind == NodeKind::KeyPathHashThunkHelper),
        (thunk_other_kind(thunk_spec(d)) == Some(OtherThunkKind::BackDeployment)) <==> (d.kind == NodeKind::BackDeploymentThunk),
        (thunk_other_kind(thunk_spec(d)) == Some(OtherThunkKind::BackDeploymentFallback)) <==> (d.kind == NodeKind::BackDeploymentFallback),
        (thunk_other_kind(thunk_spec(d)) == Some(OtherThunkKind::Merged)) <==> (d.kind == NodeKind::MergedFunction),
        (thunk_other_kind(thunk_spec(d)) == Some(OtherThunkKind::InlinedGeneric)) <==> (d.kind == NodeKind::InlinedGenericFunction),
{
}

/// A thunk marker wraps its symbol as a merged function, an inlined generic
/// function or a distributed dispatch thunk exactly when its node is of that kind.
pub proof fn lemma_thunk_marker_kinds(d: NodeData, inner: SymbolView)
    ensures
        (thunk_other_kind(thunk_marker_spec(d, inner)) == Some(OtherThunkKind::Merged)) <==> d.kind == NodeKind::MergedFunction,
        (thunk_other_kind(thunk_marker_spec(d, inner)) == Some(OtherThunkKind::InlinedGeneric)) <==> d.kind == NodeKind::InlinedGenericFunction,
        (thunk_dispatch_kind(thunk_marker_spec(d, inner)) == Some(DispatchKind::Distributed)) <==> d.kind
            == NodeKind::DistributedThunk,
{
}

/// The model built for a thunk node is a thunk model.
pub proof fn lemma_thunk_is_thunk(d: NodeData)
    ensures
        is_thunk_view(thunk_spec(d)),
{
}

/// The symbol inside all the specialization layers of a model.
pub open spec fn innermost_specialized(v: SymbolView) -> SymbolView
    decreases v,
{
    match v {
        SymbolView::Specialization(_, inner) => innermost_specialized(*inner),
        _ => v,
    }
}

/// The number of specialization layers around a model.
pub open spec fn specialization_depth(v: SymbolView) -> nat
    decreases v,
{
    match v {
        SymbolView::Specialization(_, inner) => 1 + specialization_depth(*inner),
        _ => 0,
    }
}

/// The index of the first sibling from `i` on that is not a specialization
/// (the number of siblings when there is none).
pub open spec fn first_non_specialization(s: Seq<NodeData>, i: int) -> int
    decreases s.len() - i,
{
    if i < 0 || i >= s.len() {
        i
    } else if is_specialization_node_kind(s[i].kind) {
        first_non_specialization(s, i + 1)
    } else {
        i
    }
}

/// The model left after taking `n` specialization layers off a model.
pub open spec fn peel_specializations(v: SymbolView, n: nat) -> SymbolView
    decreases n,
{
    if n == 0 {
        v
    } else {
        match v {
            SymbolView::Specialization(_, inner) => peel_specializations(*inner, (n - 1) as nat),
            _ => v,
        }
    }
}

/// A chain of specializations has one layer for each specialization sibling
/// from where it starts, and wraps the first sibling that is not a
/// specialization; when every later sibling is a specialization, the last
/// one wraps itself as `Other`.
pub proof fn lemma_specialization_chain(root: NodeData, i: int)
    requires
        0 <= i < root.children@.len(),
        is_specialization_node_kind(root.children@[i].kind),
    ensures
        specialization_depth(spec_chain(root, i)) == first_non_specialization(root.children@, i)
            - i,
        innermost_specialized(spec_chain(root, i)) == if first_non_specialization(
            root.children@,
            i,
        ) < root.children@.len() {
            classify_spec(root.children@[first_non_specialization(root.children@, i)], false)
        } else {
            SymbolView::Other(root.children@[root.children@.len() - 1])
        },
    decreases root.children@.len() - i,
{
    let s = root.children@;
    assert(first_non_specialization(s, i) == first_non_specialization(s, i + 1));
    if i + 1 < s.len() {
        if is_specialization_node_kind(s[i + 1].kind) {
            lemma_specialization_chain(root, i + 1);
            assert(spec_chain(root, i) == SymbolView::Specialization(
                s[i],
                Box::new(spec_chain(root, i + 1)),
            ));
            assert(specialization_depth(spec_chain(root, i)) == 1 + specialization_depth(spec_chain(root, i + 1)));
            assert(innermost_specialized(spec_chain(root, i)) == innermost_specialized(spec_chain(root, i + 1)));
        } else {
            lemma_classify_not_wrapper(s[i + 1], false);
            let inner = classify_spec(s[i + 1], false);
            assert(spec_chain(root, i) == SymbolView::Specialization(s[i], Box::new(inner)));
            assert(first_non_specialization(s, i + 1) == i + 1);
            assert(specialization_depth(inner) == 0);
            assert(innermost_specialized(inner) == inner);
            assert(specialization_depth(spec_chain(root, i)) == 1);
            assert(innermost_specialized(spec_chain(root, i)) == inner);
        }
    } else {
        assert(spec_chain(root, i) == SymbolView::Specialization(
            s[i],
            Box::new(SymbolView::Other(s[i])),
        ));
        assert(first_non_specialization(s, i + 1) == i + 1);
        assert(specialization_depth(SymbolView::Other(s[i])) == 0);
        assert(innermost_specialized(SymbolView::Other(s[i])) == SymbolView::Other(s[i]));
        assert(specialization_depth(spec_chain(root, i)) == 1);
        assert(innermost_specialized(spec_chain(root, i)) == SymbolView::Other(s[i]));
    }
}

/// The first sibling that is not a specialization lies between where the
/// search starts and the end of the siblings.
pub proof fn lemma_first_non_specialization_bounds(s: Seq<NodeData>, i: int)
    requires
        0 <= i <= s.len(),
    ensures
        i <= first_non_specialization(s, i) <= s.len(),
    decreases s.len() - i,
{
    if i < s.len() && is_specialization_node_kind(s[i].kind) {
        lemma_first_non_specialization_bounds(s, i + 1);
    }
}

/// Each layer of a chain of specializations is a specialization of its own
/// sibling node around the next layer, one for each specialization sibling
/// from where the chain starts; taking all of them off leaves the first
/// sibling that is not a specialization, classified, or, when every later
/// sibling is a specialization, the last one as `Other`.
pub proof fn lemma_specialization_layers(root: NodeData, i: int)
    requires
        0 <= i < root.children@.len(),
        is_specialization_node_kind(root.children@[i].kind),
    ensures
        peel_specializations(
            spec_chain(root, i),
            (first_non_specialization(root.children@, i) - i) as nat,
        ) == if first_non_specialization(root.children@, i) < root.children@.len() {
            classify_spec(root.children@[first_non_specialization(root.children@, i)], false)
        } else {
            SymbolView::Other(root.children@[root.children@.len() - 1])
        },
        forall|j: int|
            0 <= j < first_non_specialization(root.children@, i) - i ==> {
                &&& is_specialization_node_kind((#[trigger] root.children@[i + j]).kind)
                &&& peel_specializations(spec_chain(root, i), j as nat)
                    == SymbolView::Specialization(
                    root.children@[i + j],
                    Box::new(peel_specializations(spec_chain(root, i), (j + 1) as nat)),
                )
            },
    decreases root.children@.len() - i,
{
    let s = root.children@;
    let c = spec_chain(root, i);
    lemma_first_non_specialization_bounds(s, i + 1);
    assert(first_non_specialization(s, i) == first_non_specialization(s, i + 1));
    let inner = if i + 1 < s.len() {
        if is_specialization_node_kind(s[i + 1].kind) {
            spec_chain(root, i + 1)
        } else {
            classify_spec(s[i + 1], false)
        }
    } else {
        SymbolView::Other(s[i])
    };
    assert(c == SymbolView::Specialization(s[i], Box::new(inner)));
    assert forall|j: int| 0 < j <= first_non_specialization(s, i) - i implies #[trigger] peel_specializations(
        c,
        j as nat,
    ) == peel_specializations(inner, (j - 1) as nat) by {}
    if i + 1 < s.len() && is_specialization_node_kind(s[i + 1].kind) {
        lemma_specialization_layers(root, i + 1);
        assert forall|j: int| 0 <= j < first_non_specialization(s, i) - i implies {
            &&& is_specialization_node_kind((#[trigger] s[i + j]).kind)
            &&& peel_specializations(c, j as nat) == SymbolView::Specialization(
                s[i + j],
                Box::new(peel_specializations(c, (j + 1) as nat)),
            )
        } by {
            assert(peel_specializations(c, (j + 1) as nat) == peel_specializations(inner, j as nat));
            if j > 0 {
                assert(peel_specializations(c, j as nat) == peel_specializations(inner, (j - 1) as nat));
                assert(i + 1 + (j - 1) == i + j);
                assert(peel_specializations(inner, (j - 1) as nat) == SymbolView::Specialization(
                    s[i + 1 + (j - 1)],
                    Box::new(peel_specializations(inner, ((j - 1) + 1) as nat)),
                ));
            } else {
                assert(peel_specializations(c, 0) == c);
                assert(peel_specializations(inner, 0) == inner);
            }
        }
    } else {
        assert(first_non_specialization(s, i + 1) == i + 1);
        assert(peel_specializations(c, 1) == peel_specializations(inner, 0));
        assert(peel_specializations(c, 0) == c);
    }
}

/// The symbol that a marker layer wraps, if the model is a marker layer
/// (async or coroutine pointer, metadata marker, dispatch or other thunk
/// with an inner symbol).
pub open spec fn marker_inner(v: SymbolView) -> Option<SymbolView> {
    match v {
        SymbolView::Async(_, Some(inner)) => Some(*inner),
        SymbolView::Metadata(_, Some(inner)) => Some(*inner),
        SymbolView::ThunkDispatch(inner, _, _) => Some(*inner),
        SymbolView::ThunkOther(_, Some(inner), _) => Some(*inner),
        _ => None,
    }
}

/// The model left after taking `n` marker layers off a model.
pub open spec fn peel_markers(v: SymbolView, n: nat) -> SymbolView
    decreases n,
{
    if n == 0 {
        v
    } else {
        match marker_inner(v) {
            Some(inner) => peel_markers(inner, (n - 1) as nat),
            None => v,
        }
    }
}

/// The index of the first sibling from `i` on that is not a marker (the
/// number of siblings when there is none).
pub open spec fn first_non_marker(s: Seq<NodeData>, i: int) -> int
    decreases s.len() - i,
{
    if i < 0 || i >= s.len() {
        i
    } else if is_marker_node_kind(s[i].kind) {
        first_non_marker(s, i + 1)
    } else {
        i
    }
}

/// The first sibling that is not a marker lies between where the search
/// starts and the end of the siblings.
pub proof fn lemma_first_non_marker_bounds(s: Seq<NodeData>, i: int)
    requires
        0 <= i <= s.len(),
    ensures
        i <= first_non_marker(s, i) <= s.len(),
    decreases s.len() - i,
{
    if i < s.len() && is_marker_node_kind(s[i].kind) {
        lemma_first_non_marker_bounds(s, i + 1);
    }
}

/// The number of marker layers of a chain of markers starting at child `i`:
/// one for each marker sibling before the first sibling that is not a
/// marker, or, when every later sibling is a marker, one for each but the last.
pub open spec fn marker_chain_depth(s: Seq<NodeData>, i: int) -> int {
    if first_non_marker(s, i) < s.len() {
        first_non_marker(s, i) - i
    } else {
        s.len() - 1 - i
    }
}

/// A chain of markers has one layer for each marker sibling from where it
/// starts, each layer standing for its own sibling, and wraps the first
/// sibling that is not a marker; when every later sibling is a marker, the
/// last one stands alone as `Other`. Each layer is the one its marker node
/// puts around the next layer: an async symbol, a metadata symbol or a thunk.
pub proof fn lemma_marker_chain(root: NodeData, i: int)
    requires
        0 <= i < root.children@.len(),
        is_marker_node_kind(root.children@[i].kind),
    ensures
        peel_markers(marker_chain_spec(root, i), marker_chain_depth(root.children@, i) as nat)
            == if first_non_marker(root.children@, i) < root.children@.len() {
            classify_spec(root.children@[first_non_marker(root.children@, i)], false)
        } else {
            SymbolView::Other(root.children@[root.children@.len() - 1])
        },
        forall|j: int|
            0 <= j < marker_chain_depth(root.children@, i) ==> {
                &&& marker_inner(peel_markers(marker_chain_spec(root, i), j as nat)) is Some
                &&& view_raw(peel_markers(marker_chain_spec(root, i), j as nat)) == #[trigger] root.children@[i + j]
                &&& is_marker_node_kind(root.children@[i + j].kind)
                &&& peel_markers(marker_chain_spec(root, i), j as nat) == marker_layer(
                    root.children@[i + j],
                    peel_markers(marker_chain_spec(root, i), (j + 1) as nat),
                )
            },
    decreases root.children@.len() - i,
{
    let s = root.children@;
    let c = marker_chain_spec(root, i);
    lemma_first_non_marker_bounds(s, i + 1);
    assert(first_non_marker(s, i) == first_non_marker(s, i + 1));
    if i + 1 < s.len() {
        let inner = if is_marker_node_kind(s[i + 1].kind) {
            marker_chain_spec(root, i + 1)
        } else {
            classify_spec(s[i + 1], false)
        };
        assert(marker_inner(c) == Some(inner));
        assert(view_raw(c) == s[i]);
        assert forall|j: int| 0 < j <= marker_chain_depth(s, i) implies #[trigger] peel_markers(
            c,
            j as nat,
        ) == peel_markers(inner, (j - 1) as nat) by {}
        if is_marker_node_kind(s[i + 1].kind) {
            lemma_marker_chain(root, i + 1);
            assert(marker_chain_depth(s, i) == marker_chain_depth(s, i + 1) + 1);
            assert forall|j: int| 0 <= j < marker_chain_depth(s, i) implies {
                &&& marker_inner(peel_markers(c, j as nat)) is Some
                &&& view_raw(peel_markers(c, j as nat)) == #[trigger] s[i + j]
                &&& is_marker_node_kind(s[i + j].kind)
                &&& peel_markers(c, j as nat) == marker_layer(s[i + j], peel_markers(c, (j + 1) as nat))
            } by {
                assert(peel_markers(c, (j + 1) as nat) == peel_markers(inner, j as nat));
                if j > 0 {
                    assert(peel_markers(c, j as nat) == peel_markers(inner, (j - 1) as nat));
                    assert(i + 1 + (j - 1) == i + j);
                    assert(peel_markers(inner, (j - 1) as nat) == marker_layer(
                        s[i + 1 + (j - 1)],
                        peel_markers(inner, ((j - 1) + 1) as nat),
                    ));
                } else {
                    assert(peel_markers(c, 0) == c);
                    assert(peel_markers(inner, 0) == inner);
                }
            }
        } else {
            assert(first_non_marker(s, i + 1) == i + 1);
            assert(marker_chain_depth(s, i) == 1);
            assert(peel_markers(c, 1) == peel_markers(inner, 0));
            assert(peel_markers(c, 0) == c);
            assert(c == marker_layer(s[i], inner));
        }
    } else {
        assert(first_non_marker(s, i + 1) == i + 1);
        assert(marker_chain_depth(s, i) == 0);
    }
}

/// The attribute nodes of the attributed layers around a model, outermost first.
pub open spec fn attribute_layers(v: SymbolView) -> Seq<NodeData>
    decreases v,
{
    match v {
        SymbolView::Attributed(_, n, inner) => seq![n] + attribute_layers(*inner),
        _ => Seq::empty(),
    }
}

/// The symbol inside all the attributed layers of a model.
pub open spec fn strip_attributes(v: SymbolView) -> SymbolView
    decreases v,
{
    match v {
        SymbolView::Attributed(_, _, inner) => strip_attributes(*inner),
        _ => v,
    }
}

/// Wrapping a symbol with attributes puts the first attribute outermost and
/// keeps the symbol inside them.
pub proof fn lemma_wrap_attributes(attrs: Seq<NodeData>, inner: SymbolView)
    requires
        !(inner is Attributed),
    ensures
        attribute_layers(wrap_attributes(attrs, inner)) == attrs,
        strip_attributes(wrap_attributes(attrs, inner)) == inner,
    decreases attrs.len(),
{
    if attrs.len() > 0 {
        lemma_wrap_attributes(attrs.drop_first(), inner);
        assert(seq![attrs[0]] + attrs.drop_first() =~= attrs);
    }
}

/// The context of an outlined operation carries the attributes found between
/// the operation and its context, in order and outermost first, around the
/// classification of the context node.
pub proof fn lemma_outlined_attributes(root: NodeData)
    requires
        root.children@.len() > 0,
        outlined_context_index(root.children@, 1) < root.children@.len(),
    ensures
        outlined_spec(root) matches SymbolView::Outlined(_, ctx) && attribute_layers(*ctx)
            == filter_map(
            root.children@.subrange(1, outlined_context_index(root.children@, 1)),
            attribute_node_hit(),
        ) && strip_attributes(*ctx) == classify_spec(
            root.children@[outlined_context_index(root.children@, 1)],
            false,
        ),
{
    let s = root.children@;
    let ci = outlined_context_index(s, 1);
    lemma_classify_not_wrapper(s[ci], false);
    lemma_wrap_attributes(filter_map(s.subrange(1, ci), attribute_node_hit()), classify_spec(s[ci], false));
}

/// A symbol with an attribute modifier (@objc, @nonobjc, dynamic, distributed).
pub struct AttributedSymbol<'ctx> {
    /// The attribute kind.
    pub attribute: SymbolAttribute,
    /// The inner symbol.
    pub inner: Box<Symbol<'ctx>>,
    /// The raw attribute node.
    pub raw: Node<'ctx>,
}

impl<'ctx> AttributedSymbol<'ctx> {
    /// The attribute node.
    pub open spec fn spec_raw(self) -> Node<'ctx> {
        self.raw
    }

    /// Get the raw attribute node.
    pub fn raw(&self) -> (r: Node<'ctx>)
        ensures
            r == self.spec_raw(),
    {
        self.raw
    }
}

/// Symbol attributes that can be applied to declarations.
#[derive(Debug, Clone, Copy, PartialEq, Eq, Structural)]
pub enum SymbolAttribute {
    /// `@objc` attribute - exposed to Objective-C.
    ObjC,
    /// `@nonobjc` attribute - not exposed to Objective-C.
    NonObjC,
    /// `dynamic` attribute - uses dynamic dispatch.
    Dynamic,
    /// `distributed` attribute - for distributed actors.
    Distributed,
}

/// The human-readable name of an attribute.
pub open spec fn symbol_attribute_name(a: SymbolAttribute) -> Seq<char> {
    match a {
        SymbolAttribute::ObjC => "@objc"@,
        SymbolAttribute::NonObjC => "@nonobjc"@,
        SymbolAttribute::Dynamic => "dynamic"@,
        SymbolAttribute::Distributed => "distributed"@,
    }
}

impl SymbolAttribute {
    /// Get a human-readable name for this attribute.
    pub fn name(&self) -> (r: &'static str)
        ensures
            r@ == symbol_attribute_name(*self),
    {
        match self {
            SymbolAttribute::ObjC => "@objc",
            SymbolAttribute::NonObjC => "@nonobjc",
            SymbolAttribute::Dynamic => "dynamic",
            SymbolAttribute::Distributed => "distributed",
        }
    }
}

/// A default argument initializer.
pub struct DefaultArgument<'ctx> {
    raw: Node<'ctx>,
}

impl<'ctx> DefaultArgument<'ctx> {
    /// The node of this default argument.
    pub closed spec fn spec_raw(self) -> Node<'ctx> {
        self.raw
    }

    /// Create a new DefaultArgument.
    pub fn new(raw: Node<'ctx>) -> (r: Self)
        ensures
            r.spec_raw() == raw,
    {
        Self { raw }
    }

    /// Get the raw node.
    pub fn raw(&self) -> (r: Node<'ctx>)
        ensures
            r == self.spec_raw(),
    {
        self.raw
    }

    /// Get the argument index (0-based): the index of the first `Number` child.
    pub fn index(&self) -> (r: Option<u64>)
        ensures
            r == match spec_child_of_kind(self.spec_raw().data(), NodeKind::Number) {
                Some(c) => c.index,
                None => None,
            },
    {
        match self.raw.child_of_kind(NodeKind::Number) {
            Some(c) => c.index(),
            None => None,
        }
    }

    /// Get the function this default argument belongs to.
    pub fn function(&self) -> (r: Option<Function<'ctx>>)
        ensures
            match r {
                Some(f) => spec_child_of_kind(self.spec_raw().data(), NodeKind::Function) == Some(
                    f.spec_raw().data(),
                ) && !f.spec_is_static(),
                None => spec_child_of_kind(self.spec_raw().data(), NodeKind::Function) is None,
            },
    {
        match self.raw.child_of_kind(NodeKind::Function) {
            Some(c) => Some(Function::new(c)),
            None => None,
        }
    }

    /// Get the module containing this default argument.
    pub fn module(&self) -> (r: Option<&'ctx str>)
        ensures
            opt_str(r) == match spec_child_of_kind(self.spec_raw().data(), NodeKind::Function) {
                Some(f) => spec_find_module(f),
                None => None,
            },
    {
        match self.function() {
            Some(f) => f.module(),
            None => None,
        }
    }
}

/// A specialized symbol containing both the specialization metadata and the inner symbol.
pub struct SpecializedSymbol<'ctx> {
    /// The specialization metadata.
    pub specialization: Specialization<'ctx>,
    /// The inner symbol being specialized.
    pub inner: Box<Symbol<'ctx>>,
}

/// An outlined symbol containing both the outlined operation metadata and the context symbol.
pub struct OutlinedSymbol<'ctx> {
    /// The outlined operation metadata.
    pub outlined: Outlined<'ctx>,
    /// The context symbol (usually a function) that this outlined operation is part of.
    pub context: Box<Symbol<'ctx>>,
}

/// A symbol with an unmangled suffix.
pub struct SuffixedSymbol<'ctx> {
    /// The unmangled suffix text.
    pub suffix: &'ctx str,
    /// The inner symbol.
    pub inner: Box<Symbol<'ctx>>,
}

/// A parsed Swift symbol.
///
/// This enum categorizes symbols based on the first child of the `Global` root node.
/// It provides a high-level view of what a symbol represents.
pub enum Symbol<'ctx> {
    /// A function symbol.
    Function(Function<'ctx>),
    /// A constructor (initializer).
    Constructor(Constructor<'ctx>),
    /// A destructor (deinitializer).
    Destructor(Destructor<'ctx>),
    /// An enum case constructor.
    EnumCase(EnumCase<'ctx>),
    /// A property accessor (getter, setter, etc.).
    Accessor(Accessor<'ctx>),
    /// A global variable.
    Variable(Variable<'ctx>),
    /// A closure.
    Closure(Closure<'ctx>),
    /// A thunk (dispatch, reabstraction, partial apply, etc.).
    Thunk(Thunk<'ctx>),
    /// A generic specialization (pre-compiled with specific type arguments).
    Specialization(SpecializedSymbol<'ctx>),
    /// A witness table (protocol or value).
    WitnessTable(WitnessTable<'ctx>),
    /// A metadata descriptor (protocol conformance, type, etc.).
    Descriptor(Descriptor<'ctx>),
    /// Type metadata (runtime type information).
    Metadata(Metadata<'ctx>),
    /// A type symbol (class, struct, enum, etc.).
    Type(TypeRef<'ctx>),
    /// A symbol with an attribute (@objc, @nonobjc, dynamic, distributed).
    Attributed(AttributedSymbol<'ctx>),
    /// A default argument initializer.
    DefaultArgument(DefaultArgument<'ctx>),
    /// An outlined operation (compiler-generated helpers).
    Outlined(OutlinedSymbol<'ctx>),
    /// An async/coroutine symbol.
    Async(AsyncSymbol<'ctx>),
    /// A macro or macro expansion.
    Macro(MacroSymbol<'ctx>),
    /// An automatic differentiation symbol.
    AutoDiff(AutoDiff<'ctx>),
    /// A bare identifier (name reference without full symbol info).
    Identifier(Node<'ctx>),
    /// A symbol with an unmangled suffix.
    Suffixed(SuffixedSymbol<'ctx>),
    /// Fallback for unhandled symbol kinds.
    Other(Node<'ctx>),
}

impl<'ctx> Symbol<'ctx> {
    /// Create a Symbol from a parsed root node.
    ///
    /// The node should be a `Global` node (the root of a demangled symbol tree).
    #[verifier::rlimit(40)]
    pub fn from_node(root: Node<'ctx>) -> (r: Option<Self>)
        ensures
            opt_symbol_view(r) == from_node_spec(root.data()),
    {
        if root.kind() != NodeKind::Global {
            return None;
        }
        let first_child = match root.child(0) {
            Some(c) => c,
            None => {
                return None;
            },
        };
        // Specializations come first, each wrapping the next sibling, down to
        // the specialized symbol.
        if Self::is_specialization_kind(first_child.kind()) {
            return Some(Self::build_specialization_chain(root, 0));
        }
        // Outlined operations: [Outlined, (Attribute | Suffix)*, context].
        if Self::is_outlined_kind(first_child.kind()) {
            return Some(Self::build_outlined(root, first_child));
        }
        // An attribute applies to the next sibling.
        if let Some(attribute) = Self::get_attribute_kind(first_child.kind()) {
            if let Some(inner_node) = root.child(1) {
                let inner = Self::classify(inner_node);
                let a = AttributedSymbol { attribute, inner: Box::new(inner), raw: first_child };
                return Some(Symbol::Attributed(a));
            }
        }
        // Markers (async/coro entry points, metadata and thunk markers) wrap
        // the next sibling, and may be chained.
        if Self::is_async_marker_kind(first_child.kind()) || Self::is_metadata_marker_kind(
            first_child.kind(),
        ) || Self::is_thunk_marker_kind(first_child.kind()) {
            return Some(Self::build_marker_chain(root, 0));
        }
        let suffix = match root.child_of_kind(NodeKind::Suffix) {
            Some(c) => c.text(),
            None => None,
        };
        let inner = Self::classify(first_child);
        match suffix {
            Some(suffix) => Some(Symbol::Suffixed(SuffixedSymbol { suffix, inner: Box::new(inner) })),
            None => Some(inner),
        }
    }

    /// Find the context of an outlined operation: the index of the first
    /// sibling after it that is neither an attribute nor a suffix, and the
    /// attribute nodes passed on the way.
    fn outlined_context(root: Node<'ctx>) -> (r: (usize, Vec<Node<'ctx>>))
        requires
            root.data().children@.len() > 0,
        ensures
            r.0 as int == outlined_context_index(root.data().children@, 1),
            datas(r.1@) == filter_map(
                root.data().children@.subrange(1, r.0 as int),
                attribute_node_hit(),
            ),
            1 <= r.0 <= root.data().children@.len(),
    {
        let ghost s = root.data().children@;
        let n = root.num_children();
        let mut context_idx: usize = 1;
        let mut attr_nodes: Vec<Node<'ctx>> = Vec::new();
        proof {
            assert(s.subrange(1, 1) =~= Seq::<NodeData>::empty());
            assert(datas(attr_nodes@) =~= filter_map(s.subrange(1, 1), attribute_node_hit()));
        }
        while context_idx < n
            invariant
                1 <= context_idx <= n,
                n == s.len(),
                s == root.data().children@,
                outlined_context_index(s, 1) == outlined_context_index(s, context_idx as int),
                datas(attr_nodes@) == filter_map(
                    s.subrange(1, context_idx as int),
                    attribute_node_hit(),
                ),
            decreases n - context_idx,
        {
            let node = match root.child(context_idx) {
                Some(c) => c,
                None => {
                    return (context_idx, attr_nodes);
                },
            };
            proof {
                let t = s.subrange(1, context_idx + 1);
                assert(t.drop_last() =~= s.subrange(1, context_idx as int));
                assert(t.last() == s[context_idx as int]);
            }
            if Self::get_attribute_kind(node.kind()).is_some() {
                let ghost before = attr_nodes@;
                attr_nodes.push(node);
                proof {
                    assert(datas(attr_nodes@) =~= datas(before).push(node.data()));
                }
                context_idx = context_idx + 1;
            } else if node.kind() == NodeKind::Suffix {
                context_idx = context_idx + 1;
            } else {
                return (context_idx, attr_nodes);
            }
        }
        (context_idx, attr_nodes)
    }

    /// Wrap a symbol with attributes, the first attribute outermost.
    fn wrap_with_attributes(attr_nodes: &Vec<Node<'ctx>>, inner: Symbol<'ctx>) -> (r: Symbol<'ctx>)
        requires
            forall|j: int|
                0 <= j < attr_nodes@.len() ==> (#[trigger] attribute_of(
                    datas(attr_nodes@)[j].kind,
                )) is Some,
        ensures
            symbol_view(r) == wrap_attributes(datas(attr_nodes@), symbol_view(inner)),
    {
        let ghost attrs = datas(attr_nodes@);
        let ghost base = symbol_view(inner);
        let mut context = inner;
        let mut k: usize = attr_nodes.len();
        proof {
            assert(attrs.subrange(k as int, attrs.len() as int) =~= Seq::<NodeData>::empty());
        }
        while k > 0
            invariant
                k <= attr_nodes@.len(),
                attrs == datas(attr_nodes@),
                symbol_view(context) == wrap_attributes(
                    attrs.subrange(k as int, attrs.len() as int),
                    base,
                ),
            decreases k,
        {
            k = k - 1;
            let attr_node = attr_nodes[k];
            proof {
                assert(attrs[k as int] == attr_node.data());
                let t = attrs.subrange(k as int, attrs.len() as int);
                assert(t[0] == attrs[k as int]);
                assert(t.drop_first() =~= attrs.subrange(k + 1, attrs.len() as int));
            }
            match Self::get_attribute_kind(attr_node.kind()) {
                Some(attr) => {
                    let a = AttributedSymbol { attribute: attr, inner: Box::new(context), raw: attr_node };
                    context = Symbol::Attributed(a);
                },
                None => {
                    proof {
                        assert(attribute_of(attrs[k as int].kind) is Some);
                    }
                },
            }
        }
        proof {
            assert(attrs.subrange(0, attrs.len() as int) =~= attrs);
        }
        context
    }

    /// Build an outlined operation symbol with its context.
    #[verifier::rlimit(40)]
    fn build_outlined(root: Node<'ctx>, first_child: Node<'ctx>) -> (r: Self)
        requires
            root.data().children@.len() > 0,
            first_child.data() == root.data().children@[0],
        ensures
            symbol_view(r) == outlined_spec(root.data()),
    {
        let ghost s = root.data().children@;
        let (context_idx, attr_nodes) = Self::outlined_context(root);
        if let Some(context_node) = root.child(context_idx) {
            let inner = Self::classify(context_node);
            proof {
                lemma_attribute_hits(s.subrange(1, context_idx as int));
            }
            let context = Self::wrap_with_attributes(&attr_nodes, inner);
            return Symbol::Outlined(
                OutlinedSymbol { outlined: Outlined::new(first_child), context: Box::new(context) },
            );
        }
        let context = match first_child.extract_type_ref() {
            Some(type_ref) => Symbol::Type(type_ref),
            None => Symbol::Other(first_child),
        };
        let ghost cv = symbol_view(context);
        Symbol::Outlined(
            OutlinedSymbol { outlined: Outlined::new(first_child), context: Box::new(context) },
        )
    }

    fn is_specialization_kind(kind: NodeKind) -> (b: bool)
        ensures
            b == is_specialization_node_kind(kind),
    {
        matches!(
            kind,
            NodeKind::GenericSpecialization | NodeKind::GenericSpecializationNotReAbstracted
                | NodeKind::GenericSpecializationInResilienceDomain
                | NodeKind::GenericSpecializationPrespecialized
                | NodeKind::GenericPartialSpecialization
                | NodeKind::GenericPartialSpecializationNotReAbstracted
                | NodeKind::FunctionSignatureSpecialization
        )
    }

    /// Build a chain of nested specializations.
    ///
    /// For nested specializations like `spec of spec of func`, all nodes are
    /// siblings in Global: [Spec1, Spec2, Func]. This function recursively
    /// builds the nested SpecializedSymbol structure.
    fn build_specialization_chain(root: Node<'ctx>, index: usize) -> (r: Symbol<'ctx>)
        ensures
            symbol_view(r) == spec_chain(root.data(), index as int),
        decreases root.data().children@.len() - index,
    {
        let n = root.num_children();
        if index >= n {
            return Symbol::Other(root);
        }
        let current = match root.child(index) {
            Some(c) => c,
            None => {
                return Symbol::Other(root);
            },
        };
        if Self::is_specialization_kind(current.kind()) {
            let inner = if index + 1 < n {
                match root.child(index + 1) {
                    Some(next) => if Self::is_specialization_kind(next.kind()) {
                        Self::build_specialization_chain(root, index + 1)
                    } else {
                        Self::classify(next)
                    },
                    None => Symbol::Other(current),
                }
            } else {
                Symbol::Other(current)
            };
            Symbol::Specialization(
                SpecializedSymbol {
                    specialization: Specialization::new(current),
                    inner: Box::new(inner),
                },
            )
        } else {
            Self::classify(current)
        }
    }

    /// Build a chain of nested marker symbols (async/coro pointers, default overrides, thunk markers).
    ///
    /// For chains like `[CoroFunctionPointer, DefaultOverride, Accessor]`, this builds
    /// nested wrapper symbols.
    fn build_marker_chain(root: Node<'ctx>, index: usize) -> (r: Symbol<'ctx>)
        ensures
            symbol_view(r) == marker_chain_spec(root.data(), index as int),
        decreases root.data().children@.len() - index,
    {
        let n = root.num_children();
        if index >= n {
            return Symbol::Other(root);
        }
        let current = match root.child(index) {
            Some(c) => c,
            None => {
                return Symbol::Other(root);
            },
        };
        if index + 1 >= n {
            return Symbol::Other(current);
        }
        let inner = match root.child(index + 1) {
            Some(next) => if Self::is_async_marker_kind(next.kind()) || Self::is_metadata_marker_kind(
                next.kind(),
            ) || Self::is_thunk_marker_kind(next.kind()) {
                Self::build_marker_chain(root, index + 1)
            } else {
                Self::classify(next)
            },
            None => {
                return Symbol::Other(current);
            },
        };
        if Self::is_async_marker_kind(current.kind()) {
            Symbol::Async(AsyncSymbol::with_inner(current, inner))
        } else if Self::is_metadata_marker_kind(current.kind()) {
            Symbol::Metadata(Metadata::with_inner(current, inner))
        } else if Self::is_thunk_marker_kind(current.kind()) {
            Symbol::Thunk(Thunk::new_marker(current, inner))
        } else {
            inner
        }
    }

    fn is_outlined_kind(kind: NodeKind) -> (b: bool)
        ensures
            b == is_outlined_node_kind(kind),
    {
        matches!(
            kind,
            NodeKind::OutlinedBridgedMethod | NodeKind::OutlinedVariable | NodeKind::OutlinedCopy
                | NodeKind::OutlinedConsume | NodeKind::OutlinedRetain | NodeKind::OutlinedRelease
                | NodeKind::OutlinedInitializeWithTake | NodeKind::OutlinedInitializeWithCopy
                | NodeKind::OutlinedAssignWithTake | NodeKind::OutlinedAssignWithCopy
                | NodeKind::OutlinedDestroy | NodeKind::OutlinedInitializeWithCopyNoValueWitness
                | NodeKind::OutlinedInitializeWithTakeNoValueWitness
                | NodeKind::OutlinedAssignWithCopyNoValueWitness
                | NodeKind::OutlinedAssignWithTakeNoValueWitness
                | NodeKind::OutlinedDestroyNoValueWitness | NodeKind::OutlinedReadOnlyObject
        )
    }

    fn get_attribute_kind(kind: NodeKind) -> (r: Option<SymbolAttribute>)
        ensures
            r == attribute_of(kind),
    {
        match kind {
            NodeKind::ObjCAttribute => Some(SymbolAttribute::ObjC),
            NodeKind::NonObjCAttribute => Some(SymbolAttribute::NonObjC),
            NodeKind::DynamicAttribute => Some(SymbolAttribute::Dynamic),
            NodeKind::DistributedAccessor => Some(SymbolAttribute::Distributed),
            _ => None,
        }
    }

    fn is_async_marker_kind(kind: NodeKind) -> (b: bool)
        ensures
            b == is_async_marker_node_kind(kind),
    {
        matches!(
            kind,
            NodeKind::CoroFunctionPointer | NodeKind::AsyncFunctionPointer
                | NodeKind::AsyncAwaitResumePartialFunction
                | NodeKind::AsyncSuspendResumePartialFunction
        )
    }

    fn is_metadata_marker_kind(kind: NodeKind) -> (b: bool)
        ensures
            b == is_metadata_marker_node_kind(kind),
    {
        matches!(kind, NodeKind::DefaultOverride | NodeKind::HasSymbolQuery)
    }

    fn is_thunk_marker_kind(kind: NodeKind) -> (b: bool)
        ensures
            b == is_thunk_marker_node_kind(kind),
    {
        matches!(
            kind,
            NodeKind::InlinedGenericFunction | NodeKind::MergedFunction
                | NodeKind::DistributedThunk
        )
    }

    fn classify(node: Node<'ctx>) -> (r: Self)
        ensures
            symbol_view(r) == classify_spec(node.data(), false),
    {
        Self::classify_with_static(node, false)
    }

    /// Classify a node into a Symbol.
    ///
    /// This is used internally and by Thunk::inner() to classify wrapped symbols.
    pub fn classify_node(node: Node<'ctx>) -> (r: Self)
        ensures
            symbol_view(r) == classify_spec(node.data(), false),
        decreases height(node.data()), 3int,
    {
        Self::classify_with_static(node, false)
    }

    fn classify_with_static(node: Node<'ctx>, is_static: bool) -> (r: Self)
        ensures
            symbol_view(r) == classify_spec(node.data(), is_static),
        decreases height(node.data()), 2int,
    {
        match node.kind() {
            NodeKind::Static => {
                if let Some(inner) = node.child(0) {
                    proof {
                        lemma_child_height(node.data(), 0);
                    }
                    return Self::classify_with_static(inner, true);
                }
                Symbol::Other(node)
            },
            NodeKind::Function => if is_static {
                Symbol::Function(Function::new_static(node))
            } else {
                Symbol::Function(Function::new(node))
            },
            NodeKind::Constructor |
                NodeKind::Allocator => Symbol::Constructor(Constructor::new(node)),
            NodeKind::Destructor |
                NodeKind::Deallocator |
                NodeKind::IsolatedDeallocator => Symbol::Destructor(Destructor::new(node)),
            NodeKind::EnumCase => Symbol::EnumCase(EnumCase::new(node)),
            NodeKind::Getter |
                NodeKind::Setter |
                NodeKind::ModifyAccessor |
                NodeKind::Modify2Accessor |
                NodeKind::ReadAccessor |
                NodeKind::Read2Accessor |
                NodeKind::WillSet |
                NodeKind::DidSet |
                NodeKind::GlobalGetter |
                NodeKind::MaterializeForSet |
                NodeKind::InitAccessor |
                NodeKind::UnsafeAddressor |
                NodeKind::UnsafeMutableAddressor |
                NodeKind::OwningAddressor |
                NodeKind::OwningMutableAddressor |
                NodeKind::NativeOwningAddressor |
                NodeKind::NativeOwningMutableAddressor |
                NodeKind::NativePinningAddressor |
                NodeKind::NativePinningMutableAddressor => if is_static {
                Symbol::Accessor(Accessor::new_static(node))
            } else {
                Symbol::Accessor(Accessor::new(node))
            },
            NodeKind::Variable => Symbol::Variable(Variable::new(node)),
            NodeKind::ExplicitClosure |
                NodeKind::ImplicitClosure => Symbol::Closure(Closure::new(node)),
            NodeKind::DispatchThunk |
                NodeKind::VTableThunk |
                NodeKind::DistributedThunk |
                NodeKind::ReabstractionThunk |
                NodeKind::ReabstractionThunkHelper |
                NodeKind::ReabstractionThunkHelperWithSelf |
                NodeKind::ReabstractionThunkHelperWithGlobalActor |
                NodeKind::AutoDiffSelfReorderingReabstractionThunk |
                NodeKind::PartialApplyForwarder |
                NodeKind::PartialApplyObjCForwarder |
                NodeKind::CurryThunk |
                NodeKind::ProtocolWitness |
                NodeKind::ProtocolSelfConformanceWitness |
                NodeKind::KeyPathGetterThunkHelper |
                NodeKind::KeyPathSetterThunkHelper |
                NodeKind::KeyPathUnappliedMethodThunkHelper |
                NodeKind::KeyPathAppliedMethodThunkHelper |
                NodeKind::KeyPathEqualsThunkHelper |
                NodeKind::KeyPathHashThunkHelper |
                NodeKind::AutoDiffSubsetParametersThunk |
                NodeKind::AutoDiffDerivativeVTableThunk |
                NodeKind::BackDeploymentThunk |
                NodeKind::BackDeploymentFallback |
                NodeKind::MergedFunction |
                NodeKind::InlinedGenericFunction => Symbol::Thunk(Thunk::new(node)),
            NodeKind::ProtocolWitnessTable |
                NodeKind::ProtocolWitnessTableAccessor |
                NodeKind::ProtocolWitnessTablePattern |
                NodeKind::GenericProtocolWitnessTable |
                NodeKind::GenericProtocolWitnessTableInstantiationFunction |
                NodeKind::ResilientProtocolWitnessTable |
                NodeKind::LazyProtocolWitnessTableAccessor |
                NodeKind::LazyProtocolWitnessTableCacheVariable |
                NodeKind::ProtocolSelfConformanceWitnessTable |
                NodeKind::ValueWitnessTable |
                NodeKind::ValueWitness |
                NodeKind::AssociatedTypeWitnessTableAccessor |
                NodeKind::BaseWitnessTableAccessor |
                NodeKind::ConcreteProtocolConformance => Symbol::WitnessTable(WitnessTable::new(node)),
            NodeKind::ProtocolConformanceDescriptor |
                NodeKind::ProtocolConformanceDescriptorRecord |
                NodeKind::OpaqueTypeDescriptor |
                NodeKind::OpaqueTypeDescriptorRecord |
                NodeKind::OpaqueTypeDescriptorAccessor |
                NodeKind::OpaqueTypeDescriptorAccessorImpl |
                NodeKind::OpaqueTypeDescriptorAccessorKey |
                NodeKind::OpaqueTypeDescriptorAccessorVar |
                NodeKind::NominalTypeDescriptor |
                NodeKind::NominalTypeDescriptorRecord |
                NodeKind::PropertyDescriptor |
                NodeKind::ProtocolDescriptor |
                NodeKind::ProtocolDescriptorRecord |
                NodeKind::ProtocolRequirementsBaseDescriptor |
                NodeKind::MethodDescriptor |
                NodeKind::AssociatedTypeDescriptor |
                NodeKind::AssociatedConformanceDescriptor |
                NodeKind::DefaultAssociatedConformanceAccessor |
                NodeKind::BaseConformanceDescriptor |
                NodeKind::ExtensionDescriptor |
                NodeKind::AnonymousDescriptor |
                NodeKind::ModuleDescriptor |
                NodeKind::ReflectionMetadataAssocTypeDescriptor |
                NodeKind::AccessibleFunctionRecord => Symbol::Descriptor(Descriptor::new(node)),
            NodeKind::TypeMetadata |
                NodeKind::FullTypeMetadata |
                NodeKind::TypeMetadataAccessFunction |
                NodeKind::TypeMetadataCompletionFunction |
                NodeKind::TypeMetadataInstantiationFunction |
                NodeKind::TypeMetadataInstantiationCache |
                NodeKind::TypeMetadataLazyCache |
                NodeKind::TypeMetadataSingletonInitializationCache |
                NodeKind::TypeMetadataDemanglingCache |
                NodeKind::GenericTypeMetadataPattern |
                NodeKind::MetadataInstantiationCache |
                NodeKind::NoncanonicalSpecializedGenericTypeMetadata |
                NodeKind::NoncanonicalSpecializedGenericTypeMetadataCache |
                NodeKind::CanonicalSpecializedGenericTypeMetadataAccessFunction |
                NodeKind::AssociatedTypeMetadataAccessor |
                NodeKind::DefaultAssociatedTypeMetadataAccessor |
                NodeKind::ClassMetadataBaseOffset |
                NodeKind::ObjCMetadataUpdateFunction |
                NodeKind::FieldOffset |
                NodeKind::Metaclass |
                NodeKind::IVarInitializer |
                NodeKind::IVarDestroyer |
                NodeKind::HasSymbolQuery |
                NodeKind::DefaultOverride |
                NodeKind::PropertyWrapperBackingInitializer |
                NodeKind::MethodLookupFunction => Symbol::Metadata(Metadata::new(node)),
            NodeKind::DefaultArgumentInitializer => Symbol::DefaultArgument(DefaultArgument::new(node)),
            NodeKind::TypeMangling => match node.child(0) {
                Some(type_node) => Symbol::Type(TypeRef::new(type_node)),
                None => Symbol::Other(node),
            },
            NodeKind::Class |
                NodeKind::Structure |
                NodeKind::Enum |
                NodeKind::Protocol |
                NodeKind::TypeAlias |
                NodeKind::OtherNominalType |
                NodeKind::BuiltinTypeName |
                NodeKind::BoundGenericStructure |
                NodeKind::BoundGenericClass |
                NodeKind::BoundGenericEnum |
                NodeKind::Tuple |
                NodeKind::BuiltinFixedArray => Symbol::Type(TypeRef::new(node)),
            NodeKind::Subscript => if is_static {
                Symbol::Accessor(Accessor::new_static(node))
            } else {
                Symbol::Accessor(Accessor::new(node))
            },
            NodeKind::AsyncAwaitResumePartialFunction |
                NodeKind::AsyncSuspendResumePartialFunction |
                NodeKind::AsyncFunctionPointer |
                NodeKind::CoroFunctionPointer |
                NodeKind::CoroutineContinuationPrototype => Symbol::Async(AsyncSymbol::new(node)),
            NodeKind::Macro |
                NodeKind::FreestandingMacroExpansion |
                NodeKind::MacroExpansionUniqueName |
                NodeKind::AccessorAttachedMacroExpansion |
                NodeKind::BodyAttachedMacroExpansion |
                NodeKind::ConformanceAttachedMacroExpansion |
                NodeKind::ExtensionAttachedMacroExpansion |
                NodeKind::MemberAttachedMacroExpansion |
                NodeKind::MemberAttributeAttachedMacroExpansion |
                NodeKind::PeerAttachedMacroExpansion |
                NodeKind::PreambleAttachedMacroExpansion => Symbol::Macro(MacroSymbol::new(node)),
            NodeKind::AutoDiffFunction |
                NodeKind::DifferentiabilityWitness => Symbol::AutoDiff(AutoDiff::new(node)),
            NodeKind::Identifier => Symbol::Identifier(node),
            _ => Symbol::Other(node),
        }
    }

    /// Get the raw node for this symbol.
    pub fn raw(&self) -> (r: Node<'ctx>)
        ensures
            r.data() == view_raw(symbol_view(*self)),
        decreases *self,
    {
        match self {
            Symbol::Function(f) => f.raw(),
            Symbol::Constructor(c) => c.raw(),
            Symbol::Destructor(d) => d.raw(),
            Symbol::EnumCase(e) => e.raw(),
            Symbol::Accessor(a) => a.raw(),
            Symbol::Variable(v) => v.raw(),
            Symbol::Closure(c) => c.raw(),
            Symbol::Thunk(t) => t.raw(),
            Symbol::Specialization(s) => s.specialization.raw(),
            Symbol::WitnessTable(w) => w.raw(),
            Symbol::Descriptor(d) => d.raw(),
            Symbol::Metadata(m) => m.raw(),
            Symbol::Type(t) => t.raw(),
            Symbol::Attributed(a) => {
                a.raw
            },
            Symbol::DefaultArgument(d) => d.raw(),
            Symbol::Outlined(o) => o.outlined.raw(),
            Symbol::Async(a) => a.raw(),
            Symbol::Macro(m) => m.raw(),
            Symbol::AutoDiff(a) => a.raw(),
            Symbol::Identifier(n) => *n,
            Symbol::Suffixed(s) => s.inner.raw(),
            Symbol::Other(n) => *n,
        }
    }

    /// Get the display string for this symbol.
    pub fn display(&self) -> (s: String)
        ensures
            s@ == view_raw(symbol_view(*self)).display@,
    {
        self.raw().to_string()
    }

    /// The human-readable rendering of this symbol.
    pub fn to_string(&self) -> (s: String)
        ensures
            s@ == view_raw(symbol_view(*self)).display@,
    {
        self.display()
    }

    /// Check if this is a function symbol.
    pub fn is_function(&self) -> (b: bool)
        ensures
            b == (*self is Function),
    {
        match self {
            Symbol::Function(_) => true,
            _ => false,
        }
    }

    /// Check if this is a constructor symbol.
    pub fn is_constructor(&self) -> (b: bool)
        ensures
            b == (*self is Constructor),
    {
        match self {
            Symbol::Constructor(_) => true,
            _ => false,
        }
    }

    /// Check if this is a destructor symbol.
    pub fn is_destructor(&self) -> (b: bool)
        ensures
            b == (*self is Destructor),
    {
        match self {
            Symbol::Destructor(_) => true,
            _ => false,
        }
    }

    /// Check if this is an enum case symbol.
    pub fn is_enum_case(&self) -> (b: bool)
        ensures
            b == (*self is EnumCase),
    {
        match self {
            Symbol::EnumCase(_) => true,
            _ => false,
        }
    }

    /// Check if this is an accessor symbol.
    pub fn is_accessor(&self) -> (b: bool)
        ensures
            b == (*self is Accessor),
    {
        match self {
            Symbol::Accessor(_) => true,
            _ => false,
        }
    }

    /// Check if this is a variable symbol.
    pub fn is_variable(&self) -> (b: bool)
        ensures
            b == (*self is Variable),
    {
        match self {
            Symbol::Variable(_) => true,
            _ => false,
        }
    }

    /// Check if this is a closure symbol.
    pub fn is_closure(&self) -> (b: bool)
        ensures
            b == (*self is Closure),
    {
        match self {
            Symbol::Closure(_) => true,
            _ => false,
        }
    }

    /// Check if this is a type symbol.
    pub fn is_type(&self) -> (b: bool)
        ensures
            b == (*self is Type),
    {
        match self {
            Symbol::Type(_) => true,
            _ => false,
        }
    }

    /// Check if this is a thunk symbol.
    pub fn is_thunk(&self) -> (b: bool)
        ensures
            b == (*self is Thunk),
    {
        match self {
            Symbol::Thunk(_) => true,
            _ => false,
        }
    }

    /// Check if this is a specialization symbol.
    pub fn is_specialization(&self) -> (b: bool)
        ensures
            b == (*self is Specialization),
    {
        match self {
            Symbol::Specialization(_) => true,
            _ => false,
        }
    }

    /// Check if this is a witness table symbol.
    pub fn is_witness_table(&self) -> (b: bool)
        ensures
            b == (*self is WitnessTable),
    {
        match self {
            Symbol::WitnessTable(_) => true,
            _ => false,
        }
    }

    /// Check if this is a descriptor symbol.
    pub fn is_descriptor(&self) -> (b: bool)
        ensures
            b == (*self is Descriptor),
    {
        match self {
            Symbol::Descriptor(_) => true,
            _ => false,
        }
    }

    /// Check if this is a metadata symbol.
    pub fn is_metadata(&self) -> (b: bool)
        ensures
            b == (*self is Metadata),
    {
        match self {
            Symbol::Metadata(_) => true,
            _ => false,
        }
    }

    /// Check if this is an attributed symbol.
    pub fn is_attributed(&self) -> (b: bool)
        ensures
            b == (*self is Attributed),
    {
        match self {
            Symbol::Attributed(_) => true,
            _ => false,
        }
    }

    /// Check if this is a default argument symbol.
    pub fn is_default_argument(&self) -> (b: bool)
        ensures
            b == (*self is DefaultArgument),
    {
        match self {
            Symbol::DefaultArgument(_) => true,
            _ => false,
        }
    }

    /// Check if this is an outlined operation symbol.
    pub fn is_outlined(&self) -> (b: bool)
        ensures
            b == (*self is Outlined),
    {
        match self {
            Symbol::Outlined(_) => true,
            _ => false,
        }
    }

    /// Check if this is an async symbol.
    pub fn is_async(&self) -> (b: bool)
        ensures
            b == (*self is Async),
    {
        match self {
            Symbol::Async(_) => true,
            _ => false,
        }
    }

    /// Check if this is a macro symbol.
    pub fn is_macro(&self) -> (b: bool)
        ensures
            b == (*self is Macro),
    {
        match self {
            Symbol::Macro(_) => true,
            _ => false,
        }
    }

    /// Check if this is an auto-diff symbol.
    pub fn is_autodiff(&self) -> (b: bool)
        ensures
            b == (*self is AutoDiff),
    {
        match self {
            Symbol::AutoDiff(_) => true,
            _ => false,
        }
    }

    /// Try to get this as a function.
    pub fn as_function(&self) -> (r: Option<&Function<'ctx>>)
        ensures
            match r {
                Some(x) => *self == Symbol::Function(*x),
                None => !(*self is Function),
            },
    {
        match self {
            Symbol::Function(x) => Some(x),
            _ => None,
        }
    }

    /// Try to get this as a constructor.
    pub fn as_constructor(&self) -> (r: Option<&Constructor<'ctx>>)
        ensures
            match r {
                Some(x) => *self == Symbol::Constructor(*x),
                None => !(*self is Constructor),
            },
    {
        match self {
            Symbol::Constructor(x) => Some(x),
            _ => None,
        }
    }

    /// Try to get this as a destructor.
    pub fn as_destructor(&self) -> (r: Option<&Destructor<'ctx>>)
        ensures
            match r {
                Some(x) => *self == Symbol::Destructor(*x),
                None => !(*self is Destructor),
            },
    {
        match self {
            Symbol::Destructor(x) => Some(x),
            _ => None,
        }
    }

    /// Try to get this as an enum case.
    pub fn as_enum_case(&self) -> (r: Option<&EnumCase<'ctx>>)
        ensures
            match r {
                Some(x) => *self == Symbol::EnumCase(*x),
                None => !(*self is EnumCase),
            },
    {
        match self {
            Symbol::EnumCase(x) => Some(x),
            _ => None,
        }
    }

    /// Try to get this as an accessor.
    pub fn as_accessor(&self) -> (r: Option<&Accessor<'ctx>>)
        ensures
            match r {
                Some(x) => *self == Symbol::Accessor(*x),
                None => !(*self is Accessor),
            },
    {
        match self {
            Symbol::Accessor(x) => Some(x),
            _ => None,
        }
    }

    /// Try to get this as a variable.
    pub fn as_variable(&self) -> (r: Option<&Variable<'ctx>>)
        ensures
            match r {
                Some(x) => *self == Symbol::Variable(*x),
                None => !(*self is Variable),
            },
    {
        match self {
            Symbol::Variable(x) => Some(x),
            _ => None,
        }
    }

    /// Try to get this as a closure.
    pub fn as_closure(&self) -> (r: Option<&Closure<'ctx>>)
        ensures
            match r {
                Some(x) => *self == Symbol::Closure(*x),
                None => !(*self is Closure),
            },
    {
        match self {
            Symbol::Closure(x) => Some(x),
            _ => None,
        }
    }

    /// Try to get this as a type.
    pub fn as_type(&self) -> (r: Option<&TypeRef<'ctx>>)
        ensures
            match r {
                Some(x) => *self == Symbol::Type(*x),
                None => !(*self is Type),
            },
    {
        match self {
            Symbol::Type(x) => Some(x),
            _ => None,
        }
    }

    /// Try to get this as a thunk.
    pub fn as_thunk(&self) -> (r: Option<&Thunk<'ctx>>)
        ensures
            match r {
                Some(x) => *self == Symbol::Thunk(*x),
                None => !(*self is Thunk),
            },
    {
        match self {
            Symbol::Thunk(x) => Some(x),
            _ => None,
        }
    }

    /// Try to get this as a specialization.
    pub fn as_specialization(&self) -> (r: Option<&SpecializedSymbol<'ctx>>)
        ensures
            match r {
                Some(x) => *self == Symbol::Specialization(*x),
                None => !(*self is Specialization),
            },
    {
        match self {
            Symbol::Specialization(x) => Some(x),
            _ => None,
        }
    }

    /// Try to get this as a witness table.
    pub fn as_witness_table(&self) -> (r: Option<&WitnessTable<'ctx>>)
        ensures
            match r {
                Some(x) => *self == Symbol::WitnessTable(*x),
                None => !(*self is WitnessTable),
            },
    {
        match self {
            Symbol::WitnessTable(x) => Some(x),
            _ => None,
        }
    }

    /// Try to get this as a descriptor.
    pub fn as_descriptor(&self) -> (r: Option<&Descriptor<'ctx>>)
        ensures
            match r {
                Some(x) => *self == Symbol::Descriptor(*x),
                None => !(*self is Descriptor),
            },
    {
        match self {
            Symbol::Descriptor(x) => Some(x),
            _ => None,
        }
    }

    /// Try to get this as metadata.
    pub fn as_metadata(&self) -> (r: Option<&Metadata<'ctx>>)
        ensures
            match r {
                Some(x) => *self == Symbol::Metadata(*x),
                None => !(*self is Metadata),
            },
    {
        match self {
            Symbol::Metadata(x) => Some(x),
            _ => None,
        }
    }

    /// Try to get this as an attributed symbol.
    pub fn as_attributed(&self) -> (r: Option<&AttributedSymbol<'ctx>>)
        ensures
            match r {
                Some(x) => *self == Symbol::Attributed(*x),
                None => !(*self is Attributed),
            },
    {
        match self {
            Symbol::Attributed(x) => Some(x),
            _ => None,
        }
    }

    /// Try to get this as a default argument.
    pub fn as_default_argument(&self) -> (r: Option<&DefaultArgument<'ctx>>)
        ensures
            match r {
                Some(x) => *self == Symbol::DefaultArgument(*x),
                None => !(*self is DefaultArgument),
            },
    {
        match self {
            Symbol::DefaultArgument(x) => Some(x),
            _ => None,
        }
    }

    /// Try to get this as an outlined operation.
    pub fn as_outlined(&self) -> (r: Option<&OutlinedSymbol<'ctx>>)
        ensures
            match r {
                Some(x) => *self == Symbol::Outlined(*x),
                None => !(*self is Outlined),
            },
    {
        match self {
            Symbol::Outlined(x) => Some(x),
            _ => None,
        }
    }

    /// Try to get this as an async symbol.
    pub fn as_async(&self) -> (r: Option<&AsyncSymbol<'ctx>>)
        ensures
            match r {
                Some(x) => *self == Symbol::Async(*x),
                None => !(*self is Async),
            },
    {
        match self {
            Symbol::Async(x) => Some(x),
            _ => None,
        }
    }

    /// Try to get this as a macro.
    pub fn as_macro(&self) -> (r: Option<&MacroSymbol<'ctx>>)
        ensures
            match r {
                Some(x) => *self == Symbol::Macro(*x),
                None => !(*self is Macro),
            },
    {
        match self {
            Symbol::Macro(x) => Some(x),
            _ => None,
        }
    }

    /// Try to get this as an auto-diff symbol.
    pub fn as_autodiff(&self) -> (r: Option<&AutoDiff<'ctx>>)
        ensures
            match r {
                Some(x) => *self == Symbol::AutoDiff(*x),
                None => !(*self is AutoDiff),
            },
    {
        match self {
            Symbol::AutoDiff(x) => Some(x),
            _ => None,
        }
    }
}

/// Every kept element is an attribute node.
proof fn lemma_attribute_hits(s: Seq<NodeData>)
    ensures
        forall|j: int|
            0 <= j < filter_map(s, attribute_node_hit()).len() ==> (#[trigger] attribute_of(
                filter_map(s, attribute_node_hit())[j].kind,
            )) is Some,
    decreases s.len(),
{
    if s.len() > 0 {
        lemma_attribute_hits(s.drop_last());
    }
}

/// The module of a variable node: its `Module` child, or else the first
/// module among the descendants of its first class, struct, enum or
/// extension child that has one.
pub open spec fn variable_context_hit() -> spec_fn(NodeData) -> Option<Option<Seq<char>>> {
    |c: NodeData|
        if c.kind == NodeKind::Class || c.kind == NodeKind::Structure || c.kind == NodeKind::Enum
            || c.kind == NodeKind::Extension {
            match spec_descendant_of_kind(c, NodeKind::Module) {
                Some(m) => Some(m.spec_text()),
                None => None,
            }
        } else {
            None
        }
}

/// The module of a variable node.
pub open spec fn spec_variable_module(d: NodeData) -> Option<Seq<char>> {
    match spec_child_of_kind(d, NodeKind::Module) {
        Some(m) => m.spec_text(),
        None => flatten(first_hit(d.children@, variable_context_hit())),
    }
}

/// A global variable symbol.
#[derive(Clone, Copy)]
pub struct Variable<'ctx> {
    raw: Node<'ctx>,
}

impl<'ctx> Variable<'ctx> {
    /// The node of this variable.
    pub closed spec fn spec_raw(self) -> Node<'ctx> {
        self.raw
    }

    /// Create a Variable from a raw node.
    pub fn new(raw: Node<'ctx>) -> (r: Self)
        ensures
            r.spec_raw() == raw,
    {
        Self { raw }
    }

    /// Get the underlying raw node.
    pub fn raw(&self) -> (r: Node<'ctx>)
        ensures
            r == self.spec_raw(),
    {
        self.raw
    }

    /// Get the name of this variable.
    pub fn name(&self) -> (r: Option<&'ctx str>)
        ensures
            opt_str(r) == spec_find_identifier(self.spec_raw().data()),
    {
        self.raw.find_identifier()
    }

    /// Get the module containing this variable.
    pub fn module(&self) -> (r: Option<&'ctx str>)
        ensures
            opt_str(r) == spec_variable_module(self.spec_raw().data()),
    {
        if let Some(m) = self.raw.child_of_kind(NodeKind::Module) {
            return m.text();
        }
        let cs = self.raw.children();
        let ghost s = self.raw.data().children@;
        let mut i: usize = 0;
        while i < cs.len()
            invariant
                i <= cs@.len(),
                datas(cs@) == s,
                forall|j: int| 0 <= j < i ==> (#[trigger] (variable_context_hit())(s[j])) is None,
            decreases cs@.len() - i,
        {
            proof { assert(s[i as int] == cs@[i as int].data()); }
            let c = cs[i];
            match c.kind() {
                NodeKind::Class | NodeKind::Structure | NodeKind::Enum | NodeKind::Extension => {
                    if let Some(m) = c.descendant_of_kind(NodeKind::Module) {
                        proof {
                            lemma_first_hit_at(s, variable_context_hit(), i as int);
                        }
                        return m.text();
                    }
                },
                _ => {},
            }
            i = i + 1;
        }
        proof {
            lemma_first_hit_none(s, variable_context_hit());
        }
        None
    }

    /// Get the type of this variable.
    pub fn variable_type(&self) -> (r: Option<TypeRef<'ctx>>)
        ensures
            opt_type_data(r) == spec_extract_type_ref(self.spec_raw().data()),
    {
        self.raw.extract_type_ref()
    }

    /// Get the context where this variable is defined.
    pub fn context(&self) -> (c: SymbolContext<'ctx>)
        ensures
            c.spec_raw() == self.spec_raw(),
    {
        extract_context(self.raw)
    }
}

} // verus!
