//! Swift symbol demangling library with high-level semantic types.
//!
//! The demangled parse tree of a symbol is modelled by [`raw::NodeData`]:
//! every node has a kind, optional text, an optional index, its children in
//! order and the human-readable rendering of its subtree. The high-level API
//! borrows such a tree through [`raw::Node`] handles and classifies it.
#![verifier::loop_isolation(false)]

pub mod raw;
pub mod search;

mod helpers;
pub mod types;

pub use helpers::{
    HasExtensionContext, HasFunctionSignature, HasGenericSignature, HasModule,
};
pub use types::{
    FunctionConvention, FunctionParam, FunctionType, GenericRequirement, GenericRequirementKind,
    GenericSignature, ImplFunctionType, ImplParam, ImplResult, NamedType, OpaqueSource,
    SILBoxField, TupleElement, TypeKind, TypeRef,
};
mod context;
pub use context::{extract_context, ContextComponent, SymbolContext};
mod function;
pub use function::Function;
mod constructor;
pub use constructor::{Constructor, ConstructorKind, Destructor, DestructorKind};
mod closure;
pub use closure::{Closure, ClosureKind};
mod enum_case;
pub use enum_case::EnumCase;
mod accessor;
pub use accessor::{Accessor, AccessorKind};
mod witness_table;
pub use witness_table::{ProtocolConformance, ValueWitnessKind, WitnessTable, WitnessTableKind};
mod descriptor;
pub use descriptor::{Descriptor, DescriptorKind};
mod outlined;
pub use outlined::{Outlined, OutlinedKind};
mod macro_symbol;
pub use macro_symbol::{MacroSymbol, MacroSymbolKind};
mod autodiff;
pub use autodiff::{AutoDiff, AutoDiffKind};
mod async_symbol;
pub use async_symbol::{AsyncSymbol, AsyncSymbolKind};
mod metadata;
pub use metadata::{Metadata, MetadataKind};
mod specialization;
pub use specialization::{
    FunctionSignatureParam, FunctionSignatureParamFlags, FunctionSignatureParamKind,
    Specialization, SpecializationKind,
};
mod symbol;
pub use symbol::{
    AttributedSymbol, DefaultArgument, OutlinedSymbol, SpecializedSymbol, SuffixedSymbol, Symbol,
    SymbolAttribute, SymbolView, Variable,
};
mod thunk;
pub use thunk::{
    AutoDiffThunk, AutoDiffThunkKind, DispatchKind, OtherThunkKind, ProtocolWitnessThunk,
    ReabstractionThunk, Thunk,
};
pub use raw::{Context, FunctionInfo};
