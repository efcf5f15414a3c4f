//! Outlined operation symbol representation.
//!
//! Outlined operations are compiler-generated helpers for common operations
//! that have been "outlined" (pulled out into separate functions) for code
//! size optimization or bridging purposes.

use vstd::prelude::*;

use crate::helpers::spec_find_module_in_descendants;
use crate::raw::{opt_str, Node, NodeKind};

verus! {

/// The kind of outlined operation.
#[derive(Debug, Clone, Copy, PartialEq, Eq, Structural)]
pub enum OutlinedKind {
    /// Outlined Objective-C bridged method.
    BridgedMethod,
    /// Outlined variable (stack allocation).
    Variable,
    /// Outlined copy operation.
    Copy,
    /// Outlined consume operation.
    Consume,
    /// Outlined retain operation.
    Retain,
    /// Outlined release operation.
    Release,
    /// Outlined initialize with take.
    InitializeWithTake,
    /// Outlined initialize with copy.
    InitializeWithCopy,
    /// Outlined assign with take.
    AssignWithTake,
    /// Outlined assign with copy.
    AssignWithCopy,
    /// Outlined destroy operation.
    Destroy,
    /// Outlined initialize with copy (no value witness).
    InitializeWithCopyNoValueWitness,
    /// Outlined initialize with take (no value witness).
    InitializeWithTakeNoValueWitness,
    /// Outlined assign with copy (no value witness).
    AssignWithCopyNoValueWitness,
    /// Outlined assign with take (no value witness).
    AssignWithTakeNoValueWitness,
    /// Outlined destroy (no value witness).
    DestroyNoValueWitness,
    /// Outlined read-only object.
    ReadOnlyObject,
    /// Other outlined operation.
    Other,
}

/// The human-readable name of an outlined operation kind.
pub open spec fn outlined_kind_name(k: OutlinedKind) -> Seq<char> {
    match k {
        OutlinedKind::BridgedMethod => "outlined bridged method"@,
        OutlinedKind::Variable => "outlined variable"@,
        OutlinedKind::Copy => "outlined copy"@,
        OutlinedKind::Consume => "outlined consume"@,
        OutlinedKind::Retain => "outlined retain"@,
        OutlinedKind::Release => "outlined release"@,
        OutlinedKind::InitializeWithTake => "outlined initializeWithTake"@,
        OutlinedKind::InitializeWithCopy => "outlined initializeWithCopy"@,
        OutlinedKind::AssignWithTake => "outlined assignWithTake"@,
        OutlinedKind::AssignWithCopy => "outlined assignWithCopy"@,
        OutlinedKind::Destroy => "outlined destroy"@,
        OutlinedKind::InitializeWithCopyNoValueWitness => "outlined initializeWithCopy (no value witness)"@,
        OutlinedKind::InitializeWithTakeNoValueWitness => "outlined initializeWithTake (no value witness)"@,
        OutlinedKind::AssignWithCopyNoValueWitness => "outlined assignWithCopy (no value witness)"@,
        OutlinedKind::AssignWithTakeNoValueWitness => "outlined assignWithTake (no value witness)"@,
        OutlinedKind::DestroyNoValueWitness => "outlined destroy (no value witness)"@,
        OutlinedKind::ReadOnlyObject => "outlined read-only object"@,
        OutlinedKind::Other => "outlined operation"@,
    }
}

impl OutlinedKind {
    /// Get a human-readable name for this outlined kind.
    pub fn name(&self) -> (r: &'static str)
        ensures
            r@ == outlined_kind_name(*self),
    {
        match self {
            OutlinedKind::BridgedMethod => "outlined bridged method",
            OutlinedKind::Variable => "outlined variable",
            OutlinedKind::Copy => "outlined copy",
            OutlinedKind::Consume => "outlined consume",
            OutlinedKind::Retain => "outlined retain",
            OutlinedKind::Release => "outlined release",
            OutlinedKind::InitializeWithTake => "outlined initializeWithTake",
            OutlinedKind::InitializeWithCopy => "outlined initializeWithCopy",
            OutlinedKind::AssignWithTake => "outlined assignWithTake",
            OutlinedKind::AssignWithCopy => "outlined assignWithCopy",
            OutlinedKind::Destroy => "outlined destroy",
            OutlinedKind::InitializeWithCopyNoValueWitness => "outlined initializeWithCopy (no value witness)",
            OutlinedKind::InitializeWithTakeNoValueWitness => "outlined initializeWithTake (no value witness)",
            OutlinedKind::AssignWithCopyNoValueWitness => "outlined assignWithCopy (no value witness)",
            OutlinedKind::AssignWithTakeNoValueWitness => "outlined assignWithTake (no value witness)",
            OutlinedKind::DestroyNoValueWitness => "outlined destroy (no value witness)",
            OutlinedKind::ReadOnlyObject => "outlined read-only object",
            OutlinedKind::Other => "outlined operation",
        }
    }
}

/// The outlined operation kind of a node kind.
pub open spec fn outlined_kind_of(k: NodeKind) -> OutlinedKind {
    match k {
        NodeKind::OutlinedBridgedMethod => OutlinedKind::BridgedMethod,
        NodeKind::OutlinedVariable => OutlinedKind::Variable,
        NodeKind::OutlinedCopy => OutlinedKind::Copy,
        NodeKind::OutlinedConsume => OutlinedKind::Consume,
        NodeKind::OutlinedRetain => OutlinedKind::Retain,
        NodeKind::OutlinedRelease => OutlinedKind::Release,
        NodeKind::OutlinedInitializeWithTake => OutlinedKind::InitializeWithTake,
        NodeKind::OutlinedInitializeWithCopy => OutlinedKind::InitializeWithCopy,
        NodeKind::OutlinedAssignWithTake => OutlinedKind::AssignWithTake,
        NodeKind::OutlinedAssignWithCopy => OutlinedKind::AssignWithCopy,
        NodeKind::OutlinedDestroy => OutlinedKind::Destroy,
        NodeKind::OutlinedInitializeWithCopyNoValueWitness => OutlinedKind::InitializeWithCopyNoValueWitness,
        NodeKind::OutlinedInitializeWithTakeNoValueWitness => OutlinedKind::InitializeWithTakeNoValueWitness,
        NodeKind::OutlinedAssignWithCopyNoValueWitness => OutlinedKind::AssignWithCopyNoValueWitness,
        NodeKind::OutlinedAssignWithTakeNoValueWitness => OutlinedKind::AssignWithTakeNoValueWitness,
        NodeKind::OutlinedDestroyNoValueWitness => OutlinedKind::DestroyNoValueWitness,
        NodeKind::OutlinedReadOnlyObject => OutlinedKind::ReadOnlyObject,
        _ => OutlinedKind::Other,
    }
}

/// Each node kind that has an outlined operation kind has its own: two node kinds with the same
/// kind, other than `Other`, are the same node kind.
pub proof fn lemma_outlined_kind_injective(a: NodeKind, b: NodeKind)
    requires
        outlined_kind_of(a) != OutlinedKind::Other,
        outlined_kind_of(a) == outlined_kind_of(b),
    ensures
        a == b,
{
}

/// A Swift outlined operation symbol.
#[derive(Clone, Copy)]
pub struct Outlined<'ctx> {
    raw: Node<'ctx>,
}

impl<'ctx> Outlined<'ctx> {
    /// The node of this outlined operation.
    pub closed spec fn spec_raw(self) -> Node<'ctx> {
        self.raw
    }

    /// Create a Outlined from a raw node.
    pub fn new(raw: Node<'ctx>) -> (r: Self)
        ensures
            r.spec_raw() == raw,
    {
        Self { raw }
    }

    /// Get the underlying raw node.
    pub fn raw(&self) -> (r: Node<'ctx>)
        ensures
            r == self.spec_raw(),
    {
        self.raw
    }

    /// The human-readable rendering of this outlined operation.
    pub fn to_string(&self) -> (r: String)
        ensures
            r@ == self.spec_raw().data().display@,
    {
        self.raw.to_string()
    }

    /// Get the kind of outlined operation.
    pub fn kind(&self) -> (k: OutlinedKind)
        ensures
            k == outlined_kind_of(self.spec_raw().data().kind),
    {
        match self.raw.kind() {
            NodeKind::OutlinedBridgedMethod => OutlinedKind::BridgedMethod,
            NodeKind::OutlinedVariable => OutlinedKind::Variable,
            NodeKind::OutlinedCopy => OutlinedKind::Copy,
            NodeKind::OutlinedConsume => OutlinedKind::Consume,
            NodeKind::OutlinedRetain => OutlinedKind::Retain,
            NodeKind::OutlinedRelease => OutlinedKind::Release,
            NodeKind::OutlinedInitializeWithTake => OutlinedKind::InitializeWithTake,
            NodeKind::OutlinedInitializeWithCopy => OutlinedKind::InitializeWithCopy,
            NodeKind::OutlinedAssignWithTake => OutlinedKind::AssignWithTake,
            NodeKind::OutlinedAssignWithCopy => OutlinedKind::AssignWithCopy,
            NodeKind::OutlinedDestroy => OutlinedKind::Destroy,
            NodeKind::OutlinedInitializeWithCopyNoValueWitness => OutlinedKind::InitializeWithCopyNoValueWitness,
            NodeKind::OutlinedInitializeWithTakeNoValueWitness => OutlinedKind::InitializeWithTakeNoValueWitness,
            NodeKind::OutlinedAssignWithCopyNoValueWitness => OutlinedKind::AssignWithCopyNoValueWitness,
            NodeKind::OutlinedAssignWithTakeNoValueWitness => OutlinedKind::AssignWithTakeNoValueWitness,
            NodeKind::OutlinedDestroyNoValueWitness => OutlinedKind::DestroyNoValueWitness,
            NodeKind::OutlinedReadOnlyObject => OutlinedKind::ReadOnlyObject,
            _ => OutlinedKind::Other,
        }
    }

    /// Get the index of this outlined operation (for variables, copies, etc.).
    ///
    /// The index is stored directly on the node, not as a child.
    pub fn index(&self) -> (r: Option<u64>)
        ensures
            r == self.spec_raw().data().index,
    {
        self.raw.index()
    }

    /// Get the module containing this outlined operation.
    pub fn module(&self) -> (r: Option<&'ctx str>)
        ensures
            opt_str(r) == spec_find_module_in_descendants(self.spec_raw().data()),
    {
        self.raw.find_module_in_descendants()
    }
}

} // verus!
