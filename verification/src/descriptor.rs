//! Metadata descriptor symbol representation.
//!
//! Descriptors are metadata structures that describe various Swift runtime
//! information like protocol conformances, type metadata, etc.

use vstd::prelude::*;

use crate::accessor::is_path_holder;
use crate::function::Function;
use crate::helpers::{
    reqs_of_opt, requirements_of, spec_child_of_kind, spec_extract_type_ref,
    spec_find_containing_type, spec_find_generic_signature, spec_find_identifier_extended,
    spec_find_module_in_descendants,
};
use crate::raw::{datas, opt_str, Node, NodeData, NodeKind};
use crate::search::{first_hit, lemma_first_hit_at, lemma_first_hit_none};
use crate::types::{opt_sig_data, opt_type_data, GenericRequirement, GenericSignature, TypeRef};
use crate::witness_table::{
    conformance_child, conformance_module_of, opt_conformance_data, second_type_from,
    ProtocolConformance,
};

verus! {

/// The kind of metadata descriptor.
#[derive(Debug, Clone, Copy, PartialEq, Eq, Structural)]
pub enum DescriptorKind {
    /// Protocol conformance descriptor.
    ProtocolConformance,
    /// Protocol conformance descriptor record.
    ProtocolConformanceRecord,
    /// Opaque type descriptor.
    OpaqueType,
    /// Opaque type descriptor record.
    OpaqueTypeRecord,
    /// Opaque type descriptor accessor.
    OpaqueTypeAccessor,
    /// Opaque type descriptor accessor implementation.
    OpaqueTypeAccessorImpl,
    /// Opaque type descriptor accessor key.
    OpaqueTypeAccessorKey,
    /// Opaque type descriptor accessor variable.
    OpaqueTypeAccessorVar,
    /// Nominal type descriptor.
    NominalType,
    /// Nominal type descriptor record.
    NominalTypeRecord,
    /// Property descriptor.
    Property,
    /// Protocol descriptor.
    Protocol,
    /// Protocol descriptor record.
    ProtocolRecord,
    /// Protocol requirements base descriptor.
    ProtocolRequirementsBase,
    /// Method descriptor.
    Method,
    /// Associated type descriptor.
    AssociatedType,
    /// Associated conformance descriptor.
    AssociatedConformance,
    /// Default associated conformance accessor.
    DefaultAssociatedConformanceAccessor,
    /// Base conformance descriptor.
    BaseConformance,
    /// Extension descriptor.
    Extension,
    /// Anonymous descriptor.
    Anonymous,
    /// Module descriptor.
    Module,
    /// Reflection metadata associated type descriptor.
    ReflectionMetadataAssocType,
    /// Accessible function record.
    AccessibleFunctionRecord,
    /// Other descriptor kind.
    Other,
}

/// The human-readable name of a descriptor kind.
pub open spec fn descriptor_kind_name(k: DescriptorKind) -> Seq<char> {
    match k {
        DescriptorKind::ProtocolConformance => "protocol conformance descriptor"@,
        DescriptorKind::ProtocolConformanceRecord => "protocol conformance descriptor record"@,
        DescriptorKind::OpaqueType => "opaque type descriptor"@,
        DescriptorKind::OpaqueTypeRecord => "opaque type descriptor record"@,
        DescriptorKind::OpaqueTypeAccessor => "opaque type descriptor accessor"@,
        DescriptorKind::OpaqueTypeAccessorImpl => "opaque type descriptor accessor impl"@,
        DescriptorKind::OpaqueTypeAccessorKey => "opaque type descriptor accessor key"@,
        DescriptorKind::OpaqueTypeAccessorVar => "opaque type descriptor accessor var"@,
        DescriptorKind::NominalType => "nominal type descriptor"@,
        DescriptorKind::NominalTypeRecord => "nominal type descriptor record"@,
        DescriptorKind::Property => "property descriptor"@,
        DescriptorKind::Protocol => "protocol descriptor"@,
        DescriptorKind::ProtocolRecord => "protocol descriptor record"@,
        DescriptorKind::ProtocolRequirementsBase => "protocol requirements base descriptor"@,
        DescriptorKind::Method => "method descriptor"@,
        DescriptorKind::AssociatedType => "associated type descriptor"@,
        DescriptorKind::AssociatedConformance => "associated conformance descriptor"@,
        DescriptorKind::DefaultAssociatedConformanceAccessor => "default associated conformance accessor"@,
        DescriptorKind::BaseConformance => "base conformance descriptor"@,
        DescriptorKind::Extension => "extension descriptor"@,
        DescriptorKind::Anonymous => "anonymous descriptor"@,
        DescriptorKind::Module => "module descriptor"@,
        DescriptorKind::ReflectionMetadataAssocType => "reflection metadata associated type descriptor"@,
        DescriptorKind::AccessibleFunctionRecord => "accessible function record"@,
        DescriptorKind::Other => "descriptor"@,
    }
}

impl DescriptorKind {
    /// Get a human-readable name for this descriptor kind.
    pub fn name(&self) -> (r: &'static str)
        ensures
            r@ == descriptor_kind_name(*self),
    {
        match self {
            DescriptorKind::ProtocolConformance => "protocol conformance descriptor",
            DescriptorKind::ProtocolConformanceRecord => "protocol conformance descriptor record",
            DescriptorKind::OpaqueType => "opaque type descriptor",
            DescriptorKind::OpaqueTypeRecord => "opaque type descriptor record",
            DescriptorKind::OpaqueTypeAccessor => "opaque type descriptor accessor",
            DescriptorKind::OpaqueTypeAccessorImpl => "opaque type descriptor accessor impl",
            DescriptorKind::OpaqueTypeAccessorKey => "opaque type descriptor accessor key",
            DescriptorKind::OpaqueTypeAccessorVar => "opaque type descriptor accessor var",
            DescriptorKind::NominalType => "nominal type descriptor",
            DescriptorKind::NominalTypeRecord => "nominal type descriptor record",
            DescriptorKind::Property => "property descriptor",
            DescriptorKind::Protocol => "protocol descriptor",
            DescriptorKind::ProtocolRecord => "protocol descriptor record",
            DescriptorKind::ProtocolRequirementsBase => "protocol requirements base descriptor",
            DescriptorKind::Method => "method descriptor",
            DescriptorKind::AssociatedType => "associated type descriptor",
            DescriptorKind::AssociatedConformance => "associated conformance descriptor",
            DescriptorKind::DefaultAssociatedConformanceAccessor => "default associated conformance accessor",
            DescriptorKind::BaseConformance => "base conformance descriptor",
            DescriptorKind::Extension => "extension descriptor",
            DescriptorKind::Anonymous => "anonymous descriptor",
            DescriptorKind::Module => "module descriptor",
            DescriptorKind::ReflectionMetadataAssocType => "reflection metadata associated type descriptor",
            DescriptorKind::AccessibleFunctionRecord => "accessible function record",
            DescriptorKind::Other => "descriptor",
        }
    }
}

/// The descriptor kind of a node kind.
pub open spec fn descriptor_kind_of(k: NodeKind) -> DescriptorKind {
    match k {
        NodeKind::ProtocolConformanceDescriptor => DescriptorKind::ProtocolConformance,
        NodeKind::ProtocolConformanceDescriptorRecord => DescriptorKind::ProtocolConformanceRecord,
        NodeKind::OpaqueTypeDescriptor => DescriptorKind::OpaqueType,
        NodeKind::OpaqueTypeDescriptorRecord => DescriptorKind::OpaqueTypeRecord,
        NodeKind::OpaqueTypeDescriptorAccessor => DescriptorKind::OpaqueTypeAccessor,
        NodeKind::OpaqueTypeDescriptorAccessorImpl => DescriptorKind::OpaqueTypeAccessorImpl,
        NodeKind::OpaqueTypeDescriptorAccessorKey => DescriptorKind::OpaqueTypeAccessorKey,
        NodeKind::OpaqueTypeDescriptorAccessorVar => DescriptorKind::OpaqueTypeAccessorVar,
        NodeKind::NominalTypeDescriptor => DescriptorKind::NominalType,
        NodeKind::NominalTypeDescriptorRecord => DescriptorKind::NominalTypeRecord,
        NodeKind::PropertyDescriptor => DescriptorKind::Property,
        NodeKind::ProtocolDescriptor => DescriptorKind::Protocol,
        NodeKind::ProtocolDescriptorRecord => DescriptorKind::ProtocolRecord,
        NodeKind::ProtocolRequirementsBaseDescriptor => DescriptorKind::ProtocolRequirementsBase,
        NodeKind::MethodDescriptor => DescriptorKind::Method,
        NodeKind::AssociatedTypeDescriptor => DescriptorKind::AssociatedType,
        NodeKind::AssociatedConformanceDescriptor => DescriptorKind::AssociatedConformance,
        NodeKind::DefaultAssociatedConformanceAccessor => DescriptorKind::DefaultAssociatedConformanceAccessor,
        NodeKind::BaseConformanceDescriptor => DescriptorKind::BaseConformance,
        NodeKind::ExtensionDescriptor => DescriptorKind::Extension,
        NodeKind::AnonymousDescriptor => DescriptorKind::Anonymous,
        NodeKind::ModuleDescriptor => DescriptorKind::Module,
        NodeKind::ReflectionMetadataAssocTypeDescriptor => DescriptorKind::ReflectionMetadataAssocType,
        NodeKind::AccessibleFunctionRecord => DescriptorKind::AccessibleFunctionRecord,
        _ => DescriptorKind::Other,
    }
}

/// Each node kind that has a descriptor kind has its own: two node kinds with the same
/// kind, other than `Other`, are the same node kind.
pub proof fn lemma_descriptor_kind_injective(a: NodeKind, b: NodeKind)
    requires
        descriptor_kind_of(a) != DescriptorKind::Other,
        descriptor_kind_of(a) == descriptor_kind_of(b),
    ensures
        a == b,
{
}

/// Selects type contexts and type aliases.
pub open spec fn described_type_hit() -> spec_fn(NodeData) -> Option<NodeData> {
    |c: NodeData| if is_path_holder(c) { Some(c) } else { None }
}

/// The type described by a descriptor node: its `Type` child (looked
/// through), or else its first type-context or type-alias child.
pub open spec fn spec_described_type(d: NodeData) -> Option<NodeData> {
    match spec_extract_type_ref(d) {
        Some(t) => Some(t),
        None => first_hit(d.children@, described_type_hit()),
    }
}

/// The function described by a method descriptor node.
pub open spec fn spec_described_function(d: NodeData) -> Option<NodeData> {
    if descriptor_kind_of(d.kind) != DescriptorKind::Method {
        None
    } else {
        spec_child_of_kind(d, NodeKind::Function)
    }
}

/// The generic signature of a descriptor node: that of its described function.
pub open spec fn spec_descriptor_signature(d: NodeData) -> Option<NodeData> {
    match spec_described_function(d) {
        Some(f) => spec_find_generic_signature(f),
        None => None,
    }
}

/// A Swift metadata descriptor symbol.
#[derive(Clone, Copy)]
pub struct Descriptor<'ctx> {
    raw: Node<'ctx>,
}

impl<'ctx> Descriptor<'ctx> {
    /// The node of this descriptor.
    pub closed spec fn spec_raw(self) -> Node<'ctx> {
        self.raw
    }

    /// The conformance node of this descriptor.
    pub open spec fn spec_conformance(self) -> Option<NodeData> {
        spec_child_of_kind(self.spec_raw().data(), NodeKind::ProtocolConformance)
    }

    /// Create a Descriptor from a raw node.
    pub fn new(raw: Node<'ctx>) -> (r: Self)
        ensures
            r.spec_raw() == raw,
    {
        Self { raw }
    }

    /// Get the underlying raw node.
    pub fn raw(&self) -> (r: Node<'ctx>)
        ensures
            r == self.spec_raw(),
    {
        self.raw
    }

    /// Get the kind of descriptor.
    pub fn kind(&self) -> (k: DescriptorKind)
        ensures
            k == descriptor_kind_of(self.spec_raw().data().kind),
    {
        match self.raw.kind() {
            NodeKind::ProtocolConformanceDescriptor => DescriptorKind::ProtocolConformance,
            NodeKind::ProtocolConformanceDescriptorRecord => DescriptorKind::ProtocolConformanceRecord,
            NodeKind::OpaqueTypeDescriptor => DescriptorKind::OpaqueType,
            NodeKind::OpaqueTypeDescriptorRecord => DescriptorKind::OpaqueTypeRecord,
            NodeKind::OpaqueTypeDescriptorAccessor => DescriptorKind::OpaqueTypeAccessor,
            NodeKind::OpaqueTypeDescriptorAccessorImpl => DescriptorKind::OpaqueTypeAccessorImpl,
            NodeKind::OpaqueTypeDescriptorAccessorKey => DescriptorKind::OpaqueTypeAccessorKey,
            NodeKind::OpaqueTypeDescriptorAccessorVar => DescriptorKind::OpaqueTypeAccessorVar,
            NodeKind::NominalTypeDescriptor => DescriptorKind::NominalType,
            NodeKind::NominalTypeDescriptorRecord => DescriptorKind::NominalTypeRecord,
            NodeKind::PropertyDescriptor => DescriptorKind::Property,
            NodeKind::ProtocolDescriptor => DescriptorKind::Protocol,
            NodeKind::ProtocolDescriptorRecord => DescriptorKind::ProtocolRecord,
            NodeKind::ProtocolRequirementsBaseDescriptor => DescriptorKind::ProtocolRequirementsBase,
            NodeKind::MethodDescriptor => DescriptorKind::Method,
            NodeKind::AssociatedTypeDescriptor => DescriptorKind::AssociatedType,
            NodeKind::AssociatedConformanceDescriptor => DescriptorKind::AssociatedConformance,
            NodeKind::DefaultAssociatedConformanceAccessor => DescriptorKind::DefaultAssociatedConformanceAccessor,
            NodeKind::BaseConformanceDescriptor => DescriptorKind::BaseConformance,
            NodeKind::ExtensionDescriptor => DescriptorKind::Extension,
            NodeKind::AnonymousDescriptor => DescriptorKind::Anonymous,
            NodeKind::ModuleDescriptor => DescriptorKind::Module,
            NodeKind::ReflectionMetadataAssocTypeDescriptor => DescriptorKind::ReflectionMetadataAssocType,
            NodeKind::AccessibleFunctionRecord => DescriptorKind::AccessibleFunctionRecord,
            _ => DescriptorKind::Other,
        }
    }

    /// Get the protocol conformance information if this is a ProtocolConformanceDescriptor.
    pub fn conformance(&self) -> (r: Option<ProtocolConformance<'ctx>>)
        ensures
            opt_conformance_data(r) == self.spec_conformance(),
    {
        conformance_child(self.raw)
    }

    /// Get the conforming type if this is a ProtocolConformanceDescriptor.
    pub fn conforming_type(&self) -> (r: Option<TypeRef<'ctx>>)
        ensures
            opt_type_data(r) == match self.spec_conformance() {
                Some(c) => spec_extract_type_ref(c),
                None => None,
            },
    {
        match self.conformance() {
            Some(c) => c.conforming_type(),
            None => None,
        }
    }

    /// Get the protocol if this is a ProtocolConformanceDescriptor.
    pub fn protocol(&self) -> (r: Option<TypeRef<'ctx>>)
        ensures
            opt_type_data(r) == match self.spec_conformance() {
                Some(c) => second_type_from(c.children@, false),
                None => None,
            },
    {
        match self.conformance() {
            Some(c) => c.protocol(),
            None => None,
        }
    }

    /// Get the module where this descriptor is defined: the module of the
    /// conformance, or else the first module among the descendants.
    pub fn module(&self) -> (r: Option<&'ctx str>)
        ensures
            opt_str(r) == match conformance_module_of(self.spec_conformance()) {
                Some(m) => Some(m),
                None => spec_find_module_in_descendants(self.spec_raw().data()),
            },
    {
        if let Some(conformance) = self.conformance() {
            if let Some(module) = conformance.module() {
                return Some(module);
            }
        }
        self.raw.find_module_in_descendants()
    }

    /// Get the described type for type descriptors.
    pub fn described_type(&self) -> (r: Option<TypeRef<'ctx>>)
        ensures
            opt_type_data(r) == spec_described_type(self.spec_raw().data()),
    {
        if let Some(type_ref) = self.raw.extract_type_ref() {
            return Some(type_ref);
        }
        let cs = self.raw.children();
        let ghost s = self.raw.data().children@;
        let mut i: usize = 0;
        while i < cs.len()
            invariant
                i <= cs@.len(),
                datas(cs@) == s,
                forall|j: int| 0 <= j < i ==> (#[trigger] (described_type_hit())(s[j])) is None,
            decreases cs@.len() - i,
        {
            proof { assert(s[i as int] == cs@[i as int].data()); }
            let c = cs[i];
            if c.kind().is_type_context() || c.kind() == NodeKind::TypeAlias {
                proof {
                    lemma_first_hit_at(s, described_type_hit(), i as int);
                }
                return Some(TypeRef::new(c));
            }
            i = i + 1;
        }
        proof {
            lemma_first_hit_none(s, described_type_hit());
        }
        None
    }

    /// Get the described function for method descriptors.
    ///
    /// For MethodDescriptor symbols, this returns the inner function that
    /// the descriptor describes, providing access to the full method signature,
    /// parameters, generic constraints, etc.
    pub fn described_function(&self) -> (r: Option<Function<'ctx>>)
        ensures
            match r {
                Some(f) => spec_described_function(self.spec_raw().data()) == Some(f.spec_raw().data())
                    && !f.spec_is_static(),
                None => spec_described_function(self.spec_raw().data()) is None,
            },
    {
        if self.kind() != DescriptorKind::Method {
            return None;
        }
        match self.raw.child_of_kind(NodeKind::Function) {
            Some(c) => Some(Function::new(c)),
            None => None,
        }
    }

    /// Get the function name if this is a method descriptor.
    pub fn function_name(&self) -> (r: Option<&'ctx str>)
        ensures
            opt_str(r) == match spec_described_function(self.spec_raw().data()) {
                Some(f) => spec_find_identifier_extended(f),
                None => None,
            },
    {
        match self.described_function() {
            Some(f) => f.name(),
            None => None,
        }
    }

    /// Get the containing type name if this is a method descriptor.
    pub fn containing_type(&self) -> (r: Option<&'ctx str>)
        ensures
            opt_str(r) == match spec_described_function(self.spec_raw().data()) {
                Some(f) => spec_find_containing_type(f),
                None => None,
            },
    {
        match self.described_function() {
            Some(f) => f.containing_type(),
            None => None,
        }
    }

    /// Get the generic signature if this descriptor has generic constraints.
    pub fn generic_signature(&self) -> (r: Option<GenericSignature<'ctx>>)
        ensures
            opt_sig_data(r) == spec_descriptor_signature(self.spec_raw().data()),
    {
        match self.described_function() {
            Some(f) => f.raw().find_generic_signature(),
            None => None,
        }
    }

    /// Get the generic requirements (constraints) for this descriptor.
    pub fn generic_requirements(&self) -> (r: Vec<GenericRequirement<'ctx>>)
        ensures
            reqs_of_opt(r@, spec_descriptor_signature(self.spec_raw().data())),
    {
        requirements_of(self.generic_signature())
    }

    /// Check if this descriptor is generic.
    pub fn is_generic(&self) -> (b: bool)
        ensures
            b == spec_descriptor_signature(self.spec_raw().data()) is Some,
    {
        self.generic_signature().is_some()
    }

    /// The human-readable rendering of this descriptor.
    pub fn to_string(&self) -> (r: String)
        ensures
            r@ == self.spec_raw().data().display@,
    {
        self.raw.to_string()
    }
}

} // verus!
