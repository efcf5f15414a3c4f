//! Witness table symbol representation.
//!
//! Witness tables are data structures that enable protocol-oriented programming
//! in Swift by storing the implementations of protocol requirements for a
//! conforming type.

use vstd::prelude::*;

use crate::accessor::str_views;
use crate::helpers::{
    first_child, first_child_or_self, kind_is, spec_child_of_kind, spec_extract_type_ref,
    spec_find_module_in_descendants, text_of,
};
use crate::raw::{datas, opt_str, Node, NodeData, NodeKind};
use crate::search::{filter_map, first_hit, lemma_filter_map_first, lemma_filter_map_step, lemma_take_all};
use crate::types::{opt_type_data, TypeRef};

verus! {

/// The kind of witness table.
#[derive(Debug, Clone, Copy, PartialEq, Eq, Structural)]
pub enum WitnessTableKind {
    /// Protocol witness table.
    Protocol,
    /// Protocol witness table accessor function.
    ProtocolAccessor,
    /// Protocol witness table pattern.
    ProtocolPattern,
    /// Generic protocol witness table.
    GenericProtocol,
    /// Generic protocol witness table instantiation function.
    GenericProtocolInstantiation,
    /// Resilient protocol witness table.
    ResilientProtocol,
    /// Lazy protocol witness table accessor.
    LazyProtocolAccessor,
    /// Lazy protocol witness table cache variable.
    LazyProtocolCacheVariable,
    /// Protocol self-conformance witness table.
    SelfConformance,
    /// Value witness table (for type layout/copying/destroying).
    ValueTable,
    /// A specific value witness function.
    ValueWitness,
    /// Associated type witness table accessor.
    AssociatedTypeAccessor,
    /// Base witness table accessor.
    BaseAccessor,
    /// Concrete protocol conformance.
    ConcreteConformance,
    /// Other witness table kind.
    Other,
}

/// The human-readable name of a witness table kind.
pub open spec fn witness_table_kind_name(k: WitnessTableKind) -> Seq<char> {
    match k {
        WitnessTableKind::Protocol => "protocol witness table"@,
        WitnessTableKind::ProtocolAccessor => "protocol witness table accessor"@,
        WitnessTableKind::ProtocolPattern => "protocol witness table pattern"@,
        WitnessTableKind::GenericProtocol => "generic protocol witness table"@,
        WitnessTableKind::GenericProtocolInstantiation => "generic protocol witness table instantiation function"@,
        WitnessTableKind::ResilientProtocol => "resilient protocol witness table"@,
        WitnessTableKind::LazyProtocolAccessor => "lazy protocol witness table accessor"@,
        WitnessTableKind::LazyProtocolCacheVariable => "lazy protocol witness table cache variable"@,
        WitnessTableKind::SelfConformance => "protocol self-conformance witness table"@,
        WitnessTableKind::ValueTable => "value witness table"@,
        WitnessTableKind::ValueWitness => "value witness"@,
        WitnessTableKind::AssociatedTypeAccessor => "associated type witness table accessor"@,
        WitnessTableKind::BaseAccessor => "base witness table accessor"@,
        WitnessTableKind::ConcreteConformance => "concrete protocol conformance"@,
        WitnessTableKind::Other => "witness table"@,
    }
}

impl WitnessTableKind {
    /// Get a human-readable name for this witness table kind.
    pub fn name(&self) -> (r: &'static str)
        ensures
            r@ == witness_table_kind_name(*self),
    {
        match self {
            WitnessTableKind::Protocol => "protocol witness table",
            WitnessTableKind::ProtocolAccessor => "protocol witness table accessor",
            WitnessTableKind::ProtocolPattern => "protocol witness table pattern",
            WitnessTableKind::GenericProtocol => "generic protocol witness table",
            WitnessTableKind::GenericProtocolInstantiation => "generic protocol witness table instantiation function",
            WitnessTableKind::ResilientProtocol => "resilient protocol witness table",
            WitnessTableKind::LazyProtocolAccessor => "lazy protocol witness table accessor",
            WitnessTableKind::LazyProtocolCacheVariable => "lazy protocol witness table cache variable",
            WitnessTableKind::SelfConformance => "protocol self-conformance witness table",
            WitnessTableKind::ValueTable => "value witness table",
            WitnessTableKind::ValueWitness => "value witness",
            WitnessTableKind::AssociatedTypeAccessor => "associated type witness table accessor",
            WitnessTableKind::BaseAccessor => "base witness table accessor",
            WitnessTableKind::ConcreteConformance => "concrete protocol conformance",
            WitnessTableKind::Other => "witness table",
        }
    }
}

/// The witness table kind of a node kind.
pub open spec fn witness_table_kind_of(k: NodeKind) -> WitnessTableKind {
    match k {
        NodeKind::ProtocolWitnessTable => WitnessTableKind::Protocol,
        NodeKind::ProtocolWitnessTableAccessor => WitnessTableKind::ProtocolAccessor,
        NodeKind::ProtocolWitnessTablePattern => WitnessTableKind::ProtocolPattern,
        NodeKind::GenericProtocolWitnessTable => WitnessTableKind::GenericProtocol,
        NodeKind::GenericProtocolWitnessTableInstantiationFunction => WitnessTableKind::GenericProtocolInstantiation,
        NodeKind::ResilientProtocolWitnessTable => WitnessTableKind::ResilientProtocol,
        NodeKind::LazyProtocolWitnessTableAccessor => WitnessTableKind::LazyProtocolAccessor,
        NodeKind::LazyProtocolWitnessTableCacheVariable => WitnessTableKind::LazyProtocolCacheVariable,
        NodeKind::ProtocolSelfConformanceWitnessTable => WitnessTableKind::SelfConformance,
        NodeKind::ValueWitnessTable => WitnessTableKind::ValueTable,
        NodeKind::ValueWitness => WitnessTableKind::ValueWitness,
        NodeKind::AssociatedTypeWitnessTableAccessor => WitnessTableKind::AssociatedTypeAccessor,
        NodeKind::BaseWitnessTableAccessor => WitnessTableKind::BaseAccessor,
        NodeKind::ConcreteProtocolConformance => WitnessTableKind::ConcreteConformance,
        _ => WitnessTableKind::Other,
    }
}

/// Each node kind that has a witness table kind has its own: two node kinds with the same
/// kind, other than `Other`, are the same node kind.
pub proof fn lemma_witness_table_kind_injective(a: NodeKind, b: NodeKind)
    requires
        witness_table_kind_of(a) != WitnessTableKind::Other,
        witness_table_kind_of(a) == witness_table_kind_of(b),
    ensures
        a == b,
{
}

/// The kind of value witness.
#[derive(Debug, Clone, Copy, PartialEq, Eq, Structural)]
pub enum ValueWitnessKind {
    AllocateBuffer,
    AssignWithCopy,
    AssignWithTake,
    DeallocateBuffer,
    Destroy,
    DestroyBuffer,
    InitializeBufferWithCopyOfBuffer,
    InitializeBufferWithCopy,
    InitializeWithCopy,
    InitializeBufferWithTakeOfBuffer,
    InitializeBufferWithTake,
    InitializeWithTake,
    ProjectBuffer,
    InitializeArrayWithCopy,
    InitializeArrayWithTakeFrontToBack,
    InitializeArrayWithTakeBackToFront,
    StoreExtraInhabitant,
    GetExtraInhabitantIndex,
    GetEnumTag,
    DestructiveProjectEnumData,
    DestructiveInjectEnumTag,
    GetEnumTagSinglePayload,
    StoreEnumTagSinglePayload,
}

/// The value witness kind stored under an index in a mangled symbol.
pub open spec fn value_witness_from_index(i: u64) -> Option<ValueWitnessKind> {
    match i {
        0 => Some(ValueWitnessKind::AllocateBuffer),
        1 => Some(ValueWitnessKind::AssignWithCopy),
        2 => Some(ValueWitnessKind::AssignWithTake),
        3 => Some(ValueWitnessKind::DeallocateBuffer),
        4 => Some(ValueWitnessKind::Destroy),
        5 => Some(ValueWitnessKind::DestroyBuffer),
        6 => Some(ValueWitnessKind::InitializeBufferWithCopyOfBuffer),
        7 => Some(ValueWitnessKind::InitializeBufferWithCopy),
        8 => Some(ValueWitnessKind::InitializeWithCopy),
        9 => Some(ValueWitnessKind::InitializeBufferWithTakeOfBuffer),
        10 => Some(ValueWitnessKind::InitializeBufferWithTake),
        11 => Some(ValueWitnessKind::InitializeWithTake),
        12 => Some(ValueWitnessKind::ProjectBuffer),
        13 => Some(ValueWitnessKind::InitializeArrayWithCopy),
        14 => Some(ValueWitnessKind::InitializeArrayWithTakeFrontToBack),
        15 => Some(ValueWitnessKind::InitializeArrayWithTakeBackToFront),
        16 => Some(ValueWitnessKind::StoreExtraInhabitant),
        17 => Some(ValueWitnessKind::GetExtraInhabitantIndex),
        18 => Some(ValueWitnessKind::GetEnumTag),
        19 => Some(ValueWitnessKind::DestructiveProjectEnumData),
        20 => Some(ValueWitnessKind::DestructiveInjectEnumTag),
        21 => Some(ValueWitnessKind::GetEnumTagSinglePayload),
        22 => Some(ValueWitnessKind::StoreEnumTagSinglePayload),
        _ => None,
    }
}

/// The index under which a value witness kind is stored in a mangled symbol.
pub open spec fn value_witness_index(k: ValueWitnessKind) -> u64 {
    match k {
        ValueWitnessKind::AllocateBuffer => 0,
        ValueWitnessKind::AssignWithCopy => 1,
        ValueWitnessKind::AssignWithTake => 2,
        ValueWitnessKind::DeallocateBuffer => 3,
        ValueWitnessKind::Destroy => 4,
        ValueWitnessKind::DestroyBuffer => 5,
        ValueWitnessKind::InitializeBufferWithCopyOfBuffer => 6,
        ValueWitnessKind::InitializeBufferWithCopy => 7,
        ValueWitnessKind::InitializeWithCopy => 8,
        ValueWitnessKind::InitializeBufferWithTakeOfBuffer => 9,
        ValueWitnessKind::InitializeBufferWithTake => 10,
        ValueWitnessKind::InitializeWithTake => 11,
        ValueWitnessKind::ProjectBuffer => 12,
        ValueWitnessKind::InitializeArrayWithCopy => 13,
        ValueWitnessKind::InitializeArrayWithTakeFrontToBack => 14,
        ValueWitnessKind::InitializeArrayWithTakeBackToFront => 15,
        ValueWitnessKind::StoreExtraInhabitant => 16,
        ValueWitnessKind::GetExtraInhabitantIndex => 17,
        ValueWitnessKind::GetEnumTag => 18,
        ValueWitnessKind::DestructiveProjectEnumData => 19,
        ValueWitnessKind::DestructiveInjectEnumTag => 20,
        ValueWitnessKind::GetEnumTagSinglePayload => 21,
        ValueWitnessKind::StoreEnumTagSinglePayload => 22,
    }
}

/// The human-readable name of a value witness kind.
pub open spec fn value_witness_kind_name(k: ValueWitnessKind) -> Seq<char> {
    match k {
        ValueWitnessKind::AllocateBuffer => "allocateBuffer"@,
        ValueWitnessKind::AssignWithCopy => "assignWithCopy"@,
        ValueWitnessKind::AssignWithTake => "assignWithTake"@,
        ValueWitnessKind::DeallocateBuffer => "deallocateBuffer"@,
        ValueWitnessKind::Destroy => "destroy"@,
        ValueWitnessKind::DestroyBuffer => "destroyBuffer"@,
        ValueWitnessKind::InitializeBufferWithCopyOfBuffer => "initializeBufferWithCopyOfBuffer"@,
        ValueWitnessKind::InitializeBufferWithCopy => "initializeBufferWithCopy"@,
        ValueWitnessKind::InitializeWithCopy => "initializeWithCopy"@,
        ValueWitnessKind::InitializeBufferWithTakeOfBuffer => "initializeBufferWithTakeOfBuffer"@,
        ValueWitnessKind::InitializeBufferWithTake => "initializeBufferWithTake"@,
        ValueWitnessKind::InitializeWithTake => "initializeWithTake"@,
        ValueWitnessKind::ProjectBuffer => "projectBuffer"@,
        ValueWitnessKind::InitializeArrayWithCopy => "initializeArrayWithCopy"@,
        ValueWitnessKind::InitializeArrayWithTakeFrontToBack => "initializeArrayWithTakeFrontToBack"@,
        ValueWitnessKind::InitializeArrayWithTakeBackToFront => "initializeArrayWithTakeBackToFront"@,
        ValueWitnessKind::StoreExtraInhabitant => "storeExtraInhabitant"@,
        ValueWitnessKind::GetExtraInhabitantIndex => "getExtraInhabitantIndex"@,
        ValueWitnessKind::GetEnumTag => "getEnumTag"@,
        ValueWitnessKind::DestructiveProjectEnumData => "destructiveProjectEnumData"@,
        ValueWitnessKind::DestructiveInjectEnumTag => "destructiveInjectEnumTag"@,
        ValueWitnessKind::GetEnumTagSinglePayload => "getEnumTagSinglePayload"@,
        ValueWitnessKind::StoreEnumTagSinglePayload => "storeEnumTagSinglePayload"@,
    }
}

/// The value witness kinds are numbered from zero without gaps: an index
/// names a kind exactly when it is below the number of kinds, and the kind it
/// names is stored under that index.
pub proof fn lemma_value_witness_index(i: u64, k: ValueWitnessKind)
    ensures
        value_witness_from_index(value_witness_index(k)) == Some(k),
        value_witness_index(k) < 23,
        value_witness_from_index(i) is Some <==> i < 23,
        value_witness_from_index(i) == Some(k) ==> i == value_witness_index(k),
{
}

impl ValueWitnessKind {
    /// Create from the index value in the mangled symbol.
    pub fn from_index(index: u64) -> (r: Option<Self>)
        ensures
            r == value_witness_from_index(index),
    {
        match index {
            0 => Some(ValueWitnessKind::AllocateBuffer),
            1 => Some(ValueWitnessKind::AssignWithCopy),
            2 => Some(ValueWitnessKind::AssignWithTake),
            3 => Some(ValueWitnessKind::DeallocateBuffer),
            4 => Some(ValueWitnessKind::Destroy),
            5 => Some(ValueWitnessKind::DestroyBuffer),
            6 => Some(ValueWitnessKind::InitializeBufferWithCopyOfBuffer),
            7 => Some(ValueWitnessKind::InitializeBufferWithCopy),
            8 => Some(ValueWitnessKind::InitializeWithCopy),
            9 => Some(ValueWitnessKind::InitializeBufferWithTakeOfBuffer),
            10 => Some(ValueWitnessKind::InitializeBufferWithTake),
            11 => Some(ValueWitnessKind::InitializeWithTake),
            12 => Some(ValueWitnessKind::ProjectBuffer),
            13 => Some(ValueWitnessKind::InitializeArrayWithCopy),
            14 => Some(ValueWitnessKind::InitializeArrayWithTakeFrontToBack),
            15 => Some(ValueWitnessKind::InitializeArrayWithTakeBackToFront),
            16 => Some(ValueWitnessKind::StoreExtraInhabitant),
            17 => Some(ValueWitnessKind::GetExtraInhabitantIndex),
            18 => Some(ValueWitnessKind::GetEnumTag),
            19 => Some(ValueWitnessKind::DestructiveProjectEnumData),
            20 => Some(ValueWitnessKind::DestructiveInjectEnumTag),
            21 => Some(ValueWitnessKind::GetEnumTagSinglePayload),
            22 => Some(ValueWitnessKind::StoreEnumTagSinglePayload),
            _ => None,
        }
    }

    /// Get a human-readable name for this value witness kind.
    pub fn name(&self) -> (r: &'static str)
        ensures
            r@ == value_witness_kind_name(*self),
    {
        match self {
            ValueWitnessKind::AllocateBuffer => "allocateBuffer",
            ValueWitnessKind::AssignWithCopy => "assignWithCopy",
            ValueWitnessKind::AssignWithTake => "assignWithTake",
            ValueWitnessKind::DeallocateBuffer => "deallocateBuffer",
            ValueWitnessKind::Destroy => "destroy",
            ValueWitnessKind::DestroyBuffer => "destroyBuffer",
            ValueWitnessKind::InitializeBufferWithCopyOfBuffer => "initializeBufferWithCopyOfBuffer",
            ValueWitnessKind::InitializeBufferWithCopy => "initializeBufferWithCopy",
            ValueWitnessKind::InitializeWithCopy => "initializeWithCopy",
            ValueWitnessKind::InitializeBufferWithTakeOfBuffer => "initializeBufferWithTakeOfBuffer",
            ValueWitnessKind::InitializeBufferWithTake => "initializeBufferWithTake",
            ValueWitnessKind::InitializeWithTake => "initializeWithTake",
            ValueWitnessKind::ProjectBuffer => "projectBuffer",
            ValueWitnessKind::InitializeArrayWithCopy => "initializeArrayWithCopy",
            ValueWitnessKind::InitializeArrayWithTakeFrontToBack => "initializeArrayWithTakeFrontToBack",
            ValueWitnessKind::InitializeArrayWithTakeBackToFront => "initializeArrayWithTakeBackToFront",
            ValueWitnessKind::StoreExtraInhabitant => "storeExtraInhabitant",
            ValueWitnessKind::GetExtraInhabitantIndex => "getExtraInhabitantIndex",
            ValueWitnessKind::GetEnumTag => "getEnumTag",
            ValueWitnessKind::DestructiveProjectEnumData => "destructiveProjectEnumData",
            ValueWitnessKind::DestructiveInjectEnumTag => "destructiveInjectEnumTag",
            ValueWitnessKind::GetEnumTagSinglePayload => "getEnumTagSinglePayload",
            ValueWitnessKind::StoreEnumTagSinglePayload => "storeEnumTagSinglePayload",
        }
    }
}

/// The value witness kind of a witness node.
pub open spec fn spec_value_witness_kind(d: NodeData) -> Option<ValueWitnessKind> {
    if d.kind != NodeKind::ValueWitness {
        None
    } else {
        match spec_child_of_kind(d, NodeKind::Index) {
            Some(c) => match c.index {
                Some(i) => value_witness_from_index(i),
                None => None,
            },
            None => None,
        }
    }
}

/// The second `Type` child of a sequence (looked through), once one has been passed when `found`.
pub open spec fn second_type_from(s: Seq<NodeData>, found: bool) -> Option<NodeData>
    decreases s.len(),
{
    if s.len() == 0 {
        None
    } else if s[0].kind == NodeKind::Type {
        if found {
            Some(first_child_or_self(s[0]))
        } else {
            second_type_from(s.drop_first(), true)
        }
    } else {
        second_type_from(s.drop_first(), found)
    }
}

/// The first `Type` child (looked through) after the first `AssocTypePath`,
/// once one has been passed when `found`.
pub open spec fn type_after_path_from(s: Seq<NodeData>, found: bool) -> Option<NodeData>
    decreases s.len(),
{
    if s.len() == 0 {
        None
    } else if s[0].kind == NodeKind::AssocTypePath {
        type_after_path_from(s.drop_first(), true)
    } else if found && s[0].kind == NodeKind::Type {
        Some(first_child_or_self(s[0]))
    } else {
        type_after_path_from(s.drop_first(), found)
    }
}

/// The `n`-th `Type` node of a sequence (counting from zero), looked through.
pub open spec fn nth_type_of(s: Seq<NodeData>, n: int) -> Option<NodeData> {
    let f = filter_map(s, kind_is(NodeKind::Type));
    if 0 <= n < f.len() {
        Some(first_child_or_self(f[n]))
    } else {
        None
    }
}

/// In a conformance, the conforming type is the first `Type` child and the
/// protocol the second.
pub proof fn lemma_conformance_types(s: Seq<NodeData>)
    ensures
        second_type_from(s, false) == nth_type_of(s, 1),
        second_type_from(s, true) == nth_type_of(s, 0),
        match first_hit(s, kind_is(NodeKind::Type)) {
            Some(t) => Some(first_child_or_self(t)),
            None => None,
        } == nth_type_of(s, 0),
    decreases s.len(),
{
    if s.len() > 0 {
        let t = s.drop_first();
        lemma_conformance_types(t);
        lemma_filter_map_first(s, kind_is(NodeKind::Type));
        let f = filter_map(t, kind_is(NodeKind::Type));
        if s[0].kind == NodeKind::Type {
            let g = seq![s[0]] + f;
            assert(g[0] == s[0]);
            assert(forall|j: int| 0 <= j < f.len() ==> g[j + 1] == f[j]);
        }
    }
}

/// The name of a `DependentAssociatedTypeRef` entry of an associated type path.
pub open spec fn assoc_path_entry_hit() -> spec_fn(NodeData) -> Option<Seq<char>> {
    |c: NodeData|
        if c.kind == NodeKind::DependentAssociatedTypeRef {
            text_of(first_child(c))
        } else {
            None
        }
}

/// The associated type path of a witness table node.
pub open spec fn spec_associated_type_path(d: NodeData) -> Seq<Seq<char>> {
    if d.kind != NodeKind::AssociatedTypeWitnessTableAccessor {
        Seq::empty()
    } else {
        match spec_child_of_kind(d, NodeKind::AssocTypePath) {
            Some(p) => filter_map(p.children@, assoc_path_entry_hit()),
            None => Seq::empty(),
        }
    }
}

/// The module of an optional conformance node.
pub open spec fn conformance_module_of(c: Option<NodeData>) -> Option<Seq<char>> {
    match c {
        Some(n) => text_of(spec_child_of_kind(n, NodeKind::Module)),
        None => None,
    }
}

/// The conformance node of an optional protocol conformance.
pub open spec fn opt_conformance_data<'ctx>(o: Option<ProtocolConformance<'ctx>>) -> Option<NodeData> {
    match o {
        Some(c) => Some(c.spec_raw().data()),
        None => None,
    }
}

/// The second `Type` child of a node, looked through.
pub fn second_type_child<'ctx>(node: Node<'ctx>) -> (r: Option<TypeRef<'ctx>>)
    ensures
        opt_type_data(r) == second_type_from(node.data().children@, false),
{
    let cs = node.children();
    let ghost s = node.data().children@;
    let mut found_first = false;
    let mut i: usize = 0;
    proof {
        assert(s.subrange(0, s.len() as int) =~= s);
    }
    while i < cs.len()
        invariant
            i <= cs@.len(),
            datas(cs@) == s,
            second_type_from(s.subrange(i as int, s.len() as int), found_first)
                == second_type_from(s, false),
        decreases cs@.len() - i,
    {
        proof {
            assert(s[i as int] == cs@[i as int].data());
            let t = s.subrange(i as int, s.len() as int);
            assert(t[0] == s[i as int]);
            assert(t.drop_first() =~= s.subrange(i + 1, s.len() as int));
        }
        let c = cs[i];
        if c.kind() == NodeKind::Type {
            if found_first {
                return Some(TypeRef::new(c.first_child_or_self()));
            }
            found_first = true;
        }
        i = i + 1;
    }
    None
}

/// Information about a protocol conformance.
#[derive(Clone, Copy)]
pub struct ProtocolConformance<'ctx> {
    raw: Node<'ctx>,
}

impl<'ctx> ProtocolConformance<'ctx> {
    /// The node of this conformance.
    pub closed spec fn spec_raw(self) -> Node<'ctx> {
        self.raw
    }

    /// Create a ProtocolConformance from a raw node.
    pub fn new(raw: Node<'ctx>) -> (r: Self)
        ensures
            r.spec_raw() == raw,
    {
        Self { raw }
    }

    /// Get the underlying raw node.
    pub fn raw(&self) -> (r: Node<'ctx>)
        ensures
            r == self.spec_raw(),
    {
        self.raw
    }

    /// Get the conforming type: the first `Type` child.
    pub fn conforming_type(&self) -> (r: Option<TypeRef<'ctx>>)
        ensures
            opt_type_data(r) == spec_extract_type_ref(self.spec_raw().data()),
    {
        self.raw.extract_type_ref()
    }

    /// Get the protocol being conformed to: the second `Type` child.
    pub fn protocol(&self) -> (r: Option<TypeRef<'ctx>>)
        ensures
            opt_type_data(r) == second_type_from(self.spec_raw().data().children@, false),
    {
        second_type_child(self.raw)
    }

    /// Get the module where the conformance is declared.
    pub fn module(&self) -> (r: Option<&'ctx str>)
        ensures
            opt_str(r) == conformance_module_of(Some(self.spec_raw().data())),
    {
        match self.raw.child_of_kind(NodeKind::Module) {
            Some(m) => m.text(),
            None => None,
        }
    }
}

/// The `ProtocolConformance` child of a node, as a conformance.
pub fn conformance_child<'ctx>(node: Node<'ctx>) -> (r: Option<ProtocolConformance<'ctx>>)
    ensures
        opt_conformance_data(r) == spec_child_of_kind(node.data(), NodeKind::ProtocolConformance),
{
    match node.child_of_kind(NodeKind::ProtocolConformance) {
        Some(c) => Some(ProtocolConformance::new(c)),
        None => None,
    }
}

/// A Swift witness table symbol.
#[derive(Clone, Copy)]
pub struct WitnessTable<'ctx> {
    raw: Node<'ctx>,
}

impl<'ctx> WitnessTable<'ctx> {
    /// The node of this witness table.
    pub closed spec fn spec_raw(self) -> Node<'ctx> {
        self.raw
    }

    /// The conformance node of this witness table.
    pub open spec fn spec_conformance(self) -> Option<NodeData> {
        spec_child_of_kind(self.spec_raw().data(), NodeKind::ProtocolConformance)
    }

    /// Create a WitnessTable from a raw node.
    pub fn new(raw: Node<'ctx>) -> (r: Self)
        ensures
            r.spec_raw() == raw,
    {
        Self { raw }
    }

    /// Get the underlying raw node.
    pub fn raw(&self) -> (r: Node<'ctx>)
        ensures
            r == self.spec_raw(),
    {
        self.raw
    }

    /// Get the kind of witness table.
    pub fn kind(&self) -> (k: WitnessTableKind)
        ensures
            k == witness_table_kind_of(self.spec_raw().data().kind),
    {
        match self.raw.kind() {
            NodeKind::ProtocolWitnessTable => WitnessTableKind::Protocol,
            NodeKind::ProtocolWitnessTableAccessor => WitnessTableKind::ProtocolAccessor,
            NodeKind::ProtocolWitnessTablePattern => WitnessTableKind::ProtocolPattern,
            NodeKind::GenericProtocolWitnessTable => WitnessTableKind::GenericProtocol,
            NodeKind::GenericProtocolWitnessTableInstantiationFunction => WitnessTableKind::GenericProtocolInstantiation,
            NodeKind::ResilientProtocolWitnessTable => WitnessTableKind::ResilientProtocol,
            NodeKind::LazyProtocolWitnessTableAccessor => WitnessTableKind::LazyProtocolAccessor,
            NodeKind::LazyProtocolWitnessTableCacheVariable => WitnessTableKind::LazyProtocolCacheVariable,
            NodeKind::ProtocolSelfConformanceWitnessTable => WitnessTableKind::SelfConformance,
            NodeKind::ValueWitnessTable => WitnessTableKind::ValueTable,
            NodeKind::ValueWitness => WitnessTableKind::ValueWitness,
            NodeKind::AssociatedTypeWitnessTableAccessor => WitnessTableKind::AssociatedTypeAccessor,
            NodeKind::BaseWitnessTableAccessor => WitnessTableKind::BaseAccessor,
            NodeKind::ConcreteProtocolConformance => WitnessTableKind::ConcreteConformance,
            _ => WitnessTableKind::Other,
        }
    }

    /// Get the value witness kind if this is a ValueWitness.
    ///
    /// The index child tells which value witness it is.
    pub fn value_witness_kind(&self) -> (r: Option<ValueWitnessKind>)
        ensures
            r == spec_value_witness_kind(self.spec_raw().data()),
    {
        if self.raw.kind() != NodeKind::ValueWitness {
            return None;
        }
        match self.raw.child_of_kind(NodeKind::Index) {
            Some(c) => match c.index() {
                Some(i) => ValueWitnessKind::from_index(i),
                None => None,
            },
            None => None,
        }
    }

    /// Get the protocol conformance information if available.
    pub fn conformance(&self) -> (r: Option<ProtocolConformance<'ctx>>)
        ensures
            opt_conformance_data(r) == self.spec_conformance(),
    {
        conformance_child(self.raw)
    }

    /// Get the conforming type: that of the conformance, or else (for a value
    /// witness table) the direct type child.
    pub fn conforming_type(&self) -> (r: Option<TypeRef<'ctx>>)
        ensures
            opt_type_data(r) == match self.spec_conformance() {
                Some(c) => spec_extract_type_ref(c),
                None => spec_extract_type_ref(self.spec_raw().data()),
            },
    {
        match self.conformance() {
            Some(c) => c.conforming_type(),
            None => self.raw.extract_type_ref(),
        }
    }

    /// Get the protocol being conformed to.
    pub fn protocol(&self) -> (r: Option<TypeRef<'ctx>>)
        ensures
            opt_type_data(r) == match self.spec_conformance() {
                Some(c) => second_type_from(c.children@, false),
                None => None,
            },
    {
        match self.conformance() {
            Some(c) => c.protocol(),
            None => None,
        }
    }

    /// Get the module where the conformance is declared.
    pub fn conformance_module(&self) -> (r: Option<&'ctx str>)
        ensures
            opt_str(r) == conformance_module_of(self.spec_conformance()),
    {
        match self.conformance() {
            Some(c) => c.module(),
            None => None,
        }
    }

    /// Get the module of the conforming type.
    pub fn module(&self) -> (r: Option<&'ctx str>)
        ensures
            opt_str(r) == match conformance_module_of(self.spec_conformance()) {
                Some(m) => Some(m),
                None => spec_find_module_in_descendants(self.spec_raw().data()),
            },
    {
        if let Some(m) = self.conformance_module() {
            return Some(m);
        }
        self.raw.find_module_in_descendants()
    }

    /// Get the associated type path for AssociatedTypeWitnessTableAccessor.
    ///
    /// Returns the path as a list of names (e.g., ["A", "ZZ"] for A.ZZ).
    pub fn associated_type_path(&self) -> (v: Vec<&'ctx str>)
        ensures
            str_views(v@) == spec_associated_type_path(self.spec_raw().data()),
    {
        let mut out: Vec<&'ctx str> = Vec::new();
        if self.raw.kind() != NodeKind::AssociatedTypeWitnessTableAccessor {
            proof {
                assert(str_views(out@) =~= Seq::<Seq<char>>::empty());
            }
            return out;
        }
        match self.raw.child_of_kind(NodeKind::AssocTypePath) {
            Some(p) => {
                let cs = p.children();
                let ghost s = p.data().children@;
                let mut i: usize = 0;
                proof {
                    assert(str_views(out@) =~= filter_map(s.take(0), assoc_path_entry_hit()));
                }
                while i < cs.len()
                    invariant
                        i <= cs@.len(),
                        datas(cs@) == s,
                        str_views(out@) == filter_map(s.take(i as int), assoc_path_entry_hit()),
                    decreases cs@.len() - i,
                {
                    proof {
                        assert(s[i as int] == cs@[i as int].data());
                        lemma_filter_map_step(s, assoc_path_entry_hit(), i as int);
                    }
                    let c = cs[i];
                    if c.kind() == NodeKind::DependentAssociatedTypeRef {
                        let name = match c.child(0) {
                            Some(id) => id.text(),
                            None => None,
                        };
                        match name {
                            Some(n) => {
                                let ghost before = out@;
                                out.push(n);
                                proof {
                                    assert(str_views(out@) =~= str_views(before).push(n@));
                                }
                            },
                            None => {},
                        }
                    }
                    i = i + 1;
                }
                proof {
                    lemma_take_all(s);
                }
            },
            None => {
                proof {
                    assert(str_views(out@) =~= Seq::<Seq<char>>::empty());
                }
            },
        }
        out
    }

    /// Get the protocol that the associated type conforms to.
    ///
    /// For AssociatedTypeWitnessTableAccessor, this is the protocol requirement
    /// on the associated type (distinct from the main conformance protocol):
    /// the first `Type` child after the `AssocTypePath`.
    pub fn associated_type_protocol(&self) -> (r: Option<TypeRef<'ctx>>)
        ensures
            opt_type_data(r) == if self.spec_raw().data().kind
                == NodeKind::AssociatedTypeWitnessTableAccessor {
                type_after_path_from(self.spec_raw().data().children@, false)
            } else {
                None
            },
    {
        if self.raw.kind() != NodeKind::AssociatedTypeWitnessTableAccessor {
            return None;
        }
        let cs = self.raw.children();
        let ghost s = self.raw.data().children@;
        let mut found_assoc_path = false;
        let mut i: usize = 0;
        proof {
            assert(s.subrange(0, s.len() as int) =~= s);
        }
        while i < cs.len()
            invariant
                i <= cs@.len(),
                datas(cs@) == s,
                type_after_path_from(s.subrange(i as int, s.len() as int), found_assoc_path)
                    == type_after_path_from(s, false),
            decreases cs@.len() - i,
        {
            proof {
                assert(s[i as int] == cs@[i as int].data());
                let t = s.subrange(i as int, s.len() as int);
                assert(t[0] == s[i as int]);
                assert(t.drop_first() =~= s.subrange(i + 1, s.len() as int));
            }
            let c = cs[i];
            if c.kind() == NodeKind::AssocTypePath {
                found_assoc_path = true;
            } else if found_assoc_path && c.kind() == NodeKind::Type {
                return Some(TypeRef::new(c.first_child_or_self()));
            }
            i = i + 1;
        }
        None
    }

    /// The human-readable rendering of this witness table.
    pub fn to_string(&self) -> (r: String)
        ensures
            r@ == self.spec_raw().data().display@,
    {
        self.raw.to_string()
    }
}

} // verus!
