//! Specialization symbol representation.
//!
//! Specializations are pre-compiled versions of generic functions with
//! specific type arguments substituted for performance.

use vstd::prelude::*;

use crate::accessor::str_views;
use crate::helpers::{kind_is, spec_child_of_kind, spec_descendant_of_kind, text_of};
use crate::raw::{datas, opt_str, Node, NodeData, NodeKind};
use crate::search::{
    filter_map, first_hit, lemma_filter_map_step, lemma_first_hit_at, lemma_first_hit_none,
    lemma_take_all,
};
use crate::symbol::Symbol;
use crate::types::{type_datas, type_or_self_hit, TypeRef};

verus! {

/// The kind of specialization.
#[derive(Debug, Clone, Copy, PartialEq, Eq, Structural)]
pub enum SpecializationKind {
    /// Full generic specialization.
    Generic,
    /// Generic specialization without re-abstraction.
    GenericNotReAbstracted,
    /// Generic specialization within a resilience domain.
    GenericInResilienceDomain,
    /// Pre-specialized generic (compiled ahead of time).
    Prespecialized,
    /// Partial generic specialization.
    Partial,
    /// Partial specialization without re-abstraction.
    PartialNotReAbstracted,
    /// Function signature specialization (parameter/return type changes).
    FunctionSignature,
    /// Other specialization type.
    Other,
}

/// The human-readable name of a specialization kind.
pub open spec fn specialization_kind_name(k: SpecializationKind) -> Seq<char> {
    match k {
        SpecializationKind::Generic => "generic specialization"@,
        SpecializationKind::GenericNotReAbstracted => "generic specialization (not re-abstracted)"@,
        SpecializationKind::GenericInResilienceDomain => "generic specialization (resilience domain)"@,
        SpecializationKind::Prespecialized => "pre-specialization"@,
        SpecializationKind::Partial => "partial specialization"@,
        SpecializationKind::PartialNotReAbstracted => "partial specialization (not re-abstracted)"@,
        SpecializationKind::FunctionSignature => "function signature specialization"@,
        SpecializationKind::Other => "specialization"@,
    }
}

impl SpecializationKind {
    /// Get a human-readable name for this specialization kind.
    pub fn name(&self) -> (r: &'static str)
        ensures
            r@ == specialization_kind_name(*self),
    {
        match self {
            SpecializationKind::Generic => "generic specialization",
            SpecializationKind::GenericNotReAbstracted => "generic specialization (not re-abstracted)",
            SpecializationKind::GenericInResilienceDomain => "generic specialization (resilience domain)",
            SpecializationKind::Prespecialized => "pre-specialization",
            SpecializationKind::Partial => "partial specialization",
            SpecializationKind::PartialNotReAbstracted => "partial specialization (not re-abstracted)",
            SpecializationKind::FunctionSignature => "function signature specialization",
            SpecializationKind::Other => "specialization",
        }
    }
}

/// The specialization kind of a node kind.
pub open spec fn specialization_kind_of(k: NodeKind) -> SpecializationKind {
    match k {
        NodeKind::GenericSpecialization => SpecializationKind::Generic,
        NodeKind::GenericSpecializationNotReAbstracted => SpecializationKind::GenericNotReAbstracted,
        NodeKind::GenericSpecializationInResilienceDomain => SpecializationKind::GenericInResilienceDomain,
        NodeKind::GenericSpecializationPrespecialized => SpecializationKind::Prespecialized,
        NodeKind::GenericPartialSpecialization => SpecializationKind::Partial,
        NodeKind::GenericPartialSpecializationNotReAbstracted => SpecializationKind::PartialNotReAbstracted,
        NodeKind::FunctionSignatureSpecialization => SpecializationKind::FunctionSignature,
        _ => SpecializationKind::Other,
    }
}

/// Each node kind that has a specialization kind has its own: two node kinds with the same
/// kind, other than `Other`, are the same node kind.
pub proof fn lemma_specialization_kind_injective(a: NodeKind, b: NodeKind)
    requires
        specialization_kind_of(a) != SpecializationKind::Other,
        specialization_kind_of(a) == specialization_kind_of(b),
    ensures
        a == b,
{
}

/// The type arguments listed by one child of a specialization node.
pub open spec fn type_args_of(c: NodeData) -> Seq<NodeData> {
    if c.kind == NodeKind::GenericSpecializationParam {
        filter_map(c.children@, type_or_self_hit())
    } else {
        Seq::empty()
    }
}

/// The type arguments listed by a sequence of children, in order.
pub open spec fn type_args_list(s: Seq<NodeData>) -> Seq<NodeData>
    decreases s.len(),
{
    if s.len() == 0 {
        Seq::empty()
    } else {
        type_args_list(s.drop_last()) + type_args_of(s.last())
    }
}

/// The views of a sequence of function signature parameters.
pub open spec fn sig_param_datas<'ctx>(s: Seq<FunctionSignatureParam<'ctx>>) -> Seq<NodeData> {
    s.map_values(|p: FunctionSignatureParam<'ctx>| p.spec_raw().data())
}

/// A Swift specialization symbol.
#[derive(Clone, Copy)]
pub struct Specialization<'ctx> {
    raw: Node<'ctx>,
}

impl<'ctx> Specialization<'ctx> {
    /// The node of this specialization.
    pub closed spec fn spec_raw(self) -> Node<'ctx> {
        self.raw
    }

    /// Create a Specialization from a raw node.
    pub fn new(raw: Node<'ctx>) -> (r: Self)
        ensures
            r.spec_raw() == raw,
    {
        Self { raw }
    }

    /// Get the underlying raw node.
    pub fn raw(&self) -> (r: Node<'ctx>)
        ensures
            r == self.spec_raw(),
    {
        self.raw
    }

    /// Get the kind of specialization.
    pub fn kind(&self) -> (k: SpecializationKind)
        ensures
            k == specialization_kind_of(self.spec_raw().data().kind),
    {
        match self.raw.kind() {
            NodeKind::GenericSpecialization => SpecializationKind::Generic,
            NodeKind::GenericSpecializationNotReAbstracted => SpecializationKind::GenericNotReAbstracted,
            NodeKind::GenericSpecializationInResilienceDomain => SpecializationKind::GenericInResilienceDomain,
            NodeKind::GenericSpecializationPrespecialized => SpecializationKind::Prespecialized,
            NodeKind::GenericPartialSpecialization => SpecializationKind::Partial,
            NodeKind::GenericPartialSpecializationNotReAbstracted => SpecializationKind::PartialNotReAbstracted,
            NodeKind::FunctionSignatureSpecialization => SpecializationKind::FunctionSignature,
            _ => SpecializationKind::Other,
        }
    }

    /// Get the specialization pass ID if present.
    ///
    /// This indicates which optimization pass created the specialization.
    pub fn pass_id(&self) -> (r: Option<u64>)
        ensures
            r == match spec_child_of_kind(self.spec_raw().data(), NodeKind::SpecializationPassID) {
                Some(c) => c.index,
                None => None,
            },
    {
        match self.raw.child_of_kind(NodeKind::SpecializationPassID) {
            Some(c) => c.index(),
            None => None,
        }
    }

    /// Get the type arguments used for specialization.
    ///
    /// Returns a list of types that were substituted for generic parameters.
    /// For function signature specializations, use `function_signature_params()` instead.
    pub fn type_arguments(&self) -> (v: Vec<TypeRef<'ctx>>)
        ensures
            type_datas(v@) == type_args_list(self.spec_raw().data().children@),
    {
        let mut args: Vec<TypeRef<'ctx>> = Vec::new();
        let cs = self.raw.children();
        let ghost s = self.raw.data().children@;
        let mut i: usize = 0;
        proof {
            assert(type_datas(args@) =~= type_args_list(s.take(0)));
        }
        while i < cs.len()
            invariant
                i <= cs@.len(),
                datas(cs@) == s,
                type_datas(args@) == type_args_list(s.take(i as int)),
            decreases cs@.len() - i,
        {
            proof {
                assert(s[i as int] == cs@[i as int].data());
                assert(s.take(i + 1).drop_last() =~= s.take(i as int));
                assert(s.take(i + 1).last() == s[i as int]);
            }
            let c = cs[i];
            let ghost before = type_datas(args@);
            if c.kind() == NodeKind::GenericSpecializationParam {
                let ics = c.children();
                let ghost t = c.data().children@;
                let mut k: usize = 0;
                proof {
                    assert(type_datas(args@) =~= before + filter_map(t.take(0), type_or_self_hit()));
                }
                while k < ics.len()
                    invariant
                        k <= ics@.len(),
                        datas(ics@) == t,
                        type_datas(args@) == before + filter_map(t.take(k as int), type_or_self_hit()),
                    decreases ics@.len() - k,
                {
                    proof {
                        assert(t[k as int] == ics@[k as int].data());
                        lemma_filter_map_step(t, type_or_self_hit(), k as int);
                    }
                    let inner = ics[k];
                    if inner.kind() == NodeKind::Type {
                        let ghost prev = args@;
                        let tr = TypeRef::new(inner.first_child_or_self());
                        args.push(tr);
                        proof {
                            assert(type_datas(args@) =~= type_datas(prev).push(tr.spec_raw().data()));
                        }
                    }
                    k = k + 1;
                }
                proof {
                    lemma_take_all(t);
                }
            } else {
                proof {
                    assert(type_datas(args@) =~= before + type_args_of(c.data()));
                }
            }
            i = i + 1;
        }
        proof {
            lemma_take_all(s);
        }
        args
    }

    /// Get the function signature specialization parameters.
    ///
    /// Returns a list of parameter transformations for function signature specializations.
    /// For generic specializations, use `type_arguments()` instead.
    pub fn function_signature_params(&self) -> (v: Vec<FunctionSignatureParam<'ctx>>)
        ensures
            sig_param_datas(v@) == filter_map(
                self.spec_raw().data().children@,
                kind_is(NodeKind::FunctionSignatureSpecializationParam),
            ),
    {
        let nodes = self.raw.children_of_kind(NodeKind::FunctionSignatureSpecializationParam);
        let mut params: Vec<FunctionSignatureParam<'ctx>> = Vec::new();
        let mut i: usize = 0;
        while i < nodes.len()
            invariant
                i <= nodes@.len(),
                sig_param_datas(params@) =~= datas(nodes@).take(i as int),
            decreases nodes@.len() - i,
        {
            params.push(FunctionSignatureParam::new(nodes[i]));
            i = i + 1;
        }
        proof {
            assert(datas(nodes@).take(nodes@.len() as int) =~= datas(nodes@));
        }
        params
    }

    /// Get the inner symbol that this specialization wraps.
    ///
    /// The inner symbol is a sibling of the specialization node, not a child,
    /// and a node has no link to its parent, so it cannot be found from here:
    /// specializations are paired with their inner symbol by `Symbol::from_node`.
    pub fn inner(&self) -> (r: Option<Symbol<'ctx>>)
        ensures
            r is None,
    {
        None
    }

    /// Get the module containing this specialization.
    pub fn module(&self) -> (r: Option<&'ctx str>)
        ensures
            opt_str(r) == text_of(spec_descendant_of_kind(self.spec_raw().data(), NodeKind::Module)),
    {
        match self.raw.descendant_of_kind(NodeKind::Module) {
            Some(m) => m.text(),
            None => None,
        }
    }

    /// The human-readable rendering of this specialization.
    pub fn to_string(&self) -> (r: String)
        ensures
            r@ == self.spec_raw().data().display@,
    {
        self.raw.to_string()
    }
}

/// The base kind of function signature parameter transformation.
///
/// This represents the low bits (0-5) of the param kind value.
/// Additional flags (Dead, OwnedToGuaranteed, etc.) can be combined.
#[derive(Debug, Clone, Copy, PartialEq, Eq, Structural)]
pub enum FunctionSignatureParamKind {
    /// Function constant propagation.
    ConstantPropFunction,
    /// Global constant propagation.
    ConstantPropGlobal,
    /// Integer constant propagation.
    ConstantPropInteger,
    /// Float constant propagation.
    ConstantPropFloat,
    /// String constant propagation.
    ConstantPropString,
    /// Closure parameter was propagated/inlined.
    ClosureProp,
    /// Box converted to value.
    BoxToValue,
    /// Box converted to stack allocation.
    BoxToStack,
    /// In-out parameter converted to out.
    InOutToOut,
    /// KeyPath constant propagation.
    ConstantPropKeyPath,
    /// Unknown base kind.
    Unknown(u64),
}

/// The human-readable name of a parameter transformation kind.
pub open spec fn param_kind_name(k: FunctionSignatureParamKind) -> Seq<char> {
    match k {
        FunctionSignatureParamKind::ConstantPropFunction => "constant prop (function)"@,
        FunctionSignatureParamKind::ConstantPropGlobal => "constant prop (global)"@,
        FunctionSignatureParamKind::ConstantPropInteger => "constant prop (integer)"@,
        FunctionSignatureParamKind::ConstantPropFloat => "constant prop (float)"@,
        FunctionSignatureParamKind::ConstantPropString => "constant prop (string)"@,
        FunctionSignatureParamKind::ClosureProp => "closure propagated"@,
        FunctionSignatureParamKind::BoxToValue => "box to value"@,
        FunctionSignatureParamKind::BoxToStack => "box to stack"@,
        FunctionSignatureParamKind::InOutToOut => "inout to out"@,
        FunctionSignatureParamKind::ConstantPropKeyPath => "constant prop (keypath)"@,
        FunctionSignatureParamKind::Unknown(_) => "unknown"@,
    }
}

/// The base parameter kind stored in the low six bits of a kind value.
pub open spec fn param_kind_from_index(idx: u64) -> FunctionSignatureParamKind {
    let base = (idx % 64) as u64;
    match base {
        0 => FunctionSignatureParamKind::ConstantPropFunction,
        1 => FunctionSignatureParamKind::ConstantPropGlobal,
        2 => FunctionSignatureParamKind::ConstantPropInteger,
        3 => FunctionSignatureParamKind::ConstantPropFloat,
        4 => FunctionSignatureParamKind::ConstantPropString,
        5 => FunctionSignatureParamKind::ClosureProp,
        6 => FunctionSignatureParamKind::BoxToValue,
        7 => FunctionSignatureParamKind::BoxToStack,
        8 => FunctionSignatureParamKind::InOutToOut,
        9 => FunctionSignatureParamKind::ConstantPropKeyPath,
        _ => FunctionSignatureParamKind::Unknown(base),
    }
}

impl FunctionSignatureParamKind {
    /// Convert from the raw index value (low 6 bits) to a base param kind.
    fn from_index(idx: u64) -> (r: Self)
        ensures
            r == param_kind_from_index(idx),
    {
        let base = idx & 0x3F;
        assert(base == idx % 64) by (bit_vector)
            requires
                base == idx & 0x3F,
        ;
        match base {
            0 => FunctionSignatureParamKind::ConstantPropFunction,
            1 => FunctionSignatureParamKind::ConstantPropGlobal,
            2 => FunctionSignatureParamKind::ConstantPropInteger,
            3 => FunctionSignatureParamKind::ConstantPropFloat,
            4 => FunctionSignatureParamKind::ConstantPropString,
            5 => FunctionSignatureParamKind::ClosureProp,
            6 => FunctionSignatureParamKind::BoxToValue,
            7 => FunctionSignatureParamKind::BoxToStack,
            8 => FunctionSignatureParamKind::InOutToOut,
            9 => FunctionSignatureParamKind::ConstantPropKeyPath,
            _ => FunctionSignatureParamKind::Unknown(base),
        }
    }

    /// Get a human-readable name for this param kind.
    pub fn name(&self) -> (r: &'static str)
        ensures
            r@ == param_kind_name(*self),
    {
        match self {
            FunctionSignatureParamKind::ConstantPropFunction => "constant prop (function)",
            FunctionSignatureParamKind::ConstantPropGlobal => "constant prop (global)",
            FunctionSignatureParamKind::ConstantPropInteger => "constant prop (integer)",
            FunctionSignatureParamKind::ConstantPropFloat => "constant prop (float)",
            FunctionSignatureParamKind::ConstantPropString => "constant prop (string)",
            FunctionSignatureParamKind::ClosureProp => "closure propagated",
            FunctionSignatureParamKind::BoxToValue => "box to value",
            FunctionSignatureParamKind::BoxToStack => "box to stack",
            FunctionSignatureParamKind::InOutToOut => "inout to out",
            FunctionSignatureParamKind::ConstantPropKeyPath => "constant prop (keypath)",
            FunctionSignatureParamKind::Unknown(_) => "unknown",
        }
    }
}

/// Option flags that can be combined with the base param kind.
#[derive(Debug, Clone, Copy, PartialEq, Eq, Structural)]
pub struct FunctionSignatureParamFlags {
    /// Parameter was found dead (unused) and removed.
    pub dead: bool,
    /// Owned parameter converted to guaranteed (borrowed).
    pub owned_to_guaranteed: bool,
    /// Exploded (SROA - Scalar Replacement of Aggregates) - struct/tuple split into fields.
    pub exploded: bool,
    /// Guaranteed parameter converted to owned.
    pub guaranteed_to_owned: bool,
    /// Existential parameter specialized to concrete type.
    pub existential_to_generic: bool,
}

/// Whether bit `n` of `idx` is set.
pub open spec fn bit_set(idx: u64, n: nat) -> bool {
    (idx as nat / vstd::arithmetic::power2::pow2(n)) % 2 == 1
}

/// The option flags stored in bits 6 to 10 of a kind value.
pub open spec fn flags_from_index(idx: u64) -> FunctionSignatureParamFlags {
    FunctionSignatureParamFlags {
        dead: bit_set(idx, 6),
        owned_to_guaranteed: bit_set(idx, 7),
        exploded: bit_set(idx, 8),
        guaranteed_to_owned: bit_set(idx, 9),
        existential_to_generic: bit_set(idx, 10),
    }
}

/// Whether any flag is set.
pub open spec fn spec_any_flag(f: FunctionSignatureParamFlags) -> bool {
    f.dead || f.owned_to_guaranteed || f.exploded || f.guaranteed_to_owned
        || f.existential_to_generic
}

/// The names of the flags that are set, in declaration order.
pub open spec fn flag_names(f: FunctionSignatureParamFlags) -> Seq<Seq<char>> {
    (if f.dead { seq!["dead"@] } else { Seq::empty() })
        + (if f.owned_to_guaranteed { seq!["owned to guaranteed"@] } else { Seq::empty() })
        + (if f.exploded { seq!["exploded"@] } else { Seq::empty() })
        + (if f.guaranteed_to_owned { seq!["guaranteed to owned"@] } else { Seq::empty() })
        + (if f.existential_to_generic { seq!["existential to generic"@] } else { Seq::empty() })
}

impl Default for FunctionSignatureParamFlags {
    fn default() -> (r: Self)
        ensures
            !spec_any_flag(r),
    {
        FunctionSignatureParamFlags {
            dead: false,
            owned_to_guaranteed: false,
            exploded: false,
            guaranteed_to_owned: false,
            existential_to_generic: false,
        }
    }
}

/// Whether bit `n` (below 11) of `idx` is set, read with a mask.
fn has_bit(idx: u64, mask: u64, n: u64) -> (b: bool)
    requires
        6 <= n <= 10,
        mask == 1u64 << n,
    ensures
        b == bit_set(idx, n as nat),
{
    let b = (idx & mask) != 0;
    proof {
        assert(((idx & (1u64 << n)) != 0) == ((idx >> n) & 1u64 == 1u64)) by (bit_vector)
            requires
                n < 64,
        ;
        assert((idx >> n) & 1u64 == (idx >> n) % 2) by (bit_vector);
        vstd::bits::lemma_u64_shr_is_div(idx, n);
    }
    b
}

impl FunctionSignatureParamFlags {
    /// Extract flags from the raw index value (bits 6+).
    fn from_index(idx: u64) -> (r: Self)
        ensures
            r == flags_from_index(idx),
    {
        Self {
            dead: has_bit(idx, 1u64 << 6u64, 6),
            owned_to_guaranteed: has_bit(idx, 1u64 << 7u64, 7),
            exploded: has_bit(idx, 1u64 << 8u64, 8),
            guaranteed_to_owned: has_bit(idx, 1u64 << 9u64, 9),
            existential_to_generic: has_bit(idx, 1u64 << 10u64, 10),
        }
    }

    /// Returns true if any flag is set.
    pub fn any(&self) -> (b: bool)
        ensures
            b == spec_any_flag(*self),
    {
        self.dead || self.owned_to_guaranteed || self.exploded || self.guaranteed_to_owned
            || self.existential_to_generic
    }

    /// Get a list of flag names that are set.
    pub fn names(&self) -> (v: Vec<&'static str>)
        ensures
            str_views(v@) == flag_names(*self),
    {
        let mut names: Vec<&'static str> = Vec::new();
        if self.dead {
            names.push("dead");
        }
        if self.owned_to_guaranteed {
            names.push("owned to guaranteed");
        }
        if self.exploded {
            names.push("exploded");
        }
        if self.guaranteed_to_owned {
            names.push("guaranteed to owned");
        }
        if self.existential_to_generic {
            names.push("existential to generic");
        }
        proof {
            assert(str_views(names@) =~= flag_names(*self));
        }
        names
    }
}

/// Some flag is set exactly when some flag name is listed.
pub proof fn lemma_any_flag_iff_names(f: FunctionSignatureParamFlags)
    ensures
        spec_any_flag(f) <==> flag_names(f).len() > 0,
{
}

/// The base kind is read from the low six bits of a kind value and the flags
/// from the bits above them, so each is unchanged by the other's bits.
pub proof fn lemma_kind_and_flags_independent(idx: u64)
    ensures
        param_kind_from_index(idx) == param_kind_from_index((idx % 64) as u64),
        flags_from_index(idx) == flags_from_index((idx - idx % 64) as u64),
{
    assert((idx % 64) % 64 == idx % 64);
    let hi = (idx - idx % 64) as u64;
    assert(hi as nat == 64 * (idx as nat / 64)) by {
        vstd::arithmetic::div_mod::lemma_fundamental_div_mod(idx as int, 64);
    }
    assert forall|n: nat| 6 <= n <= 10 implies bit_set(idx, n) == bit_set(hi, n) by {
        vstd::arithmetic::power2::lemma_pow2_adds(6, (n - 6) as nat);
        vstd::arithmetic::power2::lemma2_to64();
        let p = vstd::arithmetic::power2::pow2((n - 6) as nat);
        vstd::arithmetic::power2::lemma_pow2_pos((n - 6) as nat);
        vstd::arithmetic::div_mod::lemma_div_denominator(idx as int, 64, p as int);
        vstd::arithmetic::div_mod::lemma_div_denominator(hi as int, 64, p as int);
        vstd::arithmetic::div_mod::lemma_div_multiples_vanish((idx as nat / 64) as int, 64);
    }
}

/// The first kind value among the children of a parameter node.
pub open spec fn param_kind_value_hit() -> spec_fn(NodeData) -> Option<u64> {
    |c: NodeData|
        if c.kind == NodeKind::FunctionSignatureSpecializationParamKind {
            c.index
        } else {
            None
        }
}

/// The kind value of a parameter node.
pub open spec fn param_kind_value(d: NodeData) -> Option<u64> {
    first_hit(d.children@, param_kind_value_hit())
}

/// The text of a payload child.
pub open spec fn payload_hit() -> spec_fn(NodeData) -> Option<Seq<char>> {
    |c: NodeData|
        if c.kind == NodeKind::FunctionSignatureSpecializationParamPayload {
            c.spec_text()
        } else {
            None
        }
}

/// A parameter in a function signature specialization.
///
/// Describes how a function parameter is transformed in the specialization.
#[derive(Clone, Copy)]
pub struct FunctionSignatureParam<'ctx> {
    raw: Node<'ctx>,
}

impl<'ctx> FunctionSignatureParam<'ctx> {
    /// The node of this parameter.
    pub closed spec fn spec_raw(self) -> Node<'ctx> {
        self.raw
    }

    /// Create a FunctionSignatureParam from a raw node.
    pub fn new(raw: Node<'ctx>) -> (r: Self)
        ensures
            r.spec_raw() == raw,
    {
        Self { raw }
    }

    /// Get the underlying raw node.
    pub fn raw(&self) -> (r: Node<'ctx>)
        ensures
            r == self.spec_raw(),
    {
        self.raw
    }

    fn kind_value(&self) -> (r: Option<u64>)
        ensures
            r == param_kind_value(self.spec_raw().data()),
    {
        let cs = self.raw.children();
        let ghost s = self.raw.data().children@;
        let mut i: usize = 0;
        while i < cs.len()
            invariant
                i <= cs@.len(),
                datas(cs@) == s,
                forall|j: int| 0 <= j < i ==> (#[trigger] (param_kind_value_hit())(s[j])) is None,
            decreases cs@.len() - i,
        {
            proof { assert(s[i as int] == cs@[i as int].data()); }
            let c = cs[i];
            if c.kind() == NodeKind::FunctionSignatureSpecializationParamKind {
                if let Some(idx) = c.index() {
                    proof {
                        lemma_first_hit_at(s, param_kind_value_hit(), i as int);
                    }
                    return Some(idx);
                }
            }
            i = i + 1;
        }
        proof {
            lemma_first_hit_none(s, param_kind_value_hit());
        }
        None
    }

    /// Get the base kind of parameter transformation.
    pub fn kind(&self) -> (k: FunctionSignatureParamKind)
        ensures
            k == match param_kind_value(self.spec_raw().data()) {
                Some(idx) => param_kind_from_index(idx),
                None => FunctionSignatureParamKind::Unknown(0),
            },
    {
        match self.kind_value() {
            Some(idx) => FunctionSignatureParamKind::from_index(idx),
            None => FunctionSignatureParamKind::Unknown(0),
        }
    }

    /// Get the option flags for this parameter transformation.
    pub fn flags(&self) -> (f: FunctionSignatureParamFlags)
        ensures
            f == match param_kind_value(self.spec_raw().data()) {
                Some(idx) => flags_from_index(idx),
                None => flags_from_index(0),
            },
    {
        match self.kind_value() {
            Some(idx) => FunctionSignatureParamFlags::from_index(idx),
            None => {
                let f = FunctionSignatureParamFlags::default();
                proof {
                    assert(flags_from_index(0) == f) by {
                        vstd::arithmetic::power2::lemma2_to64();
                    }
                }
                f
            },
        }
    }

    /// Get all payload texts (e.g., encoding and value for ConstantPropString).
    pub fn payloads(&self) -> (v: Vec<&'ctx str>)
        ensures
            str_views(v@) == filter_map(self.spec_raw().data().children@, payload_hit()),
    {
        let cs = self.raw.children();
        let ghost s = self.raw.data().children@;
        let mut out: Vec<&'ctx str> = Vec::new();
        let mut i: usize = 0;
        proof {
            assert(str_views(out@) =~= filter_map(s.take(0), payload_hit()));
        }
        while i < cs.len()
            invariant
                i <= cs@.len(),
                datas(cs@) == s,
                str_views(out@) == filter_map(s.take(i as int), payload_hit()),
            decreases cs@.len() - i,
        {
            proof {
                assert(s[i as int] == cs@[i as int].data());
                lemma_filter_map_step(s, payload_hit(), i as int);
            }
            let c = cs[i];
            if c.kind() == NodeKind::FunctionSignatureSpecializationParamPayload {
                match c.text() {
                    Some(t) => {
                        let ghost before = out@;
                        out.push(t);
                        proof {
                            assert(str_views(out@) =~= str_views(before).push(t@));
                        }
                    },
                    None => {},
                }
            }
            i = i + 1;
        }
        proof {
            lemma_take_all(s);
        }
        out
    }

    /// Get the type arguments for this parameter transformation.
    pub fn types(&self) -> (v: Vec<TypeRef<'ctx>>)
        ensures
            type_datas(v@) == filter_map(self.spec_raw().data().children@, type_or_self_hit()),
    {
        let cs = self.raw.children();
        let ghost s = self.raw.data().children@;
        let mut out: Vec<TypeRef<'ctx>> = Vec::new();
        let mut i: usize = 0;
        proof {
            assert(type_datas(out@) =~= filter_map(s.take(0), type_or_self_hit()));
        }
        while i < cs.len()
            invariant
                i <= cs@.len(),
                datas(cs@) == s,
                type_datas(out@) == filter_map(s.take(i as int), type_or_self_hit()),
            decreases cs@.len() - i,
        {
            proof {
                assert(s[i as int] == cs@[i as int].data());
                lemma_filter_map_step(s, type_or_self_hit(), i as int);
            }
            let c = cs[i];
            if c.kind() == NodeKind::Type {
                let ghost before = out@;
                let t = TypeRef::new(c.first_child_or_self());
                out.push(t);
                proof {
                    assert(type_datas(out@) =~= type_datas(before).push(t.spec_raw().data()));
                }
            }
            i = i + 1;
        }
        proof {
            lemma_take_all(s);
        }
        out
    }

    /// The human-readable rendering of this parameter.
    pub fn to_string(&self) -> (r: String)
        ensures
            r@ == self.spec_raw().data().display@,
    {
        self.raw.to_string()
    }
}

} // verus!
