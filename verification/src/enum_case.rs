//! Enum case symbol representation.
//!
//! This module provides types for representing Swift enum case constructors.

use vstd::prelude::*;

use crate::helpers::{
    spec_child_of_kind, spec_descendant_of_kind, spec_find_function_type,
    spec_find_generic_signature, spec_find_identifier, HasGenericSignature,
};
use crate::raw::{datas, opt_str, Node, NodeData, NodeKind};
use crate::search::{
    filter_map, first_hit, flatten, lemma_filter_map_step, lemma_first_hit_at,
    lemma_first_hit_none, lemma_take_all,
};
use crate::types::{
    is_metatype_type, opt_type_data, param_views, spec_is_metatype_type,
    spec_parameters, type_datas, FunctionType, GenericSignature, ParamView, TypeRef,
};

verus! {

/// The `Function` child of an enum case node.
pub open spec fn case_function(d: NodeData) -> Option<NodeData> {
    spec_child_of_kind(d, NodeKind::Function)
}

/// The identifier of an `Enum` node.
pub open spec fn enum_identifier_hit() -> spec_fn(NodeData) -> Option<Option<Seq<char>>> {
    |c: NodeData|
        if c.kind == NodeKind::Enum {
            match spec_child_of_kind(c, NodeKind::Identifier) {
                Some(i) => Some(i.spec_text()),
                None => None,
            }
        } else {
            None
        }
}

/// The module inside an `Enum` node.
pub open spec fn enum_module_hit() -> spec_fn(NodeData) -> Option<Option<Seq<char>>> {
    |c: NodeData|
        if c.kind == NodeKind::Enum {
            match spec_descendant_of_kind(c, NodeKind::Module) {
                Some(m) => Some(m.spec_text()),
                None => None,
            }
        } else {
            None
        }
}

/// The signature of an enum case node.
pub open spec fn case_signature(d: NodeData) -> Option<NodeData> {
    match case_function(d) {
        Some(f) => spec_find_function_type(f),
        None => None,
    }
}

/// Whether an enum case node has associated values: its constructor takes
/// more than one parameter, or one that is not a metatype.
pub open spec fn spec_has_associated_values(d: NodeData) -> bool {
    match case_signature(d) {
        Some(t) => {
            let ps = spec_parameters(t);
            ps.len() > 1 || (ps.len() == 1 && !spec_is_metatype_type(ps[0].1))
        },
        None => false,
    }
}

/// The type of a parameter that is not a metatype.
pub open spec fn non_metatype_hit() -> spec_fn(ParamView) -> Option<NodeData> {
    |p: ParamView| if spec_is_metatype_type(p.1) { None } else { Some(p.1) }
}

/// The associated value types of an enum case node.
pub open spec fn spec_associated_values(d: NodeData) -> Seq<NodeData> {
    match case_signature(d) {
        Some(t) => filter_map(spec_parameters(t), non_metatype_hit()),
        None => Seq::empty(),
    }
}

/// A Swift enum case constructor symbol.
#[derive(Clone, Copy)]
pub struct EnumCase<'ctx> {
    raw: Node<'ctx>,
}

impl<'ctx> EnumCase<'ctx> {
    /// The node of this enum case.
    pub closed spec fn spec_raw(self) -> Node<'ctx> {
        self.raw
    }

    /// Create an EnumCase from a raw node.
    pub fn new(raw: Node<'ctx>) -> (r: Self)
        ensures
            r.spec_raw() == raw,
    {
        Self { raw }
    }

    /// Get the underlying raw node.
    pub fn raw(&self) -> (r: Node<'ctx>)
        ensures
            r == self.spec_raw(),
    {
        self.raw
    }

    /// Get the name of the enum case.
    pub fn case_name(&self) -> (r: Option<&'ctx str>)
        ensures
            opt_str(r) == match case_function(self.spec_raw().data()) {
                Some(f) => spec_find_identifier(f),
                None => None,
            },
    {
        match self.function_node() {
            Some(n) => n.find_identifier(),
            None => None,
        }
    }

    /// Get the containing enum type name.
    pub fn containing_type(&self) -> (r: Option<&'ctx str>)
        ensures
            opt_str(r) == match case_function(self.spec_raw().data()) {
                Some(f) => flatten(first_hit(f.children@, enum_identifier_hit())),
                None => None,
            },
    {
        if let Some(func) = self.function_node() {
            let cs = func.children();
            let ghost s = func.data().children@;
            let mut i: usize = 0;
            while i < cs.len()
                invariant
                    i <= cs@.len(),
                    datas(cs@) == s,
                    forall|j: int| 0 <= j < i ==> (#[trigger] (enum_identifier_hit())(s[j])) is None,
                decreases cs@.len() - i,
            {
                proof { assert(s[i as int] == cs@[i as int].data()); }
                let c = cs[i];
                if c.kind() == NodeKind::Enum {
                    if let Some(id) = c.child_of_kind(NodeKind::Identifier) {
                        proof {
                            lemma_first_hit_at(s, enum_identifier_hit(), i as int);
                        }
                        return id.text();
                    }
                }
                i = i + 1;
            }
            proof {
                lemma_first_hit_none(s, enum_identifier_hit());
            }
        }
        None
    }

    /// Get the full containing type as a TypeRef.
    pub fn containing_type_ref(&self) -> (r: Option<TypeRef<'ctx>>)
        ensures
            opt_type_data(r) == match case_function(self.spec_raw().data()) {
                Some(f) => spec_child_of_kind(f, NodeKind::Enum),
                None => None,
            },
    {
        match self.function_node() {
            Some(func) => match func.child_of_kind(NodeKind::Enum) {
                Some(e) => Some(TypeRef::new(e)),
                None => None,
            },
            None => None,
        }
    }

    /// Get the module containing this enum case.
    pub fn module(&self) -> (r: Option<&'ctx str>)
        ensures
            opt_str(r) == match case_function(self.spec_raw().data()) {
                Some(f) => flatten(first_hit(f.children@, enum_module_hit())),
                None => None,
            },
    {
        if let Some(func) = self.function_node() {
            let cs = func.children();
            let ghost s = func.data().children@;
            let mut i: usize = 0;
            while i < cs.len()
                invariant
                    i <= cs@.len(),
                    datas(cs@) == s,
                    forall|j: int| 0 <= j < i ==> (#[trigger] (enum_module_hit())(s[j])) is None,
                decreases cs@.len() - i,
            {
                proof { assert(s[i as int] == cs@[i as int].data()); }
                let c = cs[i];
                if c.kind() == NodeKind::Enum {
                    if let Some(m) = c.descendant_of_kind(NodeKind::Module) {
                        proof {
                            lemma_first_hit_at(s, enum_module_hit(), i as int);
                        }
                        return m.text();
                    }
                }
                i = i + 1;
            }
            proof {
                lemma_first_hit_none(s, enum_module_hit());
            }
        }
        None
    }

    /// Get the signature of the enum case constructor.
    ///
    /// For cases with associated values, this includes the parameter types.
    pub fn signature(&self) -> (r: Option<FunctionType<'ctx>>)
        ensures
            match r {
                Some(f) => case_signature(self.spec_raw().data()) == Some(f.spec_raw().data()),
                None => case_signature(self.spec_raw().data()) is None,
            },
    {
        match self.function_node() {
            Some(n) => n.find_function_type(),
            None => None,
        }
    }

    /// Check if this enum case has associated values.
    ///
    /// Cases without associated values take just a metatype parameter.
    pub fn has_associated_values(&self) -> (b: bool)
        ensures
            b == spec_has_associated_values(self.spec_raw().data()),
    {
        if let Some(sig) = self.signature() {
            let params = sig.parameters();
            proof {
                assert(param_views(params@).len() == params@.len());
            }
            if params.len() > 1 {
                return true;
            }
            if params.len() == 1 {
                proof {
                    assert(param_views(params@)[0].1 == params@[0].type_ref.spec_raw().data());
                }
                return !is_metatype_type(&params[0].type_ref);
            }
        }
        false
    }

    /// Get the associated value types, leaving out the metatype parameter.
    pub fn associated_values(&self) -> (v: Vec<TypeRef<'ctx>>)
        ensures
            type_datas(v@) == spec_associated_values(self.spec_raw().data()),
    {
        let mut out: Vec<TypeRef<'ctx>> = Vec::new();
        if let Some(sig) = self.signature() {
            let params = sig.parameters();
            let ghost s = param_views(params@);
            let mut i: usize = 0;
            while i < params.len()
                invariant
                    i <= params@.len(),
                    s == param_views(params@),
                    type_datas(out@) == filter_map(s.take(i as int), non_metatype_hit()),
                decreases params@.len() - i,
            {
                proof {
                    lemma_filter_map_step(s, non_metatype_hit(), i as int);
                    assert(s[i as int].1 == params@[i as int].type_ref.spec_raw().data());
                }
                let t = params[i].type_ref;
                if !is_metatype_type(&t) {
                    let ghost before = out@;
                    out.push(t);
                    proof {
                        assert(type_datas(out@) =~= type_datas(before).push(t.spec_raw().data()));
                    }
                }
                i = i + 1;
            }
            proof {
                lemma_take_all(s);
            }
        } else {
            proof {
                assert(type_datas(out@) =~= Seq::<NodeData>::empty());
            }
        }
        out
    }

    fn function_node(&self) -> (r: Option<Node<'ctx>>)
        ensures
            match r {
                Some(n) => case_function(self.spec_raw().data()) == Some(n.data()),
                None => case_function(self.spec_raw().data()) is None,
            },
    {
        self.raw.child_of_kind(NodeKind::Function)
    }

    /// The human-readable rendering of this enum case.
    pub fn to_string(&self) -> (r: String)
        ensures
            r@ == self.spec_raw().data().display@,
    {
        self.raw.to_string()
    }
}

impl<'ctx> HasGenericSignature<'ctx> for EnumCase<'ctx> {
    open spec fn spec_generic_signature(&self) -> Option<NodeData> {
        match case_function(self.spec_raw().data()) {
            Some(f) => spec_find_generic_signature(f),
            None => None,
        }
    }

    fn generic_signature(&self) -> (r: Option<GenericSignature<'ctx>>) {
        match self.function_node() {
            Some(n) => n.find_generic_signature(),
            None => None,
        }
    }
}

} // verus!
