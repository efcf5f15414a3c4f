//! Function symbol representation.
//!
//! This module provides the `Function` struct for representing Swift function symbols.

use vstd::prelude::*;

use crate::context::{extract_context, text_or_empty, SymbolContext};
use crate::helpers::{
    spec_child_of_kind,
    extension_module_of, extension_signature_of, is_extension_of, spec_extension_module_of,
    spec_extension_signature_of,
    opt_strs, spec_containing_type_is, spec_extract_labels, spec_find_containing_type,
    spec_find_function_type, spec_find_generic_signature, spec_find_identifier_extended,
    spec_find_module, spec_has_type_context, HasExtensionContext, HasFunctionSignature,
    HasGenericSignature, HasModule,
};
use crate::raw::{opt_str, Node, NodeData, NodeKind};
use crate::types::{
    opt_type_data, param_views, spec_parameters, spec_return_type, FunctionParam,
    FunctionType, GenericSignature, ParamView, TypeRef,
};

verus! {

/// The text written for one argument label in a full name: `label:`, or `_:`
/// for an unlabeled argument.
pub open spec fn label_suffix(o: Option<Seq<char>>) -> Seq<char> {
    match o {
        Some(l) => l + ":"@,
        None => "_:"@,
    }
}

/// The label texts of a sequence of labels, concatenated in order.
pub open spec fn joined_labels(s: Seq<Option<Seq<char>>>) -> Seq<char>
    decreases s.len(),
{
    if s.len() == 0 {
        Seq::empty()
    } else {
        joined_labels(s.drop_last()) + label_suffix(s.last())
    }
}

/// The labels of a sequence of parameters.
pub open spec fn param_labels(s: Seq<ParamView>) -> Seq<Option<Seq<char>>> {
    s.map_values(|p: ParamView| p.0)
}

/// The labels shown in a full name: the symbol's label list when it has
/// labels, otherwise the labels of its signature's parameters.
pub open spec fn shown_labels(d: NodeData) -> Seq<Option<Seq<char>>> {
    let labels = spec_extract_labels(d);
    if labels.len() > 0 {
        labels
    } else {
        match spec_find_function_type(d) {
            Some(f) => param_labels(spec_parameters(f)),
            None => Seq::empty(),
        }
    }
}

/// The full name of a function node, such as `foo(bar:_:)`.
pub open spec fn spec_full_name(d: NodeData) -> Seq<char> {
    text_or_empty(spec_find_identifier_extended(d)) + "("@ + joined_labels(shown_labels(d)) + ")"@
}

/// The label texts of two sequences of labels, one after the other, are the
/// texts of each sequence, one after the other; a single label shows as
/// `label:`, or `_:` when it is missing.
pub proof fn lemma_joined_labels(a: Seq<Option<Seq<char>>>, b: Seq<Option<Seq<char>>>)
    ensures
        joined_labels(a + b) == joined_labels(a) + joined_labels(b),
        forall|o: Option<Seq<char>>| #[trigger] joined_labels(seq![o]) == label_suffix(o),
    decreases b.len(),
{
    assert forall|o: Option<Seq<char>>| #[trigger] joined_labels(seq![o]) == label_suffix(o) by {
        assert(seq![o].drop_last() =~= Seq::<Option<Seq<char>>>::empty());
        assert(joined_labels(Seq::<Option<Seq<char>>>::empty()) == Seq::<char>::empty());
        assert(Seq::<char>::empty() + label_suffix(o) =~= label_suffix(o));
    }
    if b.len() == 0 {
        assert(a + b =~= a);
        assert(joined_labels(a) + Seq::<char>::empty() =~= joined_labels(a));
    } else {
        lemma_joined_labels(a, b.drop_last());
        assert((a + b).drop_last() =~= a + b.drop_last());
        assert((a + b).last() == b.last());
        assert(joined_labels(a) + joined_labels(b.drop_last()) + label_suffix(b.last()) =~= joined_labels(
            a,
        ) + (joined_labels(b.drop_last()) + label_suffix(b.last())));
    }
}

/// A function's full name is its name (empty when it has none), then, in
/// brackets, one label text for each of its argument labels, or, when it has
/// none, for each parameter of its signature (nothing when it has no
/// signature).
pub proof fn lemma_full_name<'ctx>(f: Function<'ctx>)
    ensures
        spec_full_name(f.spec_raw().data()) == text_or_empty(
            spec_find_identifier_extended(f.spec_raw().data()),
        ) + "("@ + joined_labels(
            if spec_extract_labels(f.spec_raw().data()).len() > 0 {
                spec_extract_labels(f.spec_raw().data())
            } else {
                match f.spec_signature() {
                    Some(t) => param_labels(spec_parameters(t)),
                    None => Seq::empty(),
                }
            },
        ) + ")"@,
{
}

/// Append the label text of each label, in order.
pub fn append_labels(out: &mut String, labels: &Vec<Option<&str>>)
    ensures
        final(out)@ == old(out)@ + joined_labels(opt_strs(labels@)),
{
    let ghost start = out@;
    let ghost s = opt_strs(labels@);
    let mut i: usize = 0;
    while i < labels.len()
        invariant
            i <= labels@.len(),
            s == opt_strs(labels@),
            out@ == start + joined_labels(s.take(i as int)),
        decreases labels@.len() - i,
    {
        let ghost before = out@;
        match labels[i] {
            Some(l) => {
                out.append(l);
                out.append(":");
            },
            None => {
                out.append("_:");
            },
        }
        proof {
            assert(s.take(i + 1).drop_last() =~= s.take(i as int));
            assert(s.take(i + 1).last() == opt_str(labels@[i as int]));
            assert(out@ =~= before + label_suffix(opt_str(labels@[i as int])));
        }
        i = i + 1;
    }
    proof {
        assert(s.take(s.len() as int) =~= s);
    }
}

/// The labels of a sequence of parameters.
pub fn labels_of_params<'ctx>(params: &Vec<FunctionParam<'ctx>>) -> (r: Vec<Option<&'ctx str>>)
    ensures
        opt_strs(r@) == param_labels(param_views(params@)),
{
    let mut out: Vec<Option<&'ctx str>> = Vec::new();
    let mut i: usize = 0;
    while i < params.len()
        invariant
            i <= params@.len(),
            opt_strs(out@) =~= param_labels(param_views(params@)).take(i as int),
        decreases params@.len() - i,
    {
        out.push(params[i].label);
        i = i + 1;
    }
    out
}

/// A Swift function symbol.
#[derive(Clone, Copy)]
pub struct Function<'ctx> {
    raw: Node<'ctx>,
    is_static: bool,
}

impl<'ctx> Function<'ctx> {
    /// The node of this function.
    pub closed spec fn spec_raw(self) -> Node<'ctx> {
        self.raw
    }

    /// Whether this function was marked static.
    pub closed spec fn spec_is_static(self) -> bool {
        self.is_static
    }

    /// Create a Function from a raw node.
    pub fn new(raw: Node<'ctx>) -> (r: Self)
        ensures
            r.spec_raw() == raw,
            !r.spec_is_static(),
    {
        Self { raw, is_static: false }
    }

    /// Create a Function from a raw node, marking it as static.
    pub fn new_static(raw: Node<'ctx>) -> (r: Self)
        ensures
            r.spec_raw() == raw,
            r.spec_is_static(),
    {
        Self { raw, is_static: true }
    }

    /// Get the underlying raw node.
    pub fn raw(&self) -> (r: Node<'ctx>)
        ensures
            r == self.spec_raw(),
    {
        self.raw
    }

    /// Get the context (location) where this function is defined.
    pub fn context(&self) -> (c: SymbolContext<'ctx>)
        ensures
            c.spec_raw() == self.spec_raw(),
    {
        extract_context(self.raw)
    }

    /// Get the name of this function.
    pub fn name(&self) -> (r: Option<&'ctx str>)
        ensures
            opt_str(r) == spec_find_identifier_extended(self.spec_raw().data()),
    {
        self.raw.find_identifier_extended()
    }

    /// Get the argument labels for this function.
    ///
    /// Returns a vector where each element is `Some(label)` for labeled parameters
    /// and `None` for unlabeled parameters (using `_`).
    pub fn labels(&self) -> (r: Vec<Option<&'ctx str>>)
        ensures
            opt_strs(r@) == spec_extract_labels(self.spec_raw().data()),
    {
        self.raw.extract_labels()
    }

    /// Get the return type of this function.
    pub fn return_type(&self) -> (r: Option<TypeRef<'ctx>>)
        ensures
            opt_type_data(r) == match spec_find_function_type(self.spec_raw().data()) {
                Some(f) => spec_return_type(f),
                None => None,
            },
    {
        match self.signature() {
            Some(s) => s.return_type(),
            None => None,
        }
    }

    /// Check if this is a method (defined in a type context).
    pub fn is_method(&self) -> (b: bool)
        ensures
            b == spec_has_type_context(self.spec_raw().data()),
    {
        self.raw.has_type_context()
    }

    /// Check if this is a static/class method.
    pub fn is_static(&self) -> (b: bool)
        ensures
            b == self.spec_is_static(),
    {
        self.is_static
    }

    /// Get the containing type name if this is a method.
    pub fn containing_type(&self) -> (r: Option<&'ctx str>)
        ensures
            opt_str(r) == spec_find_containing_type(self.spec_raw().data()),
    {
        self.raw.find_containing_type()
    }

    /// Check if the containing type is a class (reference type).
    pub fn containing_type_is_class(&self) -> (b: bool)
        ensures
            b == spec_containing_type_is(self.spec_raw().data(), NodeKind::Class),
    {
        self.raw.containing_type_is_class()
    }

    /// Check if the containing type is a protocol.
    pub fn containing_type_is_protocol(&self) -> (b: bool)
        ensures
            b == spec_containing_type_is(self.spec_raw().data(), NodeKind::Protocol),
    {
        self.raw.containing_type_is_protocol()
    }

    /// Get the full name with labels (e.g., "foo(bar:baz:)").
    pub fn full_name(&self) -> (s: String)
        ensures
            s@ == spec_full_name(self.spec_raw().data()),
    {
        let mut out = String::new();
        match self.name() {
            Some(n) => out.append(n),
            None => {},
        }
        out.append("(");
        let labels = self.labels();
        if labels.len() > 0 {
            append_labels(&mut out, &labels);
        } else {
            match self.signature() {
                Some(sig) => {
                    let params = sig.parameters();
                    let pl = labels_of_params(&params);
                    append_labels(&mut out, &pl);
                },
                None => {
                    proof {
                        assert(joined_labels(Seq::<Option<Seq<char>>>::empty()) =~= Seq::<char>::empty());
                    }
                },
            }
        }
        out.append(")");
        proof {
            assert(out@ =~= spec_full_name(self.spec_raw().data()));
        }
        out
    }

    /// The human-readable rendering of this function.
    pub fn to_string(&self) -> (r: String)
        ensures
            r@ == self.spec_raw().data().display@,
    {
        self.raw.to_string()
    }
}

impl<'ctx> HasGenericSignature<'ctx> for Function<'ctx> {
    open spec fn spec_generic_signature(&self) -> Option<NodeData> {
        spec_find_generic_signature(self.spec_raw().data())
    }

    fn generic_signature(&self) -> (r: Option<GenericSignature<'ctx>>) {
        self.raw.find_generic_signature()
    }
}

impl<'ctx> HasFunctionSignature<'ctx> for Function<'ctx> {
    open spec fn spec_signature(&self) -> Option<NodeData> {
        spec_find_function_type(self.spec_raw().data())
    }

    fn signature(&self) -> (r: Option<FunctionType<'ctx>>) {
        self.raw.find_function_type()
    }
}

impl<'ctx> HasExtensionContext<'ctx> for Function<'ctx> {
    open spec fn spec_node(&self) -> NodeData {
        self.spec_raw().data()
    }

    open spec fn spec_is_extension(&self) -> bool {
        spec_child_of_kind(self.spec_raw().data(), NodeKind::Extension) is Some
    }

    open spec fn spec_extension_module(&self) -> Option<Seq<char>> {
        spec_extension_module_of(self.spec_raw().data())
    }

    open spec fn spec_extension_generic_signature(&self) -> Option<NodeData> {
        spec_extension_signature_of(self.spec_raw().data())
    }

    fn raw(&self) -> (r: Node<'ctx>) {
        self.raw
    }

    fn is_extension(&self) -> (b: bool) {
        is_extension_of(self.raw)
    }

    fn extension_module(&self) -> (r: Option<&'ctx str>) {
        extension_module_of(self.raw)
    }

    fn extension_generic_signature(&self) -> (r: Option<GenericSignature<'ctx>>) {
        extension_signature_of(self.raw)
    }
}

impl<'ctx> HasModule<'ctx> for Function<'ctx> {
    open spec fn spec_module(&self) -> Option<Seq<char>> {
        spec_find_module(self.spec_raw().data())
    }

    fn module(&self) -> (r: Option<&'ctx str>) {
        self.raw.find_module()
    }
}

} // verus!
