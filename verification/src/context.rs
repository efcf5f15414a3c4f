//! Symbol context representation.
//!
//! This module provides types for representing the context (location) of a Swift symbol,
//! such as the module, type, and extension path.

use vstd::prelude::*;

use crate::helpers::{first_child, spec_child_of_kind};
use crate::raw::{datas, height, lemma_child_height, opt_str, Node, NodeData, NodeKind};
use crate::search::{first_hit, flatten, lemma_first_hit_at, lemma_first_hit_none, lemma_take_all};

verus! {

/// Kinds through which the module of a context is searched.
pub open spec fn is_context_holder_kind(k: NodeKind) -> bool {
    matches!(
        k,
        NodeKind::Class | NodeKind::Structure | NodeKind::Enum | NodeKind::Protocol
            | NodeKind::Extension | NodeKind::TypeAlias | NodeKind::OtherNominalType
    )
}

/// The module of a context node: its first `Module` child, or else the first
/// module found (recursively) in its context-holding children.
pub open spec fn context_module(d: NodeData) -> Option<Seq<char>>
    decreases d,
{
    match spec_child_of_kind(d, NodeKind::Module) {
        Some(m) => m.spec_text(),
        None => context_module_list(d.children@),
    }
}

/// The first module found in a sequence of context-holding nodes.
pub open spec fn context_module_list(s: Seq<NodeData>) -> Option<Seq<char>>
    decreases s,
{
    if s.len() == 0 {
        None
    } else if is_context_holder_kind(s[0].kind) {
        match context_module(s[0]) {
            Some(m) => Some(m),
            None => context_module_list(s.drop_first()),
        }
    } else {
        context_module_list(s.drop_first())
    }
}

/// The identifier of a node, or its own text.
pub open spec fn identifier_or_text(n: NodeData) -> Option<Seq<char>> {
    match spec_child_of_kind(n, NodeKind::Identifier) {
        Some(i) => i.spec_text(),
        None => n.spec_text(),
    }
}

/// Kinds that name the type of a context directly.
pub open spec fn is_named_context_kind(k: NodeKind) -> bool {
    matches!(
        k,
        NodeKind::Class | NodeKind::Structure | NodeKind::Enum | NodeKind::Protocol
            | NodeKind::TypeAlias | NodeKind::OtherNominalType
    )
}

/// The type name decided by the first deciding child of a context.
pub open spec fn type_name_list_in(s: Seq<NodeData>) -> Option<Option<Seq<char>>>
    decreases s,
{
    if s.len() == 0 {
        None
    } else {
        let c = s[0];
        if is_named_context_kind(c.kind) {
            Some(identifier_or_text(c))
        } else if c.kind == NodeKind::Extension && c.children@.len() > 0 {
            Some(
                match spec_type_name_in(c.children@[0]) {
                    Some(n) => Some(n),
                    None => identifier_or_text(c.children@[0]),
                },
            )
        } else {
            type_name_list_in(s.drop_first())
        }
    }
}

/// The type name of a context node.
pub open spec fn spec_type_name_in(d: NodeData) -> Option<Seq<char>>
    decreases d,
{
    flatten(type_name_list_in(d.children@))
}

/// The view of a context component: tag, name, node, and for an extension the
/// tag and node of the extended type.
pub type ComponentView = (int, Seq<char>, Option<NodeData>, int, Option<NodeData>);

/// The tag of the component a node converts to.
pub open spec fn component_tag(k: NodeKind) -> int {
    if k == NodeKind::Module {
        0
    } else if k == NodeKind::Class {
        1
    } else if k == NodeKind::Structure {
        2
    } else if k == NodeKind::Enum {
        3
    } else if k == NodeKind::Protocol {
        4
    } else if k == NodeKind::TypeAlias {
        6
    } else {
        7
    }
}

/// A text, or the empty sequence.
pub open spec fn text_or_empty(o: Option<Seq<char>>) -> Seq<char> {
    match o {
        Some(t) => t,
        None => Seq::empty(),
    }
}

/// The name of the component an extended type converts to.
pub open spec fn base_name(t: NodeData) -> Seq<char> {
    let tag = component_tag(t.kind);
    if tag == 0 {
        text_or_empty(t.spec_text())
    } else if tag == 7 {
        Seq::empty()
    } else {
        text_or_empty(identifier_or_text(t))
    }
}

/// The node of the component an extended type converts to.
pub open spec fn base_raw(t: NodeData) -> Option<NodeData> {
    if t.kind == NodeKind::Module {
        None
    } else {
        Some(t)
    }
}

/// Selects module children that carry text.
pub open spec fn module_with_text_hit() -> spec_fn(NodeData) -> Option<Seq<char>> {
    |c: NodeData|
        if c.kind == NodeKind::Module && c.spec_text() is Some {
            c.spec_text()
        } else {
            None
        }
}

/// The module component contributed by a type node.
pub open spec fn module_entry(c: NodeData) -> Seq<ComponentView> {
    match first_hit(c.children@, module_with_text_hit()) {
        Some(n) => seq![(0, n, None, 0, None)],
        None => Seq::empty(),
    }
}

/// The components contributed by one child of a context.
pub open spec fn component_entries(c: NodeData) -> Seq<ComponentView> {
    let k = c.kind;
    if k == NodeKind::Module {
        match c.spec_text() {
            Some(n) => seq![(0, n, None, 0, None)],
            None => Seq::empty(),
        }
    } else if k == NodeKind::Class || k == NodeKind::Structure || k == NodeKind::Enum || k
        == NodeKind::Protocol || k == NodeKind::TypeAlias {
        module_entry(c) + match identifier_or_text(c) {
            Some(n) => seq![(component_tag(k), n, Some(c), 0, None)],
            None => Seq::empty(),
        }
    } else if k == NodeKind::Extension {
        match first_child(c) {
            Some(t) => seq![(5, base_name(t), Some(c), component_tag(t.kind), base_raw(t))],
            None => Seq::empty(),
        }
    } else {
        Seq::empty()
    }
}

/// The extended type of an extension component.
pub open spec fn extension_base<'ctx>(x: ContextComponent<'ctx>) -> Option<ContextComponent<'ctx>> {
    match x {
        ContextComponent::Extension { base, .. } => Some(*base),
        _ => None,
    }
}

/// The last component contributed by a child of a context is of the child's
/// own kind: a module child gives a module, a named class a class, a named
/// structure a struct, a named enum an enum, a named protocol a protocol, a
/// named type alias a type alias and an extension an extension, whose base is
/// of the extended type's kind; a nameless nominal type gives only its module.
pub proof fn lemma_component_kinds<'ctx>(c: NodeData, x: ContextComponent<'ctx>)
    requires
        component_entries(c).len() > 0,
        component_view(x) == component_entries(c).last(),
    ensures
        c.kind == NodeKind::Module ==> x is Module,
        c.kind == NodeKind::Class && identifier_or_text(c) is Some ==> x is Class,
        c.kind == NodeKind::Structure && identifier_or_text(c) is Some ==> x is Struct,
        c.kind == NodeKind::Enum && identifier_or_text(c) is Some ==> x is Enum,
        c.kind == NodeKind::Protocol && identifier_or_text(c) is Some ==> x is Protocol,
        c.kind == NodeKind::TypeAlias && identifier_or_text(c) is Some ==> x is TypeAlias,
        c.kind == NodeKind::Extension ==> x is Extension,
        (c.kind == NodeKind::Class || c.kind == NodeKind::Structure || c.kind == NodeKind::Enum
            || c.kind == NodeKind::Protocol || c.kind == NodeKind::TypeAlias) && identifier_or_text(c)
            is None ==> x is Module,
        c.kind == NodeKind::Extension && first_child(c) is Some && first_child(c).unwrap().kind == NodeKind::Module ==> extension_base(x) is Some
            && extension_base(x).unwrap() is Module,
        c.kind == NodeKind::Extension && first_child(c) is Some && first_child(c).unwrap().kind == NodeKind::Class ==> extension_base(x) is Some
            && extension_base(x).unwrap() is Class,
        c.kind == NodeKind::Extension && first_child(c) is Some && first_child(c).unwrap().kind == NodeKind::Structure ==> extension_base(x) is Some
            && extension_base(x).unwrap() is Struct,
        c.kind == NodeKind::Extension && first_child(c) is Some && first_child(c).unwrap().kind == NodeKind::Enum ==> extension_base(x) is Some
            && extension_base(x).unwrap() is Enum,
        c.kind == NodeKind::Extension && first_child(c) is Some && first_child(c).unwrap().kind == NodeKind::Protocol ==> extension_base(x) is Some
            && extension_base(x).unwrap() is Protocol,
        c.kind == NodeKind::Extension && first_child(c) is Some && first_child(c).unwrap().kind == NodeKind::TypeAlias ==> extension_base(x) is Some
            && extension_base(x).unwrap() is TypeAlias,
{
    let k = c.kind;
    if k == NodeKind::Class || k == NodeKind::Structure || k == NodeKind::Enum || k
        == NodeKind::Protocol || k == NodeKind::TypeAlias {
        if let Some(n) = identifier_or_text(c) {
            assert(component_entries(c).last() == (component_tag(k), n, Some(c), 0int, Option::<NodeData>::None));
        } else {
            assert(component_entries(c) == module_entry(c) + Seq::<ComponentView>::empty());
            assert(component_entries(c) =~= module_entry(c));
        }
    }
}

/// A child that is neither a module, a nominal type nor an extension
/// contributes no component to a context.
pub proof fn lemma_component_sources(c: NodeData)
    requires
        !(c.kind == NodeKind::Module || c.kind == NodeKind::Class || c.kind == NodeKind::Structure
            || c.kind == NodeKind::Enum || c.kind == NodeKind::Protocol || c.kind
            == NodeKind::TypeAlias || c.kind == NodeKind::Extension),
    ensures
        component_entries(c).len() == 0,
{
}

/// The components contributed by a sequence of children, in order.
pub open spec fn components_of(s: Seq<NodeData>) -> Seq<ComponentView>
    decreases s.len(),
{
    if s.len() == 0 {
        Seq::empty()
    } else {
        components_of(s.drop_last()) + component_entries(s.last())
    }
}

/// The names of component views.
pub open spec fn component_names(s: Seq<ComponentView>) -> Seq<Seq<char>> {
    s.map_values(|c: ComponentView| c.1)
}

/// Names joined with dots.
pub open spec fn join_dotted(s: Seq<Seq<char>>) -> Seq<char>
    decreases s.len(),
{
    if s.len() == 0 {
        Seq::empty()
    } else if s.len() == 1 {
        s[0]
    } else {
        join_dotted(s.drop_last()) + "."@ + s.last()
    }
}

/// The view of a context component.
pub open spec fn component_view<'ctx>(c: ContextComponent<'ctx>) -> ComponentView {
    match c {
        ContextComponent::Module(n) => (0, n@, None, 0, None),
        ContextComponent::Class { name, raw } => (1, name@, Some(raw.data()), 0, None),
        ContextComponent::Struct { name, raw } => (2, name@, Some(raw.data()), 0, None),
        ContextComponent::Enum { name, raw } => (3, name@, Some(raw.data()), 0, None),
        ContextComponent::Protocol { name, raw } => (4, name@, Some(raw.data()), 0, None),
        ContextComponent::Extension { base, raw } => (
            5,
            base_view_name(*base),
            Some(raw.data()),
            base_view_tag(*base),
            base_view_raw(*base),
        ),
        ContextComponent::TypeAlias { name, raw } => (6, name@, Some(raw.data()), 0, None),
        ContextComponent::Other(raw) => (7, Seq::empty(), Some(raw.data()), 0, None),
    }
}

/// The name of a component that is not an extension.
pub open spec fn base_view_name<'ctx>(c: ContextComponent<'ctx>) -> Seq<char> {
    match c {
        ContextComponent::Module(n) => n@,
        ContextComponent::Class { name, .. } => name@,
        ContextComponent::Struct { name, .. } => name@,
        ContextComponent::Enum { name, .. } => name@,
        ContextComponent::Protocol { name, .. } => name@,
        ContextComponent::TypeAlias { name, .. } => name@,
        _ => Seq::empty(),
    }
}

/// The tag of a component that is not an extension.
pub open spec fn base_view_tag<'ctx>(c: ContextComponent<'ctx>) -> int {
    match c {
        ContextComponent::Module(_) => 0,
        ContextComponent::Class { .. } => 1,
        ContextComponent::Struct { .. } => 2,
        ContextComponent::Enum { .. } => 3,
        ContextComponent::Protocol { .. } => 4,
        ContextComponent::Extension { .. } => 5,
        ContextComponent::TypeAlias { .. } => 6,
        ContextComponent::Other(_) => 7,
    }
}

/// The node of a component that is not an extension.
pub open spec fn base_view_raw<'ctx>(c: ContextComponent<'ctx>) -> Option<NodeData> {
    match c {
        ContextComponent::Module(_) => None,
        ContextComponent::Class { raw, .. } => Some(raw.data()),
        ContextComponent::Struct { raw, .. } => Some(raw.data()),
        ContextComponent::Enum { raw, .. } => Some(raw.data()),
        ContextComponent::Protocol { raw, .. } => Some(raw.data()),
        ContextComponent::Extension { raw, .. } => Some(raw.data()),
        ContextComponent::TypeAlias { raw, .. } => Some(raw.data()),
        ContextComponent::Other(raw) => Some(raw.data()),
    }
}

/// The views of a sequence of components.
pub open spec fn component_views<'ctx>(s: Seq<ContextComponent<'ctx>>) -> Seq<ComponentView> {
    s.map_values(|c: ContextComponent<'ctx>| component_view(c))
}

/// The context (location) of a Swift symbol.
///
/// A context represents where a symbol is defined, including module, type, and extension information.
#[derive(Clone, Copy)]
pub struct SymbolContext<'ctx> {
    raw: Node<'ctx>,
}

impl<'ctx> SymbolContext<'ctx> {
    /// The node of this context.
    pub closed spec fn spec_raw(self) -> Node<'ctx> {
        self.raw
    }

    /// Create a SymbolContext from a raw node.
    pub fn new(raw: Node<'ctx>) -> (r: Self)
        ensures
            r.spec_raw() == raw,
    {
        Self { raw }
    }

    /// Get the underlying raw node.
    pub fn raw(&self) -> (r: Node<'ctx>)
        ensures
            r == self.spec_raw(),
    {
        self.raw
    }

    /// Get the module name if this context is in a module.
    pub fn module(&self) -> (r: Option<&'ctx str>)
        ensures
            opt_str(r) == context_module(self.spec_raw().data()),
    {
        Self::find_module_in_context(self.raw)
    }

    fn find_module_in_context(node: Node<'ctx>) -> (r: Option<&'ctx str>)
        ensures
            opt_str(r) == context_module(node.data()),
        decreases height(node.data()),
    {
        if let Some(m) = node.child_of_kind(NodeKind::Module) {
            return m.text();
        }
        let cs = node.children();
        let ghost s = node.data().children@;
        let mut i: usize = 0;
        proof {
            assert(s.skip(0) =~= s);
        }
        while i < cs.len()
            invariant
                i <= cs@.len(),
                datas(cs@) == s,
                context_module_list(s) == context_module_list(s.skip(i as int)),
            decreases cs@.len() - i,
        {
            proof {
                assert(s[i as int] == cs@[i as int].data());
                assert(s.skip(i as int)[0] == s[i as int]);
                assert(s.skip(i as int).drop_first() =~= s.skip(i + 1));
                lemma_child_height(node.data(), i as int);
            }
            let c = cs[i];
            if matches!(
                c.kind(),
                NodeKind::Class | NodeKind::Structure | NodeKind::Enum | NodeKind::Protocol
                    | NodeKind::Extension | NodeKind::TypeAlias | NodeKind::OtherNominalType
            ) {
                if let Some(m) = Self::find_module_in_context(c) {
                    return Some(m);
                }
            }
            i = i + 1;
        }
        None
    }

    /// Get the type name if this context is within a type.
    pub fn context_type_name(&self) -> (r: Option<&'ctx str>)
        ensures
            opt_str(r) == spec_type_name_in(self.spec_raw().data()),
    {
        Self::find_type_name_in_context(self.raw)
    }

    fn find_type_name_in_context(node: Node<'ctx>) -> (r: Option<&'ctx str>)
        ensures
            opt_str(r) == spec_type_name_in(node.data()),
        decreases height(node.data()),
    {
        let cs = node.children();
        let ghost s = node.data().children@;
        let mut i: usize = 0;
        proof {
            assert(s.skip(0) =~= s);
        }
        while i < cs.len()
            invariant
                i <= cs@.len(),
                datas(cs@) == s,
                type_name_list_in(s) == type_name_list_in(s.skip(i as int)),
            decreases cs@.len() - i,
        {
            proof {
                assert(s[i as int] == cs@[i as int].data());
                assert(s.skip(i as int)[0] == s[i as int]);
                assert(s.skip(i as int).drop_first() =~= s.skip(i + 1));
                lemma_child_height(node.data(), i as int);
            }
            let c = cs[i];
            let k = c.kind();
            if matches!(
                k,
                NodeKind::Class | NodeKind::Structure | NodeKind::Enum | NodeKind::Protocol
                    | NodeKind::TypeAlias | NodeKind::OtherNominalType
            ) {
                return Self::extract_identifier(c);
            }
            if k == NodeKind::Extension {
                if let Some(inner) = c.child(0) {
                    proof {
                        lemma_child_height(c.data(), 0);
                    }
                    return match Self::find_type_name_in_context(inner) {
                        Some(n) => Some(n),
                        None => Self::extract_identifier(inner),
                    };
                }
            }
            i = i + 1;
        }
        None
    }

    fn extract_identifier(node: Node<'ctx>) -> (r: Option<&'ctx str>)
        ensures
            opt_str(r) == identifier_or_text(node.data()),
    {
        match node.child_of_kind(NodeKind::Identifier) {
            Some(i) => i.text(),
            None => node.text(),
        }
    }

    /// Get the full path as a string (e.g., "ModuleName.TypeName").
    pub fn full_path(&self) -> (s: String)
        ensures
            s@ == join_dotted(component_names(components_of(self.spec_raw().data().children@))),
    {
        let components = self.components();
        let ghost names = component_names(component_views(components@));
        let mut out = String::new();
        let mut i: usize = 0;
        while i < components.len()
            invariant
                i <= components@.len(),
                names == component_names(component_views(components@)),
                out@ == join_dotted(names.take(i as int)),
            decreases components@.len() - i,
        {
            let name = components[i].name();
            proof {
                assert(names.take(i + 1).drop_last() =~= names.take(i as int));
                assert(names.take(i + 1).last() == name@);
            }
            if i > 0 {
                out.append(".");
            } else {
                proof {
                    assert(names.take(1).len() == 1);
                    assert(out@ =~= Seq::<char>::empty());
                }
            }
            out.append(name);
            proof {
                if i == 0 {
                    assert(out@ =~= names.take(1)[0]);
                }
            }
            i = i + 1;
        }
        proof {
            lemma_take_all(names);
            assert(component_views(components@) == components_of(self.spec_raw().data().children@));
        }
        out
    }

    /// The human-readable rendering of this context: its full path.
    pub fn to_string(&self) -> (s: String)
        ensures
            s@ == join_dotted(component_names(components_of(self.spec_raw().data().children@))),
    {
        self.full_path()
    }

    /// Check if this context is an extension.
    pub fn is_extension(&self) -> (b: bool)
        ensures
            b == (self.spec_raw().data().kind == NodeKind::Extension || spec_child_of_kind(
                self.spec_raw().data(),
                NodeKind::Extension,
            ) is Some),
    {
        self.raw.kind() == NodeKind::Extension || self.raw.child_of_kind(NodeKind::Extension).is_some()
    }

    /// The context components from outermost (module) to innermost.
    pub fn components(&self) -> (v: Vec<ContextComponent<'ctx>>)
        ensures
            component_views(v@) == components_of(self.spec_raw().data().children@),
    {
        let mut components: Vec<ContextComponent<'ctx>> = Vec::new();
        let cs = self.raw.children();
        let ghost s = self.raw.data().children@;
        let mut i: usize = 0;
        while i < cs.len()
            invariant
                i <= cs@.len(),
                datas(cs@) == s,
                component_views(components@) == components_of(s.take(i as int)),
            decreases cs@.len() - i,
        {
            proof {
                assert(s[i as int] == cs@[i as int].data());
                assert(s.take(i + 1).drop_last() =~= s.take(i as int));
                assert(s.take(i + 1).last() == s[i as int]);
            }
            Self::collect_components(cs[i], &mut components);
            i = i + 1;
        }
        proof {
            lemma_take_all(s);
        }
        components
    }

    fn push_component(components: &mut Vec<ContextComponent<'ctx>>, c: ContextComponent<'ctx>)
        ensures
            component_views(final(components)@) == component_views(old(components)@).push(component_view(c)),
    {
        components.push(c);
        proof {
            assert(component_views(components@) =~= component_views(old(components)@).push(component_view(c)));
        }
    }

    fn collect_components(child: Node<'ctx>, components: &mut Vec<ContextComponent<'ctx>>)
        ensures
            component_views(final(components)@) == component_views(old(components)@) + component_entries(child.data()),
    {
        let k = child.kind();
        let ghost before = component_views(components@);
        if k == NodeKind::Module {
            if let Some(name) = child.text() {
                Self::push_component(components, ContextComponent::Module(name));
            }
        } else if k == NodeKind::Class || k == NodeKind::Structure || k == NodeKind::Enum || k
            == NodeKind::Protocol || k == NodeKind::TypeAlias {
            Self::collect_module_from_type(child, components);
            let ghost mid = component_views(components@);
            if let Some(name) = Self::extract_identifier(child) {
                let c = if k == NodeKind::Class {
                    ContextComponent::Class { name, raw: child }
                } else if k == NodeKind::Structure {
                    ContextComponent::Struct { name, raw: child }
                } else if k == NodeKind::Enum {
                    ContextComponent::Enum { name, raw: child }
                } else if k == NodeKind::Protocol {
                    ContextComponent::Protocol { name, raw: child }
                } else {
                    ContextComponent::TypeAlias { name, raw: child }
                };
                Self::push_component(components, c);
            }
        } else if k == NodeKind::Extension {
            if let Some(extended_type) = child.child(0) {
                let base = Self::context_component_from_type(extended_type);
                Self::push_component(
                    components,
                    ContextComponent::Extension { base: Box::new(base), raw: child },
                );
            }
        }
        proof {
            assert(component_views(components@) =~= before + component_entries(child.data()));
        }
    }

    fn collect_module_from_type(type_node: Node<'ctx>, components: &mut Vec<ContextComponent<'ctx>>)
        ensures
            component_views(final(components)@) == component_views(old(components)@) + module_entry(type_node.data()),
    {
        let cs = type_node.children();
        let ghost s = type_node.data().children@;
        let mut i: usize = 0;
        while i < cs.len()
            invariant
                i <= cs@.len(),
                datas(cs@) == s,
                components@ == old(components)@,
                forall|j: int| 0 <= j < i ==> (#[trigger] (module_with_text_hit())(s[j])) is None,
            decreases cs@.len() - i,
        {
            proof {
                assert(s[i as int] == cs@[i as int].data());
            }
            let c = cs[i];
            if c.kind() == NodeKind::Module {
                if let Some(name) = c.text() {
                    proof {
                        lemma_first_hit_at(s, module_with_text_hit(), i as int);
                    }
                    Self::push_component(components, ContextComponent::Module(name));
                    proof {
                        assert(component_views(components@) =~= component_views(old(components)@) + module_entry(type_node.data()));
                    }
                    return;
                }
            }
            i = i + 1;
        }
        proof {
            lemma_first_hit_none(s, module_with_text_hit());
            assert(component_views(components@) =~= component_views(old(components)@) + module_entry(type_node.data()));
        }
    }

    fn context_component_from_type(node: Node<'ctx>) -> (c: ContextComponent<'ctx>)
        ensures
            base_view_tag(c) == component_tag(node.data().kind),
            base_view_name(c) == base_name(node.data()),
            base_view_raw(c) == base_raw(node.data()),
    {
        let k = node.kind();
        proof {
            reveal_strlit("");
            assert(""@ =~= Seq::<char>::empty());
        }
        if k == NodeKind::Module {
            let name: &'ctx str = match node.text() {
                Some(t) => t,
                None => "",
            };
            return ContextComponent::Module(name);
        }
        let name: &'ctx str = match Self::extract_identifier(node) {
            Some(t) => t,
            None => "",
        };
        if k == NodeKind::Class {
            ContextComponent::Class { name, raw: node }
        } else if k == NodeKind::Structure {
            ContextComponent::Struct { name, raw: node }
        } else if k == NodeKind::Enum {
            ContextComponent::Enum { name, raw: node }
        } else if k == NodeKind::Protocol {
            ContextComponent::Protocol { name, raw: node }
        } else if k == NodeKind::TypeAlias {
            ContextComponent::TypeAlias { name, raw: node }
        } else {
            ContextComponent::Other(node)
        }
    }
}

/// A component in a symbol's context path.
pub enum ContextComponent<'ctx> {
    /// A module.
    Module(&'ctx str),
    /// A class.
    Class { name: &'ctx str, raw: Node<'ctx> },
    /// A struct.
    Struct { name: &'ctx str, raw: Node<'ctx> },
    /// An enum.
    Enum { name: &'ctx str, raw: Node<'ctx> },
    /// A protocol.
    Protocol { name: &'ctx str, raw: Node<'ctx> },
    /// An extension of another type.
    Extension { base: Box<ContextComponent<'ctx>>, raw: Node<'ctx> },
    /// A type alias.
    TypeAlias { name: &'ctx str, raw: Node<'ctx> },
    /// Other context component.
    Other(Node<'ctx>),
}

impl<'ctx> ContextComponent<'ctx> {
    /// Get the name of this context component.
    pub fn name(&self) -> (r: &'ctx str)
        ensures
            r@ == component_view(*self).1,
        decreases self,
    {
        match self {
            ContextComponent::Module(name) => name,
            ContextComponent::Class { name, .. } => name,
            ContextComponent::Struct { name, .. } => name,
            ContextComponent::Enum { name, .. } => name,
            ContextComponent::Protocol { name, .. } => name,
            ContextComponent::Extension { base, .. } => base_name_of(base),
            ContextComponent::TypeAlias { name, .. } => name,
            ContextComponent::Other(_) => {
                proof {
                    reveal_strlit("");
                    assert(""@ =~= Seq::<char>::empty());
                }
                ""
            },
        }
    }

    /// Get the raw node for this component, if available.
    pub fn raw(&self) -> (r: Option<Node<'ctx>>)
        ensures
            match r {
                Some(n) => component_view(*self).2 == Some(n.data()),
                None => component_view(*self).2 is None,
            },
    {
        match self {
            ContextComponent::Module(_) => None,
            ContextComponent::Class { raw, .. } => Some(*raw),
            ContextComponent::Struct { raw, .. } => Some(*raw),
            ContextComponent::Enum { raw, .. } => Some(*raw),
            ContextComponent::Protocol { raw, .. } => Some(*raw),
            ContextComponent::Extension { raw, .. } => Some(*raw),
            ContextComponent::TypeAlias { raw, .. } => Some(*raw),
            ContextComponent::Other(raw) => Some(*raw),
        }
    }

    /// Check if this component is a type (class, struct, enum, protocol, type alias).
    pub fn is_type(&self) -> (b: bool)
        ensures
            b == (1 <= component_view(*self).0 <= 4 || component_view(*self).0 == 6),
    {
        matches!(
            self,
            ContextComponent::Class { .. } | ContextComponent::Struct { .. }
                | ContextComponent::Enum { .. } | ContextComponent::Protocol { .. }
                | ContextComponent::TypeAlias { .. }
        )
    }

    /// Check if this component is an extension.
    pub fn is_extension(&self) -> (b: bool)
        ensures
            b == (component_view(*self).0 == 5),
    {
        matches!(self, ContextComponent::Extension { .. })
    }
}

/// The name of the base component of an extension.
fn base_name_of<'ctx>(c: &ContextComponent<'ctx>) -> (r: &'ctx str)
    ensures
        r@ == base_view_name(*c),
{
    match c {
        ContextComponent::Module(name) => name,
        ContextComponent::Class { name, .. } => name,
        ContextComponent::Struct { name, .. } => name,
        ContextComponent::Enum { name, .. } => name,
        ContextComponent::Protocol { name, .. } => name,
        ContextComponent::TypeAlias { name, .. } => name,
        _ => {
            proof {
                reveal_strlit("");
                assert(""@ =~= Seq::<char>::empty());
            }
            ""
        },
    }
}

/// Extract the context from a symbol node.
///
/// The symbol node itself contains the context as children:
/// for a function `Function -> [Module, Identifier, Type, ...]`,
/// for a method `Function -> [Class/Struct/etc -> [Module, Identifier], Identifier, Type, ...]`.
pub fn extract_context<'ctx>(symbol_node: Node<'ctx>) -> (c: SymbolContext<'ctx>)
    ensures
        c.spec_raw() == symbol_node,
{
    SymbolContext::new(symbol_node)
}

} // verus!
