//! Macro symbol representation.
//!
//! These symbols represent Swift macros and their expansions.

use vstd::prelude::*;

use crate::helpers::{kind_either, kind_is, spec_child_of_kind, spec_descendant_of_kind, text_of};
use crate::raw::{opt_str, Node, NodeData, NodeKind};
use crate::search::{filter_map, first_hit};

verus! {

/// The kind of macro symbol.
#[derive(Debug, Clone, Copy, PartialEq, Eq, Structural)]
pub enum MacroSymbolKind {
    /// A macro definition.
    Definition,
    /// A freestanding macro expansion.
    FreestandingExpansion,
    /// A unique name generated by macro expansion.
    ExpansionUniqueName,
    /// An attached macro expansion.
    AttachedExpansion,
    /// Other macro-related symbol.
    Other,
}

/// The human-readable name of a macro symbol kind.
pub open spec fn macro_symbol_kind_name(k: MacroSymbolKind) -> Seq<char> {
    match k {
        MacroSymbolKind::Definition => "macro definition"@,
        MacroSymbolKind::FreestandingExpansion => "freestanding macro expansion"@,
        MacroSymbolKind::ExpansionUniqueName => "macro expansion unique name"@,
        MacroSymbolKind::AttachedExpansion => "attached macro expansion"@,
        MacroSymbolKind::Other => "macro symbol"@,
    }
}

impl MacroSymbolKind {
    /// Get a human-readable name for this macro symbol kind.
    pub fn name(&self) -> (r: &'static str)
        ensures
            r@ == macro_symbol_kind_name(*self),
    {
        match self {
            MacroSymbolKind::Definition => "macro definition",
            MacroSymbolKind::FreestandingExpansion => "freestanding macro expansion",
            MacroSymbolKind::ExpansionUniqueName => "macro expansion unique name",
            MacroSymbolKind::AttachedExpansion => "attached macro expansion",
            MacroSymbolKind::Other => "macro symbol",
        }
    }
}

/// The macro symbol kind of a node kind.
pub open spec fn macro_symbol_kind_of(k: NodeKind) -> MacroSymbolKind {
    match k {
        NodeKind::Macro => MacroSymbolKind::Definition,
        NodeKind::FreestandingMacroExpansion => MacroSymbolKind::FreestandingExpansion,
        NodeKind::MacroExpansionUniqueName => MacroSymbolKind::ExpansionUniqueName,
        NodeKind::AccessorAttachedMacroExpansion | NodeKind::BodyAttachedMacroExpansion | NodeKind::ConformanceAttachedMacroExpansion | NodeKind::ExtensionAttachedMacroExpansion | NodeKind::MemberAttachedMacroExpansion | NodeKind::MemberAttributeAttachedMacroExpansion | NodeKind::PeerAttachedMacroExpansion | NodeKind::PreambleAttachedMacroExpansion => MacroSymbolKind::AttachedExpansion,
        _ => MacroSymbolKind::Other,
    }
}

/// A macro definition, a freestanding expansion and an expansion's unique
/// name each come from their own node kind; only the attached expansions
/// share a kind.
pub proof fn lemma_macro_symbol_kind_injective(a: NodeKind, b: NodeKind)
    requires
        macro_symbol_kind_of(a) != MacroSymbolKind::Other,
        macro_symbol_kind_of(a) != MacroSymbolKind::AttachedExpansion,
        macro_symbol_kind_of(a) == macro_symbol_kind_of(b),
    ensures
        a == b,
{
}

/// The `n`-th child of kind `k` of a node, counting from zero.
pub open spec fn nth_child_of_kind(d: NodeData, k: NodeKind, n: int) -> Option<NodeData> {
    let f = filter_map(d.children@, kind_is(k));
    if 0 <= n < f.len() {
        Some(f[n])
    } else {
        None
    }
}

/// The discriminator of a macro node: the index of its first `Number` or `Index` child.
pub open spec fn spec_macro_discriminator(d: NodeData) -> Option<u64> {
    match first_hit(d.children@, kind_either(NodeKind::Number, NodeKind::Index)) {
        Some(c) => c.index,
        None => None,
    }
}

/// The `MacroExpansionLoc` child of a macro node.
pub open spec fn expansion_loc_of(d: NodeData) -> Option<NodeData> {
    spec_child_of_kind(d, NodeKind::MacroExpansionLoc)
}

/// The text of the `n`-th identifier of the expansion location.
pub open spec fn loc_identifier(d: NodeData, n: int) -> Option<Seq<char>> {
    match expansion_loc_of(d) {
        Some(l) => text_of(nth_child_of_kind(l, NodeKind::Identifier, n)),
        None => None,
    }
}

/// The value of the `n`-th index of the expansion location.
pub open spec fn loc_index(d: NodeData, n: int) -> Option<u64> {
    match expansion_loc_of(d) {
        Some(l) => match nth_child_of_kind(l, NodeKind::Index, n) {
            Some(c) => c.index,
            None => None,
        },
        None => None,
    }
}

/// The module of a macro node: the first `Module` descendant, or else the
/// first identifier of its expansion location.
pub open spec fn spec_macro_module(d: NodeData) -> Option<Seq<char>> {
    match spec_descendant_of_kind(d, NodeKind::Module) {
        Some(m) => m.spec_text(),
        None => loc_identifier(d, 0),
    }
}

/// A Swift macro symbol.
#[derive(Clone, Copy)]
pub struct MacroSymbol<'ctx> {
    raw: Node<'ctx>,
}

impl<'ctx> MacroSymbol<'ctx> {
    /// The node of this macro symbol.
    pub closed spec fn spec_raw(self) -> Node<'ctx> {
        self.raw
    }

    /// Create a MacroSymbol from a raw node.
    pub fn new(raw: Node<'ctx>) -> (r: Self)
        ensures
            r.spec_raw() == raw,
    {
        Self { raw }
    }

    /// Get the underlying raw node.
    pub fn raw(&self) -> (r: Node<'ctx>)
        ensures
            r == self.spec_raw(),
    {
        self.raw
    }

    /// The human-readable rendering of this macro symbol.
    pub fn to_string(&self) -> (r: String)
        ensures
            r@ == self.spec_raw().data().display@,
    {
        self.raw.to_string()
    }

    /// Get the kind of macro symbol.
    pub fn kind(&self) -> (k: MacroSymbolKind)
        ensures
            k == macro_symbol_kind_of(self.spec_raw().data().kind),
    {
        match self.raw.kind() {
            NodeKind::Macro => MacroSymbolKind::Definition,
            NodeKind::FreestandingMacroExpansion => MacroSymbolKind::FreestandingExpansion,
            NodeKind::MacroExpansionUniqueName => MacroSymbolKind::ExpansionUniqueName,
            NodeKind::AccessorAttachedMacroExpansion | NodeKind::BodyAttachedMacroExpansion | NodeKind::ConformanceAttachedMacroExpansion | NodeKind::ExtensionAttachedMacroExpansion | NodeKind::MemberAttachedMacroExpansion | NodeKind::MemberAttributeAttachedMacroExpansion | NodeKind::PeerAttachedMacroExpansion | NodeKind::PreambleAttachedMacroExpansion => MacroSymbolKind::AttachedExpansion,
            _ => MacroSymbolKind::Other,
        }
    }

    /// Get the macro name.
    pub fn name(&self) -> (r: Option<&'ctx str>)
        ensures
            opt_str(r) == text_of(spec_child_of_kind(self.spec_raw().data(), NodeKind::Identifier)),
    {
        match self.raw.child_of_kind(NodeKind::Identifier) {
            Some(c) => c.text(),
            None => None,
        }
    }

    /// Get the discriminator/index of this expansion (0-indexed).
    pub fn discriminator(&self) -> (r: Option<u64>)
        ensures
            r == spec_macro_discriminator(self.spec_raw().data()),
    {
        let cs = self.raw.children();
        match crate::helpers::find_either_in(&cs, NodeKind::Number, NodeKind::Index) {
            Some(c) => c.index(),
            None => None,
        }
    }

    /// Get the expansion number for display (1-indexed).
    ///
    /// This matches the `#N` shown in the demangled output.
    pub fn expansion_number(&self) -> (r: Option<u64>)
        requires
            spec_macro_discriminator(self.spec_raw().data()) matches Some(d) ==> d < u64::MAX,
        ensures
            r == match spec_macro_discriminator(self.spec_raw().data()) {
                Some(d) => Some((d + 1) as u64),
                None => None,
            },
    {
        match self.discriminator() {
            Some(d) => Some(d + 1),
            None => None,
        }
    }

    /// Get the module containing this macro.
    ///
    /// For macro expansions without a module node, the module is the first
    /// identifier of the expansion location.
    pub fn module(&self) -> (r: Option<&'ctx str>)
        ensures
            opt_str(r) == spec_macro_module(self.spec_raw().data()),
    {
        if let Some(m) = self.raw.descendant_of_kind(NodeKind::Module) {
            return m.text();
        }
        self.loc_identifier(0)
    }

    /// Get the MacroExpansionLoc node if present.
    fn expansion_loc(&self) -> (r: Option<Node<'ctx>>)
        ensures
            match r {
                Some(n) => expansion_loc_of(self.spec_raw().data()) == Some(n.data()),
                None => expansion_loc_of(self.spec_raw().data()) is None,
            },
    {
        self.raw.child_of_kind(NodeKind::MacroExpansionLoc)
    }

    fn loc_identifier(&self, n: usize) -> (r: Option<&'ctx str>)
        ensures
            opt_str(r) == loc_identifier(self.spec_raw().data(), n as int),
    {
        match self.expansion_loc() {
            Some(loc) => {
                let ids = loc.children_of_kind(NodeKind::Identifier);
                if n < ids.len() {
                    proof {
                        assert(crate::raw::datas(ids@)[n as int] == ids@[n as int].data());
                    }
                    ids[n].text()
                } else {
                    None
                }
            },
            None => None,
        }
    }

    fn loc_index(&self, n: usize) -> (r: Option<u64>)
        ensures
            r == loc_index(self.spec_raw().data(), n as int),
    {
        match self.expansion_loc() {
            Some(loc) => {
                let idxs = loc.children_of_kind(NodeKind::Index);
                if n < idxs.len() {
                    proof {
                        assert(crate::raw::datas(idxs@)[n as int] == idxs@[n as int].data());
                    }
                    idxs[n].index()
                } else {
                    None
                }
            },
            None => None,
        }
    }

    /// Get the source file name for this macro expansion: the second
    /// identifier of the expansion location.
    pub fn file(&self) -> (r: Option<&'ctx str>)
        ensures
            opt_str(r) == loc_identifier(self.spec_raw().data(), 1),
    {
        self.loc_identifier(1)
    }

    /// Get the source line number for this macro expansion: the first index
    /// of the expansion location.
    pub fn line(&self) -> (r: Option<u64>)
        ensures
            r == loc_index(self.spec_raw().data(), 0),
    {
        self.loc_index(0)
    }

    /// Get the source column number for this macro expansion: the second
    /// index of the expansion location.
    pub fn column(&self) -> (r: Option<u64>)
        ensures
            r == loc_index(self.spec_raw().data(), 1),
    {
        self.loc_index(1)
    }
}

} // verus!
