//! Tests of how root nodes are classified into symbols, on small trees.

use swift_demangler::raw::{Node, NodeData, NodeKind};
use swift_demangler::{
    AccessorKind, AsyncSymbolKind, ClosureKind, DispatchKind, FunctionSignatureParamFlags,
    HasExtensionContext, HasFunctionSignature, HasGenericSignature, HasModule, MacroSymbolKind,
    MetadataKind, OtherThunkKind, OutlinedKind, Symbol, SymbolAttribute, Thunk, ValueWitnessKind,
    WitnessTableKind,
};

fn leaf(kind: NodeKind) -> NodeData {
    NodeData::new(kind, None, None, Vec::new(), String::new())
}

fn text(kind: NodeKind, t: &str) -> NodeData {
    NodeData::new(kind, Some(t.to_string()), None, Vec::new(), t.to_string())
}

fn index(kind: NodeKind, i: u64) -> NodeData {
    NodeData::new(kind, None, Some(i), Vec::new(), i.to_string())
}

fn node(kind: NodeKind, children: Vec<NodeData>) -> NodeData {
    NodeData::new(kind, None, None, children, String::new())
}

fn shown(kind: NodeKind, children: Vec<NodeData>, display: &str) -> NodeData {
    NodeData::new(kind, None, None, children, display.to_string())
}

fn nominal(kind: NodeKind, module: &str, name: &str) -> NodeData {
    node(kind, vec![text(NodeKind::Module, module), text(NodeKind::Identifier, name)])
}

fn ty(inner: NodeData) -> NodeData {
    node(NodeKind::Type, vec![inner])
}

fn swift(name: &str) -> NodeData {
    ty(nominal(NodeKind::Structure, "Swift", name))
}

fn function(module: &str, name: &str) -> NodeData {
    shown(
        NodeKind::Function,
        vec![
            text(NodeKind::Module, module),
            text(NodeKind::Identifier, name),
            ty(node(
                NodeKind::FunctionType,
                vec![
                    node(NodeKind::ArgumentTuple, vec![ty(node(NodeKind::Tuple, Vec::new()))]),
                    node(NodeKind::ReturnType, vec![swift("Int")]),
                ],
            )),
        ],
        &format!("{module}.{name}() -> Swift.Int"),
    )
}

fn getter() -> NodeData {
    node(
        NodeKind::Getter,
        vec![node(
            NodeKind::Variable,
            vec![text(NodeKind::Module, "foo"), text(NodeKind::Identifier, "bar"), swift("Int")],
        )],
    )
}

fn global(children: Vec<NodeData>) -> NodeData {
    node(NodeKind::Global, children)
}

#[test]
fn only_a_global_root_with_children_is_a_symbol() {
    let not_global = function("m", "f");
    assert!(Symbol::from_node(Node::new(&not_global)).is_none());
    let empty = global(Vec::new());
    assert!(Symbol::from_node(Node::new(&empty)).is_none());
    let tree = global(vec![function("m", "f")]);
    assert!(Symbol::from_node(Node::new(&tree)).is_some());
}

#[test]
fn classified_symbol_refers_back_to_its_node() {
    let tree = global(vec![function("m", "f")]);
    let symbol = Symbol::from_node(Node::new(&tree)).unwrap();
    assert_eq!(symbol.raw().kind(), NodeKind::Function);
    assert_eq!(symbol.display(), "m.f() -> Swift.Int");
    assert_eq!(symbol.to_string(), "m.f() -> Swift.Int");
}

#[test]
fn static_wrapper_marks_functions_and_accessors() {
    let tree = global(vec![node(NodeKind::Static, vec![function("m", "f")])]);
    let symbol = Symbol::from_node(Node::new(&tree)).unwrap();
    match symbol {
        Symbol::Function(f) => {
            assert!(f.is_static());
            assert_eq!(f.name(), Some("f"));
        },
        _ => panic!("Expected function"),
    }
    let tree = global(vec![node(NodeKind::Static, vec![getter()])]);
    match Symbol::from_node(Node::new(&tree)).unwrap() {
        Symbol::Accessor(a) => {
            assert!(a.is_static());
            assert_eq!(a.kind(), AccessorKind::Getter);
        },
        _ => panic!("Expected accessor"),
    }
    // Other kinds are not affected by the flag.
    let tree = global(vec![node(NodeKind::Static, vec![node(NodeKind::Variable, Vec::new())])]);
    assert!(Symbol::from_node(Node::new(&tree)).unwrap().is_variable());
}

#[test]
fn attribute_applies_to_next_sibling() {
    let tree = global(vec![leaf(NodeKind::ObjCAttribute), function("m", "f")]);
    match Symbol::from_node(Node::new(&tree)).unwrap() {
        Symbol::Attributed(a) => {
            assert_eq!(a.attribute, SymbolAttribute::ObjC);
            assert_eq!(a.attribute.name(), "@objc");
            assert_eq!(a.raw().kind(), NodeKind::ObjCAttribute);
            assert!(a.inner.is_function());
        },
        _ => panic!("Expected attributed symbol"),
    }
    // A lone attribute is classified as itself.
    let tree = global(vec![leaf(NodeKind::ObjCAttribute)]);
    assert!(matches!(Symbol::from_node(Node::new(&tree)).unwrap(), Symbol::Other(_)));
}

#[test]
fn outlined_context_keeps_attributes_outermost_first() {
    let tree = global(vec![
        index(NodeKind::OutlinedCopy, 3),
        leaf(NodeKind::ObjCAttribute),
        text(NodeKind::Suffix, "merged"),
        leaf(NodeKind::DynamicAttribute),
        function("m", "f"),
    ]);
    match Symbol::from_node(Node::new(&tree)).unwrap() {
        Symbol::Outlined(o) => {
            assert_eq!(o.outlined.kind(), OutlinedKind::Copy);
            assert_eq!(o.outlined.index(), Some(3));
            match *o.context {
                Symbol::Attributed(outer) => {
                    assert_eq!(outer.attribute, SymbolAttribute::ObjC);
                    match *outer.inner {
                        Symbol::Attributed(inner) => {
                            assert_eq!(inner.attribute, SymbolAttribute::Dynamic);
                            assert!(inner.inner.is_function());
                        },
                        _ => panic!("Expected second attribute"),
                    }
                },
                _ => panic!("Expected attributed context"),
            }
        },
        _ => panic!("Expected outlined symbol"),
    }
}

#[test]
fn outlined_without_sibling_uses_its_type_child() {
    let tree = global(vec![node(NodeKind::OutlinedDestroy, vec![swift("Int")])]);
    match Symbol::from_node(Node::new(&tree)).unwrap() {
        Symbol::Outlined(o) => {
            assert!(o.context.is_type());
            assert_eq!(o.outlined.module(), Some("Swift"));
        },
        _ => panic!("Expected outlined symbol"),
    }
    let tree = global(vec![leaf(NodeKind::OutlinedRelease)]);
    match Symbol::from_node(Node::new(&tree)).unwrap() {
        Symbol::Outlined(o) => assert!(matches!(*o.context, Symbol::Other(_))),
        _ => panic!("Expected outlined symbol"),
    }
}

#[test]
fn markers_wrap_the_next_sibling_in_a_chain() {
    let tree = global(vec![leaf(NodeKind::CoroFunctionPointer), leaf(NodeKind::DefaultOverride), getter()]);
    match Symbol::from_node(Node::new(&tree)).unwrap() {
        Symbol::Async(a) => {
            assert_eq!(a.kind(), AsyncSymbolKind::CoroFunctionPointer);
            match a.inner() {
                Some(Symbol::Metadata(m)) => {
                    assert_eq!(m.kind(), MetadataKind::DefaultOverride);
                    assert!(m.inner().unwrap().is_accessor());
                },
                _ => panic!("Expected metadata marker"),
            }
        },
        _ => panic!("Expected async marker"),
    }
    // A marker without a sibling is classified as itself.
    let tree = global(vec![leaf(NodeKind::AsyncFunctionPointer)]);
    assert!(matches!(Symbol::from_node(Node::new(&tree)).unwrap(), Symbol::Other(_)));
    // A thunk marker.
    let tree = global(vec![leaf(NodeKind::MergedFunction), function("m", "f")]);
    match Symbol::from_node(Node::new(&tree)).unwrap() {
        Symbol::Thunk(Thunk::Other { kind, inner, .. }) => {
            assert_eq!(kind, OtherThunkKind::Merged);
            assert!(inner.unwrap().is_function());
        },
        _ => panic!("Expected merged function thunk"),
    }
}

#[test]
fn suffix_wraps_a_plain_symbol() {
    let tree = global(vec![function("m", "f"), text(NodeKind::Suffix, ".cold")]);
    match Symbol::from_node(Node::new(&tree)).unwrap() {
        Symbol::Suffixed(s) => {
            assert_eq!(s.suffix, ".cold");
            assert!(s.inner.is_function());
        },
        _ => panic!("Expected suffixed symbol"),
    }
    let symbol = Symbol::from_node(Node::new(&tree)).unwrap();
    assert_eq!(symbol.raw().kind(), NodeKind::Function);
}

#[test]
fn specialization_chain_ends_with_other_when_nothing_follows() {
    let tree = global(vec![
        index(NodeKind::GenericSpecialization, 0),
        node(NodeKind::GenericPartialSpecialization, Vec::new()),
    ]);
    match Symbol::from_node(Node::new(&tree)).unwrap() {
        Symbol::Specialization(s) => match *s.inner {
            Symbol::Specialization(inner) => {
                assert!(matches!(*inner.inner, Symbol::Other(_)));
                assert!(inner.specialization.inner().is_none());
            },
            _ => panic!("Expected nested specialization"),
        },
        _ => panic!("Expected specialization"),
    }
}

#[test]
fn dispatch_thunks_classify_their_first_child() {
    let tree = global(vec![node(NodeKind::VTableThunk, vec![function("m", "f")])]);
    match Symbol::from_node(Node::new(&tree)).unwrap() {
        Symbol::Thunk(t) => {
            assert_eq!(t.kind_name(), "vtable thunk");
            assert_eq!(t.module(), Some("m"));
            match t {
                Thunk::Dispatch { inner, kind, .. } => {
                    assert_eq!(kind, DispatchKind::VTable);
                    assert!(inner.is_function());
                },
                _ => panic!("Expected dispatch thunk"),
            }
        },
        _ => panic!("Expected thunk"),
    }
    let tree = global(vec![leaf(NodeKind::DistributedThunk)]);
    assert!(matches!(Symbol::from_node(Node::new(&tree)).unwrap(), Symbol::Other(_)));
}

#[test]
fn partial_apply_skips_attributes() {
    let tree = global(vec![node(
        NodeKind::PartialApplyObjCForwarder,
        vec![leaf(NodeKind::ObjCAttribute), function("m", "f")],
    )]);
    match Symbol::from_node(Node::new(&tree)).unwrap() {
        Symbol::Thunk(t) => {
            assert_eq!(t.kind_name(), "partial apply ObjC forwarder");
            match t {
                Thunk::PartialApply { inner, is_objc, .. } => {
                    assert!(is_objc);
                    assert!(inner.unwrap().is_function());
                },
                _ => panic!("Expected partial apply thunk"),
            }
        },
        _ => panic!("Expected thunk"),
    }
}

#[test]
fn merged_function_skips_pass_ids() {
    let merged = node(
        NodeKind::MergedFunction,
        vec![index(NodeKind::SpecializationPassID, 1), index(NodeKind::Number, 2), function("m", "f")],
    );
    match Symbol::classify_node(Node::new(&merged)) {
        Symbol::Thunk(Thunk::Other { kind, inner, .. }) => {
            assert_eq!(kind, OtherThunkKind::Merged);
            assert_eq!(kind.name(), "merged function");
            assert!(inner.unwrap().is_function());
        },
        _ => panic!("Expected merged function"),
    }
}

#[test]
fn function_full_name_lists_labels() {
    let f = node(
        NodeKind::Function,
        vec![
            text(NodeKind::Module, "m"),
            text(NodeKind::Identifier, "f"),
            node(NodeKind::LabelList, vec![text(NodeKind::Identifier, "a"), leaf(NodeKind::FirstElementMarker)]),
        ],
    );
    let tree = global(vec![f]);
    match Symbol::from_node(Node::new(&tree)).unwrap() {
        Symbol::Function(func) => {
            assert_eq!(func.labels(), vec![Some("a"), None]);
            assert_eq!(func.full_name(), "f(a:_:)");
        },
        _ => panic!("Expected function"),
    }
    let tree = global(vec![function("m", "g")]);
    match Symbol::from_node(Node::new(&tree)).unwrap() {
        Symbol::Function(func) => {
            assert_eq!(func.full_name(), "g()");
            assert!(!func.is_generic());
            assert!(func.generic_requirements().is_empty());
            assert!(!func.is_extension());
            assert_eq!(func.extension_module(), None);
            assert!(func.extension_generic_signature().is_none());
            assert_eq!(func.return_type().unwrap().display(), "");
            assert!(!func.is_async());
        },
        _ => panic!("Expected function"),
    }
}

#[test]
fn extension_members_report_the_extension_module() {
    let f = node(
        NodeKind::Function,
        vec![
            node(NodeKind::Extension, vec![text(NodeKind::Module, "Ext"), nominal(NodeKind::Structure, "Swift", "Int")]),
            text(NodeKind::Identifier, "f"),
        ],
    );
    let tree = global(vec![f]);
    match Symbol::from_node(Node::new(&tree)).unwrap() {
        Symbol::Function(func) => {
            assert!(func.is_extension());
            assert_eq!(func.extension_module(), Some("Ext"));
            assert_eq!(func.containing_type(), Some("Int"));
            // The module is searched among the extension's descendants, whose
            // enumeration starts with its last child (the extended type).
            assert_eq!(func.module(), Some("Swift"));
            assert!(func.is_method());
        },
        _ => panic!("Expected function"),
    }
}

#[test]
fn accessor_containing_type_is_a_dotted_path() {
    let inner_type = node(
        NodeKind::Class,
        vec![nominal(NodeKind::Structure, "M", "Outer"), text(NodeKind::Identifier, "Inner")],
    );
    let acc = node(
        NodeKind::Setter,
        vec![node(NodeKind::Variable, vec![inner_type, text(NodeKind::Identifier, "p"), swift("Int")])],
    );
    let tree = global(vec![acc]);
    match Symbol::from_node(Node::new(&tree)).unwrap() {
        Symbol::Accessor(a) => {
            assert_eq!(a.containing_type(), Some("Outer.Inner".to_string()));
            assert!(a.containing_type_is_class());
            assert_eq!(a.module(), Some("M"));
            assert_eq!(a.property_name(), Some("p"));
            assert_eq!(a.property_type().unwrap().raw().kind(), NodeKind::Structure);
            assert!(a.is_mutating());
            assert!(!a.is_subscript());
            assert!(!a.is_extension());
            assert_eq!(a.kind().name(), "setter");
        },
        _ => panic!("Expected accessor"),
    }
}

#[test]
fn subscript_accessor_is_named_subscript() {
    let tree = global(vec![node(NodeKind::Getter, vec![node(NodeKind::Subscript, Vec::new())])]);
    match Symbol::from_node(Node::new(&tree)).unwrap() {
        Symbol::Accessor(a) => {
            assert_eq!(a.property_name(), Some("subscript"));
            assert!(a.is_subscript());
        },
        _ => panic!("Expected accessor"),
    }
}

#[test]
fn closure_reads_its_parent_function() {
    let closure = NodeData::new(
        NodeKind::ExplicitClosure,
        None,
        None,
        vec![function("m", "outer"), index(NodeKind::Number, 2)],
        String::new(),
    );
    let tree = global(vec![closure]);
    match Symbol::from_node(Node::new(&tree)).unwrap() {
        Symbol::Closure(c) => {
            assert_eq!(c.kind(), ClosureKind::Explicit);
            assert_eq!(c.index(), None);
            assert_eq!(c.discriminator(), Some(2));
            assert_eq!(c.module(), Some("m"));
            assert_eq!(c.parent_function().unwrap().name(), Some("outer"));
        },
        _ => panic!("Expected closure"),
    }
}

#[test]
fn macro_expansion_location() {
    let m = node(
        NodeKind::FreestandingMacroExpansion,
        vec![
            text(NodeKind::Identifier, "stringify"),
            node(
                NodeKind::MacroExpansionLoc,
                vec![
                    text(NodeKind::Identifier, "Mod"),
                    text(NodeKind::Identifier, "file.swift"),
                    index(NodeKind::Index, 12),
                    index(NodeKind::Index, 7),
                ],
            ),
            index(NodeKind::Number, 0),
        ],
    );
    let tree = global(vec![m]);
    match Symbol::from_node(Node::new(&tree)).unwrap() {
        Symbol::Macro(m) => {
            assert_eq!(m.kind(), MacroSymbolKind::FreestandingExpansion);
            assert_eq!(m.name(), Some("stringify"));
            assert_eq!(m.discriminator(), Some(0));
            assert_eq!(m.expansion_number(), Some(1));
            assert_eq!(m.module(), Some("Mod"));
            assert_eq!(m.file(), Some("file.swift"));
            assert_eq!(m.line(), Some(12));
            assert_eq!(m.column(), Some(7));
        },
        _ => panic!("Expected macro"),
    }
}

#[test]
fn value_witness_kinds_are_numbered_from_zero() {
    assert_eq!(ValueWitnessKind::from_index(0), Some(ValueWitnessKind::AllocateBuffer));
    assert_eq!(ValueWitnessKind::from_index(4), Some(ValueWitnessKind::Destroy));
    assert_eq!(ValueWitnessKind::from_index(22), Some(ValueWitnessKind::StoreEnumTagSinglePayload));
    assert_eq!(ValueWitnessKind::from_index(23), None);
    assert_eq!(ValueWitnessKind::Destroy.name(), "destroy");
    let tree = global(vec![node(NodeKind::ValueWitness, vec![index(NodeKind::Index, 8), swift("Int")])]);
    match Symbol::from_node(Node::new(&tree)).unwrap() {
        Symbol::WitnessTable(w) => {
            assert_eq!(w.kind(), WitnessTableKind::ValueWitness);
            assert_eq!(w.kind().name(), "value witness");
            assert_eq!(w.value_witness_kind(), Some(ValueWitnessKind::InitializeWithCopy));
            assert_eq!(w.conforming_type().unwrap().display(), "");
            assert_eq!(w.module(), Some("Swift"));
        },
        _ => panic!("Expected witness table"),
    }
}

#[test]
fn param_kind_value_splits_into_kind_and_flags() {
    let p = node(
        NodeKind::FunctionSignatureSpecializationParam,
        vec![index(NodeKind::FunctionSignatureSpecializationParamKind, 64 | 512 | 4)],
    );
    let s = node(NodeKind::FunctionSignatureSpecialization, vec![p]);
    let tree = global(vec![s, function("m", "f")]);
    match Symbol::from_node(Node::new(&tree)).unwrap() {
        Symbol::Specialization(spec) => {
            let params = spec.specialization.function_signature_params();
            assert_eq!(params.len(), 1);
            assert_eq!(params[0].kind().name(), "constant prop (string)");
            let flags = params[0].flags();
            assert!(flags.dead && flags.guaranteed_to_owned);
            assert!(!flags.owned_to_guaranteed && !flags.exploded && !flags.existential_to_generic);
            assert_eq!(flags.names(), vec!["dead", "guaranteed to owned"]);
        },
        _ => panic!("Expected specialization"),
    }
    let none = FunctionSignatureParamFlags::default();
    assert!(!none.any());
    assert!(none.names().is_empty());
}

#[test]
fn enum_case_with_payload_has_associated_values() {
    let e = || nominal(NodeKind::Enum, "m", "E");
    let f = node(
        NodeKind::Function,
        vec![
            e(),
            text(NodeKind::Identifier, "some"),
            ty(node(
                NodeKind::FunctionType,
                vec![
                    node(
                        NodeKind::ArgumentTuple,
                        vec![ty(node(
                            NodeKind::Tuple,
                            vec![
                                node(NodeKind::TupleElement, vec![ty(node(NodeKind::Metatype, vec![ty(e())]))]),
                                node(NodeKind::TupleElement, vec![swift("Int")]),
                            ],
                        ))],
                    ),
                    node(NodeKind::ReturnType, vec![ty(e())]),
                ],
            )),
        ],
    );
    let tree = global(vec![node(NodeKind::EnumCase, vec![f])]);
    match Symbol::from_node(Node::new(&tree)).unwrap() {
        Symbol::EnumCase(ec) => {
            assert!(ec.has_associated_values());
            let values = ec.associated_values();
            assert_eq!(values.len(), 1);
            assert_eq!(values[0].raw().kind(), NodeKind::Structure);
            assert_eq!(ec.containing_type_ref().unwrap().raw().kind(), NodeKind::Enum);
        },
        _ => panic!("Expected enum case"),
    }
}
