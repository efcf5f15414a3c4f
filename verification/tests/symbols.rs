//! Tests of the symbol classification and the symbol accessors.
//!
//! Each mangled symbol is paired with the parse tree that the Swift demangler
//! produces for it (kinds, texts, indexes and the rendering of the nodes the
//! tests look at); the library is then run on that tree.

use swift_demangler::raw::{Node, NodeData, NodeKind};
use swift_demangler::{
    AccessorKind, ClosureKind, ConstructorKind, Context, DescriptorKind, DestructorKind,
    DispatchKind, FunctionInfo, FunctionSignatureParamKind, HasFunctionSignature,
    HasGenericSignature, HasModule, MetadataKind, SpecializationKind, SpecializedSymbol, Symbol,
    Thunk, WitnessTableKind,
};

fn leaf(kind: NodeKind) -> NodeData {
    NodeData::new(kind, None, None, Vec::new(), String::new())
}

fn text(kind: NodeKind, t: &str) -> NodeData {
    NodeData::new(kind, Some(t.to_string()), None, Vec::new(), t.to_string())
}

fn index(kind: NodeKind, i: u64) -> NodeData {
    NodeData::new(kind, None, Some(i), Vec::new(), i.to_string())
}

fn node(kind: NodeKind, children: Vec<NodeData>) -> NodeData {
    NodeData::new(kind, None, None, children, String::new())
}

fn shown(kind: NodeKind, children: Vec<NodeData>, display: &str) -> NodeData {
    NodeData::new(kind, None, None, children, display.to_string())
}

fn nominal(kind: NodeKind, module: &str, name: &str) -> NodeData {
    shown(
        kind,
        vec![text(NodeKind::Module, module), text(NodeKind::Identifier, name)],
        &format!("{module}.{name}"),
    )
}

fn ty(inner: NodeData) -> NodeData {
    let d = inner.display.clone();
    shown(NodeKind::Type, vec![inner], &d)
}

fn swift_struct(name: &str) -> NodeData {
    ty(nominal(NodeKind::Structure, "Swift", name))
}

fn empty_tuple() -> NodeData {
    ty(shown(NodeKind::Tuple, Vec::new(), "()"))
}

/// The type `() async throws -> Swift.String` of `main.hello`.
fn hello_type() -> NodeData {
    ty(shown(
        NodeKind::FunctionType,
        vec![
            leaf(NodeKind::AsyncAnnotation),
            leaf(NodeKind::ThrowsAnnotation),
            node(NodeKind::ArgumentTuple, vec![empty_tuple()]),
            node(NodeKind::ReturnType, vec![swift_struct("String")]),
        ],
        "() async throws -> Swift.String",
    ))
}

fn hello_function() -> NodeData {
    shown(
        NodeKind::Function,
        vec![
            text(NodeKind::Module, "main"),
            text(NodeKind::Identifier, "hello"),
            hello_type(),
        ],
        "main.hello() async throws -> Swift.String",
    )
}

fn global(children: Vec<NodeData>) -> NodeData {
    let d = children.first().map(|c| c.display.clone()).unwrap_or_default();
    shown(NodeKind::Global, children, &d)
}

fn property_variable(module: &str, name: &str) -> NodeData {
    shown(
        NodeKind::Variable,
        vec![
            text(NodeKind::Module, module),
            text(NodeKind::Identifier, name),
            swift_struct("Int"),
        ],
        &format!("{module}.{name} : Swift.Int"),
    )
}

fn accessor_tree(kind: NodeKind, label: &str) -> NodeData {
    global(vec![shown(
        kind,
        vec![property_variable("foo", "bar")],
        &format!("foo.bar.{label} : Swift.Int"),
    )])
}

fn display_style() -> NodeData {
    shown(
        NodeKind::Enum,
        vec![
            nominal(NodeKind::Structure, "Swift", "Mirror"),
            text(NodeKind::Identifier, "DisplayStyle"),
        ],
        "Swift.Mirror.DisplayStyle",
    )
}

fn fs_param(kind_value: u64, rest: Vec<NodeData>) -> NodeData {
    let mut children = vec![index(NodeKind::FunctionSignatureSpecializationParamKind, kind_value)];
    children.extend(rest);
    node(NodeKind::FunctionSignatureSpecializationParam, children)
}

/// The parse tree of a mangled symbol.
fn demangled_tree(mangled: &str) -> NodeData {
    match mangled {
        "$s4main5helloSSyYaKF" => global(vec![hello_function()]),
        "_TFC3foo3bar3basfT3zimCS_3zim_T_" => global(vec![shown(
            NodeKind::Function,
            vec![
                nominal(NodeKind::Class, "foo", "bar"),
                text(NodeKind::Identifier, "bas"),
                ty(shown(
                    NodeKind::FunctionType,
                    vec![
                        node(
                            NodeKind::ArgumentTuple,
                            vec![ty(shown(
                                NodeKind::Tuple,
                                vec![node(
                                    NodeKind::TupleElement,
                                    vec![
                                        text(NodeKind::TupleElementName, "zim"),
                                        ty(nominal(NodeKind::Class, "foo", "zim")),
                                    ],
                                )],
                                "(zim: foo.zim)",
                            ))],
                        ),
                        node(NodeKind::ReturnType, vec![empty_tuple()]),
                    ],
                    "(zim: foo.zim) -> ()",
                )),
            ],
            "foo.bar.bas(zim: foo.zim) -> ()",
        )]),
        "_TF3foog3barSi" => accessor_tree(NodeKind::Getter, "getter"),
        "_TF3foos3barSi" => accessor_tree(NodeKind::Setter, "setter"),
        "_TF3foolu3barSi" => accessor_tree(NodeKind::UnsafeAddressor, "unsafeAddressor"),
        "_TF3fooau3barSi" => accessor_tree(NodeKind::UnsafeMutableAddressor, "unsafeMutableAddressor"),
        "_Tv3foo3barSi" => global(vec![property_variable("foo", "bar")]),
        "$ss6ResultO7CombineE9PublisherVyxq__GAcdCMc" => global(vec![node(
            NodeKind::ProtocolConformanceDescriptor,
            vec![node(
                NodeKind::ProtocolConformance,
                vec![
                    ty(shown(
                        NodeKind::BoundGenericStructure,
                        vec![
                            ty(shown(
                                NodeKind::Structure,
                                vec![
                                    node(
                                        NodeKind::Extension,
                                        vec![
                                            text(NodeKind::Module, "Combine"),
                                            nominal(NodeKind::Enum, "Swift", "Result"),
                                        ],
                                    ),
                                    text(NodeKind::Identifier, "Publisher"),
                                ],
                                "(extension in Combine):Swift.Result.Publisher",
                            )),
                            node(
                                NodeKind::TypeList,
                                vec![
                                    ty(shown(
                                        NodeKind::DependentGenericParamType,
                                        vec![index(NodeKind::Index, 0), index(NodeKind::Index, 0)],
                                        "A",
                                    )),
                                    ty(shown(
                                        NodeKind::DependentGenericParamType,
                                        vec![index(NodeKind::Index, 0), index(NodeKind::Index, 1)],
                                        "B",
                                    )),
                                ],
                            ),
                        ],
                        "(extension in Combine):Swift.Result<A, B>.Publisher",
                    )),
                    ty(nominal(NodeKind::Protocol, "Combine", "Publisher")),
                    text(NodeKind::Module, "Combine"),
                ],
            )],
        )]),
        "$ss7EncoderP9container7keyedBys22KeyedEncodingContainerVyqd__Gqd__m_ts9CodingKeyRd__lFTq" => {
            let param = || {
                ty(shown(
                    NodeKind::DependentGenericParamType,
                    vec![index(NodeKind::Index, 1), index(NodeKind::Index, 0)],
                    "A1",
                ))
            };
            global(vec![node(
                NodeKind::MethodDescriptor,
                vec![node(
                    NodeKind::Function,
                    vec![
                        nominal(NodeKind::Protocol, "Swift", "Encoder"),
                        text(NodeKind::Identifier, "container"),
                        node(NodeKind::LabelList, vec![text(NodeKind::Identifier, "keyedBy")]),
                        ty(node(
                            NodeKind::DependentGenericType,
                            vec![
                                node(
                                    NodeKind::DependentGenericSignature,
                                    vec![
                                        index(NodeKind::DependentGenericParamCount, 1),
                                        node(
                                            NodeKind::DependentGenericConformanceRequirement,
                                            vec![
                                                param(),
                                                ty(nominal(NodeKind::Protocol, "Swift", "CodingKey")),
                                            ],
                                        ),
                                    ],
                                ),
                                ty(node(
                                    NodeKind::FunctionType,
                                    vec![
                                        node(
                                            NodeKind::ArgumentTuple,
                                            vec![ty(node(NodeKind::Metatype, vec![param()]))],
                                        ),
                                        node(
                                            NodeKind::ReturnType,
                                            vec![ty(node(
                                                NodeKind::BoundGenericStructure,
                                                vec![
                                                    ty(nominal(
                                                        NodeKind::Structure,
                                                        "Swift",
                                                        "KeyedEncodingContainer",
                                                    )),
                                                    node(NodeKind::TypeList, vec![param()]),
                                                ],
                                            ))],
                                        ),
                                    ],
                                )),
                            ],
                        )),
                    ],
                )],
            )])
        },
        "$ss6MirrorV12DisplayStyleO4enumyA2DmFWC" => global(vec![node(
            NodeKind::EnumCase,
            vec![node(
                NodeKind::Function,
                vec![
                    display_style(),
                    text(NodeKind::Identifier, "enum"),
                    ty(node(
                        NodeKind::FunctionType,
                        vec![
                            node(
                                NodeKind::ArgumentTuple,
                                vec![ty(node(NodeKind::Metatype, vec![ty(display_style())]))],
                            ),
                            node(NodeKind::ReturnType, vec![ty(display_style())]),
                        ],
                    )),
                ],
            )],
        )]),
        "$ss6UInt16VN" => global(vec![node(NodeKind::TypeMetadata, vec![swift_struct("UInt16")])]),
        "$sSiMa" => global(vec![node(
            NodeKind::TypeMetadataAccessFunction,
            vec![swift_struct("Int")],
        )]),
        "$ss6MirrorV12DisplayStyleOSQsWP" => global(vec![node(
            NodeKind::ProtocolWitnessTable,
            vec![node(
                NodeKind::ProtocolConformance,
                vec![
                    ty(display_style()),
                    ty(nominal(NodeKind::Protocol, "Swift", "Equatable")),
                    text(NodeKind::Module, "Swift"),
                ],
            )],
        )]),
        "$sSa16_createNewBuffer14bufferIsUnique15minimumCapacity13growForAppendySb_SiSbtFyXl_Ts5" => {
            global(vec![
                node(
                    NodeKind::GenericSpecializationPrespecialized,
                    vec![
                        index(NodeKind::SpecializationPassID, 5),
                        node(
                            NodeKind::GenericSpecializationParam,
                            vec![ty(shown(NodeKind::ProtocolListWithAnyObject, Vec::new(), "Swift.AnyObject"))],
                        ),
                    ],
                ),
                node(
                    NodeKind::Function,
                    vec![
                        nominal(NodeKind::Structure, "Swift", "Array"),
                        text(NodeKind::Identifier, "_createNewBuffer"),
                        node(
                            NodeKind::LabelList,
                            vec![
                                text(NodeKind::Identifier, "bufferIsUnique"),
                                text(NodeKind::Identifier, "minimumCapacity"),
                                text(NodeKind::Identifier, "growForAppend"),
                            ],
                        ),
                        ty(node(
                            NodeKind::FunctionType,
                            vec![
                                node(
                                    NodeKind::ArgumentTuple,
                                    vec![ty(node(
                                        NodeKind::Tuple,
                                        vec![
                                            node(NodeKind::TupleElement, vec![swift_struct("Bool")]),
                                            node(NodeKind::TupleElement, vec![swift_struct("Int")]),
                                            node(NodeKind::TupleElement, vec![swift_struct("Bool")]),
                                        ],
                                    ))],
                                ),
                                node(NodeKind::ReturnType, vec![empty_tuple()]),
                            ],
                        )),
                    ],
                ),
            ])
        },
        "_TTSf1cl35_TFF7specgen6callerFSiT_U_FTSiSi_T_Si___TF7specgen12take_closureFFTSiSi_T_T_" => {
            global(vec![
                node(
                    NodeKind::FunctionSignatureSpecialization,
                    vec![
                        index(NodeKind::SpecializationPassID, 1),
                        fs_param(
                            5,
                            vec![
                                text(
                                    NodeKind::FunctionSignatureSpecializationParamPayload,
                                    "_TFF7specgen6callerFSiT_U_FTSiSi_T_",
                                ),
                                swift_struct("Int"),
                            ],
                        ),
                    ],
                ),
                node(
                    NodeKind::Function,
                    vec![
                        text(NodeKind::Module, "specgen"),
                        text(NodeKind::Identifier, "take_closure"),
                        ty(node(
                            NodeKind::FunctionType,
                            vec![
                                node(NodeKind::ArgumentTuple, vec![ty(node(NodeKind::FunctionType, Vec::new()))]),
                                node(NodeKind::ReturnType, vec![empty_tuple()]),
                            ],
                        )),
                    ],
                ),
            ])
        },
        "_TTSf2dgs___TTSf2s_d___TFVs17_LegacyStringCoreCfVs13_StringBufferS_" => global(vec![
            node(
                NodeKind::FunctionSignatureSpecialization,
                vec![index(NodeKind::SpecializationPassID, 2), fs_param(64 | 128 | 256, Vec::new())],
            ),
            node(
                NodeKind::FunctionSignatureSpecialization,
                vec![
                    index(NodeKind::SpecializationPassID, 2),
                    fs_param(256, Vec::new()),
                    fs_param(64, Vec::new()),
                ],
            ),
            node(
                NodeKind::Allocator,
                vec![
                    nominal(NodeKind::Structure, "Swift", "_LegacyStringCore"),
                    ty(node(
                        NodeKind::FunctionType,
                        vec![
                            node(NodeKind::ArgumentTuple, vec![swift_struct("_StringBuffer")]),
                            node(NodeKind::ReturnType, vec![swift_struct("_LegacyStringCore")]),
                        ],
                    )),
                ],
            ),
        ]),
        "$ss10SetAlgebraPyxqd__ncSTRd__7ElementQyd__ACRtzlufCTj" => global(vec![node(
            NodeKind::DispatchThunk,
            vec![node(
                NodeKind::Allocator,
                vec![
                    nominal(NodeKind::Protocol, "Swift", "SetAlgebra"),
                    ty(node(NodeKind::DependentGenericType, Vec::new())),
                ],
            )],
        )]),
        "_TTWC13call_protocol1CS_1PS_FS1_3foofT_Si" => global(vec![node(
            NodeKind::ProtocolWitness,
            vec![
                node(
                    NodeKind::ProtocolConformance,
                    vec![
                        ty(nominal(NodeKind::Class, "call_protocol", "C")),
                        ty(nominal(NodeKind::Protocol, "call_protocol", "P")),
                        text(NodeKind::Module, "call_protocol"),
                    ],
                ),
                node(
                    NodeKind::Function,
                    vec![
                        nominal(NodeKind::Protocol, "call_protocol", "P"),
                        text(NodeKind::Identifier, "foo"),
                        ty(node(
                            NodeKind::FunctionType,
                            vec![
                                node(NodeKind::ArgumentTuple, vec![empty_tuple()]),
                                node(NodeKind::ReturnType, vec![swift_struct("Int")]),
                            ],
                        )),
                    ],
                ),
            ],
        )]),
        other => panic!("no parse tree recorded for {other}"),
    }
}

/// Parse a mangled symbol into the context and classify it.
fn parse<'a>(ctx: &'a mut Context, mangled: &str) -> Option<Symbol<'a>> {
    let i = ctx.add(demangled_tree(mangled));
    let ctx: &'a Context = ctx;
    Symbol::from_node(ctx.root(i)?)
}

#[test]
fn test_getter() {
    let mut ctx = Context::new();
    // foo.bar.getter : Swift.Int
    let symbol = parse(&mut ctx, "_TF3foog3barSi").unwrap();
    assert!(symbol.is_accessor());
    if let Symbol::Accessor(acc) = symbol {
        assert_eq!(acc.kind(), AccessorKind::Getter);
        assert_eq!(acc.property_name(), Some("bar"));
        assert_eq!(acc.module(), Some("foo"));
        assert!(!acc.is_mutating());
    } else {
        panic!("Expected accessor");
    }
}

#[test]
fn test_setter() {
    let mut ctx = Context::new();
    // foo.bar.setter : Swift.Int
    let symbol = parse(&mut ctx, "_TF3foos3barSi").unwrap();
    assert!(symbol.is_accessor());
    if let Symbol::Accessor(acc) = symbol {
        assert_eq!(acc.kind(), AccessorKind::Setter);
        assert_eq!(acc.property_name(), Some("bar"));
        assert!(acc.is_mutating());
    } else {
        panic!("Expected accessor");
    }
}

#[test]
fn test_unsafe_addressor() {
    let mut ctx = Context::new();
    // foo.bar.unsafeAddressor : Swift.Int
    let symbol = parse(&mut ctx, "_TF3foolu3barSi").unwrap();
    assert!(symbol.is_accessor());
    if let Symbol::Accessor(acc) = symbol {
        assert_eq!(acc.kind(), AccessorKind::UnsafeAddressor);
        assert!(!acc.is_mutating());
    } else {
        panic!("Expected accessor");
    }
}

#[test]
fn test_unsafe_mutable_addressor() {
    let mut ctx = Context::new();
    // foo.bar.unsafeMutableAddressor : Swift.Int
    let symbol = parse(&mut ctx, "_TF3fooau3barSi").unwrap();
    assert!(symbol.is_accessor());
    if let Symbol::Accessor(acc) = symbol {
        assert_eq!(acc.kind(), AccessorKind::UnsafeMutableAddressor);
        assert!(acc.is_mutating());
    } else {
        panic!("Expected accessor");
    }
}

#[test]
fn test_accessor_kind_name() {
    assert_eq!(AccessorKind::Getter.name(), "getter");
    assert_eq!(AccessorKind::Setter.name(), "setter");
    assert_eq!(AccessorKind::Modify.name(), "modify");
}

#[test]
fn test_closure_kind_name() {
    assert_eq!(ClosureKind::Explicit.name(), "explicit");
    assert_eq!(ClosureKind::Implicit.name(), "implicit");
}

#[test]
fn test_closure_kind_equality() {
    assert_eq!(ClosureKind::Explicit, ClosureKind::Explicit);
    assert_ne!(ClosureKind::Explicit, ClosureKind::Implicit);
}

#[test]
fn test_constructor_kind() {
    assert_eq!(ConstructorKind::Regular, ConstructorKind::Regular);
    assert_ne!(ConstructorKind::Regular, ConstructorKind::Allocating);
}

#[test]
fn test_destructor_kind() {
    assert_eq!(DestructorKind::Regular, DestructorKind::Regular);
    assert_ne!(DestructorKind::Regular, DestructorKind::Deallocating);
}

#[test]
fn test_protocol_conformance_descriptor() {
    let mut ctx = Context::new();
    // protocol conformance descriptor for (extension in Combine):Swift.Result<A, B>.Publisher : Combine.Publisher
    let symbol = parse(&mut ctx, "$ss6ResultO7CombineE9PublisherVyxq__GAcdCMc").unwrap();
    assert!(symbol.is_descriptor());
    if let Symbol::Descriptor(desc) = symbol {
        assert_eq!(desc.kind(), DescriptorKind::ProtocolConformance);
        assert!(desc.conformance().is_some());
        assert!(desc.conforming_type().is_some());
        assert!(desc.protocol().is_some());
        assert_eq!(desc.module(), Some("Combine"));
    } else {
        panic!("Expected descriptor");
    }
}

#[test]
fn test_method_descriptor() {
    let mut ctx = Context::new();
    // method descriptor for Swift.Encoder.container<A where A1: Swift.CodingKey>(keyedBy: A1.Type) -> Swift.KeyedEncodingContainer<A1>
    let symbol = parse(
        &mut ctx,
        "$ss7EncoderP9container7keyedBys22KeyedEncodingContainerVyqd__Gqd__m_ts9CodingKeyRd__lFTq",
    )
    .unwrap();
    assert!(symbol.is_descriptor());
    if let Symbol::Descriptor(desc) = symbol {
        assert_eq!(desc.kind(), DescriptorKind::Method);

        // Check described function
        let func = desc.described_function();
        assert!(func.is_some());
        let func = func.unwrap();
        assert_eq!(func.name(), Some("container"));
        assert_eq!(func.containing_type(), Some("Encoder"));
        assert!(func.is_generic());

        // Check generic requirements
        let requirements = desc.generic_requirements();
        assert!(!requirements.is_empty());

        assert_eq!(desc.module(), Some("Swift"));
    } else {
        panic!("Expected descriptor");
    }
}

#[test]
fn test_enum_case() {
    let mut ctx = Context::new();
    // enum case for Swift.Mirror.DisplayStyle.enum
    let symbol = parse(&mut ctx, "$ss6MirrorV12DisplayStyleO4enumyA2DmFWC").unwrap();
    assert!(symbol.is_enum_case());
    if let Symbol::EnumCase(ec) = symbol {
        assert_eq!(ec.case_name(), Some("enum"));
        assert_eq!(ec.containing_type(), Some("DisplayStyle"));
        assert_eq!(ec.module(), Some("Swift"));
        assert!(!ec.has_associated_values());
    } else {
        panic!("Expected enum case");
    }
}

#[test]
fn test_simple_function() {
    let mut ctx = Context::new();
    let symbol = parse(&mut ctx, "$s4main5helloSSyYaKF").unwrap();
    if let Symbol::Function(func) = symbol {
        assert_eq!(func.name(), Some("hello"));
        assert_eq!(func.module(), Some("main"));
        assert!(func.is_async());
        assert!(func.is_throwing());
        assert!(!func.is_method());
    } else {
        panic!("Expected function");
    }
}

#[test]
fn test_method() {
    let mut ctx = Context::new();
    // foo.bar.bas(zim: foo.zim) -> ()
    let symbol = parse(&mut ctx, "_TFC3foo3bar3basfT3zimCS_3zim_T_").unwrap();
    if let Symbol::Function(func) = symbol {
        assert_eq!(func.name(), Some("bas"));
        assert_eq!(func.module(), Some("foo"));
        assert!(func.is_method());
        assert_eq!(func.containing_type(), Some("bar"));
    } else {
        panic!("Expected function");
    }
}

#[test]
fn test_function_signature() {
    let mut ctx = Context::new();
    let symbol = parse(&mut ctx, "$s4main5helloSSyYaKF").unwrap();
    if let Symbol::Function(func) = symbol {
        let sig = func.signature().expect("Expected signature");
        assert!(sig.is_async());
        assert!(sig.is_throwing());
        assert!(sig.return_type().is_some());
    } else {
        panic!("Expected function");
    }
}

#[test]
fn test_function_display() {
    let mut ctx = Context::new();
    let symbol = parse(&mut ctx, "$s4main5helloSSyYaKF").unwrap();
    if let Symbol::Function(func) = symbol {
        let display = func.to_string();
        assert!(display.contains("hello"));
    } else {
        panic!("Expected function");
    }
}

#[test]
fn test_is_function_type() {
    assert!(NodeKind::FunctionType.is_function_type());
    assert!(NodeKind::NoEscapeFunctionType.is_function_type());
    assert!(NodeKind::ThinFunctionType.is_function_type());
    assert!(!NodeKind::Module.is_function_type());
    assert!(!NodeKind::Class.is_function_type());
}

#[test]
fn test_is_type_context() {
    assert!(NodeKind::Class.is_type_context());
    assert!(NodeKind::Structure.is_type_context());
    assert!(NodeKind::Enum.is_type_context());
    assert!(NodeKind::Protocol.is_type_context());
    assert!(NodeKind::Extension.is_type_context());
    assert!(!NodeKind::Module.is_type_context());
    assert!(!NodeKind::FunctionType.is_type_context());
}

#[test]
fn test_type_metadata() {
    let mut ctx = Context::new();
    // type metadata for Swift.UInt16
    let symbol = parse(&mut ctx, "$ss6UInt16VN").unwrap();
    assert!(symbol.is_metadata());
    if let Symbol::Metadata(meta) = symbol {
        assert_eq!(meta.kind(), MetadataKind::Type);
        let meta_type = meta.metadata_type().expect("should have metadata type");
        // Module info is in the type: Swift.UInt16
        assert!(meta_type.to_string().contains("Swift"));
    } else {
        panic!("Expected metadata");
    }
}

#[test]
fn test_type_metadata_access_function() {
    let mut ctx = Context::new();
    // type metadata accessor for Swift.Int
    let symbol = parse(&mut ctx, "$sSiMa").unwrap();
    assert!(symbol.is_metadata());
    if let Symbol::Metadata(meta) = symbol {
        assert_eq!(meta.kind(), MetadataKind::AccessFunction);
        assert!(meta.is_accessor());
        let meta_type = meta.metadata_type().expect("should have metadata type");
        // Module info is in the type: Swift.Int
        assert!(meta_type.to_string().contains("Swift"));
    } else {
        panic!("Expected metadata");
    }
}

#[test]
fn function_info_getters_return_its_parts() {
    // The parts the demangler reports for `$s4main5helloSSyYaKF`.
    let info = FunctionInfo::new(
        Some("main".to_string()),
        Some("hello".to_string()),
        Some("main.hello() async throws -> Swift.String".to_string()),
        true,
        true,
        false,
        Vec::new(),
        Some("Swift.String".to_string()),
    );

    assert_eq!(info.module_name(), Some("main"));
    assert_eq!(info.function_name(), Some("hello"));
    assert_eq!(info.full_name(), Some("main.hello() async throws -> Swift.String"));
    assert!(info.is_async());
    assert!(info.is_throwing());
    assert!(!info.has_typed_throws());
    assert!(info.parameter_types().is_empty());
    assert_eq!(info.return_type(), Some("Swift.String"));
}

#[test]
fn test_prespecialization() {
    let mut ctx = Context::new();
    // generic pre-specialization <Swift.AnyObject> of Array._createNewBuffer
    let symbol = parse(
        &mut ctx,
        "$sSa16_createNewBuffer14bufferIsUnique15minimumCapacity13growForAppendySb_SiSbtFyXl_Ts5",
    )
    .unwrap();
    assert!(symbol.is_specialization());
    if let Symbol::Specialization(SpecializedSymbol { specialization, inner }) = symbol {
        assert_eq!(specialization.kind(), SpecializationKind::Prespecialized);
        assert_eq!(specialization.pass_id(), Some(5));
        let type_args = specialization.type_arguments();
        assert_eq!(type_args.len(), 1);
        // Inner should be a function
        assert!(inner.is_function());
    } else {
        panic!("Expected specialization");
    }
}

#[test]
fn test_function_signature_specialization() {
    let mut ctx = Context::new();
    // function signature specialization with closure propagation
    let symbol = parse(
        &mut ctx,
        "_TTSf1cl35_TFF7specgen6callerFSiT_U_FTSiSi_T_Si___TF7specgen12take_closureFFTSiSi_T_T_",
    )
    .unwrap();
    assert!(symbol.is_specialization());
    if let Symbol::Specialization(SpecializedSymbol { specialization, inner }) = symbol {
        assert_eq!(specialization.kind(), SpecializationKind::FunctionSignature);
        assert_eq!(specialization.pass_id(), Some(1));

        // Should have function signature params, not type arguments
        let type_args = specialization.type_arguments();
        assert!(type_args.is_empty());

        let func_params = specialization.function_signature_params();
        assert_eq!(func_params.len(), 1);

        let param = &func_params[0];
        assert_eq!(param.kind(), FunctionSignatureParamKind::ClosureProp);
        assert!(!param.flags().any()); // No flags set

        // Should have payload (the closure mangled name)
        assert!(!param.payloads().is_empty());

        // Should have one type argument (Int)
        let types = param.types();
        assert_eq!(types.len(), 1);

        // Inner should be a function
        assert!(inner.is_function());
    } else {
        panic!("Expected specialization");
    }
}

#[test]
fn test_nested_function_signature_specialization() {
    let mut ctx = Context::new();
    // Nested specialization: spec of spec of constructor
    let symbol = parse(
        &mut ctx,
        "_TTSf2dgs___TTSf2s_d___TFVs17_LegacyStringCoreCfVs13_StringBufferS_",
    )
    .unwrap();
    assert!(symbol.is_specialization());

    // Outer specialization
    if let Symbol::Specialization(SpecializedSymbol { specialization, inner }) = symbol {
        assert_eq!(specialization.kind(), SpecializationKind::FunctionSignature);

        let func_params = specialization.function_signature_params();
        assert_eq!(func_params.len(), 1);
        let flags = func_params[0].flags();
        assert!(flags.dead);
        assert!(flags.owned_to_guaranteed);
        assert!(flags.exploded);

        // Inner should also be a specialization
        assert!(inner.is_specialization());
        if let Symbol::Specialization(SpecializedSymbol {
            specialization: inner_spec,
            inner: innermost,
        }) = inner.as_ref()
        {
            assert_eq!(inner_spec.kind(), SpecializationKind::FunctionSignature);

            let inner_params = inner_spec.function_signature_params();
            assert_eq!(inner_params.len(), 2);
            assert!(inner_params[0].flags().exploded);
            assert!(inner_params[1].flags().dead);

            // Innermost should be a constructor
            assert!(innermost.is_constructor());
        } else {
            panic!("Expected inner specialization");
        }
    } else {
        panic!("Expected specialization");
    }
}

#[test]
fn test_parse_function() {
    let mut ctx = Context::new();
    let symbol = parse(&mut ctx, "$s4main5helloSSyYaKF").unwrap();
    assert!(symbol.is_function());
}

#[test]
fn test_parse_variable() {
    let mut ctx = Context::new();
    // foo.bar : Swift.Int
    let symbol = parse(&mut ctx, "_Tv3foo3barSi").unwrap();
    assert!(symbol.is_variable());
    if let Symbol::Variable(var) = symbol {
        assert_eq!(var.name(), Some("bar"));
        assert_eq!(var.module(), Some("foo"));
    }
}

#[test]
fn test_parse_getter() {
    let mut ctx = Context::new();
    // foo.bar.getter : Swift.Int
    let symbol = parse(&mut ctx, "_TF3foog3barSi").unwrap();
    assert!(symbol.is_accessor());
}

#[test]
fn test_parse_setter() {
    let mut ctx = Context::new();
    // foo.bar.setter : Swift.Int
    let symbol = parse(&mut ctx, "_TF3foos3barSi").unwrap();
    assert!(symbol.is_accessor());
}

#[test]
fn test_symbol_display() {
    let mut ctx = Context::new();
    let symbol = parse(&mut ctx, "$s4main5helloSSyYaKF").unwrap();
    let display = symbol.display();
    assert!(display.contains("hello"));
}

#[test]
fn test_symbol_as_methods() {
    let mut ctx = Context::new();
    let symbol = parse(&mut ctx, "$s4main5helloSSyYaKF").unwrap();
    assert!(symbol.as_function().is_some());
    assert!(symbol.as_constructor().is_none());
    assert!(symbol.as_accessor().is_none());
}

#[test]
fn test_dispatch_thunk() {
    let mut ctx = Context::new();
    // dispatch thunk of Swift.SetAlgebra.init<A>(__owned A1) -> A
    let symbol = parse(&mut ctx, "$ss10SetAlgebraPyxqd__ncSTRd__7ElementQyd__ACRtzlufCTj").unwrap();
    assert!(symbol.is_thunk());
    if let Symbol::Thunk(Thunk::Dispatch { inner, kind, .. }) = symbol {
        assert_eq!(kind, DispatchKind::Protocol);
        assert!(inner.is_constructor());
    } else {
        panic!("Expected dispatch thunk");
    }
}

#[test]
fn test_protocol_witness() {
    let mut ctx = Context::new();
    // protocol witness for call_protocol.P.foo() -> Swift.Int in conformance call_protocol.C : call_protocol.P
    let symbol = parse(&mut ctx, "_TTWC13call_protocol1CS_1PS_FS1_3foofT_Si").unwrap();
    assert!(symbol.is_thunk());
    if let Symbol::Thunk(Thunk::ProtocolWitness(thunk)) = symbol {
        // Check conformance
        let conformance = thunk.conformance();
        assert!(conformance.is_some());
        let conformance = conformance.unwrap();
        assert!(conformance.conforming_type().is_some());
        assert!(conformance.protocol().is_some());
        assert_eq!(conformance.module(), Some("call_protocol"));

        // Check inner function
        let inner = thunk.inner();
        assert!(inner.is_some());
        if let Some(Symbol::Function(func)) = inner {
            assert_eq!(func.name(), Some("foo"));
            assert_eq!(func.containing_type(), Some("P"));
        } else {
            panic!("Expected function as inner symbol");
        }
    } else {
        panic!("Expected protocol witness thunk");
    }
}

#[test]
fn test_protocol_witness_table() {
    let mut ctx = Context::new();
    // protocol witness table for Swift.Mirror.DisplayStyle : Swift.Equatable in Swift
    let symbol = parse(&mut ctx, "$ss6MirrorV12DisplayStyleOSQsWP").unwrap();
    assert!(symbol.is_witness_table());
    if let Symbol::WitnessTable(wt) = symbol {
        assert_eq!(wt.kind(), WitnessTableKind::Protocol);
        assert!(wt.conforming_type().is_some());
        assert!(wt.protocol().is_some());
        assert_eq!(wt.conformance_module(), Some("Swift"));
    } else {
        panic!("Expected witness table");
    }
}

#[test]
fn root_node_is_borrowed_from_context() {
    let mut ctx = Context::new();
    let i = ctx.add(demangled_tree("$s4main5helloSSyYaKF"));
    assert_eq!(ctx.len(), 1);
    let root: Node = ctx.root(i).unwrap();
    assert_eq!(root.kind(), NodeKind::Global);
    assert_eq!(root.num_children(), 1);
    assert!(ctx.root(1).is_none());
    ctx.clear();
    assert_eq!(ctx.len(), 0);
}
