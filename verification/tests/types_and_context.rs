//! Tests of type classification, symbol contexts and node traversal.
//!
//! Each mangled symbol is paired with the parse tree that the Swift demangler
//! produces for it; the library is run on that tree.

use swift_demangler::raw::{Node, NodeData, NodeKind};
use swift_demangler::{extract_context, Context, FunctionConvention, TypeKind, TypeRef};

fn leaf(kind: NodeKind) -> NodeData {
    NodeData::new(kind, None, None, Vec::new(), String::new())
}

fn text(kind: NodeKind, t: &str) -> NodeData {
    NodeData::new(kind, Some(t.to_string()), None, Vec::new(), t.to_string())
}

fn shown(kind: NodeKind, children: Vec<NodeData>, display: &str) -> NodeData {
    NodeData::new(kind, None, None, children, display.to_string())
}

fn node(kind: NodeKind, children: Vec<NodeData>) -> NodeData {
    shown(kind, children, "")
}

fn nominal(kind: NodeKind, module: &str, name: &str) -> NodeData {
    shown(
        kind,
        vec![text(NodeKind::Module, module), text(NodeKind::Identifier, name)],
        &format!("{module}.{name}"),
    )
}

fn ty(inner: NodeData) -> NodeData {
    let d = inner.display.clone();
    shown(NodeKind::Type, vec![inner], &d)
}

fn swift(name: &str) -> NodeData {
    ty(nominal(NodeKind::Structure, "Swift", name))
}

fn bound_generic(kind: NodeKind, base: NodeData, args: Vec<NodeData>) -> NodeData {
    node(kind, vec![ty(base), node(NodeKind::TypeList, args)])
}

fn function_like(kind: NodeKind, arg: NodeData, ret: NodeData) -> NodeData {
    node(
        kind,
        vec![node(NodeKind::ArgumentTuple, vec![arg]), node(NodeKind::ReturnType, vec![ret])],
    )
}

fn type_mangling(inner: NodeData) -> NodeData {
    node(NodeKind::Global, vec![node(NodeKind::TypeMangling, vec![ty(inner)])])
}

fn hello_tree() -> NodeData {
    node(
        NodeKind::Global,
        vec![shown(
            NodeKind::Function,
            vec![
                text(NodeKind::Module, "main"),
                text(NodeKind::Identifier, "hello"),
                ty(node(
                    NodeKind::FunctionType,
                    vec![
                        leaf(NodeKind::AsyncAnnotation),
                        leaf(NodeKind::ThrowsAnnotation),
                        node(NodeKind::ArgumentTuple, vec![ty(node(NodeKind::Tuple, Vec::new()))]),
                        node(NodeKind::ReturnType, vec![swift("String")]),
                    ],
                )),
            ],
            "main.hello() async throws -> Swift.String",
        )],
    )
}

fn method_tree() -> NodeData {
    node(
        NodeKind::Global,
        vec![node(
            NodeKind::Function,
            vec![
                nominal(NodeKind::Class, "foo", "bar"),
                text(NodeKind::Identifier, "bas"),
                ty(function_like(
                    NodeKind::FunctionType,
                    ty(node(
                        NodeKind::Tuple,
                        vec![node(
                            NodeKind::TupleElement,
                            vec![
                                text(NodeKind::TupleElementName, "zim"),
                                ty(nominal(NodeKind::Class, "foo", "zim")),
                            ],
                        )],
                    )),
                    ty(node(NodeKind::Tuple, Vec::new())),
                )),
            ],
        )],
    )
}

/// The parse tree of a mangled symbol.
fn demangled_tree(mangled: &str) -> NodeData {
    match mangled {
        "$sSi" => node(NodeKind::Global, vec![nominal(NodeKind::Structure, "Swift", "Int")]),
        "_TtFSiSS" => type_mangling(function_like(NodeKind::FunctionType, swift("Int"), swift("String"))),
        "_TtGSqSS_" => type_mangling(bound_generic(
            NodeKind::BoundGenericEnum,
            nominal(NodeKind::Enum, "Swift", "Optional"),
            vec![swift("String")],
        )),
        "_TtGSaSS_" => type_mangling(bound_generic(
            NodeKind::BoundGenericStructure,
            nominal(NodeKind::Structure, "Swift", "Array"),
            vec![swift("String")],
        )),
        "_TtGVs10DictionarySSSi_" => type_mangling(bound_generic(
            NodeKind::BoundGenericStructure,
            nominal(NodeKind::Structure, "Swift", "Dictionary"),
            vec![swift("String"), swift("Int")],
        )),
        "_TtcSiSu" => type_mangling(function_like(NodeKind::CFunctionPointer, swift("Int"), swift("UInt"))),
        "_TtbSiSu" => type_mangling(function_like(NodeKind::ObjCBlock, swift("Int"), swift("UInt"))),
        "_TtTSiSu_" => type_mangling(node(
            NodeKind::Tuple,
            vec![
                node(NodeKind::TupleElement, vec![swift("Int")]),
                node(NodeKind::TupleElement, vec![swift("UInt")]),
            ],
        )),
        "_TtT3fooSi3barSu_" => type_mangling(node(
            NodeKind::Tuple,
            vec![
                node(
                    NodeKind::TupleElement,
                    vec![text(NodeKind::TupleElementName, "foo"), swift("Int")],
                ),
                node(
                    NodeKind::TupleElement,
                    vec![text(NodeKind::TupleElementName, "bar"), swift("UInt")],
                ),
            ],
        )),
        "_TtMSi" => type_mangling(node(NodeKind::Metatype, vec![swift("Int")])),
        "_TtRSi" => type_mangling(node(NodeKind::InOut, vec![swift("Int")])),
        "$s4main5helloSSyYaKF" => hello_tree(),
        "_TFC3foo3bar3basfT3zimCS_3zim_T_" => method_tree(),
        other => panic!("no parse tree recorded for {other}"),
    }
}

/// Parse a mangled symbol into the context and return its root node.
fn parse_node<'a>(ctx: &'a mut Context, mangled: &str) -> Option<Node<'a>> {
    let i = ctx.add(demangled_tree(mangled));
    let ctx: &'a Context = ctx;
    ctx.root(i)
}

/// Parse a type mangling and return the inner type: the child of the first
/// `Type` node below the root.
fn parse_type<'a>(ctx: &'a mut Context, mangled: &str) -> Option<TypeRef<'a>> {
    let root = parse_node(ctx, mangled)?;
    root.descendant_of_kind(NodeKind::Type)
        .and_then(|n| n.child(0))
        .map(TypeRef::new)
}

#[test]
fn test_simple_type() {
    let mut ctx = Context::new();
    // Swift.Int - this produces Global -> Structure directly
    let root = parse_node(&mut ctx, "$sSi").unwrap();
    let type_ref = TypeRef::new(root.child(0).unwrap());
    assert!(matches!(type_ref.kind(), TypeKind::Named(_)));
}

#[test]
fn test_function_type() {
    let mut ctx = Context::new();
    // (Swift.Int) -> Swift.String
    let type_ref = parse_type(&mut ctx, "_TtFSiSS").expect("Should parse");
    if let TypeKind::Function(func) = type_ref.kind() {
        assert!(!func.is_async());
        assert!(!func.is_throwing());
        assert_eq!(func.convention(), FunctionConvention::Swift);
    } else {
        panic!("Expected function type");
    }
}

#[test]
fn test_optional_type() {
    let mut ctx = Context::new();
    // Swift.String? - produces BoundGenericEnum (Swift.Optional<String>)
    let type_ref = parse_type(&mut ctx, "_TtGSqSS_").expect("Should parse");
    // The classic mangling produces BoundGenericEnum, which is classified as Named
    if let TypeKind::Named(named) = type_ref.kind() {
        assert_eq!(named.name(), Some("Optional"));
        assert!(named.is_generic());
    } else {
        panic!("Expected named type for Optional");
    }
}

#[test]
fn test_array_type() {
    let mut ctx = Context::new();
    // [Swift.String] - produces BoundGenericStructure (Swift.Array<String>)
    let type_ref = parse_type(&mut ctx, "_TtGSaSS_").expect("Should parse");
    if let TypeKind::Named(named) = type_ref.kind() {
        assert_eq!(named.name(), Some("Array"));
        assert!(named.is_generic());
    } else {
        panic!("Expected named type for Array");
    }
}

#[test]
fn test_dictionary_type() {
    let mut ctx = Context::new();
    // [Swift.String : Swift.Int]
    let type_ref = parse_type(&mut ctx, "_TtGVs10DictionarySSSi_").expect("Should parse");
    if let TypeKind::Named(named) = type_ref.kind() {
        assert_eq!(named.name(), Some("Dictionary"));
        assert!(named.is_generic());
        let args = named.generic_args();
        assert_eq!(args.len(), 2);
    } else {
        panic!("Expected named type for Dictionary");
    }
}

#[test]
fn test_c_function_pointer() {
    let mut ctx = Context::new();
    // @convention(c) (Swift.Int) -> Swift.UInt
    let type_ref = parse_type(&mut ctx, "_TtcSiSu").expect("Should parse");
    if let TypeKind::Function(func) = type_ref.kind() {
        assert_eq!(func.convention(), FunctionConvention::C);
    } else {
        panic!("Expected function type");
    }
}

#[test]
fn test_block_type() {
    let mut ctx = Context::new();
    // @convention(block) (Swift.Int) -> Swift.UInt
    let type_ref = parse_type(&mut ctx, "_TtbSiSu").expect("Should parse");
    if let TypeKind::Function(func) = type_ref.kind() {
        assert_eq!(func.convention(), FunctionConvention::Block);
    } else {
        panic!("Expected function type");
    }
}

#[test]
fn test_tuple_type() {
    let mut ctx = Context::new();
    // (Swift.Int, Swift.UInt)
    let type_ref = parse_type(&mut ctx, "_TtTSiSu_").expect("Should parse");
    if let TypeKind::Tuple(elements) = type_ref.kind() {
        assert_eq!(elements.len(), 2);
    } else {
        panic!("Expected tuple type");
    }
}

#[test]
fn test_labeled_tuple() {
    let mut ctx = Context::new();
    // (foo: Swift.Int, bar: Swift.UInt)
    let type_ref = parse_type(&mut ctx, "_TtT3fooSi3barSu_").expect("Should parse");
    if let TypeKind::Tuple(elements) = type_ref.kind() {
        assert_eq!(elements.len(), 2);
        assert_eq!(elements[0].label(), Some("foo"));
        assert_eq!(elements[1].label(), Some("bar"));
    } else {
        panic!("Expected tuple type");
    }
}

#[test]
fn test_metatype() {
    let mut ctx = Context::new();
    // Swift.Int.Type
    let type_ref = parse_type(&mut ctx, "_TtMSi").expect("Should parse");
    assert!(matches!(type_ref.kind(), TypeKind::Metatype(_)), "Expected metatype");
}

#[test]
fn test_inout_type() {
    let mut ctx = Context::new();
    // inout Swift.Int
    let type_ref = parse_type(&mut ctx, "_TtRSi").expect("Should parse");
    assert!(matches!(type_ref.kind(), TypeKind::InOut(_)), "Expected inout type");
}

#[test]
fn test_named_type_generic_args() {
    let mut ctx = Context::new();
    // Swift.Optional<Swift.String>
    let type_ref = parse_type(&mut ctx, "_TtGSqSS_").expect("Should parse");
    if let TypeKind::Named(named) = type_ref.kind() {
        let args = named.generic_args();
        assert_eq!(args.len(), 1);
        // The argument should be String
        assert!(args[0].display().contains("String"));
    } else {
        panic!("Expected named type");
    }
}

#[test]
fn test_simple_function_context() {
    let mut ctx = Context::new();
    // main.hello() async throws -> Swift.String
    let root = parse_node(&mut ctx, "$s4main5helloSSyYaKF").unwrap();
    let func = root.child(0).unwrap();
    let context = extract_context(func);

    assert_eq!(context.module(), Some("main"));
}

#[test]
fn test_method_context() {
    let mut ctx = Context::new();
    // foo.bar.bas(zim: foo.zim) -> ()
    let root = parse_node(&mut ctx, "_TFC3foo3bar3basfT3zimCS_3zim_T_").unwrap();
    let func = root.child(0).unwrap();
    let context = extract_context(func);

    assert_eq!(context.module(), Some("foo"));
    assert_eq!(context.context_type_name(), Some("bar"));
}

#[test]
fn test_context_full_path() {
    let mut ctx = Context::new();
    // foo.bar.bas(zim: foo.zim) -> () - a method in class bar
    let root = parse_node(&mut ctx, "_TFC3foo3bar3basfT3zimCS_3zim_T_").unwrap();
    let func = root.child(0).unwrap();
    let context = extract_context(func);

    // full_path should contain the module and type
    let path = context.full_path();
    assert!(path.contains("foo"), "path should contain module 'foo': {path}");
    assert!(path.contains("bar"), "path should contain type 'bar': {path}");
}

#[test]
fn test_context_components() {
    let mut ctx = Context::new();
    let root = parse_node(&mut ctx, "_TFC3foo3bar3basfT3zimCS_3zim_T_").unwrap();
    let func = root.child(0).unwrap();
    let context = extract_context(func);

    let components = context.components();

    // Should have module and class components
    assert!(!components.is_empty(), "should have at least one component");

    // Verify we can find the module
    let has_module = components.iter().any(|c| c.name() == "foo");
    assert!(
        has_module,
        "should have module 'foo' in components: {:?}",
        components.iter().map(|c| c.name()).collect::<Vec<_>>()
    );
}

#[test]
fn test_context_and_nodes() {
    let mut ctx = Context::new();
    let root = parse_node(&mut ctx, "$s4main5helloSSyYaKF").unwrap();

    assert_eq!(root.kind(), NodeKind::Global);
    assert_eq!(root.num_children(), 1);

    let func = root.child(0).unwrap();
    assert_eq!(func.kind(), NodeKind::Function);
}

#[test]
fn test_children_iterator() {
    let mut ctx = Context::new();
    let root = parse_node(&mut ctx, "$s4main5helloSSyYaKF").unwrap();
    let func = root.child(0).unwrap();

    let children = func.children();
    assert!(!children.is_empty());

    // Should have Module, Identifier, Type children
    let kinds: Vec<_> = children.iter().map(|n| n.kind()).collect();
    assert!(kinds.contains(&NodeKind::Module));
    assert!(kinds.contains(&NodeKind::Identifier));
}

#[test]
fn test_descendants() {
    let mut ctx = Context::new();
    let root = parse_node(&mut ctx, "$s4main5helloSSyYaKF").unwrap();

    let module = root
        .descendants()
        .into_iter()
        .find(|n| n.kind() == NodeKind::Module)
        .unwrap();
    assert_eq!(module.text(), Some("main"));

    let identifier = root
        .descendants()
        .into_iter()
        .find(|n| n.kind() == NodeKind::Identifier)
        .unwrap();
    assert_eq!(identifier.text(), Some("hello"));

    // Can also collect all of a kind
    let all_identifiers: Vec<_> = root
        .descendants()
        .into_iter()
        .filter(|n| n.kind() == NodeKind::Identifier)
        .collect();
    assert!(!all_identifiers.is_empty());
}

#[test]
fn descendants_visit_last_child_subtree_first() {
    // Global -> [A -> [A1, A2], B -> [B1]]: the subtrees of the children are
    // enumerated from the last child to the first, each in pre-order.
    let tree = node(
        NodeKind::Global,
        vec![
            node(NodeKind::Class, vec![text(NodeKind::Identifier, "A1"), text(NodeKind::Identifier, "A2")]),
            node(NodeKind::Structure, vec![text(NodeKind::Identifier, "B1")]),
        ],
    );
    let root = Node::new(&tree);
    let order: Vec<(NodeKind, Option<&str>)> =
        root.descendants().iter().map(|n| (n.kind(), n.text())).collect();
    assert_eq!(
        order,
        vec![
            (NodeKind::Structure, None),
            (NodeKind::Identifier, Some("B1")),
            (NodeKind::Class, None),
            (NodeKind::Identifier, Some("A1")),
            (NodeKind::Identifier, Some("A2")),
        ]
    );
    // Every child is among the descendants, and the root is not.
    assert_eq!(root.descendants().len(), 5);
    assert!(root.descendants().iter().all(|n| n.kind() != NodeKind::Global));
}

#[test]
fn empty_text_reads_as_absent() {
    let tree = NodeData::new(NodeKind::Identifier, Some(String::new()), None, Vec::new(), String::new());
    let n = Node::new(&tree);
    assert!(n.has_text());
    assert_eq!(n.text(), None);
    assert!(!n.has_index());
    assert_eq!(n.child(0).map(|c| c.kind()), None);
}

#[test]
fn child_of_kind_is_also_a_descendant_of_kind() {
    let mut ctx = Context::new();
    let root = parse_node(&mut ctx, "_TFC3foo3bar3basfT3zimCS_3zim_T_").unwrap();
    let func = root.child(0).unwrap();
    assert!(func.child_of_kind(NodeKind::Class).is_some());
    assert!(func.descendant_of_kind(NodeKind::Class).is_some());
    assert_eq!(func.find_containing_type(), Some("bar"));
    assert_eq!(func.find_module(), Some("foo"));
    assert_eq!(func.extract_labels(), Vec::<Option<&str>>::new());
}

#[test]
fn context_components_name_module_then_type() {
    let mut ctx = Context::new();
    let root = parse_node(&mut ctx, "_TFC3foo3bar3basfT3zimCS_3zim_T_").unwrap();
    let context = extract_context(root.child(0).unwrap());
    assert_eq!(context.full_path(), "foo.bar");
    assert_eq!(context.to_string(), "foo.bar");
    assert!(!context.is_extension());
    let components = context.components();
    assert_eq!(components.len(), 2);
    assert!(!components[0].is_type());
    assert!(components[1].is_type());
}

#[test]
fn function_type_parameters_and_return() {
    let mut ctx = Context::new();
    let type_ref = parse_type(&mut ctx, "_TtFSiSS").unwrap();
    if let TypeKind::Function(func) = type_ref.kind() {
        let params = func.parameters();
        assert_eq!(params.len(), 1);
        assert_eq!(params[0].label, None);
        assert!(!params[0].is_variadic);
        assert_eq!(params[0].type_ref.display(), "Swift.Int");
        assert_eq!(func.return_type().unwrap().display(), "Swift.String");
        assert!(func.thrown_error_type().is_none());
    } else {
        panic!("Expected function type");
    }
}
