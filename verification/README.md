# swift-demangler

A verified library for reading demangled Swift symbols.

The Swift demangler turns a mangled name into a tree of nodes. This library
takes such a tree (held in a `Context` as `NodeData` values) and reads
structured information out of it: which kind of symbol it is (function,
accessor, constructor, closure, thunk, specialization, metadata, ...), the
module, containing type, labels, signature, generic requirements and so on.

Every function in `src/` is verified with Verus against a contract stated over
a mathematical model of the node tree (`NodeData`, its children as a `Seq`,
and spec functions such as `classify_spec`, `from_node_spec` and the search
specs in `search.rs`). Proof functions named `lemma_*` state properties of the
library as a whole, for example that a chain of specializations has one layer
per specialization sibling, or that a classified symbol refers back to the
node it was read from.

Layout:

- `src/raw/`: the node tree, node kinds, the arena `Context` and `FunctionInfo`.
- `src/search.rs`, `src/helpers.rs`: searches over the tree and the shared
  lookups (module, containing type, labels, generic signature, extensions).
- `src/types.rs`: type references and their classification.
- `src/symbol.rs`: symbol classification, with the model `SymbolView`.
- the other modules: one per kind of symbol.
- `app/`: the command-line program, which calls the C++ demangler through its
  C interface, turns the result into a `NodeData` tree and prints what the
  library reads from it.
