# move_model

A verified model of Move programs as the Move prover sees them, written in Verus.

The environment (`env::GlobalEnv`) holds, as plain data, the source files of a package
and its dependencies, its modules, functions, structs, enums and named constants, the
information on the nodes of expressions, and the diagnostics reported so far. Every query
and update of the environment carries a contract over the mathematical view of that data,
and the laws that relate operations are stated and proved as public proof functions.

Layout of `src/`:

- `symbol`, `address`, `text`, `loc`, `ty`, `model`: symbols and their pool, account
  addresses, decimal and hexadecimal notation, locations, types and their instantiation,
  identifiers and verification scopes.
- `order`, `sorted_set`: the order of symbols and identifiers, by index and then by
  module, and sets of them held as vectors in that order.
- `env`: the environment, its modules and functions, the call graph and the module
  dependencies, and which functions are verified.
- `adding`: adding a module and the data of its structs, enums and constants.
- `files`: source files, file hashes and indices, standard address aliases, lines, columns
  and the display of locations.
- `structs`, `enums`, `constants`, `locals`, `names`: datatypes and their fields and
  variants, named constants, the locals of functions, and the names shown for items.
- `diag`, `nodes`: diagnostics and the information on expression nodes.
- `wellknown`, `natives`, `stubs`: the modules and functions the prover knows by name, the
  native functions it treats as deterministic or not aborting, and stub modules.
- `boogie`, `equality`: decisions of the Boogie backend that depend only on the model.

Not in the library: the translation of function bodies to Boogie, which works on the
stackless bytecode, its analyses and the Boogie helpers, and renders through templates and
a code writer; and the environment's extensions, values indexed by their Rust type. The
crates and sources that these rest on are not available here, and such values cannot be
held in verified code.

File hashes are SHA-256 digests computed with `sha2`, and source files come in the order of
their hashes.

`app/` writes diagnostics with `codespan_reporting` and holds the serialisable forms of
model data.
