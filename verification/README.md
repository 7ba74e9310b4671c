# rune

A native module registry for a scripting runtime, verified with Verus, with
the declaration dispatch of the runtime's parser and the token-table logic of
its code generator.

- `src/module.rs`: modules of native functions, macros, constants, types and
  internal enums, and the rules by which registrations are accepted or
  refused. Each registry is stated over an abstract `ModuleView`.
- `src/native.rs`: the calling convention of native functions (argument
  count, arguments taken from the stack and converted, result pushed), and
  adapters that register plain functions and closures of up to two
  arguments, or an instance and one more argument.
- `src/laws.rs`: properties that span several registrations, and of the
  declaration parser.
- `src/assoc.rs`: maps kept as lists of entries with distinct keys.
- `src/item.rs`: item paths; `src/hash.rs`: hashes of functions and names.
- `src/runtime.rs`: values, their conversion to and from native values, the
  value stack, constants and machine errors.
- `src/ast.rs`: declarations and the parser's choice of declaration.
- `src/generate.rs`: the token table behind the generated lexer tables.
- `app/`: the generator program (YAML input, code output).
