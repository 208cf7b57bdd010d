# lua_to_ts

Converts Luau (Roblox Lua) source files and Roblox model files into
TypeScript. Code that cannot be converted becomes a call to `error` that
names the code and the reason.

The conversion itself is a library whose behaviour is proved with Verus:

- `src/lua.rs` and `src/roblox.rs` hold the trees that the library reads: a
  parsed Luau file and the instances of a model;
- `src/ts.rs` holds the TypeScript tree it writes, and the mathematical model
  of that tree that the contracts speak of;
- `src/expressions`, `src/statements` and `src/types` transform Luau
  expressions, statements and type annotations; `src/roblox.rs` turns a model
  into interfaces, sorted by name;
- `src/accepted.rs` and `src/acceptance.rs` say which trees the
  transformation accepts; `src/let_bindings.rs` proves that every variable it
  declares is a `let`;
- `src/parsing.rs` parses Luau source with full_moon, and turns a parser's or
  a model decoder's error into the outcome that is reported;
- `src/driver.rs` holds the decisions of the command line tool: the kind of a
  file, where its output goes, and what a run reports and exits with.

`app/` is the command line tool around the library: it reads the files, has
the library parse Luau source, decodes models with rbx_binary and rbx_xml,
converts the parsed trees into the library's own,
prints the result with swc_ecma_codegen and writes it next to the input.

Known limits: Lua truthiness is not converted; numeric `for` loops need a
literal step; generic `for` loops need a single expression; every declaration
is a `let`.
