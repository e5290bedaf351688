# derive_builder

A verified library that derives builders for Rust structs: from a plain
description of a struct (its name, visibility, generics, fields and
attributes) it produces the source text of a builder struct with a setter
for each field, a build method and an error type, or the compile errors
found in the struct's `#[builder(...)]` attributes.

Layout:

- `src/` is the library, verified with Verus.
  - `macro_options/` reads the `#[builder(...)]` options of the struct and
    of its fields, reporting every error it finds;
  - `setter.rs`, `builder_field.rs`, `initializer.rs`,
    `field_default_value.rs`, `build_method.rs`, `builder.rs`,
    `error_type.rs` and `try_from.rs` generate the parts of the builder;
  - `derive.rs` puts them together;
  - `legacy/` is the first generation of the derive, with its own options
    (`setter(skip)`, `setter_prefix`, `pattern`, `name`, ...);
  - `expanded/` holds builders written out as the derive expands them;
  - `laws.rs`, `legacy/laws.rs`, `macro_options/reporting.rs`,
    `macro_options/independence.rs` and `macro_options/splitting.rs` state
    and prove what holds of every input.
  - `syntax.rs` is where the library asks `syn` whether a piece of text is
    an identifier (and which), a path, a type, a visibility, a meta item or
    the inside of a block, always under `proc_macro2`'s own lexer so that the
    answer is the same in a test and in the derive. The library reports its
    own messages for text that does not parse.
- `app/` holds the derive entry points: they read the input with `syn`,
  call the library and turn its text into tokens.
- `tests/` runs the library on concrete inputs.
