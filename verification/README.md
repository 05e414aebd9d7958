# builder_code

Code generation for a type-state builder derive. For a struct with named
fields `f1 … fn`, it generates:

- `NameBuilder<T>`, holding each field as an `Option`, with one marker type per
  field (`f1OfNameBuilder`, …) plus `FinalBuilder` as its state;
- `Name::builder()`, which starts in the state of the first field;
- one setter per field, `fi(self, input)`, defined only in the state of `fi`
  and moving to the state of `fi+1` (the last one to `FinalBuilder`);
- `build()`, defined in every state; it panics naming the first field that was
  never set.

Layout:

- `src/model.rs` — the struct as the generator reads it (names, type text,
  attributes);
- `src/util.rs`, `src/fields.rs` — the generators, each with the text it
  produces as its contract (exact, except for the escapes inside the string
  literal that names a field whose name is not plain ASCII);
- `src/laws.rs` — the type-state law (from `builder()`, a sequence of setter
  calls reaches `FinalBuilder` exactly when it calls each field's setter once,
  in declaration order) and the laws of the values the builder holds;
- `src/syntax.rs` — the calls into `syn`, `quote` and `proc-macro2` that read
  the input tokens and lex the output, with names for what they read;
- `src/derive.rs` — `create_builder`, from input tokens to output tokens;
- `app/lib.rs` — the panicking entry point a procedural macro uses.
