# macro_gen

The logic of a small collection of procedural macros, verified with Verus.

Each macro reads its input with `syn` (or `venial`, or `proc_macro2`'s token trees), turns
what it reads into plain values (names, field lists, token texts), and writes the Rust
source text of its expansion. The writing is verified against specifications of the text
that each macro produces:

- `hello`: `#[derive(Hello)]` and `#[derive(UpperCaseName)]`;
- `public`: `#[public]`, every field made `pub`;
- `private`: `private!`, private fields with a getter each;
- `compose`: `compose!(f >> g >> h)` and `gen_hello_world!(T)`;
- `builder`: the pieces of a builder for a struct's fields;
- `panic_result`: `#[panic_to_result]`, panics turned into `Err` returns;
- `syntax`: the calls into `syn`, `venial`, `proc_macro2` and `quote`, with the contracts
  that the rest relies on;
- `declaration`: what venial's declaration parser asks of a declaration before it
  returns (`venial_reads`), decided from syn's generic parameters and from the tokens;
- `model`, `derive`, `text`, `decimal`: the plain values and the text building they share.

What the parsers read is named in `syntax` (`derive_of`, `venial_of`, `ident_of`,
`top_level_tokens`, `fn_of`, ...), so each macro's contract says which text it writes
for which input. Inputs on which a macro, or a parser that it calls, would panic are left
out by `requires`; the `try_` functions beside them take any input and say which error,
with which message, each one gets.

`app/` holds the macros' entry points on `proc_macro::TokenStream`: it parses the
generated text back into tokens and reports each error as a compile error or a panic, as the macro in question does.
