//! Derives that add methods naming the type: `Hello` and `UpperCaseName`.
use crate::declaration::{venial_can_read, venial_reads};
use crate::derive::parse_derive;
use crate::model::{DeclView, DeclarationKind, MacroError};
use crate::syntax::{derive_of, parse_declaration, str_to_uppercase, to_uppercase, venial_of};
use proc_macro2::TokenStream;
use vstd::prelude::*;

verus! {

/// What `#[derive(Hello)]` adds to a type: `hello_world` prints "Hello" and the type's
/// name, `testing_testing` prints "one two three".
pub open spec fn hello_text(name: Seq<char>) -> Seq<char> {
    "impl "@ + name + " { fn hello_world(&self) { println!(\"Hello {}\", stringify!("@ + name
        + ")); } fn testing_testing() { println!(\"one two three\"); } }"@
}

/// What `#[derive(UpperCaseName)]` adds to a type: `uppercase` prints `upper`, the
/// uppercase form of the type's name, as a string literal. An identifier holds no `"` or
/// `\`, so the characters stand in the literal as they are (where a printer of tokens
/// might write some as escapes, the literal's value is the same).
pub open spec fn uppercase_text(name: Seq<char>, upper: Seq<char>) -> Seq<char> {
    "impl "@ + name + " { fn uppercase(&self) { println!(\"{}\", \""@ + upper + "\"); } }"@
}

/// Whether a declaration is a struct or an enum, the kinds that `Hello` handles.
pub open spec fn is_struct_or_enum(d: DeclView) -> bool {
    d is Struct || d is Enum
}

/// The name of a struct or an enum.
pub open spec fn decl_name(d: DeclView) -> Seq<char> {
    match d {
        DeclView::Struct(n) => n,
        DeclView::Enum(n) => n,
        DeclView::Other => seq![],
    }
}

/// The expansion of `Hello` for a struct or an enum.
pub fn hello_output(decl: &DeclarationKind) -> (r: String)
    requires
        is_struct_or_enum(decl@),
    ensures
        r@ == hello_text(decl_name(decl@)),
{
    let name = match decl {
        DeclarationKind::Struct(n) => n.as_str(),
        DeclarationKind::Enum(n) => n.as_str(),
        DeclarationKind::Other => "",
    };
    let mut s = String::from_str("impl ");
    s.append(name);
    s.append(" { fn hello_world(&self) { println!(\"Hello {}\", stringify!(");
    s.append(name);
    s.append(")); } fn testing_testing() { println!(\"one two three\"); } }");
    s
}

/// `#[derive(Hello)]`: the `impl` of `hello_output` for the struct or enum that venial
/// reads. The item must be a struct or an enum that venial reads: venial panics on what
/// it cannot read (`venial_reads`, checked on syn's reading), and the macro on any other
/// declaration.
pub fn hello(item: TokenStream) -> (r: String)
    requires
        derive_of(item) matches Ok(v) && venial_reads(item, v.params),
        venial_of(item) matches Ok(d) && is_struct_or_enum(d),
    ensures
        r@ == hello_text(decl_name(venial_of(item)->Ok_0)),
{
    match parse_declaration(item) {
        Ok(decl) => hello_output(&decl),
        Err(_) => String::new(),
    }
}

/// The message of `try_hello` for a declaration that venial's parser cannot read.
pub open spec fn unreadable_message() -> Seq<char> {
    "venial cannot parse this declaration"@
}

/// `#[derive(Hello)]` on any item: as `hello`. A stream that syn does not read as a
/// declaration, or venial refuses, is a `Parse` error with the parser's message; a
/// declaration on which venial's parser would panic, or that is neither a struct nor an
/// enum, is `Unsupported`.
pub fn try_hello(item: TokenStream) -> (r: Result<String, MacroError>)
    ensures
        match derive_of(item) {
            Err(m) => r matches Err(MacroError::Parse(e)) && e@ == m,
            Ok(v) => if !venial_reads(item, v.params) {
                r matches Err(MacroError::Unsupported(m)) && m@ == unreadable_message()
            } else {
                match venial_of(item) {
                    Err(m) => r matches Err(MacroError::Parse(e)) && e@ == m,
                    Ok(d) => if is_struct_or_enum(d) {
                        r matches Ok(s) && s@ == hello_text(decl_name(d))
                    } else {
                        r matches Err(MacroError::Unsupported(m)) && m@ == "only implemented for struct and enum"@
                    },
                }
            },
        },
{
    let decl = parse_derive(item.clone())?;
    if !venial_can_read(&item, &decl.params) {
        return Err(MacroError::Unsupported(String::from_str("venial cannot parse this declaration")));
    }
    match parse_declaration(item) {
        Ok(decl) => {
            if matches!(decl, DeclarationKind::Other) {
                return Err(MacroError::Unsupported(String::from_str("only implemented for struct and enum")));
            }
            Ok(hello_output(&decl))
        },
        Err(m) => Err(MacroError::Parse(m)),
    }
}

/// The expansion of `UpperCaseName` for a type named `name`.
pub fn uppercase_output(name: &str) -> (r: String)
    ensures
        r@ == uppercase_text(name@, str_to_uppercase(name@)),
{
    let upper = to_uppercase(name);
    let mut s = String::from_str("impl ");
    s.append(name);
    s.append(" { fn uppercase(&self) { println!(\"{}\", \"");
    s.append(upper.as_str());
    s.append("\"); } }");
    s
}

/// `#[derive(UpperCaseName)]`: the `impl` of `uppercase_output` for the name of the
/// declaration that syn reads, or syn's message where it reads none.
pub fn uppercase(item: TokenStream) -> (r: Result<String, MacroError>)
    ensures
        match derive_of(item) {
            Ok(v) => r matches Ok(s) && s@ == uppercase_text(v.name, str_to_uppercase(v.name)),
            Err(m) => r matches Err(MacroError::Parse(e)) && e@ == m,
        },
{
    let decl = parse_derive(item)?;
    Ok(uppercase_output(decl.name.as_str()))
}

} // verus!
