//! The `#[public]` attribute: the same declaration with every field made public.
use crate::derive::{attrs_text, fields_text, lemma_head_holds_attrs, parse_derive, write_attrs, write_fields, FieldStyle};
use crate::text::contains;
use crate::model::{Body, BodyView, DeriveDecl, DeriveView, MacroError};
use crate::syntax::derive_of;
use proc_macro2::TokenStream;
use vstd::prelude::*;

verus! {

/// Whether a declaration has a public version: a struct with named or tuple fields, or
/// an enum (a unit struct or a union has none).
pub open spec fn has_public_version(decl: DeriveView) -> bool {
    !(decl.body is Unit || decl.body is Union)
}

/// The public version of a declaration: the outer attributes, then a `pub` struct whose
/// fields are all `pub` (named or tuple), or a `pub` enum with the same variants.
/// Generics and the fields' own visibility are not written.
pub open spec fn public_text(decl: DeriveView) -> Seq<char> {
    let head = attrs_text(decl.attrs);
    match decl.body {
        BodyView::Named(fs) => head + "pub struct "@ + decl.name + " { "@ + fields_text(FieldStyle::PublicNamed, fs) + "}"@,
        BodyView::Unnamed(fs) => head + "pub struct "@ + decl.name + "("@ + fields_text(FieldStyle::PublicTuple, fs) + ");"@,
        BodyView::Enum(v) => head + "pub enum "@ + decl.name + " { "@ + v + " }"@,
        _ => seq![],
    }
}

/// The public version begins with all the declaration's outer attributes, in order, each
/// followed by a space, so each of them occurs in it.
pub proof fn public_keeps_attributes(decl: DeriveView)
    requires
        has_public_version(decl),
    ensures
        attrs_text(decl.attrs).len() <= public_text(decl).len(),
        public_text(decl).take(attrs_text(decl.attrs).len() as int) == attrs_text(decl.attrs),
        forall|i: int| 0 <= i < decl.attrs.len() ==> contains(public_text(decl), #[trigger] decl.attrs[i] + " "@),
{
    let head = attrs_text(decl.attrs);
    let rest = public_text(decl).skip(head.len() as int);
    match decl.body {
        BodyView::Named(fs) => {
            assert(public_text(decl) =~= head + ("pub struct "@ + decl.name + " { "@ + fields_text(FieldStyle::PublicNamed, fs) + "}"@));
        },
        BodyView::Unnamed(fs) => {
            assert(public_text(decl) =~= head + ("pub struct "@ + decl.name + "("@ + fields_text(FieldStyle::PublicTuple, fs) + ");"@));
        },
        BodyView::Enum(v) => {
            assert(public_text(decl) =~= head + ("pub enum "@ + decl.name + " { "@ + v + " }"@));
        },
        _ => {},
    }
    assert(public_text(decl).take(head.len() as int) =~= head);
    lemma_head_holds_attrs(public_text(decl), decl.attrs);
}

/// Writes the public version of a declaration.
pub fn public_version(decl: &DeriveDecl) -> (r: String)
    requires
        has_public_version(decl@),
    ensures
        r@ == public_text(decl@),
{
    let mut s = write_attrs(&decl.attrs);
    match &decl.body {
        Body::Named(fields) => {
            s.append("pub struct ");
            s.append(decl.name.as_str());
            s.append(" { ");
            write_fields(FieldStyle::PublicNamed, fields, &mut s);
            s.append("}");
        },
        Body::Unnamed(fields) => {
            s.append("pub struct ");
            s.append(decl.name.as_str());
            s.append("(");
            write_fields(FieldStyle::PublicTuple, fields, &mut s);
            s.append(");");
        },
        Body::Enum(variants) => {
            s.append("pub enum ");
            s.append(decl.name.as_str());
            s.append(" { ");
            s.append(variants.as_str());
            s.append(" }");
        },
        _ => {},
    }
    s
}

/// `#[public]`: the public version of the declaration that syn reads from the item, or
/// syn's message where it reads none. The attribute's own arguments are not read. A
/// unit struct or a union has no public version and is left out.
pub fn public(_attr: TokenStream, item: TokenStream) -> (r: Result<String, MacroError>)
    requires
        derive_of(item) matches Ok(v) ==> has_public_version(v),
    ensures
        match derive_of(item) {
            Ok(v) => r matches Ok(s) && s@ == public_text(v),
            Err(m) => r matches Err(MacroError::Parse(e)) && e@ == m,
        },
{
    let decl = parse_derive(item)?;
    Ok(public_version(&decl))
}

/// `#[public]` on any item: as `public`, and `Unsupported` for a unit struct or a union,
/// which have no public version.
pub fn try_public(_attr: TokenStream, item: TokenStream) -> (r: Result<String, MacroError>)
    ensures
        match derive_of(item) {
            Ok(v) => if has_public_version(v) {
                r matches Ok(s) && s@ == public_text(v)
            } else {
                r matches Err(MacroError::Unsupported(m)) && m@ == "only works for structs with named fields"@
            },
            Err(m) => r matches Err(MacroError::Parse(e)) && e@ == m,
        },
{
    let decl = parse_derive(item)?;
    if matches!(decl.body, Body::Unit | Body::Union) {
        return Err(MacroError::Unsupported(String::from_str("only works for structs with named fields")));
    }
    Ok(public_version(&decl))
}

} // verus!
