//! The `private!` macro: a struct whose fields are all private, with a getter per field.
use crate::derive::{attrs_text, lemma_head_holds_attrs, field_text, fields_text, parse_derive, write_attrs, write_field, write_fields, FieldStyle};
use crate::model::{field_views, Body, BodyView, DeriveDecl, DeriveView, FieldView, MacroError};
use crate::syntax::derive_of;
use crate::text::{concat, concat_all, contains, is_raw, raw_ident, views};
use proc_macro2::TokenStream;
use vstd::prelude::*;

verus! {

/// Whether every field can have a getter `get_<name>`: it has a name, and the name is not
/// a raw identifier (`get_r#type` is no identifier).
pub open spec fn getters_possible(fields: Seq<FieldView>) -> bool {
    forall|i: int| 0 <= i < fields.len() ==> (#[trigger] fields[i]).0 is Some && !is_raw(fields[i].0->0)
}

/// Whether a declaration has a private version: a struct with named fields, each of
/// which can have a getter.
pub open spec fn has_private_version(decl: DeriveView) -> bool {
    decl.body matches BodyView::Named(fs) && getters_possible(fs)
}

/// The getter methods of a struct with named fields, one per field, in order.
pub fn generated_methods(decl: &DeriveDecl) -> (r: Vec<String>)
    requires
        has_private_version(decl@),
    ensures
        decl@.body matches BodyView::Named(fs) && views(r@) == fs.map_values(
            |f: FieldView| field_text(FieldStyle::Getter, f),
        ),
{
    let mut methods: Vec<String> = Vec::new();
    match &decl.body {
        Body::Named(fields) => {
            for i in 0..fields.len()
                invariant
                    methods@.len() == i,
                    forall|k: int| 0 <= k < i ==> #[trigger] methods@[k]@ == field_text(FieldStyle::Getter, fields@[k]@),
            {
                let mut m = String::new();
                write_field(FieldStyle::Getter, &fields[i], &mut m);
                methods.push(m);
            }
            assert(views(methods@) =~= field_views(fields@).map_values(|f: FieldView| field_text(FieldStyle::Getter, f)));
        },
        _ => {},
    }
    methods
}

/// `#[public]` and `private!` write the same fields, in the same order, with the same
/// types: the public version puts `pub` before each.
pub proof fn public_and_private_fields_agree(fields: Seq<FieldView>)
    ensures
        fields_text(FieldStyle::PublicNamed, fields) == concat(
            fields.map_values(|f: FieldView| "pub "@ + field_text(FieldStyle::PrivateNamed, f)),
        ),
{
    assert forall|i: int| 0 <= i < fields.len() implies #[trigger] field_text(FieldStyle::PublicNamed, fields[i])
        == "pub "@ + field_text(FieldStyle::PrivateNamed, fields[i]) by {
        assert(field_text(FieldStyle::PublicNamed, fields[i]) =~= "pub "@ + field_text(FieldStyle::PrivateNamed, fields[i]));
    }
    assert(fields.map_values(|f: FieldView| field_text(FieldStyle::PublicNamed, f)) =~= fields.map_values(
        |f: FieldView| "pub "@ + field_text(FieldStyle::PrivateNamed, f),
    ));
}

/// Each field gets one getter, `get_` and the field's name, which returns a reference to
/// the field's type and reads that field.
pub proof fn getter_reads_its_field(f: FieldView)
    requires
        f.0 is Some,
    ensures
        field_text(FieldStyle::Getter, f) == "fn "@ + ("get_"@ + f.0->0) + "(&self) -> &"@ + f.1 + " { "@
            + ("&self."@ + f.0->0) + " } "@,
{
    reveal_strlit("fn get_");
    reveal_strlit("fn ");
    reveal_strlit("get_");
    reveal_strlit(" { &self.");
    reveal_strlit(" { ");
    reveal_strlit("&self.");
    assert(field_text(FieldStyle::Getter, f) =~= "fn "@ + ("get_"@ + f.0->0) + "(&self) -> &"@ + f.1 + " { "@
        + ("&self."@ + f.0->0) + " } "@);
}

/// The private version of a declaration: the outer attributes, a `pub` struct whose
/// fields are all private, and an `impl` with a getter per field.
pub open spec fn private_text(decl: DeriveView) -> Seq<char> {
    match decl.body {
        BodyView::Named(fs) => attrs_text(decl.attrs) + "pub struct "@ + decl.name + " { "@
            + fields_text(FieldStyle::PrivateNamed, fs) + "} impl "@ + decl.name + " { "@
            + fields_text(FieldStyle::Getter, fs) + "}"@,
        _ => seq![],
    }
}

/// The private version of a struct with named fields begins with all its outer
/// attributes, in order, each followed by a space, so each of them occurs in it.
pub proof fn private_keeps_attributes(decl: DeriveView)
    requires
        decl.body is Named,
    ensures
        attrs_text(decl.attrs).len() <= private_text(decl).len(),
        private_text(decl).take(attrs_text(decl.attrs).len() as int) == attrs_text(decl.attrs),
        forall|i: int| 0 <= i < decl.attrs.len() ==> contains(private_text(decl), #[trigger] decl.attrs[i] + " "@),
{
    let head = attrs_text(decl.attrs);
    let fs = decl.body->Named_0;
    assert(private_text(decl) =~= head + ("pub struct "@ + decl.name + " { "@ + fields_text(FieldStyle::PrivateNamed, fs)
        + "} impl "@ + decl.name + " { "@ + fields_text(FieldStyle::Getter, fs) + "}"@));
    assert(private_text(decl).take(head.len() as int) =~= head);
    lemma_head_holds_attrs(private_text(decl), decl.attrs);
}

/// Writes the private version of a declaration with its getters.
pub fn private_version(decl: &DeriveDecl) -> (r: String)
    requires
        has_private_version(decl@),
    ensures
        r@ == private_text(decl@),
{
    let methods = generated_methods(decl);
    let mut s = write_attrs(&decl.attrs);
    match &decl.body {
        Body::Named(fields) => {
            s.append("pub struct ");
            s.append(decl.name.as_str());
            s.append(" { ");
            write_fields(FieldStyle::PrivateNamed, fields, &mut s);
            s.append("} impl ");
            s.append(decl.name.as_str());
            s.append(" { ");
            let all = concat_all(&methods);
            s.append(all.as_str());
            s.append("}");
        },
        _ => {},
    }
    s
}

/// Whether every field of a list can have a getter.
fn getters_allowed(fields: &Vec<crate::model::FieldDecl>) -> (r: bool)
    ensures
        r == getters_possible(field_views(fields@)),
{
    for i in 0..fields.len()
        invariant
            forall|k: int| 0 <= k < i ==> (#[trigger] field_views(fields@)[k]).0 is Some && !is_raw(field_views(fields@)[k].0->0),
    {
        assert(field_views(fields@)[i as int] == fields@[i as int]@);
        let ok = match &fields[i].name {
            Some(n) => !raw_ident(n.as_str()),
            None => false,
        };
        if !ok {
            return false;
        }
    }
    true
}

/// `private!`: the private version of the declaration that syn reads from the item, or
/// syn's message where it reads none. Anything but a struct with named fields that can
/// all have getters is left out.
pub fn private(item: TokenStream) -> (r: Result<String, MacroError>)
    requires
        derive_of(item) matches Ok(v) ==> has_private_version(v),
    ensures
        match derive_of(item) {
            Ok(v) => r matches Ok(s) && s@ == private_text(v),
            Err(m) => r matches Err(MacroError::Parse(e)) && e@ == m,
        },
{
    let decl = parse_derive(item)?;
    Ok(private_version(&decl))
}

/// `private!` on any item: as `private`, and `Unsupported` for a declaration without a
/// private version.
pub fn try_private(item: TokenStream) -> (r: Result<String, MacroError>)
    ensures
        match derive_of(item) {
            Ok(v) => if has_private_version(v) {
                r matches Ok(s) && s@ == private_text(v)
            } else if v.body is Named {
                r matches Err(MacroError::Unsupported(m)) && m@ == "a getter needs a field name that is not a raw identifier"@
            } else {
                r matches Err(MacroError::Unsupported(m)) && m@ == "only works for structs with named fields"@
            },
            Err(m) => r matches Err(MacroError::Parse(e)) && e@ == m,
        },
{
    let decl = parse_derive(item)?;
    match &decl.body {
        Body::Named(fields) => {
            if !getters_allowed(fields) {
                return Err(MacroError::Unsupported(String::from_str("a getter needs a field name that is not a raw identifier")));
            }
        },
        _ => {
            return Err(MacroError::Unsupported(String::from_str("only works for structs with named fields")));
        },
    }
    Ok(private_version(&decl))
}

} // verus!
