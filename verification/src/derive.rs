//! Reading the declaration that a derive or an attribute macro receives into plain values.
use crate::builder::field_decls;
use crate::model::{field_views, Body, DeriveDecl, FieldDecl, FieldView, MacroError, ParamDecl};
use crate::syntax::{
    attribute_text, attribute_text_of, derive_attributes, derive_body, derive_ident, derive_of, input_view,
    param_at, param_count, parse_derive_input, DeriveBody,
};
use crate::text::{
    concat, contains, lemma_concat_append, lemma_concat_contains, lemma_concat_single, lemma_contains_extend, lemma_concat_step, opt_text, views,
};
use proc_macro2::TokenStream;
use syn::{Attribute, DeriveInput};
use vstd::prelude::*;

verus! {

/// The outer attributes, each followed by a space.
pub open spec fn attrs_text(attrs: Seq<Seq<char>>) -> Seq<char> {
    concat(attrs.map_values(|a: Seq<char>| a + " "@))
}

/// Every outer attribute, followed by a space, occurs in the attributes' text.
pub proof fn attrs_text_holds_each(attrs: Seq<Seq<char>>, i: int)
    requires
        0 <= i < attrs.len(),
    ensures
        contains(attrs_text(attrs), attrs[i] + " "@),
{
    lemma_concat_contains(attrs.map_values(|a: Seq<char>| a + " "@), i);
}

/// One more attribute is written after the others, followed by a space.
pub proof fn attrs_text_push(attrs: Seq<Seq<char>>, a: Seq<char>)
    ensures
        attrs_text(attrs.push(a)) == attrs_text(attrs) + a + " "@,
{
    let parts = attrs.map_values(|x: Seq<char>| x + " "@);
    assert(attrs.push(a).map_values(|x: Seq<char>| x + " "@) =~= parts + seq![a + " "@]);
    lemma_concat_append(parts, seq![a + " "@]);
    lemma_concat_single(a + " "@);
    assert(attrs_text(attrs) + (a + " "@) =~= attrs_text(attrs) + a + " "@);
}

/// A text that begins with the attributes' text holds every attribute followed by a space.
pub proof fn lemma_head_holds_attrs(text: Seq<char>, attrs: Seq<Seq<char>>)
    requires
        text.take(attrs_text(attrs).len() as int) == attrs_text(attrs),
        attrs_text(attrs).len() <= text.len(),
    ensures
        forall|i: int| 0 <= i < attrs.len() ==> contains(text, #[trigger] attrs[i] + " "@),
{
    let n = attrs_text(attrs).len() as int;
    assert(text =~= attrs_text(attrs) + text.skip(n));
    assert forall|i: int| 0 <= i < attrs.len() implies contains(text, #[trigger] attrs[i] + " "@) by {
        attrs_text_holds_each(attrs, i);
        lemma_contains_extend(attrs_text(attrs), attrs[i] + " "@, text.skip(n));
    }
}

/// The declaration's outer attributes, each followed by a space.
pub fn write_attrs(attrs: &Vec<String>) -> (r: String)
    ensures
        r@ == attrs_text(views(attrs@)),
{
    let ghost parts = views(attrs@).map_values(|a: Seq<char>| a + " "@);
    let mut r = String::new();
    for i in 0..attrs.len()
        invariant
            parts == views(attrs@).map_values(|a: Seq<char>| a + " "@),
            r@ == concat(parts.take(i as int)),
    {
        proof {
            lemma_concat_step(parts, i as int);
        }
        r.append(attrs[i].as_str());
        r.append(" ");
    }
    assert(parts.take(attrs.len() as int) =~= parts);
    r
}

/// How a field is written in a generated declaration.
#[derive(Debug, Clone, Copy)]
pub enum FieldStyle {
    /// `pub name: Type, `
    PublicNamed,
    /// `pub Type, `
    PublicTuple,
    /// `name: Type, `
    PrivateNamed,
    /// `fn get_name(&self) -> &Type { &self.name } `
    Getter,
}

/// The text of one field in the given style.
pub open spec fn field_text(style: FieldStyle, f: FieldView) -> Seq<char> {
    match style {
        FieldStyle::PublicNamed => "pub "@ + opt_text(f.0) + ": "@ + f.1 + ", "@,
        FieldStyle::PublicTuple => "pub "@ + f.1 + ", "@,
        FieldStyle::PrivateNamed => opt_text(f.0) + ": "@ + f.1 + ", "@,
        FieldStyle::Getter => "fn get_"@ + opt_text(f.0) + "(&self) -> &"@ + f.1 + " { &self."@
            + opt_text(f.0) + " } "@,
    }
}

/// The text of all fields in the given style, in order.
pub open spec fn fields_text(style: FieldStyle, fields: Seq<FieldView>) -> Seq<char> {
    concat(fields.map_values(|f: FieldView| field_text(style, f)))
}

/// Writes one field in the given style.
pub fn write_field(style: FieldStyle, f: &FieldDecl, out: &mut String)
    ensures
        final(out)@ == old(out)@ + field_text(style, f@),
{
    let name = match &f.name {
        Some(n) => n.as_str(),
        None => "",
    };
    proof {
        reveal_strlit("");
        assert(name@ == opt_text(f@.0));
    }
    match style {
        FieldStyle::PublicNamed => {
            out.append("pub ");
            out.append(name);
            out.append(": ");
            out.append(f.ty.as_str());
            out.append(", ");
        },
        FieldStyle::PublicTuple => {
            out.append("pub ");
            out.append(f.ty.as_str());
            out.append(", ");
        },
        FieldStyle::PrivateNamed => {
            out.append(name);
            out.append(": ");
            out.append(f.ty.as_str());
            out.append(", ");
        },
        FieldStyle::Getter => {
            out.append("fn get_");
            out.append(name);
            out.append("(&self) -> &");
            out.append(f.ty.as_str());
            out.append(" { &self.");
            out.append(name);
            out.append(" } ");
        },
    }
}

/// Writes all fields in the given style, in order.
pub fn write_fields(style: FieldStyle, fields: &Vec<FieldDecl>, out: &mut String)
    ensures
        final(out)@ == old(out)@ + fields_text(style, field_views(fields@)),
{
    let ghost start = out@;
    let ghost parts = field_views(fields@).map_values(|f: FieldView| field_text(style, f));
    for i in 0..fields.len()
        invariant
            parts == field_views(fields@).map_values(|f: FieldView| field_text(style, f)),
            out@ == start + concat(parts.take(i as int)),
    {
        proof {
            lemma_concat_step(parts, i as int);
        }
        write_field(style, &fields[i], out);
    }
    assert(parts.take(fields.len() as int) =~= parts);
}

/// The declaration as plain values: its name, the text of each outer attribute, its
/// body with the fields as `field_decls` reads them, and its generic parameters.
fn read_derive_input(d: &DeriveInput) -> (r: DeriveDecl)
    ensures
        r@ == input_view(*d),
{
    let name = derive_ident(d);
    let raw = derive_attributes(d);
    let mut attrs: Vec<String> = Vec::new();
    for i in 0..raw.len()
        invariant
            attrs@.len() == i,
            forall|k: int| 0 <= k < i ==> #[trigger] attrs@[k]@ == attribute_text_of(raw@[k]),
    {
        attrs.push(attribute_text(&raw[i]));
    }
    assert(attrs@.map_values(|a: String| a@) =~= raw@.map_values(|a: Attribute| attribute_text_of(a)));
    let body = match derive_body(d) {
        DeriveBody::Named(fields) => Body::Named(field_decls(&fields)),
        DeriveBody::Unnamed(fields) => Body::Unnamed(field_decls(&fields)),
        DeriveBody::Unit => Body::Unit,
        DeriveBody::Enum(variants) => Body::Enum(variants),
        DeriveBody::Union => Body::Union,
    };
    let n = param_count(d);
    let mut params: Vec<ParamDecl> = Vec::new();
    for i in 0..n
        invariant
            n == input_view(*d).params.len(),
            params@ == input_view(*d).params.take(i as int),
    {
        params.push(param_at(d, i));
        assert(params@ =~= input_view(*d).params.take(i + 1));
    }
    assert(input_view(*d).params.take(n as int) =~= input_view(*d).params);
    let r = DeriveDecl { name, attrs, body, params };
    assert(r@ =~= input_view(*d));
    r
}

/// Parses a struct, enum or union declaration: what syn reads (`derive_of`), or syn's
/// message as a `Parse` error.
pub fn parse_derive(item: TokenStream) -> (r: Result<DeriveDecl, MacroError>)
    ensures
        match derive_of(item) {
            Ok(v) => r matches Ok(d) && d@ == v,
            Err(m) => r matches Err(MacroError::Parse(e)) && e@ == m,
        },
{
    match parse_derive_input(item) {
        Ok(d) => Ok(read_derive_input(&d)),
        Err(m) => Err(MacroError::Parse(m)),
    }
}

} // verus!
