//! The pieces of a builder that a derive writes for a struct: the builder's fields, their
//! initial values, its setter methods, and the field values of the struct it builds.
use crate::decimal::{nat_text, u64_text};
use crate::model::{field_views, FieldDecl, FieldView};
use crate::syntax::{field_count, field_list, get_name_and_type};
use crate::text::{contains, lemma_contains_middle, strip_raw, unraw};
use proc_macro2::TokenStream;
use syn::punctuated::Punctuated;
use syn::token::Comma;
use syn::Field;
use vstd::prelude::*;

verus! {

/// The setter that takes an optional value is named `maybe_` and the field's name as it
/// is, where the name is not raw (`r#..`); of a raw name only the `r#` is left out.
pub proof fn maybe_setter_keeps_the_name(i: nat, f: FieldView)
    requires
        f.0 is Some,
    ensures
        !(f.0->0.len() >= 2 && f.0->0[0] == 'r' && f.0->0[1] == '#') ==> contains(
            methods_text(i, f),
            " pub fn maybe_"@ + f.0->0 + "(mut self, maybe_input: Option<"@,
        ),
        f.0->0.len() >= 2 && f.0->0[0] == 'r' && f.0->0[1] == '#' ==> contains(
            methods_text(i, f),
            " pub fn maybe_"@ + f.0->0.skip(2) + "(mut self, maybe_input: Option<"@,
        ),
{
    let n = f.0->0;
    crate::text::unraw_removes_only_the_raw_prefix(n);
    reveal_strlit(" = Some(input); self } pub fn ");
    reveal_strlit(" pub fn maybe_");
    reveal_strlit("maybe_");
    reveal_strlit("r#");
    reveal_strlit(" = Some(input); self }");
    reveal_strlit(" pub fn ");
    let u = unraw(n);
    if n.len() >= 2 && n[0] == 'r' && n[1] == '#' {
        assert(u =~= n.skip(2));
    }
    let piece = " pub fn maybe_"@ + u + "(mut self, maybe_input: Option<"@;
    let before = "pub fn "@ + n + "(mut self, input: "@ + f.1 + ") -> Self { self."@ + n + " = Some(input); self }"@;
    let after = f.1 + ">) -> Self { self."@ + n + " = maybe_input; self }"@;
    assert(methods_text(i, f) =~= before + piece + after);
    lemma_contains_middle(before, piece, after);
}

/// The builder's field for a struct field: `name: Option<Type>`, or `Option<Type>` in a
/// tuple struct.
pub open spec fn definition_text(f: FieldView) -> Seq<char> {
    match f.0 {
        Some(n) => n + ": Option<"@ + f.1 + ">"@,
        None => "Option<"@ + f.1 + ">"@,
    }
}

/// The initial value of a builder field: `name: None`, or `None` in a tuple struct.
pub open spec fn init_text(f: FieldView) -> Seq<char> {
    match f.0 {
        Some(n) => n + ": None"@,
        None => "None"@,
    }
}

/// A pair of setters: `method` takes a value, `maybe_method` an optional one; both
/// store into the builder field at `access` and hand the builder back.
pub open spec fn setters_text(method: Seq<char>, maybe_method: Seq<char>, access: Seq<char>, ty: Seq<char>) -> Seq<char> {
    "pub fn "@ + method + "(mut self, input: "@ + ty + ") -> Self { self."@ + access
        + " = Some(input); self } pub fn "@ + maybe_method + "(mut self, maybe_input: Option<"@
        + ty + ">) -> Self { self."@ + access + " = maybe_input; self }"@
}

/// The setters of the field at `i`: named after the field (`name` and `maybe_name`, the
/// latter without the `r#` of a raw name), or `field_i` and `maybe_field_i` in a tuple
/// struct, where they store into `self.i`.
pub open spec fn methods_text(i: nat, f: FieldView) -> Seq<char> {
    match f.0 {
        Some(n) => setters_text(n, "maybe_"@ + unraw(n), n, f.1),
        None => setters_text("field_"@ + nat_text(i), "maybe_field_"@ + nat_text(i), nat_text(i), f.1),
    }
}

/// The value of the field at `i` in the built struct: the builder's value, which must be
/// set, with a message naming the field in a string literal (an identifier needs no
/// escapes there), or its position written as a `usize` literal.
pub open spec fn setter_text(i: nat, f: FieldView) -> Seq<char> {
    match f.0 {
        Some(n) => n + ": self."@ + n + ".expect(concat!(\"field not set: \", \""@ + n + "\"),)"@,
        None => "self."@ + nat_text(i) + ".expect(concat!(\"field not set: \", "@ + nat_text(i)
            + "usize))"@,
    }
}

/// How the builder reaches the field at `i`: by its name, or by its position in a tuple struct.
pub open spec fn accessor(i: nat, f: FieldView) -> Seq<char> {
    match f.0 {
        Some(n) => n,
        None => nat_text(i),
    }
}

/// The pieces of a builder agree field by field: the builder field of a named field and
/// its initial value are keyed by the field's name, both setters of the field at `i`
/// store into the builder field at its accessor, and the built struct reads its value
/// from there.
pub proof fn builder_pieces_agree(i: nat, f: FieldView)
    ensures
        f.0 is Some ==> contains(definition_text(f), f.0->0 + ": Option<"@),
        f.0 is Some ==> contains(init_text(f), f.0->0 + ": None"@),
        f.0 is None ==> definition_text(f) == "Option<"@ + f.1 + ">"@,
        contains(methods_text(i, f), "self."@ + accessor(i, f) + " = Some(input);"@),
        contains(methods_text(i, f), "self."@ + accessor(i, f) + " = maybe_input;"@),
        contains(setter_text(i, f), "self."@ + accessor(i, f) + ".expect("@),
{
    reveal_strlit(") -> Self { self.");
    reveal_strlit(") -> Self { ");
    reveal_strlit("self.");
    reveal_strlit(" = Some(input); self } pub fn ");
    reveal_strlit(" = Some(input);");
    reveal_strlit(" self } pub fn ");
    reveal_strlit(">) -> Self { self.");
    reveal_strlit(">) -> Self { ");
    reveal_strlit(" = maybe_input; self }");
    reveal_strlit(" = maybe_input;");
    reveal_strlit(" self }");
    reveal_strlit(": self.");
    reveal_strlit(": ");
    reveal_strlit(".expect(concat!(\"field not set: \", \"");
    reveal_strlit(".expect(concat!(\"field not set: \", ");
    reveal_strlit(".expect(");
    reveal_strlit("concat!(\"field not set: \", \"");
    reveal_strlit("concat!(\"field not set: \", ");
    let (method, maybe, access) = match f.0 {
        Some(n) => (n, "maybe_"@ + unraw(n), n),
        None => ("field_"@ + nat_text(i), "maybe_field_"@ + nat_text(i), nat_text(i)),
    };
    assert(access == accessor(i, f));
    let ty = f.1;
    let m = methods_text(i, f);
    let a = "pub fn "@ + method + "(mut self, input: "@ + ty + ") -> Self { "@;
    let b = " self } pub fn "@ + maybe + "(mut self, maybe_input: Option<"@ + ty + ">) -> Self { self."@
        + access + " = maybe_input; self }"@;
    assert(m =~= a + ("self."@ + access + " = Some(input);"@) + b);
    lemma_contains_middle(a, "self."@ + access + " = Some(input);"@, b);
    let c = "pub fn "@ + method + "(mut self, input: "@ + ty + ") -> Self { self."@ + access
        + " = Some(input); self } pub fn "@ + maybe + "(mut self, maybe_input: Option<"@ + ty + ">) -> Self { "@;
    assert(m =~= c + ("self."@ + access + " = maybe_input;"@) + " self }"@);
    lemma_contains_middle(c, "self."@ + access + " = maybe_input;"@, " self }"@);
    match f.0 {
        Some(n) => {
            assert(definition_text(f) =~= seq![] + (n + ": Option<"@) + (f.1 + ">"@));
            lemma_contains_middle(seq![], n + ": Option<"@, f.1 + ">"@);
            assert(init_text(f) =~= seq![] + (n + ": None"@) + seq![]);
            lemma_contains_middle(seq![], n + ": None"@, seq![]);
            let rest = "concat!(\"field not set: \", \""@ + n + "\"),)"@;
            assert(setter_text(i, f) =~= (n + ": "@) + ("self."@ + n + ".expect("@) + rest);
            lemma_contains_middle(n + ": "@, "self."@ + n + ".expect("@, rest);
        },
        None => {
            let d = nat_text(i);
            let rest = "concat!(\"field not set: \", "@ + d + "usize))"@;
            assert(setter_text(i, f) =~= seq![] + ("self."@ + d + ".expect("@) + rest);
            lemma_contains_middle(seq![], "self."@ + d + ".expect("@, rest);
        },
    }
}

/// The fields of a `syn` field list as plain values, in order.
pub fn field_decls(fields: &Punctuated<Field, Comma>) -> (r: Vec<FieldDecl>)
    ensures
        field_views(r@) == field_list(*fields),
{
    let n = field_count(fields);
    let mut r: Vec<FieldDecl> = Vec::new();
    for i in 0..n
        invariant
            n == field_list(*fields).len(),
            field_views(r@) == field_list(*fields).take(i as int),
    {
        let pair = get_name_and_type(fields, i);
        let f = FieldDecl { name: pair.0, ty: pair.1 };
        assert(f@ == field_list(*fields)[i as int]);
        let ghost before = r@;
        r.push(f);
        assert(r@ == before.push(f));
        assert(field_views(r@) =~= field_views(before).push(f@));
        assert(field_list(*fields).take(i + 1) =~= field_list(*fields).take(i as int).push(f@));
        assert(field_views(r@) =~= field_list(*fields).take(i + 1));
    }
    assert(field_list(*fields).take(n as int) =~= field_list(*fields));
    r
}

fn definition(f: &FieldDecl) -> (r: String)
    ensures
        r@ == definition_text(f@),
{
    let mut s = match &f.name {
        Some(n) => {
            let mut s = String::from_str(n.as_str());
            s.append(": Option<");
            s
        },
        None => String::from_str("Option<"),
    };
    s.append(f.ty.as_str());
    s.append(">");
    s
}

fn init(f: &FieldDecl) -> (r: String)
    ensures
        r@ == init_text(f@),
{
    match &f.name {
        Some(n) => {
            let mut s = String::from_str(n.as_str());
            s.append(": None");
            s
        },
        None => String::from_str("None"),
    }
}

fn setters(method: &str, maybe_method: &str, access: &str, ty: &str) -> (r: String)
    ensures
        r@ == setters_text(method@, maybe_method@, access@, ty@),
{
    let mut s = String::from_str("pub fn ");
    s.append(method);
    s.append("(mut self, input: ");
    s.append(ty);
    s.append(") -> Self { self.");
    s.append(access);
    s.append(" = Some(input); self } pub fn ");
    s.append(maybe_method);
    s.append("(mut self, maybe_input: Option<");
    s.append(ty);
    s.append(">) -> Self { self.");
    s.append(access);
    s.append(" = maybe_input; self }");
    s
}

fn methods(i: usize, f: &FieldDecl) -> (r: String)
    ensures
        r@ == methods_text(i as nat, f@),
{
    match &f.name {
        Some(n) => {
            let mut maybe = String::from_str("maybe_");
            let bare = strip_raw(n.as_str());
            maybe.append(bare.as_str());
            setters(n.as_str(), maybe.as_str(), n.as_str(), f.ty.as_str())
        },
        None => {
            let index = u64_text(i as u64);
            let mut method = String::from_str("field_");
            method.append(index.as_str());
            let mut maybe = String::from_str("maybe_field_");
            maybe.append(index.as_str());
            setters(method.as_str(), maybe.as_str(), index.as_str(), f.ty.as_str())
        },
    }
}

fn setter(i: usize, f: &FieldDecl) -> (r: String)
    ensures
        r@ == setter_text(i as nat, f@),
{
    match &f.name {
        Some(n) => {
            let mut s = String::from_str(n.as_str());
            s.append(": self.");
            s.append(n.as_str());
            s.append(".expect(concat!(\"field not set: \", \"");
            s.append(n.as_str());
            s.append("\"),)");
            s
        },
        None => {
            let index = u64_text(i as u64);
            let mut s = String::from_str("self.");
            s.append(index.as_str());
            s.append(".expect(concat!(\"field not set: \", ");
            s.append(index.as_str());
            s.append("usize))");
            s
        },
    }
}

/// The builder's fields, one per struct field, in order.
pub fn builder_field_definitions(fields: &Vec<FieldDecl>) -> (r: Vec<String>)
    ensures
        r@.len() == fields@.len(),
        forall|i: int| 0 <= i < fields@.len() ==> #[trigger] r@[i]@ == definition_text(fields@[i]@),
{
    let mut r: Vec<String> = Vec::new();
    for i in 0..fields.len()
        invariant
            r@.len() == i,
            forall|k: int| 0 <= k < i ==> #[trigger] r@[k]@ == definition_text(fields@[k]@),
    {
        r.push(definition(&fields[i]));
    }
    r
}

/// The initial values of the builder's fields, one per struct field, in order.
pub fn builder_init_values(fields: &Vec<FieldDecl>) -> (r: Vec<String>)
    ensures
        r@.len() == fields@.len(),
        forall|i: int| 0 <= i < fields@.len() ==> #[trigger] r@[i]@ == init_text(fields@[i]@),
{
    let mut r: Vec<String> = Vec::new();
    for i in 0..fields.len()
        invariant
            r@.len() == i,
            forall|k: int| 0 <= k < i ==> #[trigger] r@[k]@ == init_text(fields@[k]@),
    {
        r.push(init(&fields[i]));
    }
    r
}

/// The builder's setter methods, one pair per struct field, in order.
pub fn builder_methods(fields: &Vec<FieldDecl>) -> (r: Vec<String>)
    ensures
        r@.len() == fields@.len(),
        forall|i: int| 0 <= i < fields@.len() ==> #[trigger] r@[i]@ == methods_text(i as nat, fields@[i]@),
{
    let mut r: Vec<String> = Vec::new();
    for i in 0..fields.len()
        invariant
            r@.len() == i,
            forall|k: int| 0 <= k < i ==> #[trigger] r@[k]@ == methods_text(k as nat, fields@[k]@),
    {
        r.push(methods(i, &fields[i]));
    }
    r
}

/// The field values of the built struct, one per struct field, in order.
pub fn original_struct_setters(fields: &Vec<FieldDecl>) -> (r: Vec<String>)
    ensures
        r@.len() == fields@.len(),
        forall|i: int| 0 <= i < fields@.len() ==> #[trigger] r@[i]@ == setter_text(i as nat, fields@[i]@),
{
    let mut r: Vec<String> = Vec::new();
    for i in 0..fields.len()
        invariant
            r@.len() == i,
            forall|k: int| 0 <= k < i ==> #[trigger] r@[k]@ == setter_text(k as nat, fields@[k]@),
    {
        r.push(setter(i, &fields[i]));
    }
    r
}

} // verus!
