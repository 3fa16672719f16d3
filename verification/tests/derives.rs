use macro_gen::derive::parse_derive;
use macro_gen::hello::{hello, hello_output, try_hello, uppercase, uppercase_output};
use macro_gen::model::{Body, DeclarationKind, DeriveDecl, FieldDecl, MacroError};
use macro_gen::private::{generated_methods, private, private_version, try_private};
use macro_gen::public::{public, public_version, try_public};
use macro_gen::declaration::venial_can_read;
use macro_gen::model::ParamDecl;
use proc_macro2::{Delimiter, Group, Ident, Punct, Spacing, Span, TokenStream, TokenTree};

fn tokens(src: &str) -> TokenStream {
    src.parse().unwrap()
}

/// The text with the spacing that a token stream prints.
fn normalized(src: &str) -> String {
    tokens(src).to_string()
}

#[test]
fn hello_for_enum_and_struct() {
    let expected = "impl Pet { fn hello_world(&self) { println!(\"Hello {}\", stringify!(Pet)); } \
                    fn testing_testing() { println!(\"one two three\"); } }";
    assert_eq!(hello(tokens("enum Pet { Cat, }")), expected.to_string());
    assert_eq!(try_hello(tokens("enum Pet { Cat, }")), Ok(expected.to_string()));
    assert_eq!(hello(tokens("struct Point { x: i32 }")), expected.replace("Pet", "Point"));
    assert_eq!(hello_output(&DeclarationKind::Struct("Point".to_string())), expected.replace("Pet", "Point"));
    assert!(syn::parse_str::<syn::ItemImpl>(expected).is_ok());
}

#[test]
fn hello_refuses_other_declarations() {
    let e = try_hello(tokens("union U { a: u8 }")).unwrap_err();
    assert_eq!(e, MacroError::Unsupported("only implemented for struct and enum".to_string()));
    assert!(matches!(try_hello(tokens("fn f() {}")), Err(MacroError::Parse(_))));
    assert!(matches!(try_hello(tokens("struct")), Err(MacroError::Parse(_))));
}

#[test]
fn uppercase_name() {
    assert_eq!(
        uppercase(tokens("struct Example;")),
        Ok("impl Example { fn uppercase(&self) { println!(\"{}\", \"EXAMPLE\"); } }".to_string())
    );
    assert_eq!(
        uppercase_output("straße"),
        "impl straße { fn uppercase(&self) { println!(\"{}\", \"STRASSE\"); } }"
    );
}

#[test]
fn uppercase_reports_parse_errors() {
    assert!(matches!(uppercase(tokens("fn f() {}")), Err(MacroError::Parse(_))));
}

#[test]
fn public_named_struct() {
    let out = public(
        TokenStream::new(),
        tokens("#[derive(Debug)] struct Example { first: String, pub second: u32 }"),
    )
    .unwrap();
    assert_eq!(out, "# [derive (Debug)] pub struct Example { pub first: String, pub second: u32, }");
    assert_eq!(
        tokens(&out).to_string(),
        normalized("#[derive(Debug)] pub struct Example { pub first: String, pub second: u32, }")
    );
}

#[test]
fn public_tuple_struct() {
    let out = public(TokenStream::new(), tokens("#[derive(Debug)] struct ExampleUnnamed(String, pub u32);")).unwrap();
    assert_eq!(out, "# [derive (Debug)] pub struct ExampleUnnamed(pub String, pub u32, );");
}

#[test]
fn public_enum_keeps_variants() {
    let out = public(
        TokenStream::new(),
        tokens("#[derive(Debug)] enum ExampleEnum { First(String), Second { first: String, second: u32 }, }"),
    )
    .unwrap();
    assert_eq!(
        tokens(&out).to_string(),
        normalized("#[derive(Debug)] pub enum ExampleEnum { First(String), Second { first: String, second: u32 }, }")
    );
}

#[test]
fn public_refuses_unit_struct() {
    assert_eq!(
        try_public(TokenStream::new(), tokens("struct Unit;")),
        Err(MacroError::Unsupported("only works for structs with named fields".to_string()))
    );
    assert!(matches!(try_public(TokenStream::new(), tokens("union U { a: u8 }")), Err(MacroError::Unsupported(_))));
    assert!(matches!(public(TokenStream::new(), tokens("fn f() {}")), Err(MacroError::Parse(_))));
}

#[test]
fn public_version_of_a_model() {
    let decl = DeriveDecl {
        name: "S".to_string(),
        attrs: vec![],
        body: Body::Named(vec![FieldDecl { name: Some("a".to_string()), ty: "u8".to_string() }]),
        params: vec![],
    };
    assert_eq!(public_version(&decl), "pub struct S { pub a: u8, }".to_string());
}

#[test]
fn private_struct_with_getters() {
    let out = private(tokens("struct Example { pub string_value: String, number_value: i32, }")).unwrap();
    assert_eq!(try_private(tokens("struct Example { pub string_value: String, number_value: i32, }")), Ok(out.clone()));
    assert_eq!(
        out,
        "pub struct Example { string_value: String, number_value: i32, } impl Example { \
         fn get_string_value(&self) -> &String { &self.string_value } \
         fn get_number_value(&self) -> &i32 { &self.number_value } }"
    );
    let file = syn::parse_file(&out).unwrap();
    assert_eq!(file.items.len(), 2);
}

#[test]
fn private_needs_named_fields() {
    assert_eq!(
        try_private(tokens("struct T(u8);")),
        Err(MacroError::Unsupported("only works for structs with named fields".to_string()))
    );
    assert!(matches!(try_private(tokens("enum E { A }")), Err(MacroError::Unsupported(_))));
    assert!(matches!(try_private(tokens("struct R { r#type: u8 }")), Err(MacroError::Unsupported(_))));
    assert!(matches!(private(tokens("struct")), Err(MacroError::Parse(_))));
    assert!(matches!(try_private(tokens("struct")), Err(MacroError::Parse(_))));
}

#[test]
fn generated_methods_one_per_field() {
    let decl = parse_derive(tokens("struct S { a: u8, b: Vec<u8> }")).unwrap();
    let methods = generated_methods(&decl);
    assert_eq!(
        methods,
        vec![
            "fn get_a(&self) -> &u8 { &self.a } ".to_string(),
            "fn get_b(&self) -> &Vec < u8 > { &self.b } ".to_string(),
        ]
    );
    assert_eq!(private_version(&decl).matches("fn get_").count(), 2);
}

#[test]
fn parse_derive_reads_attributes_and_body() {
    let decl = parse_derive(tokens("#[derive(Debug)] #[allow(dead_code)] pub struct S<T> { a: T }")).unwrap();
    assert_eq!(decl.name, "S");
    assert_eq!(decl.attrs, vec!["# [derive (Debug)]".to_string(), "# [allow (dead_code)]".to_string()]);
    match decl.body {
        Body::Named(fields) => {
            assert_eq!(fields.len(), 1);
            assert_eq!(fields[0].ty, "T");
        },
        _ => panic!("expected named fields"),
    }
}

#[test]
fn public_and_private_write_the_same_fields() {
    let src = "struct S { a: u8, b: Vec<u8> }";
    let public_out = public(TokenStream::new(), tokens(src)).unwrap();
    let private_out = private(tokens(src)).unwrap();
    assert_eq!(public_out, "pub struct S { pub a: u8, pub b: Vec < u8 >, }");
    assert!(private_out.starts_with("pub struct S { a: u8, b: Vec < u8 >, } impl S { "));
}

#[test]
fn private_ignores_visibility() {
    assert_eq!(
        private(tokens("pub struct S { pub a: u8, b: u16 }")),
        private(tokens("struct S { a: u8, pub(crate) b: u16 }"))
    );
}

#[test]
fn parse_errors_are_reported_with_syn_message() {
    let e = uppercase(tokens("fn f() {}")).unwrap_err();
    let expected = syn::parse2::<syn::DeriveInput>(tokens("fn f() {}")).unwrap_err().to_string();
    assert_eq!(e, MacroError::Parse(expected));
}

#[test]
fn hello_on_declarations_with_generics_and_where_clauses() {
    let out = hello(tokens(
        "#[derive(Clone)] pub(crate) struct S<'a, T: Fn() -> u8, const N: usize> where T: Clone { f: Box<dyn Fn(u8) -> Vec<u8>>, g: [&'a u8; N], h: T }",
    ));
    assert!(out.starts_with("impl S {"));
    let out = hello(tokens("enum E<T> where T: Copy { A(T), B { x: fn() -> u8 }, C = 3 }"));
    assert!(out.starts_with("impl E {"));
}

fn unreadable() -> Result<String, MacroError> {
    Err(MacroError::Unsupported("venial cannot parse this declaration".to_string()))
}

#[test]
fn hello_refuses_what_venial_cannot_parse() {
    assert_eq!(try_hello(tokens("struct S<T = u8> { a: T }")), unreadable());
    assert_eq!(try_hello(tokens("struct S<#[cfg(all())] T> { a: T }")), unreadable());
    assert_eq!(try_hello(tokens("struct S<#[cfg(all())] 'a> { a: &'a u8 }")), unreadable());
    assert_eq!(try_hello(tokens("struct S(crate);")), unreadable());
    assert_eq!(try_hello(tokens("enum E { A(u8, crate) }")), unreadable());
    assert_eq!(try_hello(tokens("struct S(pub (u8, u16));")), unreadable());
    assert!(try_hello(tokens("struct S(pub(crate) (u8, u16), pub u8);")).is_ok());
    // A default after a `:` is read, and so are a const parameter's default and `pub(crate)`.
    assert!(try_hello(tokens("struct S<T: Copy = u8, const N: usize = 3> { a: T }")).is_ok());
    assert!(try_hello(tokens("pub(crate) struct S(pub(crate) crate::X);")).is_ok());
}

/// `pub struct S { <group> a: u8 }` and `struct S { a: <group> }`, the group invisible.
fn with_invisible_group(inner: TokenStream, in_type: bool) -> TokenStream {
    let group = TokenTree::Group(Group::new(Delimiter::None, inner));
    let mut fields: Vec<TokenTree> = Vec::new();
    if in_type {
        fields.push(TokenTree::Ident(Ident::new("a", Span::call_site())));
        fields.push(TokenTree::Punct(Punct::new(':', Spacing::Alone)));
        fields.push(group);
    } else {
        fields.push(group);
        fields.push(TokenTree::Ident(Ident::new("a", Span::call_site())));
        fields.push(TokenTree::Punct(Punct::new(':', Spacing::Alone)));
        fields.push(TokenTree::Ident(Ident::new("u8", Span::call_site())));
    }
    let body = TokenTree::Group(Group::new(Delimiter::Brace, fields.into_iter().collect()));
    let mut item: Vec<TokenTree> = tokens("struct S").into_iter().collect();
    item.push(body);
    item.into_iter().collect()
}

#[test]
fn hello_and_invisible_groups() {
    let in_type = with_invisible_group(tokens("u8"), true);
    assert!(venial_can_read(&in_type, &vec![]));
    assert!(try_hello(in_type).is_ok());
    let as_visibility = with_invisible_group(tokens("pub"), false);
    assert!(syn::parse2::<syn::DeriveInput>(as_visibility.clone()).is_ok());
    assert!(!venial_can_read(&as_visibility, &vec![]));
    assert_eq!(try_hello(as_visibility), unreadable());
}

#[test]
fn venial_reading_of_generic_parameters() {
    let plain = ParamDecl { attributes: 0, colon: false, default: false };
    let item = tokens("struct S<T> { a: T }");
    assert!(venial_can_read(&item, &vec![plain]));
    assert!(!venial_can_read(&item, &vec![ParamDecl { attributes: 1, ..plain }]));
    assert!(!venial_can_read(&item, &vec![ParamDecl { default: true, ..plain }]));
    assert!(venial_can_read(&item, &vec![ParamDecl { colon: true, default: true, ..plain }]));
    let d = parse_derive(tokens("struct S<'a: 'b, 'b, #[a] T: Copy = u8, const N: usize = 3> { a: T }")).unwrap();
    assert_eq!(d.params.len(), 4);
    assert!(d.params[0].colon && !d.params[1].colon);
    assert!(d.params[2].attributes == 1 && d.params[2].colon && d.params[2].default);
    assert!(d.params[3].colon && d.params[3].default);
}

#[test]
fn private_refuses_raw_field_names() {
    assert_eq!(
        try_private(tokens("struct S { r#type: u8 }")),
        Err(MacroError::Unsupported("a getter needs a field name that is not a raw identifier".to_string()))
    );
}

#[test]
fn public_twice_is_public_once() {
    for src in ["struct S { a: u8, pub(crate) b: Vec<u8> }", "#[derive(Debug)] struct T(u8, pub String);", "enum E { A, B(u8) }"] {
        let once = public(TokenStream::new(), tokens(src)).unwrap();
        let twice = public(tokens("anything"), tokens(&once)).unwrap();
        assert_eq!(tokens(&twice).to_string(), tokens(&once).to_string());
    }
}
