use macro_gen::builder::{
    builder_field_definitions, builder_init_values, builder_methods, field_decls, original_struct_setters,
};
use macro_gen::model::FieldDecl;
use macro_gen::syntax::get_name_and_type;
use proc_macro2::Span;
use syn::punctuated::Punctuated;
use syn::{Field, FieldMutability, Ident, Path, PathSegment, Type, TypePath, Visibility};

fn named(name: &str, ty: &str) -> FieldDecl {
    FieldDecl { name: Some(name.to_string()), ty: ty.to_string() }
}

fn unnamed(ty: &str) -> FieldDecl {
    FieldDecl { name: None, ty: ty.to_string() }
}

fn fields_of(src: &str) -> Punctuated<Field, syn::token::Comma> {
    let d: syn::DeriveInput = syn::parse_str(src).unwrap();
    match d.data {
        syn::Data::Struct(s) => match s.fields {
            syn::Fields::Named(f) => f.named,
            syn::Fields::Unnamed(f) => f.unnamed,
            syn::Fields::Unit => Punctuated::new(),
        },
        _ => panic!("not a struct"),
    }
}

#[test]
fn get_name_and_type_give_back_name() {
    let p = PathSegment {
        ident: Ident::new("String", Span::call_site()),
        arguments: Default::default(),
    };
    let mut pun = Punctuated::new();
    pun.push(p);
    let ty = Type::Path(TypePath {
        qself: None,
        path: Path {
            leading_colon: None,
            segments: pun,
        },
    });
    let f = Field {
        attrs: vec![],
        vis: Visibility::Inherited,
        mutability: FieldMutability::None,
        ident: Some(Ident::new("example", Span::call_site())),
        colon_token: None,
        ty,
    };
    let mut fields = Punctuated::new();
    fields.push(f);

    let (actual_name, _) = get_name_and_type(&fields, 0);

    assert_eq!(
        actual_name.as_ref().unwrap().to_string(),
        "example".to_string()
    )
}

#[test]
fn get_name_and_type_gives_type_text() {
    let fields = fields_of("struct S { a: Vec<u8>, b: Option<String> }");
    assert_eq!(get_name_and_type(&fields, 0), (Some("a".to_string()), "Vec < u8 >".to_string()));
    assert_eq!(get_name_and_type(&fields, 1), (Some("b".to_string()), "Option < String >".to_string()));
}

#[test]
fn field_decls_reads_named_and_tuple_fields() {
    let named_fields = field_decls(&fields_of("struct S { pub first: String, second: u32 }"));
    assert_eq!(named_fields.len(), 2);
    assert_eq!(named_fields[0].name.as_deref(), Some("first"));
    assert_eq!(named_fields[0].ty, "String");
    assert_eq!(named_fields[1].name.as_deref(), Some("second"));
    assert_eq!(named_fields[1].ty, "u32");

    let tuple_fields = field_decls(&fields_of("struct T(String, pub u32);"));
    assert_eq!(tuple_fields.len(), 2);
    assert_eq!(tuple_fields[0].name, None);
    assert_eq!(tuple_fields[1].ty, "u32");

    assert!(field_decls(&fields_of("struct U;")).is_empty());
}

#[test]
fn builder_pieces_for_a_named_field() {
    let fields = vec![named("name", "String")];
    assert_eq!(builder_field_definitions(&fields), vec!["name: Option<String>".to_string()]);
    assert_eq!(builder_init_values(&fields), vec!["name: None".to_string()]);
    assert_eq!(
        builder_methods(&fields),
        vec!["pub fn name(mut self, input: String) -> Self { self.name = Some(input); self } \
              pub fn maybe_name(mut self, maybe_input: Option<String>) -> Self { self.name = maybe_input; self }"
            .to_string()]
    );
    assert_eq!(
        original_struct_setters(&fields),
        vec!["name: self.name.expect(concat!(\"field not set: \", \"name\"),)".to_string()]
    );
}

#[test]
fn builder_pieces_for_tuple_fields() {
    let fields = vec![unnamed("String"), unnamed("u32")];
    assert_eq!(
        builder_field_definitions(&fields),
        vec!["Option<String>".to_string(), "Option<u32>".to_string()]
    );
    assert_eq!(builder_init_values(&fields), vec!["None".to_string(), "None".to_string()]);
    assert_eq!(
        builder_methods(&fields)[1],
        "pub fn field_1(mut self, input: u32) -> Self { self.1 = Some(input); self } \
         pub fn maybe_field_1(mut self, maybe_input: Option<u32>) -> Self { self.1 = maybe_input; self }"
    );
    assert_eq!(
        original_struct_setters(&fields),
        vec![
            "self.0.expect(concat!(\"field not set: \", 0usize))".to_string(),
            "self.1.expect(concat!(\"field not set: \", 1usize))".to_string(),
        ]
    );
}

#[test]
fn builder_maybe_setter_drops_raw_prefix() {
    let fields = vec![named("r#type", "u8")];
    assert_eq!(
        builder_methods(&fields)[0],
        "pub fn r#type(mut self, input: u8) -> Self { self.r#type = Some(input); self } \
         pub fn maybe_type(mut self, maybe_input: Option<u8>) -> Self { self.r#type = maybe_input; self }"
    );
}

#[test]
fn builder_position_twelve_is_written_in_decimal() {
    let mut fields = Vec::new();
    for _ in 0..13 {
        fields.push(unnamed("bool"));
    }
    assert_eq!(builder_init_values(&fields).len(), 13);
    assert_eq!(
        original_struct_setters(&fields)[12],
        "self.12.expect(concat!(\"field not set: \", 12usize))"
    );
}

#[test]
fn builder_of_no_fields_is_empty() {
    let fields: Vec<FieldDecl> = Vec::new();
    assert!(builder_field_definitions(&fields).is_empty());
    assert!(builder_init_values(&fields).is_empty());
    assert!(builder_methods(&fields).is_empty());
    assert!(original_struct_setters(&fields).is_empty());
}

#[test]
fn builder_pieces_parse_as_rust() {
    let fields = field_decls(&fields_of("struct S { a: Vec<u8>, b: u32 }"));
    for m in builder_methods(&fields) {
        let item: String = format!("impl B {{ {} }}", m);
        assert!(syn::parse_str::<syn::ItemImpl>(&item).is_ok(), "{}", item);
    }
    let defs = builder_field_definitions(&fields).join(", ");
    assert!(syn::parse_str::<syn::ItemStruct>(&format!("struct B {{ {} }}", defs)).is_ok());
}

#[test]
fn builder_pieces_agree_on_each_field() {
    let fields = vec![named("name", "String"), unnamed("u8")];
    let methods = builder_methods(&fields);
    let setters = original_struct_setters(&fields);
    assert!(methods[0].contains("self.name = Some(input);") && methods[0].contains("self.name = maybe_input;"));
    assert!(setters[0].contains("self.name.expect("));
    assert!(builder_field_definitions(&fields)[0].starts_with("name: Option<"));
    assert!(builder_init_values(&fields)[0].starts_with("name: None"));
    assert!(methods[1].contains("self.1 = Some(input);") && methods[1].contains("self.1 = maybe_input;"));
    assert!(setters[1].contains("self.1.expect("));
}
