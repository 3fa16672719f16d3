use quote::ToTokens;
use macro_gen::model::MacroError;
use macro_gen::panic_result::{
    combine_errors, extract_panic_content, handle_expression, last_statement_as_result, panic_replacement,
    panic_to_result, rewrite_if, signature_output_as_result, try_panic_to_result,
};
use proc_macro2::TokenStream;

fn tokens(src: &str) -> TokenStream {
    src.parse().unwrap()
}

fn normalized(src: &str) -> String {
    tokens(src).to_string()
}

#[test]
fn signature_becomes_result() {
    assert_eq!(signature_output_as_result(&None), Ok("-> Result<(), String>".to_string()));
    assert_eq!(
        signature_output_as_result(&Some("Person".to_string())),
        Ok("-> Result<Person, String>".to_string())
    );
    assert_eq!(
        signature_output_as_result(&Some("Result < Person , Infallible >".to_string())),
        Err("cannot use macro on a function with Result as return type. Signature: Result < Person , Infallible >".to_string())
    );
    assert!(signature_output_as_result(&Some("io :: Result < u8 >".to_string())).is_err());
    assert!(signature_output_as_result(&Some("Resul".to_string())).is_ok());
}

#[test]
fn panic_content_only_for_panic_macros() {
    let msg = "\"too old\"".to_string();
    assert_eq!(extract_panic_content(&vec!["panic".to_string()], &msg), Some(msg.clone()));
    assert_eq!(extract_panic_content(&vec!["std".to_string(), "panic".to_string()], &msg), Some(msg.clone()));
    assert_eq!(extract_panic_content(&vec!["println".to_string()], &msg), None);
    assert_eq!(extract_panic_content(&vec![], &msg), None);
}

#[test]
fn panic_replacement_cases() {
    let msg = "\"too old\"".to_string();
    assert_eq!(
        panic_replacement(&vec!["panic".to_string()], false, &msg),
        Some(Ok("return Err(\"too old\".to_string());".to_string()))
    );
    assert_eq!(panic_replacement(&vec!["panic".to_string()], true, &String::new()), Some(Err(())));
    assert_eq!(panic_replacement(&vec!["todo".to_string()], false, &msg), None);
}

#[test]
fn last_statement_and_errors() {
    assert_eq!(last_statement_as_result(&"Person { name , age }".to_string()), "Ok(Person { name , age })");
    let sig_ok: Result<String, String> = Ok("-> Result<(), String>".to_string());
    let sig_err: Result<String, String> = Err("sig".to_string());
    assert_eq!(combine_errors(vec!["stmt".to_string()], &sig_ok), vec!["stmt".to_string()]);
    assert_eq!(combine_errors(vec!["stmt".to_string()], &sig_err), vec!["stmt".to_string(), "sig".to_string()]);
    assert_eq!(combine_errors(vec![], &sig_err), vec!["sig".to_string()]);
}

#[test]
fn panic_becomes_err() {
    let out = panic_to_result(
        TokenStream::new(),
        tokens(
            "fn create_person(name: String, age: u32) -> Person {
                if age > 30 {
                    panic!(\"I hope I die before I get old\");
                }
                Person { name, age }
            }",
        ),
    )
    .unwrap();
    assert_eq!(
        tokens(&out).to_string(),
        normalized(
            "fn create_person(name: String, age: u32) -> Result<Person, String> {
                if age > 30 {
                    return Err(\"I hope I die before I get old\".to_string());
                }
                Ok(Person { name, age })
            }"
        )
    );
}

#[test]
fn function_without_return_type() {
    let out = panic_to_result(TokenStream::new(), tokens("fn f(a: u8) { if a > 3 { panic!(\"big\"); println!(\"x\"); } () }")).unwrap();
    assert_eq!(
        tokens(&out).to_string(),
        normalized("fn f(a: u8) -> Result<(), String> { if a > 3 { return Err(\"big\".to_string()); println!(\"x\"); } Ok(()) }")
    );
}

#[test]
fn result_return_and_empty_panic_are_both_reported() {
    let e = try_panic_to_result(
        TokenStream::new(),
        tokens(
            "fn create_person_with_empty_panic(name: String, age: u32) -> Result<Person, Infallible> {
                if age > 30 {
                    panic!();
                }
                Ok(Person { name, age })
            }",
        ),
    )
    .unwrap_err();
    assert_eq!(
        e,
        MacroError::Rejected(vec![
            "please make sure every panic in your function has a message, check: if age > 30 { panic ! () ; }".to_string(),
            "cannot use macro on a function with Result as return type. Signature: Result < Person , Infallible >".to_string(),
        ])
    );
}

#[test]
fn only_signature_error() {
    let e = panic_to_result(TokenStream::new(), tokens("fn f() -> Result<u8, ()> { Ok(1) }")).unwrap_err();
    assert_eq!(
        e,
        MacroError::Rejected(vec!["cannot use macro on a function with Result as return type. Signature: Result < u8 , () >".to_string()])
    );
}

#[test]
fn inputs_that_cannot_be_rewritten() {
    assert!(matches!(try_panic_to_result(TokenStream::new(), tokens("struct S;")), Err(MacroError::Parse(_))));
    assert!(matches!(try_panic_to_result(TokenStream::new(), tokens("fn f() {}")), Err(MacroError::Unsupported(_))));
    assert!(matches!(try_panic_to_result(TokenStream::new(), tokens("fn f() { let a = 1; }")), Err(MacroError::Unsupported(_))));
    assert!(matches!(
        try_panic_to_result(TokenStream::new(), tokens("fn f(a: u8) -> u8 { if a > 1 { panic!(1 +); } a }")),
        Err(MacroError::Unsupported(_))
    ));
}

#[test]
fn accepted_signatures_return_result_with_string_errors() {
    for ty in ["u8", "Person", "Vec < u8 >"] {
        let sig = signature_output_as_result(&Some(ty.to_string())).unwrap();
        assert!(sig.starts_with("-> Result<") && sig.ends_with(", String>"));
        assert!(syn::parse_str::<syn::ReturnType>(&sig).is_ok());
    }
}

#[test]
fn panic_in_else_branch_is_left_alone() {
    let out = panic_to_result(
        TokenStream::new(),
        tokens("fn f(a: u8) -> u8 { if a > 3 { panic!(\"big\"); } else { panic!(\"small\"); } a }"),
    )
    .unwrap();
    assert_eq!(
        tokens(&out).to_string(),
        normalized("fn f(a: u8) -> Result<u8, String> { if a > 3 { return Err(\"big\".to_string()); } else { panic!(\"small\"); } Ok(a) }")
    );
}

#[test]
fn handle_expression_rewrites_the_then_block() {
    let e: syn::ExprIf = syn::parse_str("if age > 30 { panic!(\"too old\"); }").unwrap();
    let st = handle_expression(e, None).unwrap();
    assert_eq!(
        st.to_token_stream().to_string(),
        normalized("if age > 30 { return Err(\"too old\".to_string()); }")
    );
    let e: syn::ExprIf = syn::parse_str("if a { panic!(); }").unwrap();
    assert_eq!(
        handle_expression(e, None).unwrap_err(),
        MacroError::Rejected(vec!["please make sure every panic in your function has a message, check: if a { panic ! () ; }".to_string()])
    );
}

#[test]
fn rewrite_if_reports_a_replacement_that_syn_cannot_read() {
    let e: syn::ExprIf = syn::parse_str("if a > 1 { panic!(1 +); }").unwrap();
    let err = rewrite_if(e, None).unwrap_err();
    assert!(matches!(&err, MacroError::Unsupported(m) if !m.is_empty()));
    let whole = try_panic_to_result(TokenStream::new(), tokens("fn f(a: u8) -> u8 { if a > 1 { panic!(1 +); } a }"));
    assert_eq!(whole, Err(err));
    let e: syn::ExprIf = syn::parse_str("if a { panic!(\"no\"); }").unwrap();
    assert_eq!(
        rewrite_if(e, None).unwrap().to_token_stream().to_string(),
        normalized("if a { return Err(\"no\".to_string()); }")
    );
}

#[test]
fn messages_for_functions_that_cannot_be_rewritten() {
    assert_eq!(
        try_panic_to_result(TokenStream::new(), tokens("fn f() {}")),
        Err(MacroError::Unsupported("the function has no statement to return".to_string()))
    );
    let expected = syn::parse_str::<syn::ItemFn>("struct S;").unwrap_err().to_string();
    assert_eq!(try_panic_to_result(TokenStream::new(), tokens("struct S;")), Err(MacroError::Parse(expected)));
}
