use macro_gen::compose;
use macro_gen::compose::{add_one, compose, compose_output, gen_hello_world, hello_world_output, try_compose, ComposeInput};
use macro_gen::model::{MacroError, Tok};
use proc_macro2::TokenStream;

fn tokens(src: &str) -> TokenStream {
    src.parse().unwrap()
}

const PRELUDE: &str = "{ fn compose_two<FIRST, SECOND, THIRD, F, G>(first: F, second: G) -> impl Fn(FIRST) -> THIRD \
                       where F: Fn(FIRST) -> SECOND, G: Fn(SECOND) -> THIRD, { move |x| second(first(x)) } ";

#[test]
fn add_one_and_stringify() {
    assert_eq!(add_one(5), 6);
    assert_eq!(add_one(-1), 0);
    assert_eq!(compose::stringify(7), "7");
    assert_eq!(compose::stringify(0), "0");
    assert_eq!(compose::stringify(-12), "-12");
    assert_eq!(compose::stringify(i32::MIN), i32::MIN.to_string());
    assert_eq!(compose::stringify(i32::MAX), i32::MAX.to_string());
}

#[test]
fn composed_add_one_twice_then_stringify_gives_seven() {
    assert_eq!(compose::stringify(add_one(add_one(5))), "7");
}

#[test]
fn compose_three_functions() {
    let out = compose(tokens("add_one >> add_one >> stringify"));
    assert_eq!(try_compose(tokens("add_one >> add_one >> stringify")), Ok(out.clone()));
    assert_eq!(
        out,
        format!("{}compose_two(add_one, compose_two(add_one, stringify)) }}", PRELUDE)
    );
    let block: syn::Block = syn::parse_str(&out).unwrap();
    assert_eq!(block.stmts.len(), 2);
}

#[test]
fn compose_two_functions_and_trailing_shr() {
    let out = compose(tokens("f >> g >>"));
    assert_eq!(out, format!("{}compose_two(f, g) }}", PRELUDE));
}

#[test]
fn compose_one_function_composes_nothing() {
    assert_eq!(compose(tokens("f")), format!("{} }}", PRELUDE));
}

#[test]
fn compose_refuses_bad_input() {
    assert_eq!(try_compose(tokens("")), Err(MacroError::Unsupported("compose needs at least one function".to_string())));
    assert_eq!(try_compose(tokens("f > g")), Err(MacroError::Parse("expected identifiers separated by `>>`".to_string())));
    assert!(matches!(try_compose(tokens("f > g")), Err(MacroError::Parse(_))));
    assert!(matches!(try_compose(tokens("f > > g")), Err(MacroError::Parse(_))));
    assert!(matches!(try_compose(tokens("f >> fn")), Err(MacroError::Parse(_))));
    assert!(matches!(try_compose(tokens("f g")), Err(MacroError::Parse(_))));
    assert!(matches!(try_compose(tokens("f >> 1")), Err(MacroError::Parse(_))));
    assert!(matches!(try_compose(tokens(">> f")), Err(MacroError::Parse(_))));
}

#[test]
fn compose_input_from_tokens() {
    let toks = vec![
        Tok::Ident("a".to_string()),
        Tok::Punct('>', true),
        Tok::Punct('>', false),
        Tok::Ident("b".to_string()),
    ];
    let input = ComposeInput::parse(&toks);
    assert_eq!(input.expressions, vec!["a".to_string(), "b".to_string()]);
    let mut out = String::from("x = ");
    input.to_tokens(&mut out);
    assert_eq!(out, "x = compose_two(a, b)");
    let alone = vec![Tok::Ident("a".to_string()), Tok::Punct('>', false), Tok::Punct('>', false), Tok::Ident("b".to_string())];
    assert!(ComposeInput::read(&alone).is_none());
    let one = ComposeInput { expressions: vec!["f".to_string()] };
    assert_eq!(compose_output(&one), format!("{} }}", PRELUDE));
}

#[test]
fn hello_world_for_a_type() {
    let expected = "impl Greeter { pub fn hello_world(&self) -> String { \"Hello, world!\".to_string() } }";
    assert_eq!(gen_hello_world(tokens("Greeter")), Ok(expected.to_string()));
    assert_eq!(hello_world_output("Greeter"), expected);
    assert!(matches!(gen_hello_world(tokens("Greeter Other")), Err(MacroError::Parse(_))));
    assert!(matches!(gen_hello_world(tokens("struct")), Err(MacroError::Parse(_))));
}

#[test]
fn composition_order_for_four_functions() {
    let out = compose(tokens("a >> b >> c >> d"));
    assert!(out.ends_with("compose_two(a, compose_two(b, compose_two(c, d))) }"));
}

#[test]
fn different_numbers_have_different_texts() {
    assert_ne!(compose::stringify(12), compose::stringify(21));
    assert_ne!(compose::stringify(-1), compose::stringify(1));
    assert_ne!(compose::stringify(10), compose::stringify(1));
}
