//! Function composition: `compose!(f >> g >> h)` is the function that applies `f`, then
//! `g`, then `h`; and `gen_hello_world!(T)`, which gives `T` a greeting method.
use crate::decimal::{i32_text, int_text};
use crate::declaration::tokens_of;
use crate::model::{tok_views, MacroError, Tok, TokView};
use crate::syntax::{
    accepts_ident, ident_of, parse_ident, syn_accepts_ident, token_trees, top_level_tokens,
};
use crate::text::{concat, lemma_concat_prepend, views};
use proc_macro2::TokenStream;
use vstd::prelude::*;

verus! {

/// Adds one.
pub fn add_one(n: i32) -> (r: i32)
    requires
        n < i32::MAX,
    ensures
        r == n + 1,
{
    n + 1
}

/// The decimal text of a number, as `to_string` writes it.
pub fn stringify(n: i32) -> (r: String)
    ensures
        r@ == int_text(n as int),
{
    i32_text(n)
}

/// Whether the tokens at `k` and `k + 1` are `>>`: two `>` of which the first is joined
/// to the second.
pub open spec fn shr_at(toks: Seq<TokView>, k: int) -> bool {
    &&& k + 1 < toks.len()
    &&& toks[k] matches TokView::Punct(c, joint) && c == '>' && joint
    &&& toks[k + 1] matches TokView::Punct(c, _) && c == '>'
}

/// The identifiers of a `compose!` input: identifiers (no keywords) separated by `>>`,
/// with an optional `>>` at the end; `None` for any other input.
pub open spec fn compose_idents(toks: Seq<TokView>) -> Option<Seq<Seq<char>>>
    decreases toks.len(),
{
    if toks.len() == 0 {
        Some(seq![])
    } else {
        match toks[0] {
            TokView::Ident(t) => if !syn_accepts_ident(t) {
                None
            } else if toks.len() == 1 {
                Some(seq![t])
            } else if shr_at(toks, 1) {
                match compose_idents(toks.skip(3)) {
                    Some(rest) => Some(seq![t] + rest),
                    None => None,
                }
            } else {
                None
            },
            _ => None,
        }
    }
}

/// The expression that composes the functions named by `ids`, first to last: each
/// `compose_two(a, b)` applies `a` then `b`. Nothing for fewer than two names.
pub open spec fn compose_expr(ids: Seq<Seq<char>>) -> Seq<char>
    decreases ids.len(),
{
    if ids.len() < 2 {
        seq![]
    } else if ids.len() == 2 {
        "compose_two("@ + ids[0] + ", "@ + ids[1] + ")"@
    } else {
        "compose_two("@ + ids[0] + ", "@ + compose_expr(ids.drop_first()) + ")"@
    }
}

/// `k` closing parentheses.
pub open spec fn closing(k: nat) -> Seq<char>
    decreases k,
{
    if k == 0 {
        seq![]
    } else {
        closing((k - 1) as nat) + ")"@
    }
}

/// The composition applies the functions in the order written: each function but the
/// last opens a `compose_two(f, ` (the first one outermost), the last one is written after
/// them, and one parenthesis closes each.
pub proof fn composition_keeps_order(ids: Seq<Seq<char>>)
    requires
        ids.len() >= 2,
    ensures
        compose_expr(ids) == concat(ids.drop_last().map_values(|id: Seq<char>| "compose_two("@ + id + ", "@))
            + ids.last() + closing((ids.len() - 1) as nat),
    decreases ids.len(),
{
    let opens = ids.drop_last().map_values(|id: Seq<char>| "compose_two("@ + id + ", "@);
    let first = "compose_two("@ + ids[0] + ", "@;
    reveal_with_fuel(closing, 2);
    if ids.len() == 2 {
        reveal_with_fuel(concat, 2);
        assert(opens =~= seq![first]);
        assert(seq![first].drop_last() =~= Seq::<Seq<char>>::empty());
        assert(compose_expr(ids) =~= first + ids[1] + ")"@);
    } else {
        let rest = ids.drop_first();
        composition_keeps_order(rest);
        let rest_opens = rest.drop_last().map_values(|id: Seq<char>| "compose_two("@ + id + ", "@);
        assert(opens =~= seq![first] + rest_opens);
        lemma_concat_prepend(first, rest_opens);
        assert(rest.last() == ids.last());
        assert(closing((ids.len() - 1) as nat) == closing((rest.len() - 1) as nat) + ")"@);
        assert(compose_expr(ids) =~= first + concat(rest_opens) + rest.last() + closing((rest.len() - 1) as nat) + ")"@);
    }
}

/// The block that `compose!` expands to: the generic `compose_two` and the composition.
pub open spec fn compose_text(ids: Seq<Seq<char>>) -> Seq<char> {
    "{ fn compose_two<FIRST, SECOND, THIRD, F, G>(first: F, second: G) -> impl Fn(FIRST) -> THIRD where F: Fn(FIRST) -> SECOND, G: Fn(SECOND) -> THIRD, { move |x| second(first(x)) } "@
        + compose_expr(ids) + " }"@
}

/// The functions named in a `compose!` input, in order.
pub struct ComposeInput {
    pub expressions: Vec<String>,
}

impl ComposeInput {
    /// Reads the identifiers of a `compose!` input, `None` where it is not one.
    /// A group without delimiters counts as one token here; syn would look into it.
    pub fn read(tokens: &Vec<Tok>) -> (r: Option<ComposeInput>)
        ensures
            match compose_idents(tok_views(tokens@)) {
                Some(ids) => r matches Some(c) && views(c.expressions@) == ids,
                None => r is None,
            },
    {
        let ghost toks = tok_views(tokens@);
        let n = tokens.len();
        let mut ids: Vec<String> = Vec::new();
        let mut p: usize = 0;
        assert(toks.skip(0) =~= toks);
        assert(forall|rest: Seq<Seq<char>>| views(ids@) + rest =~= rest);
        while p < n
            invariant
                n == tokens@.len(),
                toks == tok_views(tokens@),
                p <= n,
                compose_idents(toks) == match compose_idents(toks.skip(p as int)) {
                    Some(rest) => Some(views(ids@) + rest),
                    None => None::<Seq<Seq<char>>>,
                },
            decreases n - p,
        {
            let ghost rest = toks.skip(p as int);
            assert(rest[0] == tokens@[p as int]@);
            let name = match &tokens[p] {
                Tok::Ident(t) => t,
                _ => {
                    return None;
                },
            };
            if !accepts_ident(name.as_str()) {
                return None;
            }
            let ghost before = ids@;
            ids.push(String::from_str(name.as_str()));
            assert(views(ids@) =~= views(before) + seq![name@]);
            if p + 1 == n {
                assert(toks.skip(n as int) =~= Seq::<TokView>::empty());
                p = n;
            } else {
                let joined = match &tokens[p + 1] {
                    Tok::Punct(c, j) => *c == '>' && *j,
                    _ => false,
                };
                let second = p + 2 < n && match &tokens[p + 2] {
                    Tok::Punct(c, _) => *c == '>',
                    _ => false,
                };
                if !(joined && second) {
                    assert(rest[1] == tokens@[p + 1]@);
                    assert(!shr_at(rest, 1));
                    return None;
                }
                assert(rest[1] == tokens@[p + 1]@);
                assert(rest[2] == tokens@[p + 2]@);
                assert(rest.skip(3) =~= toks.skip(p + 3));
                p = p + 3;
            }
        }
        assert(toks.skip(n as int) =~= Seq::<TokView>::empty());
        Some(ComposeInput { expressions: ids })
    }

    /// Reads the identifiers of a `compose!` input, which must be one.
    pub fn parse(tokens: &Vec<Tok>) -> (r: ComposeInput)
        requires
            compose_idents(tok_views(tokens@)) is Some,
        ensures
            views(r.expressions@) == compose_idents(tok_views(tokens@))->Some_0,
    {
        match Self::read(tokens) {
            Some(c) => c,
            None => ComposeInput { expressions: Vec::new() },
        }
    }

    /// Writes the composition of the functions after `tokens`.
    pub fn to_tokens(&self, tokens: &mut String)
        requires
            self.expressions@.len() > 0,
        ensures
            final(tokens)@ == old(tokens)@ + compose_expr(views(self.expressions@)),
    {
        let ids = &self.expressions;
        let ghost all = views(ids@);
        let n = ids.len();
        let mut total: Option<String> = None;
        let mut i: usize = n - 1;
        while i > 0
            invariant
                all == views(ids@),
                n == ids@.len(),
                n > 0,
                i < n,
                i == n - 1 ==> total is None,
                i < n - 1 ==> (total matches Some(t) && t@ == compose_expr(all.skip(i as int))),
            decreases i,
        {
            i = i - 1;
            let mut next = String::from_str("compose_two(");
            next.append(ids[i].as_str());
            next.append(", ");
            match &total {
                Some(t) => {
                    next.append(t.as_str());
                    assert(all.skip(i as int).drop_first() =~= all.skip(i + 1));
                },
                None => {
                    next.append(ids[n - 1].as_str());
                },
            }
            next.append(")");
            total = Some(next);
        }
        match total {
            Some(t) => {
                assert(all.skip(0) =~= all);
                tokens.append(t.as_str());
            },
            None => {
                assert(compose_expr(all) =~= Seq::<char>::empty());
            },
        }
    }
}

/// The expansion of `compose!` for its functions; there must be at least one.
pub fn compose_output(input: &ComposeInput) -> (r: String)
    requires
        input.expressions@.len() > 0,
    ensures
        r@ == compose_text(views(input.expressions@)),
{
    let mut s = String::from_str(
        "{ fn compose_two<FIRST, SECOND, THIRD, F, G>(first: F, second: G) -> impl Fn(FIRST) -> THIRD where F: Fn(FIRST) -> SECOND, G: Fn(SECOND) -> THIRD, { move |x| second(first(x)) } ",
    );
    input.to_tokens(&mut s);
    s.append(" }");
    s
}

/// The top-level tokens of a stream as plain values.
fn read_tokens(item: TokenStream) -> (r: Vec<Tok>)
    ensures
        tok_views(r@) == top_level_tokens(item),
{
    tokens_of(&token_trees(item))
}

/// `compose!`: the composition of the functions that the macro's tokens name, which
/// must be at least one, separated by `>>`.
pub fn compose(item: TokenStream) -> (r: String)
    requires
        compose_idents(top_level_tokens(item)) matches Some(ids) && ids.len() > 0,
    ensures
        r@ == compose_text(compose_idents(top_level_tokens(item))->Some_0),
{
    let tokens = read_tokens(item);
    let input = ComposeInput::parse(&tokens);
    if input.expressions.len() == 0 {
        return String::new();
    }
    compose_output(&input)
}

/// `compose!` on any tokens: as `compose`; tokens that are no list of functions are a
/// `Parse` error, an empty list `Unsupported`, each with its message.
pub fn try_compose(item: TokenStream) -> (r: Result<String, MacroError>)
    ensures
        match compose_idents(top_level_tokens(item)) {
            Some(ids) => if ids.len() > 0 {
                r matches Ok(s) && s@ == compose_text(ids)
            } else {
                r matches Err(MacroError::Unsupported(m)) && m@ == "compose needs at least one function"@
            },
            None => r matches Err(MacroError::Parse(m)) && m@ == "expected identifiers separated by `>>`"@,
        },
{
    let tokens = read_tokens(item);
    let input = match ComposeInput::read(&tokens) {
        Some(c) => c,
        None => return Err(MacroError::Parse(String::from_str("expected identifiers separated by `>>`"))),
    };
    if input.expressions.len() == 0 {
        return Err(MacroError::Unsupported(String::from_str("compose needs at least one function")));
    }
    Ok(compose_output(&input))
}

/// What `gen_hello_world!(T)` adds to `T`: `hello_world` returns "Hello, world!".
pub open spec fn hello_world_text(name: Seq<char>) -> Seq<char> {
    "impl "@ + name + " { pub fn hello_world(&self) -> String { \"Hello, world!\".to_string() } }"@
}

/// The expansion of `gen_hello_world!` for a type named `name`.
pub fn hello_world_output(name: &str) -> (r: String)
    ensures
        r@ == hello_world_text(name@),
{
    let mut s = String::from_str("impl ");
    s.append(name);
    s.append(" { pub fn hello_world(&self) -> String { \"Hello, world!\".to_string() } }");
    s
}

/// `gen_hello_world!`: `hello_world_output` for the identifier that syn reads from the
/// tokens, or syn's message where they hold no single identifier.
pub fn gen_hello_world(item: TokenStream) -> (r: Result<String, MacroError>)
    ensures
        match ident_of(item) {
            Ok(n) => r matches Ok(s) && s@ == hello_world_text(n),
            Err(m) => r matches Err(MacroError::Parse(e)) && e@ == m,
        },
{
    match parse_ident(item) {
        Ok(name) => Ok(hello_world_output(name.as_str())),
        Err(m) => Err(MacroError::Parse(m)),
    }
}

} // verus!
