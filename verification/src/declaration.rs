//! Which declarations venial's parser reads: what `venial::parse_declaration` asks of a
//! declaration that syn reads, decided from syn's generic parameters and from the tokens.
use crate::model::{Delim, ParamDecl, Tok, TokView, tok_views};
use crate::syntax::{
    group_contents, group_stream, top_level_tokens, top_level_trees, token_trees, token_view, tree_view,
};
use crate::text::same_text;
use proc_macro2::{TokenStream, TokenTree};
use vstd::prelude::*;

verus! {

/// Whether a token is the punctuation character `c`.
pub open spec fn is_punct(t: TokView, c: char) -> bool {
    t matches TokView::Punct(p, _) && p == c
}

/// Whether a token is the identifier `w`.
pub open spec fn is_word(t: TokView, w: Seq<char>) -> bool {
    t matches TokView::Ident(s) && s == w
}

/// Whether the token at `i` of a field or variant list stands in a type or a value: the
/// nearest `:`, `=` or `,` before it is a `:` or a `=`.
pub open spec fn in_value(toks: Seq<TokView>, i: int) -> bool
    decreases i,
{
    if i <= 0 {
        false
    } else if is_punct(toks[i - 1], ':') || is_punct(toks[i - 1], '=') {
        true
    } else if is_punct(toks[i - 1], ',') {
        false
    } else {
        in_value(toks, i - 1)
    }
}

/// Whether every invisible group of a field or variant list stands in a type or a value.
pub open spec fn invisible_only_in_values(toks: Seq<TokView>) -> bool {
    forall|i: int|
        0 <= i < toks.len() && #[trigger] toks[i] == TokView::Group(Delim::Invisible) ==> in_value(toks, i)
}

/// Whether a type follows at `j`: a token other than `,`.
pub open spec fn type_at(toks: Seq<TokView>, j: int) -> bool {
    j < toks.len() && !is_punct(toks[j], ',')
}

/// Whether no field of a list of tuple fields is what venial reads as a visibility
/// alone: every `crate`, and every `pub` followed by a parenthesis group, is followed by
/// a type (venial reads `pub (..)` as a restricted visibility, where syn reads
/// `pub (A, B)` as `pub` and a tuple type).
pub open spec fn no_bare_visibility(toks: Seq<TokView>) -> bool {
    &&& forall|i: int| 0 <= i < toks.len() && is_word(#[trigger] toks[i], "crate"@) ==> type_at(toks, i + 1)
    &&& forall|i: int|
        0 <= i < toks.len() && is_word(#[trigger] toks[i], "pub"@) && i + 1 < toks.len() && toks[i + 1]
            == TokView::Group(Delim::Parenthesis) ==> type_at(toks, i + 2)
}

/// Whether the token at `i` is a parenthesis group that is no visibility's `pub(..)`: a
/// list of tuple fields, or a group inside a type.
pub open spec fn tuple_list_at(toks: Seq<TokView>, i: int) -> bool {
    toks[i] == TokView::Group(Delim::Parenthesis) && !(i > 0 && is_word(toks[i - 1], "pub"@))
}

/// What venial asks of the group at `i` among the trees of a field or variant list: a
/// `{ }` group puts invisible groups only in values, a tuple list no bare visibility.
pub open spec fn inner_group_readable(trees: Seq<TokenTree>, i: int) -> bool {
    let toks = trees.map_values(|t: TokenTree| tree_view(t));
    &&& toks[i] == TokView::Group(Delim::Brace) ==> invisible_only_in_values(
        top_level_tokens(group_contents(trees[i])),
    )
    &&& tuple_list_at(toks, i) ==> no_bare_visibility(top_level_tokens(group_contents(trees[i])))
}

/// What venial asks of the contents of a `{ }` group at the top level of a declaration
/// (its named fields or its variants, or a block in a bound).
pub open spec fn list_readable(s: TokenStream) -> bool {
    &&& invisible_only_in_values(top_level_tokens(s))
    &&& forall|i: int| 0 <= i < top_level_trees(s).len() ==> #[trigger] inner_group_readable(top_level_trees(s), i)
}

/// What venial asks of the tree at `i` of a declaration's top level: no invisible group,
/// a readable `{ }` list, a tuple list with no bare visibility.
pub open spec fn top_tree_readable(trees: Seq<TokenTree>, i: int) -> bool {
    let toks = trees.map_values(|t: TokenTree| tree_view(t));
    &&& toks[i] != TokView::Group(Delim::Invisible)
    &&& toks[i] == TokView::Group(Delim::Brace) ==> list_readable(group_contents(trees[i]))
    &&& tuple_list_at(toks, i) ==> no_bare_visibility(top_level_tokens(group_contents(trees[i])))
}

/// What venial asks of a generic parameter: no attribute, and no default right after the
/// name (a default needs a `:` before it).
pub open spec fn param_readable(p: ParamDecl) -> bool {
    p.attributes == 0 && (p.colon || !p.default)
}

/// Whether venial's parser returns on a declaration that syn reads with the generic
/// parameters `params`.
pub open spec fn venial_reads(tokens: TokenStream, params: Seq<ParamDecl>) -> bool {
    &&& forall|i: int| 0 <= i < params.len() ==> #[trigger] param_readable(params[i])
    &&& forall|i: int|
        0 <= i < top_level_trees(tokens).len() ==> #[trigger] top_tree_readable(top_level_trees(tokens), i)
}

/// Whether a token is the punctuation character `c`.
fn punct_is(t: &Tok, c: char) -> (r: bool)
    ensures
        r == is_punct(t@, c),
{
    match t {
        Tok::Punct(p, _) => *p == c,
        _ => false,
    }
}

/// Whether a token is the identifier `w`.
fn word_is(t: &Tok, w: &str) -> (r: bool)
    ensures
        r == is_word(t@, w@),
{
    match t {
        Tok::Ident(s) => same_text(s.as_str(), w),
        _ => false,
    }
}

/// Whether a token is a group with the delimiter `d`.
fn group_is(t: &Tok, d: Delim) -> (r: bool)
    ensures
        r == (t@ == TokView::Group(d)),
{
    match t {
        Tok::Group(e) => match (e, d) {
            (Delim::Parenthesis, Delim::Parenthesis) => true,
            (Delim::Brace, Delim::Brace) => true,
            (Delim::Bracket, Delim::Bracket) => true,
            (Delim::Invisible, Delim::Invisible) => true,
            _ => false,
        },
        _ => false,
    }
}

/// The trees of a list as plain tokens.
pub fn tokens_of(trees: &Vec<TokenTree>) -> (r: Vec<Tok>)
    ensures
        tok_views(r@) == trees@.map_values(|t: TokenTree| tree_view(t)),
{
    let mut r: Vec<Tok> = Vec::new();
    for i in 0..trees.len()
        invariant
            r@.len() == i,
            forall|k: int| 0 <= k < i ==> #[trigger] r@[k]@ == tree_view(trees@[k]),
    {
        r.push(token_view(&trees[i]));
    }
    assert(tok_views(r@) =~= trees@.map_values(|t: TokenTree| tree_view(t)));
    r
}

/// The top-level tokens inside a group.
fn contents_of(t: &TokenTree) -> (r: Vec<Tok>)
    requires
        tree_view(*t) is Group,
    ensures
        tok_views(r@) == top_level_tokens(group_contents(*t)),
{
    tokens_of(&token_trees(group_stream(t)))
}

/// Whether every invisible group of a field or variant list stands in a type or a value.
fn invisible_checked(toks: &Vec<Tok>) -> (r: bool)
    ensures
        r == invisible_only_in_values(tok_views(toks@)),
{
    let ghost v = tok_views(toks@);
    let mut in_val = false;
    for i in 0..toks.len()
        invariant
            v == tok_views(toks@),
            in_val == in_value(v, i as int),
            forall|k: int| 0 <= k < i && #[trigger] v[k] == TokView::Group(Delim::Invisible) ==> in_value(v, k),
    {
        if group_is(&toks[i], Delim::Invisible) && !in_val {
            assert(v[i as int] == TokView::Group(Delim::Invisible));
            return false;
        }
        if punct_is(&toks[i], ':') || punct_is(&toks[i], '=') {
            in_val = true;
        } else if punct_is(&toks[i], ',') {
            in_val = false;
        }
        assert(in_val == in_value(v, i + 1));
    }
    true
}

/// Whether no field of a list of tuple fields is a visibility alone.
fn visibility_checked(toks: &Vec<Tok>) -> (r: bool)
    ensures
        r == no_bare_visibility(tok_views(toks@)),
{
    let ghost v = tok_views(toks@);
    let n = toks.len();
    assert(v.len() == n);
    for i in 0..n
        invariant
            v == tok_views(toks@),
            n == v.len(),
            forall|k: int| 0 <= k < i && is_word(#[trigger] v[k], "crate"@) ==> type_at(v, k + 1),
            forall|k: int|
                0 <= k < i && is_word(#[trigger] v[k], "pub"@) && k + 1 < v.len() && v[k + 1]
                    == TokView::Group(Delim::Parenthesis) ==> type_at(v, k + 2),
    {
        assert(v[i as int] == toks@[i as int]@);
        if word_is(&toks[i], "crate") && (i + 1 == n || punct_is(&toks[i + 1], ',')) {
            assert(!type_at(v, i + 1));
            return false;
        }
        if word_is(&toks[i], "pub") && i + 1 < n && group_is(&toks[i + 1], Delim::Parenthesis) && (i + 2 == n
            || punct_is(&toks[i + 2], ',')) {
            assert(v[i + 1] == toks@[i + 1]@);
            assert(!type_at(v, i + 2));
            return false;
        }
        assert(i + 1 < n ==> v[i + 1] == toks@[i + 1]@);
        assert(i + 2 < n ==> v[i + 2] == toks@[i + 2]@);
    }
    true
}

/// Whether the token at `i` is a parenthesis group that is no visibility's.
fn tuple_list_checked(toks: &Vec<Tok>, i: usize) -> (r: bool)
    requires
        i < toks@.len(),
    ensures
        r == tuple_list_at(tok_views(toks@), i as int),
{
    group_is(&toks[i], Delim::Parenthesis) && !(i > 0 && word_is(&toks[i - 1], "pub"))
}

/// What venial asks of the group at `i` of a field or variant list.
fn inner_group_checked(trees: &Vec<TokenTree>, toks: &Vec<Tok>, i: usize) -> (r: bool)
    requires
        tok_views(toks@) == trees@.map_values(|t: TokenTree| tree_view(t)),
        i < trees@.len(),
    ensures
        r == inner_group_readable(trees@, i as int),
{
    let ghost v = tok_views(toks@);
    assert(v.len() == toks@.len() && v.len() == trees@.len());
    assert(v[i as int] == toks@[i as int]@ && v[i as int] == tree_view(trees@[i as int]));
    if group_is(&toks[i], Delim::Brace) && !invisible_checked(&contents_of(&trees[i])) {
        return false;
    }
    if tuple_list_checked(toks, i) && !visibility_checked(&contents_of(&trees[i])) {
        return false;
    }
    true
}

/// What venial asks of the contents of a `{ }` group at a declaration's top level.
fn list_checked(s: TokenStream) -> (r: bool)
    ensures
        r == list_readable(s),
{
    let trees = token_trees(s);
    let toks = tokens_of(&trees);
    if !invisible_checked(&toks) {
        return false;
    }
    for i in 0..trees.len()
        invariant
            trees@ == top_level_trees(s),
            tok_views(toks@) == trees@.map_values(|t: TokenTree| tree_view(t)),
            forall|k: int| 0 <= k < i ==> #[trigger] inner_group_readable(trees@, k),
    {
        if !inner_group_checked(&trees, &toks, i) {
            return false;
        }
    }
    true
}

/// What venial asks of the tree at `i` of a declaration's top level.
fn top_tree_checked(trees: &Vec<TokenTree>, toks: &Vec<Tok>, i: usize) -> (r: bool)
    requires
        tok_views(toks@) == trees@.map_values(|t: TokenTree| tree_view(t)),
        i < trees@.len(),
    ensures
        r == top_tree_readable(trees@, i as int),
{
    let ghost v = tok_views(toks@);
    assert(v.len() == toks@.len() && v.len() == trees@.len());
    assert(v[i as int] == toks@[i as int]@ && v[i as int] == tree_view(trees@[i as int]));
    if group_is(&toks[i], Delim::Invisible) {
        return false;
    }
    if group_is(&toks[i], Delim::Brace) && !list_checked(group_stream(&trees[i])) {
        return false;
    }
    if tuple_list_checked(toks, i) && !visibility_checked(&contents_of(&trees[i])) {
        return false;
    }
    true
}

/// Whether venial's parser returns on a declaration that syn reads with the generic
/// parameters `params`.
pub fn venial_can_read(tokens: &TokenStream, params: &Vec<ParamDecl>) -> (r: bool)
    ensures
        r == venial_reads(*tokens, params@),
{
    for i in 0..params.len()
        invariant
            forall|k: int| 0 <= k < i ==> #[trigger] param_readable(params@[k]),
    {
        if params[i].attributes != 0 || (!params[i].colon && params[i].default) {
            assert(!param_readable(params@[i as int]));
            return false;
        }
    }
    let trees = token_trees(tokens.clone());
    let toks = tokens_of(&trees);
    for i in 0..trees.len()
        invariant
            trees@ == top_level_trees(*tokens),
            tok_views(toks@) == trees@.map_values(|t: TokenTree| tree_view(t)),
            forall|k: int| 0 <= k < params@.len() ==> #[trigger] param_readable(params@[k]),
            forall|k: int| 0 <= k < i ==> #[trigger] top_tree_readable(trees@, k),
    {
        if !top_tree_checked(&trees, &toks, i) {
            return false;
        }
    }
    true
}

} // verus!
