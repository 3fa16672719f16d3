//! The parsers and printers of `syn`, `venial`, `proc_macro2` and `quote` that the
//! generators call, and the one std function without a specification in vstd.
use crate::declaration::venial_reads;
use crate::model::{BodyView, DeclView, DeclarationKind, Delim, DeriveView, ParamDecl, Tok, TokView};
use proc_macro2::{Delimiter, Spacing, TokenStream, TokenTree};
use quote::ToTokens;
use syn::punctuated::Punctuated;
use syn::token::Comma;
use syn::token::{PathSep, Semi};
use syn::{
    Attribute, Data, DeriveInput, Expr, ExprIf, Field, Fields, GenericParam, ItemFn, PathSegment, ReturnType, Stmt,
    StmtMacro,
};
use venial::Declaration;
use vstd::prelude::*;

verus! {

/// `proc_macro2::TokenStream`, opaque to Verus.
#[verifier::external_type_specification]
#[verifier::external_body]
pub struct ExTokenStream(proc_macro2::TokenStream);

/// `TokenStream::clone`: a copy of the same tokens, which the names of this module take
/// for the stream itself.
pub assume_specification[ <TokenStream as Clone>::clone ](t: &TokenStream) -> (r: TokenStream)
    ensures
        r == *t,
;

/// `proc_macro2::TokenTree`, opaque to Verus.
#[verifier::external_type_specification]
#[verifier::external_body]
pub struct ExTokenTree(proc_macro2::TokenTree);

/// `syn::DeriveInput`, opaque to Verus.
#[verifier::external_type_specification]
#[verifier::external_body]
pub struct ExDeriveInput(syn::DeriveInput);

/// `syn::Field`, opaque to Verus.
#[verifier::external_type_specification]
#[verifier::external_body]
pub struct ExField(syn::Field);

/// `syn::Attribute`, opaque to Verus.
#[verifier::external_type_specification]
#[verifier::external_body]
pub struct ExAttribute(syn::Attribute);

/// `syn::token::Comma`, opaque to Verus.
#[verifier::external_type_specification]
#[verifier::external_body]
pub struct ExComma(syn::token::Comma);

/// `syn::punctuated::Punctuated`, opaque to Verus.
#[verifier::external_type_specification]
#[verifier::external_body]
#[verifier::reject_recursive_types(T)]
#[verifier::reject_recursive_types(P)]
pub struct ExPunctuated<T, P>(syn::punctuated::Punctuated<T, P>);

/// What a list of fields holds: for each field in order, the text of its name (if it
/// has one) and the text of its type's tokens.
pub uninterp spec fn field_list(fields: Punctuated<Field, Comma>) -> Seq<(Option<Seq<char>>, Seq<char>)>;

/// `Punctuated::len`: the number of fields in the list.
#[verifier::external_body]
pub fn field_count(fields: &Punctuated<Field, Comma>) -> (n: usize)
    ensures
        n == field_list(*fields).len(),
{
    fields.len()
}

/// The field at `i` of the list (`Punctuated`'s index, which panics past the end, hence
/// the `requires`), as the text of its name and the text of its type's tokens
/// (`Ident::to_string` and `ToTokens::to_token_stream` then `TokenStream::to_string`).
#[verifier::external_body]
pub fn get_name_and_type(fields: &Punctuated<Field, Comma>, i: usize) -> (r: (Option<String>, String))
    requires
        i < field_list(*fields).len(),
    ensures
        (crate::model::opt_view(r.0), r.1@) == field_list(*fields)[i as int],
{
    let f = &fields[i];
    let name = match &f.ident {
        Some(id) => Some(id.to_string()),
        None => None,
    };
    (name, f.ty.to_token_stream().to_string())
}

/// What syn reads from a token stream as a struct, enum or union declaration
/// (`syn::parse2::<DeriveInput>`), as text; on failure, the text of syn's error.
pub uninterp spec fn derive_of(tokens: TokenStream) -> Result<DeriveView, Seq<char>>;

/// What a declaration holds, as text: its name (`Ident::to_string`), the tokens of each
/// outer attribute, its body (the fields as `field_list` reads them, the tokens of an
/// enum's variants), and its generic parameters as `param_at` gives them.
pub uninterp spec fn input_view(d: DeriveInput) -> DeriveView;

/// `syn::parse2::<DeriveInput>`: the declaration that syn reads; on failure, the text of
/// syn's error.
#[verifier::external_body]
pub fn parse_derive_input(tokens: TokenStream) -> (r: Result<DeriveInput, String>)
    ensures
        match r {
            Ok(d) => derive_of(tokens) == Ok::<DeriveView, Seq<char>>(input_view(d)),
            Err(m) => derive_of(tokens) == Err::<DeriveView, Seq<char>>(m@),
        },
{
    match syn::parse2::<DeriveInput>(tokens) {
        Ok(d) => Ok(d),
        Err(e) => Err(e.to_string()),
    }
}

/// The text of a declaration's name (`Ident::to_string`).
#[verifier::external_body]
pub fn derive_ident(d: &DeriveInput) -> (r: String)
    ensures
        r@ == input_view(*d).name,
{
    d.ident.to_string()
}

/// The number of a declaration's generic parameters (`Punctuated::len`).
#[verifier::external_body]
pub fn param_count(d: &DeriveInput) -> (n: usize)
    ensures
        n == input_view(*d).params.len(),
{
    d.generics.params.len()
}

/// The generic parameter at `i` (`Punctuated`'s index, which panics past the end, hence
/// the `requires`): the number of its attributes, whether it has a `:` (a const
/// parameter always has one), whether it has a default (a lifetime never has one).
#[verifier::external_body]
pub fn param_at(d: &DeriveInput, i: usize) -> (r: ParamDecl)
    requires
        i < input_view(*d).params.len(),
    ensures
        r == input_view(*d).params[i as int],
{
    match &d.generics.params[i] {
        GenericParam::Lifetime(p) => ParamDecl { attributes: p.attrs.len(), colon: p.colon_token.is_some(), default: false },
        GenericParam::Type(p) => ParamDecl { attributes: p.attrs.len(), colon: p.colon_token.is_some(), default: p.eq_token.is_some() },
        GenericParam::Const(p) => ParamDecl { attributes: p.attrs.len(), colon: true, default: p.eq_token.is_some() },
    }
}

/// The text of an attribute's tokens (`ToTokens::to_token_stream` then
/// `TokenStream::to_string`).
pub uninterp spec fn attribute_text_of(a: Attribute) -> Seq<char>;

/// A copy of a declaration's outer attributes, in order.
#[verifier::external_body]
pub fn derive_attributes(d: &DeriveInput) -> (r: Vec<Attribute>)
    ensures
        r@.map_values(|a: Attribute| attribute_text_of(a)) == input_view(*d).attrs,
{
    d.attrs.clone()
}

/// The text of an attribute's tokens (`ToTokens::to_token_stream` then
/// `TokenStream::to_string`).
#[verifier::external_body]
pub fn attribute_text(a: &Attribute) -> (r: String)
    ensures
        r@ == attribute_text_of(*a),
{
    a.to_token_stream().to_string()
}

/// The body of a declaration: for a struct its fields by kind, for an enum the text of
/// its variants' tokens.
#[verifier::external_body]
pub fn derive_body(d: &DeriveInput) -> (r: DeriveBody)
    ensures
        input_view(*d).body == match r {
            DeriveBody::Named(p) => BodyView::Named(field_list(p)),
            DeriveBody::Unnamed(p) => BodyView::Unnamed(field_list(p)),
            DeriveBody::Unit => BodyView::Unit,
            DeriveBody::Enum(v) => BodyView::Enum(v@),
            DeriveBody::Union => BodyView::Union,
        },
{
    match &d.data {
        Data::Struct(s) => match &s.fields {
            Fields::Named(f) => DeriveBody::Named(f.named.clone()),
            Fields::Unnamed(f) => DeriveBody::Unnamed(f.unnamed.clone()),
            Fields::Unit => DeriveBody::Unit,
        },
        Data::Enum(e) => DeriveBody::Enum(e.variants.to_token_stream().to_string()),
        Data::Union(_) => DeriveBody::Union,
    }
}

/// The body of a declaration as `syn` holds it.
pub enum DeriveBody {
    Named(Punctuated<Field, Comma>),
    Unnamed(Punctuated<Field, Comma>),
    Unit,
    Enum(String),
    Union,
}

/// What venial reads from a token stream (`venial::parse_declaration`): a struct or an
/// enum with the text of its name, any other declaration as `Other`; on an `Err`, the
/// text of venial's error.
pub uninterp spec fn venial_of(tokens: TokenStream) -> Result<DeclView, Seq<char>>;

/// `venial::parse_declaration`: for a struct or an enum, its kind and the text of its
/// name; any other declaration (the enum is `non_exhaustive`) as `Other`; on an `Err`,
/// venial's message. Venial panics on what it cannot read (its documentation, "Panics").
/// Its parser (`parse.rs`, `parse_type.rs`, `parse_utils.rs`) panics on a declaration
/// that syn reads only where a generic parameter carries an attribute, where a type
/// parameter's default follows its name without a `:`, where an invisible group stands
/// in place of a keyword, a name, a visibility or a field, and on a tuple field that
/// venial reads as a visibility alone (`crate`, or `pub` and a tuple type, which venial
/// takes for `pub(..)`). The `requires` leaves these out (`venial_reads`), with a margin:
/// it also leaves out invisible groups in bounds and where clauses, and such fields in
/// any parenthesis group that is not a visibility's.
#[verifier::external_body]
pub fn parse_declaration(tokens: TokenStream) -> (r: Result<DeclarationKind, String>)
    requires
        derive_of(tokens) matches Ok(v) && venial_reads(tokens, v.params),
    ensures
        match r {
            Ok(k) => venial_of(tokens) == Ok::<DeclView, Seq<char>>(k@),
            Err(m) => venial_of(tokens) == Err::<DeclView, Seq<char>>(m@),
        },
{
    match venial::parse_declaration(tokens) {
        Ok(Declaration::Struct(s)) => Ok(DeclarationKind::Struct(s.name.to_string())),
        Ok(Declaration::Enum(e)) => Ok(DeclarationKind::Enum(e.name.to_string())),
        Ok(_) => Ok(DeclarationKind::Other),
        Err(e) => Err(e.to_string()),
    }
}

/// What syn reads from a token stream as one identifier (`syn::parse2::<syn::Ident>`;
/// keywords are refused): its text; on failure, the text of syn's error.
pub uninterp spec fn ident_of(tokens: TokenStream) -> Result<Seq<char>, Seq<char>>;

/// `syn::parse2::<syn::Ident>`: the text of the one identifier that the stream holds;
/// on failure, the text of syn's error.
#[verifier::external_body]
pub fn parse_ident(tokens: TokenStream) -> (r: Result<String, String>)
    ensures
        match r {
            Ok(n) => ident_of(tokens) == Ok::<Seq<char>, Seq<char>>(n@),
            Err(m) => ident_of(tokens) == Err::<Seq<char>, Seq<char>>(m@),
        },
{
    match syn::parse2::<syn::Ident>(tokens) {
        Ok(id) => Ok(id.to_string()),
        Err(e) => Err(e.to_string()),
    }
}

/// Whether `syn` reads `text` as one identifier (`syn::parse_str::<syn::Ident>`):
/// a function of the text alone, which refuses keywords and `_`.
pub uninterp spec fn syn_accepts_ident(text: Seq<char>) -> bool;

/// `syn::parse_str::<syn::Ident>(text).is_ok()`.
#[verifier::external_body]
pub fn accepts_ident(text: &str) -> (r: bool)
    ensures
        r == syn_accepts_ident(text@),
{
    syn::parse_str::<syn::Ident>(text).is_ok()
}

/// The token trees at the top level of a stream, in order.
pub uninterp spec fn top_level_trees(tokens: TokenStream) -> Seq<TokenTree>;

/// A token tree as `token_view` gives it.
pub uninterp spec fn tree_view(t: TokenTree) -> TokView;

/// What a token stream holds at its top level: each token tree in order, as
/// `token_view` gives it.
pub open spec fn top_level_tokens(tokens: TokenStream) -> Seq<TokView> {
    top_level_trees(tokens).map_values(|t: TokenTree| tree_view(t))
}

/// The top-level token trees of a stream, in order (`TokenStream::into_iter`).
#[verifier::external_body]
pub fn token_trees(tokens: TokenStream) -> (r: Vec<TokenTree>)
    ensures
        r@ == top_level_trees(tokens),
{
    tokens.into_iter().collect()
}

/// The tokens inside a group, without its delimiters.
pub uninterp spec fn group_contents(t: TokenTree) -> TokenStream;

/// `Group::stream`: the tokens inside a group.
#[verifier::external_body]
pub fn group_stream(t: &TokenTree) -> (r: TokenStream)
    requires
        tree_view(*t) is Group,
    ensures
        r == group_contents(*t),
{
    match t {
        TokenTree::Group(g) => g.stream(),
        _ => TokenStream::new(),
    }
}

/// A token tree as plain values: an identifier's or a literal's text (`to_string`), a
/// punctuation character with its spacing, a group's delimiter.
#[verifier::external_body]
pub fn token_view(t: &TokenTree) -> (r: Tok)
    ensures
        r@ == tree_view(*t),
{
    match t {
        TokenTree::Ident(i) => Tok::Ident(i.to_string()),
        TokenTree::Punct(p) => Tok::Punct(p.as_char(), match p.spacing() {
            Spacing::Joint => true,
            Spacing::Alone => false,
        }),
        TokenTree::Literal(l) => Tok::Literal(l.to_string()),
        TokenTree::Group(g) => Tok::Group(match g.delimiter() {
            Delimiter::Parenthesis => Delim::Parenthesis,
            Delimiter::Brace => Delim::Brace,
            Delimiter::Bracket => Delim::Bracket,
            Delimiter::None => Delim::Invisible,
        }),
    }
}

/// What `str::to_uppercase` returns for a text: Unicode's uppercase mapping, a
/// function of the text alone.
pub uninterp spec fn str_to_uppercase(s: Seq<char>) -> Seq<char>;

/// `str::to_uppercase`.
#[verifier::external_body]
pub fn to_uppercase(s: &str) -> (r: String)
    ensures
        r@ == str_to_uppercase(s@),
{
    s.to_uppercase()
}

/// `syn::ItemFn`, opaque to Verus.
#[verifier::external_type_specification]
#[verifier::external_body]
pub struct ExItemFn(syn::ItemFn);

/// `syn::Stmt`, opaque to Verus.
#[verifier::external_type_specification]
#[verifier::external_body]
pub struct ExStmt(syn::Stmt);

/// `syn::ExprIf`, opaque to Verus.
#[verifier::external_type_specification]
#[verifier::external_body]
pub struct ExExprIf(syn::ExprIf);

/// `syn::StmtMacro`, opaque to Verus.
#[verifier::external_type_specification]
#[verifier::external_body]
pub struct ExStmtMacro(syn::StmtMacro);

/// `syn::PathSegment`, opaque to Verus.
#[verifier::external_type_specification]
#[verifier::external_body]
pub struct ExPathSegment(syn::PathSegment);

/// `syn::token::PathSep`, opaque to Verus.
#[verifier::external_type_specification]
#[verifier::external_body]
pub struct ExPathSep(syn::token::PathSep);

/// `syn::token::Semi`, opaque to Verus.
#[verifier::external_type_specification]
#[verifier::external_body]
pub struct ExSemi(syn::token::Semi);

/// What syn reads from a token stream as a function (`syn::parse2::<ItemFn>`); on
/// failure, the text of syn's error.
pub uninterp spec fn fn_of(tokens: TokenStream) -> Result<ItemFn, Seq<char>>;

/// The text of a function's return type (`ToTokens` then `to_string`), `None` where the
/// signature has none.
pub uninterp spec fn fn_ret(f: ItemFn) -> Option<Seq<char>>;

/// The statements of a function's body, in order.
pub uninterp spec fn fn_stmts(f: ItemFn) -> Seq<Stmt>;

/// The function with `stmts` as the statements of its body, all else the same.
pub uninterp spec fn fn_with_stmts(f: ItemFn, stmts: Seq<Stmt>) -> ItemFn;

/// The function with the return type that syn reads from `text`
/// (`syn::parse_str::<ReturnType>`), all else the same; on failure, syn's message.
pub uninterp spec fn fn_with_output(f: ItemFn, text: Seq<char>) -> Result<ItemFn, Seq<char>>;

/// The text of a function's tokens (`ToTokens` then `to_string`).
pub uninterp spec fn fn_text(f: ItemFn) -> Seq<char>;

/// The text of a statement's tokens (`ToTokens` then `to_string`).
pub uninterp spec fn stmt_text_of(s: Stmt) -> Seq<char>;

/// The statement without a semicolon whose expression syn reads from `text`
/// (`syn::parse_str::<Expr>`); on failure, syn's message.
pub uninterp spec fn expr_stmt_parse(text: Seq<char>) -> Result<Stmt, Seq<char>>;

/// The statement that syn reads from `text` (`syn::parse_str::<Stmt>`); on failure,
/// syn's message.
pub uninterp spec fn stmt_parse(text: Seq<char>) -> Result<Stmt, Seq<char>>;

/// A statement by its parts, as `stmt_shape` gives them.
pub uninterp spec fn shape_of(s: Stmt) -> StmtShape;

/// The statement of its parts, as `shape_stmt` builds it.
pub uninterp spec fn stmt_of_shape(shape: StmtShape) -> Stmt;

/// The text of an `if` expression's tokens (`ToTokens` then `to_string`).
pub uninterp spec fn if_text_of(e: ExprIf) -> Seq<char>;

/// The statements of the `then` block of an `if`, in order.
pub uninterp spec fn then_stmts(e: ExprIf) -> Seq<Stmt>;

/// The `if` with `stmts` as the statements of its `then` block, all else the same.
pub uninterp spec fn if_with_then(e: ExprIf, stmts: Seq<Stmt>) -> ExprIf;

/// A statement macro as text: the identifiers of its path's segments, whether its input
/// tokens are empty (`TokenStream::is_empty`), and their text (`to_string`).
pub uninterp spec fn macro_view(m: StmtMacro) -> (Seq<Seq<char>>, bool, Seq<char>);

/// `syn::parse2::<ItemFn>`: the function that syn reads; on failure, syn's message.
#[verifier::external_body]
pub fn parse_item_fn(tokens: TokenStream) -> (r: Result<ItemFn, String>)
    ensures
        match r {
            Ok(f) => fn_of(tokens) == Ok::<ItemFn, Seq<char>>(f),
            Err(m) => fn_of(tokens) == Err::<ItemFn, Seq<char>>(m@),
        },
{
    match syn::parse2::<ItemFn>(tokens) {
        Ok(f) => Ok(f),
        Err(e) => Err(e.to_string()),
    }
}

/// The text of a function's return type, `None` where the signature has none.
#[verifier::external_body]
pub fn fn_return_type(f: &ItemFn) -> (r: Option<String>)
    ensures
        crate::model::opt_view(r) == fn_ret(*f),
{
    match &f.sig.output {
        ReturnType::Default => None,
        ReturnType::Type(_, ty) => Some(ty.to_token_stream().to_string()),
    }
}

/// A copy of the statements of a function's body.
#[verifier::external_body]
pub fn fn_statements(f: &ItemFn) -> (r: Vec<Stmt>)
    ensures
        r@ == fn_stmts(*f),
{
    f.block.stmts.clone()
}

/// Makes `stmts` the statements of a function's body.
#[verifier::external_body]
pub fn set_fn_statements(f: &mut ItemFn, stmts: Vec<Stmt>)
    ensures
        *final(f) == fn_with_stmts(*old(f), stmts@),
{
    f.block.stmts = stmts;
}

/// Reads `text` as a return type (`syn::parse_str::<ReturnType>`) and makes it the
/// function's; on failure, syn's message and the function unchanged.
#[verifier::external_body]
pub fn replace_fn_output(f: &mut ItemFn, text: &str) -> (r: Result<(), String>)
    ensures
        match r {
            Ok(_) => fn_with_output(*old(f), text@) == Ok::<ItemFn, Seq<char>>(*final(f)),
            Err(m) => fn_with_output(*old(f), text@) == Err::<ItemFn, Seq<char>>(m@) && *final(f) == *old(f),
        },
{
    match syn::parse_str::<ReturnType>(text) {
        Ok(output) => {
            f.sig.output = output;
            Ok(())
        },
        Err(e) => Err(e.to_string()),
    }
}

/// The text of a function's tokens.
#[verifier::external_body]
pub fn item_fn_text(f: &ItemFn) -> (r: String)
    ensures
        r@ == fn_text(*f),
{
    f.to_token_stream().to_string()
}

/// The text of a statement's tokens.
#[verifier::external_body]
pub fn stmt_text(s: &Stmt) -> (r: String)
    ensures
        r@ == stmt_text_of(*s),
{
    s.to_token_stream().to_string()
}

/// Reads `text` as an expression (`syn::parse_str::<Expr>`) and makes it a statement
/// without a semicolon; on failure, syn's message.
#[verifier::external_body]
pub fn parse_expr_stmt(text: &str) -> (r: Result<Stmt, String>)
    ensures
        match r {
            Ok(st) => expr_stmt_parse(text@) == Ok::<Stmt, Seq<char>>(st),
            Err(m) => expr_stmt_parse(text@) == Err::<Stmt, Seq<char>>(m@),
        },
{
    match syn::parse_str::<Expr>(text) {
        Ok(e) => Ok(Stmt::Expr(e, None)),
        Err(e) => Err(e.to_string()),
    }
}

/// Reads `text` as a statement (`syn::parse_str::<Stmt>`); on failure, syn's message.
#[verifier::external_body]
pub fn parse_stmt(text: &str) -> (r: Result<Stmt, String>)
    ensures
        match r {
            Ok(st) => stmt_parse(text@) == Ok::<Stmt, Seq<char>>(st),
            Err(m) => stmt_parse(text@) == Err::<Stmt, Seq<char>>(m@),
        },
{
    match syn::parse_str::<Stmt>(text) {
        Ok(s) => Ok(s),
        Err(e) => Err(e.to_string()),
    }
}

/// A statement by the parts that a rewrite of panics looks at: an `if` expression (with
/// its semicolon, if any), a macro in statement position, or anything else.
pub enum StmtShape {
    If(ExprIf, Option<Semi>),
    Macro(StmtMacro),
    Other(Stmt),
}

/// Tells a statement's variants apart, moving the parts; `shape_stmt` puts them back.
#[verifier::external_body]
pub fn stmt_shape(s: Stmt) -> (r: StmtShape)
    ensures
        r == shape_of(s),
        stmt_of_shape(r) == s,
{
    match s {
        Stmt::Expr(Expr::If(e), semi) => StmtShape::If(e, semi),
        Stmt::Macro(m) => StmtShape::Macro(m),
        other => StmtShape::Other(other),
    }
}

/// The statement of its parts, the inverse of `stmt_shape`.
#[verifier::external_body]
pub fn shape_stmt(shape: StmtShape) -> (r: Stmt)
    ensures
        r == stmt_of_shape(shape),
{
    match shape {
        StmtShape::If(e, semi) => Stmt::Expr(Expr::If(e), semi),
        StmtShape::Macro(m) => Stmt::Macro(m),
        StmtShape::Other(s) => s,
    }
}

/// The text of an `if` expression's tokens.
#[verifier::external_body]
pub fn expr_if_text(e: &ExprIf) -> (r: String)
    ensures
        r@ == if_text_of(*e),
{
    e.to_token_stream().to_string()
}

/// A copy of the statements of the `then` block of an `if`.
#[verifier::external_body]
pub fn then_statements(e: &ExprIf) -> (r: Vec<Stmt>)
    ensures
        r@ == then_stmts(*e),
{
    e.then_branch.stmts.clone()
}

/// Makes `stmts` the statements of the `then` block of an `if`.
#[verifier::external_body]
pub fn set_then_statements(e: &mut ExprIf, stmts: Vec<Stmt>)
    ensures
        *final(e) == if_with_then(*old(e), stmts@),
{
    e.then_branch.stmts = stmts;
}

/// The segments of the path that names a statement macro (`panic` in `std::panic!`).
#[verifier::external_body]
pub fn macro_path(m: &StmtMacro) -> (r: &Punctuated<PathSegment, PathSep>)
    ensures
        path_segment_names(*r) == macro_view(*m).0,
{
    &m.mac.path.segments
}

/// What the segments of a path hold: the text of each segment's identifier, in order.
pub uninterp spec fn path_segment_names(p: Punctuated<PathSegment, PathSep>) -> Seq<Seq<char>>;

/// `Punctuated::len`: the number of segments of the path.
#[verifier::external_body]
pub fn segment_count(p: &Punctuated<PathSegment, PathSep>) -> (n: usize)
    ensures
        n == path_segment_names(*p).len(),
{
    p.len()
}

/// The text of the identifier of the segment at `i` (`Punctuated`'s index, which panics
/// past the end, hence the `requires`; then `Ident::to_string`).
#[verifier::external_body]
pub fn segment_name(p: &Punctuated<PathSegment, PathSep>, i: usize) -> (r: String)
    requires
        i < path_segment_names(*p).len(),
    ensures
        r@ == path_segment_names(*p)[i as int],
{
    p[i].ident.to_string()
}

/// Whether a statement macro's input tokens are empty (`TokenStream::is_empty`), and their
/// text (`to_string`).
#[verifier::external_body]
pub fn macro_tokens(m: &StmtMacro) -> (r: (bool, String))
    ensures
        r.0 == macro_view(*m).1,
        r.1@ == macro_view(*m).2,
{
    (m.mac.tokens.is_empty(), m.mac.tokens.to_string())
}

} // verus!
