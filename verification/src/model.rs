//! The values that the generators read: fields, declarations, tokens, and the errors
//! that a macro reports.
use vstd::prelude::*;

verus! {

/// One field of a struct: its name (`None` in a tuple struct) and the text of its type.
#[derive(Debug, Clone)]
pub struct FieldDecl {
    pub name: Option<String>,
    pub ty: String,
}

/// What a field is made of, as text.
pub type FieldView = (Option<Seq<char>>, Seq<char>);

/// The text of an optional string.
pub open spec fn opt_view(o: Option<String>) -> Option<Seq<char>> {
    match o {
        Some(s) => Some(s@),
        None => None,
    }
}

impl View for FieldDecl {
    type V = FieldView;

    open spec fn view(&self) -> FieldView {
        (opt_view(self.name), self.ty@)
    }
}

/// The views of a sequence of fields.
pub open spec fn field_views(fields: Seq<FieldDecl>) -> Seq<FieldView> {
    fields.map_values(|f: FieldDecl| f@)
}

/// The body of a declaration that a derive or an attribute macro receives.
#[derive(Debug, Clone)]
pub enum Body {
    /// A struct with braces: `struct S { a: A, b: B }`.
    Named(Vec<FieldDecl>),
    /// A tuple struct: `struct S(A, B);`.
    Unnamed(Vec<FieldDecl>),
    /// A struct without fields: `struct S;`.
    Unit,
    /// An enum, with the text of its variants.
    Enum(String),
    /// A union.
    Union,
}

/// A generic parameter of a declaration, as far as the declaration parsers tell them
/// apart: the number of its outer attributes, whether a `:` follows its name (bounds,
/// or a const parameter's type), and whether it has a default (`= ..`).
#[derive(Debug, Clone, Copy)]
pub struct ParamDecl {
    pub attributes: usize,
    pub colon: bool,
    pub default: bool,
}

/// A struct, enum or union declaration: its name, the text of each outer attribute, its
/// body, and its generic parameters.
#[derive(Debug, Clone)]
pub struct DeriveDecl {
    pub name: String,
    pub attrs: Vec<String>,
    pub body: Body,
    pub params: Vec<ParamDecl>,
}

/// The kind and name of a declaration, as the declaration parser reports it.
#[derive(Debug, Clone)]
pub enum DeclarationKind {
    Struct(String),
    Enum(String),
    /// Any other declaration: a union, a module, an impl, a function, ...
    Other,
}

/// Bracket of a token group.
#[derive(Debug, Clone, Copy, PartialEq, Eq)]
pub enum Delim {
    Parenthesis,
    Brace,
    Bracket,
    Invisible,
}

/// One token tree at the top level of a token stream.
#[derive(Debug, Clone)]
pub enum Tok {
    Ident(String),
    /// A punctuation character, and whether it is joined to the next one (as in `>>`).
    Punct(char, bool),
    Literal(String),
    /// A delimited group; its contents are not looked at.
    Group(Delim),
}

/// What a macro reports instead of an expansion.
#[derive(Debug, Clone, PartialEq, Eq)]
pub enum MacroError {
    /// The input is not the syntax that the macro reads; the parser's message.
    Parse(String),
    /// The input is a form that the macro does not handle.
    Unsupported(String),
    /// Errors handed to the compiler, in order.
    Rejected(Vec<String>),
}

/// A declaration's body as text.
pub enum BodyView {
    Named(Seq<FieldView>),
    Unnamed(Seq<FieldView>),
    Unit,
    Enum(Seq<char>),
    Union,
}

/// A declaration as text: its name, its outer attributes, its body, its generic parameters.
pub struct DeriveView {
    pub name: Seq<char>,
    pub attrs: Seq<Seq<char>>,
    pub body: BodyView,
    pub params: Seq<ParamDecl>,
}

impl View for Body {
    type V = BodyView;

    open spec fn view(&self) -> BodyView {
        match self {
            Body::Named(fs) => BodyView::Named(field_views(fs@)),
            Body::Unnamed(fs) => BodyView::Unnamed(field_views(fs@)),
            Body::Unit => BodyView::Unit,
            Body::Enum(v) => BodyView::Enum(v@),
            Body::Union => BodyView::Union,
        }
    }
}

impl View for DeriveDecl {
    type V = DeriveView;

    open spec fn view(&self) -> DeriveView {
        DeriveView {
            name: self.name@,
            attrs: self.attrs@.map_values(|a: String| a@),
            body: self.body@,
            params: self.params@,
        }
    }
}

/// The kind and name of a declaration as text.
pub enum DeclView {
    Struct(Seq<char>),
    Enum(Seq<char>),
    Other,
}

impl View for DeclarationKind {
    type V = DeclView;

    open spec fn view(&self) -> DeclView {
        match self {
            DeclarationKind::Struct(n) => DeclView::Struct(n@),
            DeclarationKind::Enum(n) => DeclView::Enum(n@),
            DeclarationKind::Other => DeclView::Other,
        }
    }
}

/// A token tree as text.
pub enum TokView {
    Ident(Seq<char>),
    Punct(char, bool),
    Literal(Seq<char>),
    Group(Delim),
}

impl View for Tok {
    type V = TokView;

    open spec fn view(&self) -> TokView {
        match self {
            Tok::Ident(t) => TokView::Ident(t@),
            Tok::Punct(c, j) => TokView::Punct(*c, *j),
            Tok::Literal(t) => TokView::Literal(t@),
            Tok::Group(d) => TokView::Group(*d),
        }
    }
}

/// The views of a sequence of tokens.
pub open spec fn tok_views(toks: Seq<Tok>) -> Seq<TokView> {
    toks.map_values(|t: Tok| t@)
}

} // verus!
