//! The `#[panic_to_result]` attribute: a function that panics becomes one that returns
//! `Result<_, String>`, each `panic!` with a message in the `then` block of a top-level
//! `if` turned into `return Err(message.to_string())` and the last expression into `Ok(..)`.
use crate::model::{opt_view, MacroError};
use crate::syntax::{
    expr_if_text, expr_stmt_parse, fn_of, fn_ret, fn_return_type, fn_statements, fn_stmts, fn_text,
    fn_with_output, fn_with_stmts, if_text_of, if_with_then, item_fn_text, macro_path, macro_tokens,
    macro_view, parse_expr_stmt, parse_item_fn, parse_stmt, path_segment_names, replace_fn_output,
    segment_count, segment_name, set_fn_statements, set_then_statements, shape_of, shape_stmt,
    stmt_of_shape, stmt_parse, stmt_shape, stmt_text, stmt_text_of, then_statements, then_stmts, StmtShape,
};
use crate::text::{contains, str_contains, views};
use proc_macro2::TokenStream;
use syn::punctuated::Punctuated;
use syn::token::{PathSep, Semi};
use syn::{ExprIf, ItemFn, PathSegment, Stmt, StmtMacro};
use vstd::prelude::*;

verus! {

/// The text of a string result.
pub open spec fn result_view(r: Result<String, String>) -> Result<Seq<char>, Seq<char>> {
    match r {
        Ok(s) => Ok(s@),
        Err(e) => Err(e@),
    }
}

/// The new return type for a function's return type (`None` where it has none): the
/// same type inside `Result<_, String>`, `()` where there was none; a type whose text
/// holds `Result` is refused, with the message that names it.
pub open spec fn result_signature(ret: Option<Seq<char>>) -> Result<Seq<char>, Seq<char>> {
    match ret {
        None => Ok("-> Result<(), String>"@),
        Some(t) => if contains(t, "Result"@) {
            Err("cannot use macro on a function with Result as return type. Signature: "@ + t)
        } else {
            Ok("-> Result<"@ + t + ", String>"@)
        },
    }
}

/// A signature that the rewrite accepts returns `Result<T, String>`, where `T` is the
/// old return type, or `()` where there was none; it refuses exactly the return types
/// whose text holds `Result`.
pub proof fn rewritten_signature_is_result(ret: Option<Seq<char>>)
    ensures
        result_signature(ret) is Err <==> (ret is Some && contains(ret->0, "Result"@)),
        result_signature(ret) matches Ok(t) ==> t == "-> Result<"@ + (match ret {
            Some(r) => r,
            None => "()"@,
        }) + ", String>"@,
{
    reveal_strlit("-> Result<(), String>");
    reveal_strlit("-> Result<");
    reveal_strlit("()");
    reveal_strlit(", String>");
    if ret is None {
        assert("-> Result<(), String>"@ =~= "-> Result<"@ + "()"@ + ", String>"@);
    }
}

/// The return type that the rewritten function gets, as text, or the error that refuses it.
pub fn signature_output_as_result(ret: &Option<String>) -> (r: Result<String, String>)
    ensures
        result_view(r) == result_signature(opt_view(*ret)),
{
    match ret {
        None => Ok(String::from_str("-> Result<(), String>")),
        Some(t) => {
            if str_contains(t.as_str(), "Result") {
                let mut m = String::from_str("cannot use macro on a function with Result as return type. Signature: ");
                m.append(t.as_str());
                Err(m)
            } else {
                let mut s = String::from_str("-> Result<");
                s.append(t.as_str());
                s.append(", String>");
                Ok(s)
            }
        },
    }
}

/// Whether one of a macro path's segments is `panic`.
pub open spec fn names_panic(segments: Seq<Seq<char>>) -> bool {
    exists|i: int| 0 <= i < segments.len() && #[trigger] segments[i] == "panic"@
}

/// The input tokens of a statement macro, as text, where the macro is a `panic`.
pub fn extract_panic_content(segments: &Vec<String>, tokens: &String) -> (r: Option<String>)
    ensures
        names_panic(crate::text::views(segments@)) ==> (r matches Some(t) && t@ == tokens@),
        !names_panic(crate::text::views(segments@)) ==> r is None,
{
    let panic_word = String::from_str("panic");
    let ghost names = crate::text::views(segments@);
    for i in 0..segments.len()
        invariant
            names == crate::text::views(segments@),
            panic_word@ == "panic"@,
            forall|k: int| 0 <= k < i ==> #[trigger] names[k] != "panic"@,
    {
        if segments[i] == panic_word {
            assert(names[i as int] == "panic"@);
            return Some(tokens.clone());
        }
    }
    None
}

/// The statement that replaces a `panic!` whose input tokens are `message`.
pub open spec fn return_err_text(message: Seq<char>) -> Seq<char> {
    "return Err("@ + message + ".to_string());"@
}

/// What becomes of a statement macro in the `then` block of an `if`: nothing (`None`)
/// unless it is a `panic`; a `panic` with input tokens is replaced by the text of
/// `return_err_text`; one without any is an error (`Some(Err(()))`).
pub open spec fn panic_rewrite(segments: Seq<Seq<char>>, empty: bool, tokens: Seq<char>) -> Option<Result<Seq<char>, ()>> {
    if !names_panic(segments) {
        None
    } else if empty {
        Some(Err(()))
    } else {
        Some(Ok(return_err_text(tokens)))
    }
}

/// The rewrite of a statement macro with path `segments` and input tokens `tokens`
/// (`empty` where there are none).
pub fn panic_replacement(segments: &Vec<String>, empty: bool, tokens: &String) -> (r: Option<Result<String, ()>>)
    ensures
        panic_rewrite(crate::text::views(segments@), empty, tokens@) == match r {
            None => None,
            Some(Ok(s)) => Some(Ok(s@)),
            Some(Err(())) => Some(Err(())),
        },
{
    match extract_panic_content(segments, tokens) {
        None => None,
        Some(t) => {
            if empty {
                Some(Err(()))
            } else {
                let mut s = String::from_str("return Err(");
                s.append(t.as_str());
                s.append(".to_string());");
                Some(Ok(s))
            }
        },
    }
}

/// The message for an `if` whose `then` block panics without a message.
pub open spec fn missing_message_text(expression: Seq<char>) -> Seq<char> {
    "please make sure every panic in your function has a message, check: "@ + expression
}

/// The message for an `if` whose `then` block panics without a message.
pub fn missing_message(expression: &String) -> (r: String)
    ensures
        r@ == missing_message_text(expression@),
{
    let mut m = String::from_str("please make sure every panic in your function has a message, check: ");
    m.append(expression.as_str());
    m
}

/// The function's last statement as the value that it returns: `Ok(last)`.
pub fn last_statement_as_result(last: &String) -> (r: String)
    ensures
        r@ == "Ok("@ + last@ + ")"@,
{
    let mut s = String::from_str("Ok(");
    s.append(last.as_str());
    s.append(")");
    s
}

/// The errors that a rewrite reports: those of the statements, then that of the signature.
pub fn combine_errors(statement_errors: Vec<String>, signature: &Result<String, String>) -> (r: Vec<String>)
    ensures
        r@ == match signature {
            Ok(_) => statement_errors@,
            Err(e) => statement_errors@.push(*e),
        },
{
    let mut all = statement_errors;
    match signature {
        Ok(_) => {},
        Err(e) => all.push(e.clone()),
    }
    all
}

/// The segment names of a path, in order.
fn segment_names(p: &Punctuated<PathSegment, PathSep>) -> (r: Vec<String>)
    ensures
        crate::text::views(r@) == path_segment_names(*p),
{
    let n = segment_count(p);
    let mut r: Vec<String> = Vec::new();
    for i in 0..n
        invariant
            n == path_segment_names(*p).len(),
            crate::text::views(r@) == path_segment_names(*p).take(i as int),
    {
        let name = segment_name(p, i);
        let ghost before = r@;
        r.push(name);
        assert(crate::text::views(r@) =~= crate::text::views(before).push(name@));
        assert(path_segment_names(*p).take(i + 1) =~= path_segment_names(*p).take(i as int).push(name@));
    }
    assert(path_segment_names(*p).take(n as int) =~= path_segment_names(*p));
    r
}

/// A statement macro as plain values: the names of its path's segments, whether its
/// input tokens are empty, and their text.
#[derive(Debug, Clone)]
pub struct MacroParts {
    pub segments: Vec<String>,
    pub empty: bool,
    pub tokens: String,
}

/// The parts of a statement macro, as text.
pub open spec fn parts_view(m: MacroParts) -> (Seq<Seq<char>>, bool, Seq<char>) {
    (views(m.segments@), m.empty, m.tokens@)
}

/// The plain-value parts of a statement macro.
fn macro_parts(m: &StmtMacro) -> (r: MacroParts)
    ensures
        parts_view(r) == macro_view(*m),
{
    let segments = segment_names(macro_path(m));
    let (empty, tokens) = macro_tokens(m);
    MacroParts { segments, empty, tokens }
}

/// What the rewrite of a block's statements comes to: a `panic` without a message, a
/// replacement that syn does not read as a statement, or the new statements.
pub enum ThenRewrite {
    Missing,
    /// syn's message for the replacement.
    Unparsable(Seq<char>),
    Done(Seq<Stmt>),
}

/// What becomes of one statement of a `then` block: a statement macro is rewritten as
/// `panic_rewrite` says (its replacement read by syn as a statement), any other
/// statement stays.
pub open spec fn then_step(s: Stmt) -> ThenRewrite {
    match shape_of(s) {
        StmtShape::Macro(m) => match panic_rewrite(macro_view(m).0, macro_view(m).1, macro_view(m).2) {
            None => ThenRewrite::Done(seq![s]),
            Some(Err(())) => ThenRewrite::Missing,
            Some(Ok(t)) => match stmt_parse(t) {
                Ok(st) => ThenRewrite::Done(seq![st]),
                Err(m) => ThenRewrite::Unparsable(m),
            },
        },
        _ => ThenRewrite::Done(seq![s]),
    }
}

/// The statements `done` before what the rest comes to.
pub open spec fn then_after(done: Seq<Stmt>, rest: ThenRewrite) -> ThenRewrite {
    match rest {
        ThenRewrite::Done(b) => ThenRewrite::Done(done + b),
        other => other,
    }
}

/// The rewrite of a `then` block's statements, first to last; the first statement that
/// cannot be rewritten decides.
pub open spec fn then_rewrite(stmts: Seq<Stmt>) -> ThenRewrite
    decreases stmts.len(),
{
    if stmts.len() == 0 {
        ThenRewrite::Done(seq![])
    } else {
        match then_step(stmts[0]) {
            ThenRewrite::Done(a) => then_after(a, then_rewrite(stmts.drop_first())),
            other => other,
        }
    }
}

/// A statement of a `then` block becomes exactly one statement where it is rewritten.
proof fn lemma_then_step_single(s: Stmt)
    ensures
        then_step(s) matches ThenRewrite::Done(a) ==> a.len() == 1,
{
}

/// Rewriting a `then` block goes statement by statement: where it succeeds, there are as many new
/// statements as old ones, and the one at `i` is what the statement at `i` becomes on
/// its own, whatever the statements before it.
pub proof fn then_rewrite_statementwise(stmts: Seq<Stmt>)
    ensures
        then_rewrite(stmts) matches ThenRewrite::Done(t) ==> t.len() == stmts.len() && forall|i: int|
            0 <= i < stmts.len() ==> #[trigger] then_step(stmts[i]) == ThenRewrite::Done(seq![t[i]]),
    decreases stmts.len(),
{
    if stmts.len() > 0 {
        lemma_then_step_single(stmts[0]);
        then_rewrite_statementwise(stmts.drop_first());
        if let ThenRewrite::Done(t) = then_rewrite(stmts) {
            let a = then_step(stmts[0])->Done_0;
            let b = then_rewrite(stmts.drop_first())->Done_0;
            assert(t == a + b);
            assert(a =~= seq![a[0]]);
            assert forall|i: int| 0 <= i < stmts.len() implies #[trigger] then_step(stmts[i]) == ThenRewrite::Done(seq![t[i]]) by {
                if i > 0 {
                    assert(stmts[i] == stmts.drop_first()[i - 1]);
                    assert(t[i] == b[i - 1]);
                }
            }
        }
    }
}

/// Rewriting a `then` block in two parts: where the first part is rewritten, the whole comes to
/// the first part's new statements followed by what the second part comes to.
pub proof fn then_rewrite_concat(s1: Seq<Stmt>, s2: Seq<Stmt>)
    requires
        then_rewrite(s1) is Done,
    ensures
        then_rewrite(s1 + s2) == then_after(then_rewrite(s1)->Done_0, then_rewrite(s2)),
    decreases s1.len(),
{
    if s1.len() == 0 {
        assert(s1 + s2 =~= s2);
        match then_rewrite(s2) {
            ThenRewrite::Done(b) => {
                assert(Seq::<Stmt>::empty() + b =~= b);
            },
            _ => {},
        }
    } else {
        let a = then_step(s1[0])->Done_0;
        let r1 = then_rewrite(s1.drop_first())->Done_0;
        assert((s1 + s2)[0] == s1[0]);
        assert((s1 + s2).drop_first() =~= s1.drop_first() + s2);
        then_rewrite_concat(s1.drop_first(), s2);
        match then_rewrite(s2) {
            ThenRewrite::Done(b) => {
                assert(a + (r1 + b) =~= (a + r1) + b);
            },
            _ => {},
        }
    }
}

/// What the rewrite of an `if` statement comes to.
pub enum IfRewrite {
    /// A `panic` without a message: the message that reports it.
    Missing(Seq<char>),
    /// A replacement that syn does not read: syn's message.
    Unparsable(Seq<char>),
    /// The `if` with its new `then` block.
    Done(Stmt),
}

/// The rewrite of an `if` statement: the message for a `panic` without one, syn's
/// message where a replacement cannot be read, else the `if` with its new `then` block.
pub open spec fn if_rewrite(e: ExprIf, token: Option<Semi>) -> IfRewrite {
    match then_rewrite(then_stmts(e)) {
        ThenRewrite::Missing => IfRewrite::Missing(missing_message_text(if_text_of(e))),
        ThenRewrite::Unparsable(m) => IfRewrite::Unparsable(m),
        ThenRewrite::Done(new) => IfRewrite::Done(stmt_of_shape(StmtShape::If(if_with_then(e, new), token))),
    }
}

/// The result of `rewrite_if` as `if_rewrite` states it.
pub open spec fn if_result(r: Result<Stmt, MacroError>, e: ExprIf, token: Option<Semi>) -> bool {
    match if_rewrite(e, token) {
        IfRewrite::Missing(m) => r matches Err(MacroError::Rejected(msgs)) && views(msgs@) == seq![m],
        IfRewrite::Unparsable(m) => r matches Err(MacroError::Unsupported(u)) && u@ == m,
        IfRewrite::Done(st) => r == Ok::<Stmt, MacroError>(st),
    }
}

/// Rewrites the `then` block of an `if` as `if_rewrite` says: `handle_expression` on any
/// `if`, with a replacement that syn does not read reported as `Unsupported`.
pub fn rewrite_if(expression: ExprIf, token: Option<Semi>) -> (r: Result<Stmt, MacroError>)
    ensures
        if_result(r, expression, token),
{
    let mut ex_if = expression;
    let text = expr_if_text(&ex_if);
    let mut stmts = then_statements(&ex_if);
    let ghost all = stmts@;
    let mut new_statements: Vec<Stmt> = Vec::new();
    assert(new_statements@ + seq![] =~= new_statements@);
    while stmts.len() > 0
        invariant
            ex_if == expression,
            text@ == if_text_of(expression),
            all == then_stmts(expression),
            then_rewrite(all) == then_after(new_statements@, then_rewrite(stmts@)),
        decreases stmts@.len(),
    {
        let ghost before = stmts@;
        let ghost done = new_statements@;
        let s = stmts.remove(0);
        assert(before.drop_first() =~= stmts@);
        assert(before[0] == s);
        match stmt_shape(s) {
            StmtShape::Macro(m) => {
                let parts = macro_parts(&m);
                match panic_replacement(&parts.segments, parts.empty, &parts.tokens) {
                    None => new_statements.push(shape_stmt(StmtShape::Macro(m))),
                    Some(Ok(t)) => match parse_stmt(t.as_str()) {
                        Ok(st) => new_statements.push(st),
                        Err(msg) => return Err(MacroError::Unsupported(msg)),
                    },
                    Some(Err(())) => {
                        let msgs = vec![missing_message(&text)];
                        assert(views(msgs@) =~= seq![missing_message_text(if_text_of(expression))]);
                        return Err(MacroError::Rejected(msgs));
                    },
                }
            },
            other => new_statements.push(shape_stmt(other)),
        }
        assert(new_statements@ == done + seq![new_statements@.last()]);
        proof {
            match then_rewrite(stmts@) {
                ThenRewrite::Done(b) => {
                    assert(done + (seq![new_statements@.last()] + b) =~= new_statements@ + b);
                },
                _ => {},
            }
        }
    }
    assert(new_statements@ + seq![] =~= new_statements@);
    set_then_statements(&mut ex_if, new_statements);
    Ok(shape_stmt(StmtShape::If(ex_if, token)))
}

/// Rewrites the `then` block of an `if`: each `panic` with a message becomes
/// `return Err(message.to_string());`, the other statements stay, in order; a `panic`
/// without a message is reported (`Rejected`) with the text of the whole `if`. A
/// replacement that syn does not read as a statement is left out.
pub fn handle_expression(expression: ExprIf, token: Option<Semi>) -> (r: Result<Stmt, MacroError>)
    requires
        !(then_rewrite(then_stmts(expression)) is Unparsable),
    ensures
        if_result(r, expression, token),
{
    rewrite_if(expression, token)
}

/// What the rewrite of a function's statements comes to: the error of an `if`, a
/// replacement that syn does not read, or the new statements.
pub enum FnRewrite {
    Rejected(Seq<char>),
    /// syn's message for the replacement.
    Unparsable(Seq<char>),
    Done(Seq<Stmt>),
}

/// What becomes of one statement of a function: an `if` is rewritten (`if_rewrite`), any
/// other statement stays.
pub open spec fn fn_step(s: Stmt) -> FnRewrite {
    match shape_of(s) {
        StmtShape::If(e, t) => match if_rewrite(e, t) {
            IfRewrite::Missing(m) => FnRewrite::Rejected(m),
            IfRewrite::Unparsable(m) => FnRewrite::Unparsable(m),
            IfRewrite::Done(st) => FnRewrite::Done(seq![st]),
        },
        _ => FnRewrite::Done(seq![s]),
    }
}

/// The statements `done` before what the rest comes to.
pub open spec fn fn_after(done: Seq<Stmt>, rest: FnRewrite) -> FnRewrite {
    match rest {
        FnRewrite::Done(b) => FnRewrite::Done(done + b),
        other => other,
    }
}

/// The rewrite of a function's statements, first to last; the first that cannot be
/// rewritten decides.
pub open spec fn fn_rewrite(stmts: Seq<Stmt>) -> FnRewrite
    decreases stmts.len(),
{
    if stmts.len() == 0 {
        FnRewrite::Done(seq![])
    } else {
        match fn_step(stmts[0]) {
            FnRewrite::Done(a) => fn_after(a, fn_rewrite(stmts.drop_first())),
            other => other,
        }
    }
}

/// A statement of a function becomes exactly one statement where it is rewritten.
proof fn lemma_fn_step_single(s: Stmt)
    ensures
        fn_step(s) matches FnRewrite::Done(a) ==> a.len() == 1,
{
}

/// Rewriting a function's statements goes statement by statement: where it succeeds, there are as many new
/// statements as old ones, and the one at `i` is what the statement at `i` becomes on
/// its own, whatever the statements before it.
pub proof fn fn_rewrite_statementwise(stmts: Seq<Stmt>)
    ensures
        fn_rewrite(stmts) matches FnRewrite::Done(t) ==> t.len() == stmts.len() && forall|i: int|
            0 <= i < stmts.len() ==> #[trigger] fn_step(stmts[i]) == FnRewrite::Done(seq![t[i]]),
    decreases stmts.len(),
{
    if stmts.len() > 0 {
        lemma_fn_step_single(stmts[0]);
        fn_rewrite_statementwise(stmts.drop_first());
        if let FnRewrite::Done(t) = fn_rewrite(stmts) {
            let a = fn_step(stmts[0])->Done_0;
            let b = fn_rewrite(stmts.drop_first())->Done_0;
            assert(t == a + b);
            assert(a =~= seq![a[0]]);
            assert forall|i: int| 0 <= i < stmts.len() implies #[trigger] fn_step(stmts[i]) == FnRewrite::Done(seq![t[i]]) by {
                if i > 0 {
                    assert(stmts[i] == stmts.drop_first()[i - 1]);
                    assert(t[i] == b[i - 1]);
                }
            }
        }
    }
}

/// Rewriting a function's statements in two parts: where the first part is rewritten, the whole comes to
/// the first part's new statements followed by what the second part comes to.
pub proof fn fn_rewrite_concat(s1: Seq<Stmt>, s2: Seq<Stmt>)
    requires
        fn_rewrite(s1) is Done,
    ensures
        fn_rewrite(s1 + s2) == fn_after(fn_rewrite(s1)->Done_0, fn_rewrite(s2)),
    decreases s1.len(),
{
    if s1.len() == 0 {
        assert(s1 + s2 =~= s2);
        match fn_rewrite(s2) {
            FnRewrite::Done(b) => {
                assert(Seq::<Stmt>::empty() + b =~= b);
            },
            _ => {},
        }
    } else {
        let a = fn_step(s1[0])->Done_0;
        let r1 = fn_rewrite(s1.drop_first())->Done_0;
        assert((s1 + s2)[0] == s1[0]);
        assert((s1 + s2).drop_first() =~= s1.drop_first() + s2);
        fn_rewrite_concat(s1.drop_first(), s2);
        match fn_rewrite(s2) {
            FnRewrite::Done(b) => {
                assert(a + (r1 + b) =~= (a + r1) + b);
            },
            _ => {},
        }
    }
}

/// A function's statements with the last one made `Ok(last)`; `None` where there is no
/// statement or syn does not read `Ok(last)` as an expression.
pub open spec fn wrapped_stmts(f: ItemFn) -> Option<Seq<Stmt>> {
    let stmts = fn_stmts(f);
    if stmts.len() == 0 {
        None
    } else {
        match expr_stmt_parse("Ok("@ + stmt_text_of(stmts.last()) + ")"@) {
            Ok(st) => Some(stmts.drop_last().push(st)),
            Err(_) => None,
        }
    }
}

/// Why syn's function `f` cannot be rewritten, in the order in which the rewrite finds
/// it: syn does not read the accepted return type, the function has no statement, syn
/// does not read its last statement made `Ok(..)`, or a replacement (each syn's message
/// or the rewrite's own); `None` where it can.
pub open spec fn unsupported_message(f: ItemFn) -> Option<Seq<char>> {
    if result_signature(fn_ret(f)) matches Ok(sig) && fn_with_output(f, sig) is Err {
        Some(fn_with_output(f, result_signature(fn_ret(f))->Ok_0)->Err_0)
    } else if fn_stmts(f).len() == 0 {
        Some("the function has no statement to return"@)
    } else if expr_stmt_parse("Ok("@ + stmt_text_of(fn_stmts(f).last()) + ")"@) is Err {
        Some(expr_stmt_parse("Ok("@ + stmt_text_of(fn_stmts(f).last()) + ")"@)->Err_0)
    } else if fn_rewrite(wrapped_stmts(f)->Some_0) is Unparsable {
        Some(fn_rewrite(wrapped_stmts(f)->Some_0)->Unparsable_0)
    } else {
        None
    }
}

/// Whether the rewrite can be carried out: syn reads a function, it has a last statement
/// that can be made `Ok(..)`, every replacement is read, and an accepted return type is
/// read by syn.
pub open spec fn rewritable(item: TokenStream) -> bool {
    fn_of(item) matches Ok(f) && unsupported_message(f) is None
}

/// What `rewrite_fn` gives for any item: syn's message where syn reads no function, the
/// message of `unsupported_message`, or what `rewrite_result` says.
pub open spec fn any_rewrite_result(item: TokenStream, r: Result<String, MacroError>) -> bool {
    match fn_of(item) {
        Err(m) => r matches Err(MacroError::Parse(e)) && e@ == m,
        Ok(f) => match unsupported_message(f) {
            Some(m) => r matches Err(MacroError::Unsupported(e)) && e@ == m,
            None => rewrite_result(item, r),
        },
    }
}

/// The errors of the rewrite: that of the statements, then that of the signature.
pub open spec fn rewrite_errors(f: ItemFn, all: Seq<Stmt>) -> Seq<Seq<char>> {
    let stmt_errors = match fn_rewrite(all) {
        FnRewrite::Rejected(m) => seq![m],
        _ => seq![],
    };
    match result_signature(fn_ret(f)) {
        Ok(_) => stmt_errors,
        Err(e) => stmt_errors.push(e),
    }
}

/// The rewritten function's text: the new return type, then the new statements.
pub open spec fn rewritten_text(f: ItemFn, all: Seq<Stmt>) -> Seq<char> {
    fn_text(fn_with_stmts(fn_with_output(f, result_signature(fn_ret(f))->Ok_0)->Ok_0, fn_rewrite(all)->Done_0))
}

/// What `panic_to_result` gives for a rewritable item.
pub open spec fn rewrite_result(item: TokenStream, r: Result<String, MacroError>) -> bool {
    let f = fn_of(item)->Ok_0;
    let all = wrapped_stmts(f)->Some_0;
    if rewrite_errors(f, all).len() > 0 {
        r matches Err(MacroError::Rejected(msgs)) && views(msgs@) == rewrite_errors(f, all)
    } else {
        r matches Ok(s) && s@ == rewritten_text(f, all)
    }
}

/// The rewrite of a function, or why it cannot be carried out.
fn rewrite_fn(item: TokenStream) -> (r: Result<String, MacroError>)
    ensures
        any_rewrite_result(item, r),
{
    let mut ast = match parse_item_fn(item) {
        Ok(f) => f,
        Err(m) => return Err(MacroError::Parse(m)),
    };
    let ghost f0 = ast;
    let signature_output = signature_output_as_result(&fn_return_type(&ast));
    let mut stmts = fn_statements(&ast);
    if let Ok(output) = &signature_output {
        if let Err(m) = replace_fn_output(&mut ast, output.as_str()) {
            return Err(MacroError::Unsupported(m));
        }
    }
    let last = match stmts.pop() {
        Some(s) => s,
        None => return Err(MacroError::Unsupported(String::from_str("the function has no statement to return"))),
    };
    let wrapped = last_statement_as_result(&stmt_text(&last));
    match parse_expr_stmt(wrapped.as_str()) {
        Ok(st) => stmts.push(st),
        Err(m) => return Err(MacroError::Unsupported(m)),
    }
    let ghost all = stmts@;
    assert(wrapped_stmts(f0) == Some(all));
    let mut statements: Vec<Stmt> = Vec::new();
    let mut statement_errors: Vec<String> = Vec::new();
    assert(statements@ + seq![] =~= statements@);
    while stmts.len() > 0
        invariant_except_break
            statement_errors@.len() == 0,
            fn_rewrite(all) == fn_after(statements@, fn_rewrite(stmts@)),
        invariant
            fn_of(item) == Ok::<ItemFn, Seq<char>>(f0),
            wrapped_stmts(f0) == Some(all),
            !(result_signature(fn_ret(f0)) matches Ok(sig) && fn_with_output(f0, sig) is Err),
        ensures
            statement_errors@.len() == 0 ==> fn_rewrite(all) == FnRewrite::Done(statements@),
            statement_errors@.len() > 0 ==> (fn_rewrite(all) matches FnRewrite::Rejected(m) && views(statement_errors@) == seq![m]),
        decreases stmts@.len(),
    {
        let ghost before = stmts@;
        let ghost done = statements@;
        let s = stmts.remove(0);
        assert(before.drop_first() =~= stmts@);
        assert(before[0] == s);
        match stmt_shape(s) {
            StmtShape::If(e, t) => match rewrite_if(e, t) {
                Ok(st) => statements.push(st),
                Err(MacroError::Rejected(msgs)) => {
                    assert(msgs@.len() == views(msgs@).len());
                    assert(fn_rewrite(before) == fn_step(s));
                    statement_errors = msgs;
                    break;
                },
                Err(other) => {
                    assert(fn_rewrite(before) == fn_step(s));
                    return Err(other);
                },
            },
            other => statements.push(shape_stmt(other)),
        }
        assert(statements@ == done + seq![statements@.last()]);
        proof {
            match fn_rewrite(stmts@) {
                FnRewrite::Done(b) => {
                    assert(done + (seq![statements@.last()] + b) =~= statements@ + b);
                },
                _ => {},
            }
        }
    }
    assert(statements@ + seq![] =~= statements@);
    match &signature_output {
        Ok(_) => {},
        Err(_) => {
            let errors = combine_errors(statement_errors, &signature_output);
            assert(views(errors@) =~= rewrite_errors(f0, all));
            return Err(MacroError::Rejected(errors));
        },
    }
    if statement_errors.len() > 0 {
        let errors = combine_errors(statement_errors, &signature_output);
        assert(views(errors@) =~= rewrite_errors(f0, all));
        return Err(MacroError::Rejected(errors));
    }
    assert(rewrite_errors(f0, all) =~= Seq::<Seq<char>>::empty());
    set_fn_statements(&mut ast, statements);
    Ok(item_fn_text(&ast))
}

/// `#[panic_to_result]`: reads the function with syn, makes its return type a `Result`
/// (`signature_output_as_result`), its last statement `Ok(..)`
/// (`last_statement_as_result`) and the `panic!`s in the `then` blocks of its top-level
/// `if`s returns of `Err` (`handle_expression`). What it refuses is `Rejected` with the
/// statements' error, then the signature's (`combine_errors`). An item that cannot be
/// rewritten (`rewritable`) is left out.
pub fn panic_to_result(_attr: TokenStream, item: TokenStream) -> (r: Result<String, MacroError>)
    requires
        rewritable(item),
    ensures
        rewrite_result(item, r),
{
    rewrite_fn(item)
}

/// `#[panic_to_result]` on any item: as `panic_to_result`; an item that syn does not read
/// as a function is a `Parse` error with syn's message, any other that cannot be
/// rewritten `Unsupported` with the message of `unsupported_message`.
pub fn try_panic_to_result(_attr: TokenStream, item: TokenStream) -> (r: Result<String, MacroError>)
    ensures
        any_rewrite_result(item, r),
{
    rewrite_fn(item)
}

} // verus!
