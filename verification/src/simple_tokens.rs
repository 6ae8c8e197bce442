//! `simple_tokens!`: a structure of tokens, one field for each listed token
//! type, and `simple_token!`: a single token type.
//!
//! `simple_tokens!` reads `attrs vis struct Name { FooToken, BarToken, }`:
//! each listed name must end with `Token`; its field is the rest of the
//! name in snake case. `simple_token!` reads `attrs vis struct Name` with
//! an optional `;`.

use crate::case::{cat3, inflector_snake, to_snake_inflector};
use crate::token::{Delim, ErrorKind, MacroError, Span, Tok, Vis, expect_end, expect_group, expect_ident, expect_punct, expect_word, ident_string, ident_text, is_punct, outer_attrs, parse_vis, peek_punct, spec_expect_end, spec_expect_group, spec_expect_ident, spec_expect_punct, spec_expect_word, spec_outer_attrs, spec_vis};
use crate::static_tokens::{emit_token_path, token_path};
use crate::thr::{emit_inline_attr, inline_attr};
use crate::thr_pool::{emit_priv_unit, priv_unit};
use crate::thr_static::{one, one_exec};
use crate::token::{TokV, emit_close, emit_joint, emit_open, emit_punct, emit_span, emit_string, emit_word, span_toks, tclose, tj, topen, toks_view, tp, tw};
use vstd::prelude::*;

verus! {

pub const TOKEN_SUFFIX: &'static str = "Token";

pub const NOT_A_TOKEN: &'static str = "Expected an ident which ends with `Token`";

/// The name ends with `Token`.
pub open spec fn ends_with_token(s: Seq<char>) -> bool {
    s.len() >= 5 && s.subrange(s.len() - 5, s.len() as int) == TOKEN_SUFFIX@
}

/// The name without its `Token` at the end.
pub open spec fn token_name(s: Seq<char>) -> Seq<char> {
    s.subrange(0, s.len() - 5)
}

/// The listed token types in `[i, end)`, separated by commas with an
/// optional comma after the last.
pub open spec fn spec_token_list(toks: Seq<Tok>, i: int, end: int) -> Result<Seq<usize>, MacroError>
    decreases end - i,
{
    if i >= end {
        Ok(Seq::empty())
    } else {
        match spec_expect_ident(toks, i, end) {
            Err(e) => Err(e),
            Ok(n) => if !ends_with_token(ident_text(toks, i)) {
                err_at(n as int)
            } else if n >= end {
                Ok(seq![i as usize])
            } else {
                match spec_expect_punct(toks, n as int, end, ',') {
                    Err(e) => Err(e),
                    Ok(q) => if q > i && q <= end {
                        match spec_token_list(toks, q as int, end) {
                            Err(e) => Err(e),
                            Ok(rest) => Ok(seq![i as usize] + rest),
                        }
                    } else {
                        Ok(seq![i as usize])
                    },
                }
            },
        }
    }
}

proof fn lemma_token_list_names(toks: Seq<Tok>, i: int, end: int)
    requires
        0 <= i,
        end <= usize::MAX,
    ensures
        spec_token_list(toks, i, end) matches Ok(v) ==> forall|m: int|
            0 <= m < v.len() ==> ends_with_token(ident_text(toks, #[trigger] v[m] as int)),
    decreases end - i,
{
    if i < end {
        if let Ok(n) = spec_expect_ident(toks, i, end) {
            if ends_with_token(ident_text(toks, i)) {
                let one = seq![i as usize];
                assert(one[0] == i as usize);
                if n < end {
                    if let Ok(q) = spec_expect_punct(toks, n as int, end, ',') {
                        if q > i && q <= end {
                            lemma_token_list_names(toks, q as int, end);
                            if let Ok(rest) = spec_token_list(toks, q as int, end) {
                                let v = one + rest;
                                assert forall|m: int| 0 <= m < v.len() implies ends_with_token(
                                    ident_text(toks, #[trigger] v[m] as int),
                                ) by {
                                    if m > 0 {
                                        assert(v[m] == rest[m - 1]);
                                    }
                                }
                            }
                        }
                    }
                }
            }
        }
    }
}

pub open spec fn err_at(at: int) -> Result<Seq<usize>, MacroError> {
    Err(MacroError { at: at as usize, kind: ErrorKind::Invalid(NOT_A_TOKEN) })
}

fn ends_with_token_exec(s: &String) -> (r: bool)
    ensures
        r == ends_with_token(s@),
{
    let t = s.as_str();
    let n = t.unicode_len();
    if n < 5 {
        return false;
    }
    let tail = t.substring_char(n - 5, n);
    let suffix = String::from_str(tail);
    crate::token::eq_lit(&suffix, TOKEN_SUFFIX)
}

fn parse_token_list(toks: &Vec<Tok>, i: usize, end: usize) -> (r: Result<Vec<usize>, MacroError>)
    ensures
        r matches Ok(v) ==> spec_token_list(toks@, i as int, end as int) == Ok::<
            Seq<usize>,
            MacroError,
        >(v@),
        r matches Err(e) ==> spec_token_list(toks@, i as int, end as int) == Err::<
            Seq<usize>,
            MacroError,
        >(e),
{
    let mut out: Vec<usize> = Vec::new();
    let mut j = i;
    let mut done = false;
    while j < end && !done
        invariant
            i <= j,
            spec_token_list(toks@, i as int, end as int) == (if done {
                Ok(out@)
            } else {
                match spec_token_list(toks@, j as int, end as int) {
                    Ok(rest) => Ok(out@ + rest),
                    Err(e) => Err(e),
                }
            }),
        decreases end - j + (if done { 0int } else { 1int }),
    {
        let n = expect_ident(toks, j, end)?;
        if !ends_with_token_exec(&ident_string(toks, j)) {
            return Err(MacroError { at: n, kind: ErrorKind::Invalid(NOT_A_TOKEN) });
        }
        let ghost before = out@;
        out.push(j);
        if n >= end {
            assert(before + seq![j as usize] =~= out@);
            done = true;
        } else {
            let q = expect_punct(toks, n, end, ',')?;
            proof {
                match spec_token_list(toks@, q as int, end as int) {
                    Ok(rest) => {
                        assert(before + (seq![j as usize] + rest) =~= out@ + rest);
                    },
                    Err(_) => {},
                }
            }
            j = q;
        }
    }
    if !done {
        assert(out@ + Seq::<usize>::empty() =~= out@);
    }
    Ok(out)
}

/// The input of `simple_tokens!`.
#[derive(Debug)]
pub struct SimpleTokensInput {
    pub attrs: Span,
    pub vis: Vis,
    pub ident: usize,
    pub tokens: Vec<usize>,
}

pub struct SimpleTokensInputV {
    pub attrs: Span,
    pub vis: Vis,
    pub ident: usize,
    pub tokens: Seq<usize>,
}

pub open spec fn spec_simple_tokens_input(toks: Seq<Tok>) -> Result<SimpleTokensInputV, MacroError> {
    let end = toks.len() as int;
    match spec_outer_attrs(toks, 0, end) {
        Err(e) => Err(e),
        Ok(a) => {
            let v = spec_vis(toks, a as int, end);
            match spec_expect_word(toks, v.span.end as int, end, "struct") {
                Err(e) => Err(e),
                Ok(s) => match spec_expect_ident(toks, s as int, end) {
                    Err(e) => Err(e),
                    Ok(_) => match spec_expect_group(toks, s + 1, end, Delim::Brace) {
                        Err(e) => Err(e),
                        Ok(c) => match spec_token_list(toks, s + 2, c as int) {
                            Err(e) => Err(e),
                            Ok(tokens) => match spec_expect_end(c + 1, end) {
                                Err(e) => Err(e),
                                Ok(_) => Ok(
                                    SimpleTokensInputV {
                                        attrs: Span { start: 0, end: a },
                                        vis: v,
                                        ident: s,
                                        tokens,
                                    },
                                ),
                            },
                        },
                    },
                },
            }
        },
    }
}

/// What `simple_tokens!` expands to: the module holding the structure
/// (`__`, the name in snake case, `_init_tokens`), and for each token its
/// field (the name without `Token`, in snake case).
#[derive(Debug)]
pub struct SimpleTokensPlan {
    pub input: SimpleTokensInput,
    pub module: String,
    pub fields: Vec<String>,
}

pub open spec fn token_field(toks: Seq<Tok>, p: usize) -> Seq<char> {
    inflector_snake(token_name(ident_text(toks, p as int)))
}

/// `simple_tokens!` on the input `toks`.
pub fn simple_tokens(toks: &Vec<Tok>) -> (r: Result<SimpleTokensPlan, MacroError>)
    ensures
        r matches Err(e) ==> spec_simple_tokens_input(toks@) == Err::<
            SimpleTokensInputV,
            MacroError,
        >(e),
        r matches Ok(p) ==> {
            &&& spec_simple_tokens_input(toks@) == Ok::<SimpleTokensInputV, MacroError>(
                SimpleTokensInputV {
                    attrs: p.input.attrs,
                    vis: p.input.vis,
                    ident: p.input.ident,
                    tokens: p.input.tokens@,
                },
            )
            &&& p.module@ == "__"@ + inflector_snake(ident_text(toks@, p.input.ident as int))
                + "_init_tokens"@
            &&& p.fields@.map_values(|f: String| f@) == p.input.tokens@.map_values(
                |t: usize| token_field(toks@, t),
            )
        },
{
    let end = toks.len();
    let a = outer_attrs(toks, 0, end)?;
    let v = parse_vis(toks, a, end);
    let s = expect_word(toks, v.span.end, end, "struct")?;
    expect_ident(toks, s, end)?;
    let c = expect_group(toks, s + 1, end, Delim::Brace)?;
    let tokens = parse_token_list(toks, s + 2, c)?;
    expect_end(c + 1, end)?;
    proof {
        lemma_token_list_names(toks@, s + 2, c as int);
    }
    let input = SimpleTokensInput { attrs: Span { start: 0, end: a }, vis: v, ident: s, tokens };
    let module = cat3("__", to_snake_inflector(ident_string(toks, s).as_str()).as_str(), "_init_tokens");
    let mut fields: Vec<String> = Vec::new();
    let mut k: usize = 0;
    while k < input.tokens.len()
        invariant
            k <= input.tokens@.len(),
            forall|m: int| 0 <= m < input.tokens@.len() ==> ends_with_token(
                ident_text(toks@, #[trigger] input.tokens@[m] as int),
            ),
            fields@.map_values(|f: String| f@) == input.tokens@.take(k as int).map_values(
                |t: usize| token_field(toks@, t),
            ),
        decreases input.tokens@.len() - k,
    {
        let t = input.tokens[k];
        let name = ident_string(toks, t);
        let n = name.as_str().unicode_len();
        assert(ends_with_token(name@));
        let base = name.as_str().substring_char(0, n - 5);
        let field = to_snake_inflector(base);
        let ghost before = fields@.map_values(|f: String| f@);
        let ghost fv = field@;
        fields.push(field);
        proof {
            assert(fields@.map_values(|f: String| f@) =~= before.push(fv));
            assert(input.tokens@.take(k + 1) =~= input.tokens@.take(k as int).push(t));
            assert(input.tokens@.take(k + 1).map_values(|t: usize| token_field(toks@, t))
                =~= input.tokens@.take(k as int).map_values(|t: usize| token_field(toks@, t)).push(
                token_field(toks@, t),
            ));
        }
        k = k + 1;
    }
    assert(input.tokens@.take(k as int) =~= input.tokens@);
    Ok(SimpleTokensPlan { input, module, fields })
}

/// The input of `simple_token!`: `attrs vis struct Name` with an optional
/// `;`, and the module holding the token (`__`, the name in snake case,
/// `_simple_token`).
#[derive(Debug)]
pub struct SimpleTokenPlan {
    pub attrs: Span,
    pub vis: Vis,
    pub ident: usize,
    pub module: String,
}

pub open spec fn spec_simple_token(toks: Seq<Tok>) -> Result<(Span, Vis, usize), MacroError> {
    let end = toks.len() as int;
    match spec_outer_attrs(toks, 0, end) {
        Err(e) => Err(e),
        Ok(a) => {
            let v = spec_vis(toks, a as int, end);
            match spec_expect_word(toks, v.span.end as int, end, "struct") {
                Err(e) => Err(e),
                Ok(s) => match spec_expect_ident(toks, s as int, end) {
                    Err(e) => Err(e),
                    Ok(n) => {
                        let q = if is_punct(toks, n as int, end, ';') {
                            n + 1
                        } else {
                            n as int
                        };
                        match spec_expect_end(q, end) {
                            Err(e) => Err(e),
                            Ok(_) => Ok((Span { start: 0, end: a }, v, s)),
                        }
                    },
                }
            }
        },
    }
}

/// `simple_token!` on the input `toks`.
pub fn simple_token(toks: &Vec<Tok>) -> (r: Result<SimpleTokenPlan, MacroError>)
    ensures
        r matches Err(e) ==> spec_simple_token(toks@) == Err::<(Span, Vis, usize), MacroError>(e),
        r matches Ok(p) ==> {
            &&& spec_simple_token(toks@) == Ok::<(Span, Vis, usize), MacroError>(
                (p.attrs, p.vis, p.ident),
            )
            &&& p.module@ == "__"@ + inflector_snake(ident_text(toks@, p.ident as int))
                + "_simple_token"@
        },
{
    let end = toks.len();
    let a = outer_attrs(toks, 0, end)?;
    let v = parse_vis(toks, a, end);
    let s = expect_word(toks, v.span.end, end, "struct")?;
    let n = expect_ident(toks, s, end)?;
    let q = if peek_punct(toks, n, end, ';') {
        n + 1
    } else {
        n
    };
    expect_end(q, end)?;
    let module = cat3(
        "__",
        to_snake_inflector(ident_string(toks, s).as_str()).as_str(),
        "_simple_token",
    );
    Ok(SimpleTokenPlan { attrs: Span { start: 0, end: a }, vis: v, ident: s, module })
}


// ---------------------------------------------------------------------------
// The expansion

/// The fields of the listed tokens `ts`:
/// `#[allow(missing_docs)] pub FIELD: NAME,` each.
pub open spec fn token_fields(toks: Seq<Tok>, ts: Seq<usize>) -> Seq<TokV>
    decreases ts.len(),
{
    if ts.len() == 0 {
        Seq::empty()
    } else {
        token_fields(toks, ts.drop_last()) + tp('#') + topen(Delim::Bracket) + tw("allow"@) + topen(
            Delim::Paren,
        ) + tw("missing_docs"@) + tclose(Delim::Paren) + tclose(Delim::Bracket) + tw("pub"@) + tw(
            token_field(toks, ts.last()),
        ) + tp(':') + span_toks(toks, one(ts.last())) + tp(',')
    }
}

/// The constructor fields of the listed tokens `ts`:
/// `FIELD: ::drone_core::token::Token::take(),` each.
pub open spec fn token_ctors(toks: Seq<Tok>, ts: Seq<usize>) -> Seq<TokV>
    decreases ts.len(),
{
    if ts.len() == 0 {
        Seq::empty()
    } else {
        token_ctors(toks, ts.drop_last()) + tw(token_field(toks, ts.last())) + tp(':') + token_path(
            "Token"@,
        ) + tj(':', ':') + tw("take"@) + topen(Delim::Paren) + tclose(Delim::Paren) + tp(',')
    }
}

/// `mod MODULE { use super::*; ATTRS pub struct NAME { FIELDS __priv: (), }
/// unsafe impl ::drone_core::token::Token for NAME { #[inline] unsafe fn
/// take() -> Self { Self { CTORS __priv: (), } } } } VIS use MODULE::NAME;`
/// with a field for each of the listed tokens `ts`.
pub open spec fn token_module(
    toks: Seq<Tok>,
    attrs: Span,
    vis: Vis,
    ident: usize,
    module: Seq<char>,
    ts: Seq<usize>,
) -> Seq<TokV> {
    let name = span_toks(toks, one(ident));
    tw("mod"@) + tw(module) + topen(Delim::Brace) + tw("use"@) + tw("super"@) + tj(':', ':') + tp('*')
        + tp(';') + span_toks(toks, attrs) + tw("pub"@) + tw("struct"@) + name + topen(Delim::Brace)
        + token_fields(toks, ts) + priv_unit() + tclose(Delim::Brace) + tw("unsafe"@) + tw("impl"@)
        + token_path("Token"@) + tw("for"@) + name + topen(Delim::Brace) + inline_attr() + tw(
        "unsafe"@,
    ) + tw("fn"@) + tw("take"@) + topen(Delim::Paren) + tclose(Delim::Paren) + tj('-', '>') + tw(
        "Self"@,
    ) + topen(Delim::Brace) + tw("Self"@) + topen(Delim::Brace) + token_ctors(toks, ts) + priv_unit()
        + tclose(Delim::Brace) + tclose(Delim::Brace) + tclose(Delim::Brace) + tclose(Delim::Brace)
        + span_toks(toks, vis.span) + tw("use"@) + tw(module) + tj(':', ':') + name + tp(';')
}

/// What `simple_tokens!` expands to on the input `toks`.
pub open spec fn spec_expand_simple_tokens(toks: Seq<Tok>) -> Result<Seq<TokV>, MacroError> {
    match spec_simple_tokens_input(toks) {
        Err(e) => Err(e),
        Ok(inp) => Ok(
            token_module(
                toks,
                inp.attrs,
                inp.vis,
                inp.ident,
                "__"@ + inflector_snake(ident_text(toks, inp.ident as int)) + "_init_tokens"@,
                inp.tokens,
            ),
        ),
    }
}

/// What `simple_token!` expands to on the input `toks`.
pub open spec fn spec_expand_simple_token(toks: Seq<Tok>) -> Result<Seq<TokV>, MacroError> {
    match spec_simple_token(toks) {
        Err(e) => Err(e),
        Ok((attrs, vis, ident)) => Ok(
            token_module(
                toks,
                attrs,
                vis,
                ident,
                "__"@ + inflector_snake(ident_text(toks, ident as int)) + "_simple_token"@,
                Seq::empty(),
            ),
        ),
    }
}

#[verifier::spinoff_prover]
#[verifier::rlimit(50)]
fn emit_token_lists(toks: &Vec<Tok>, ts: &Vec<usize>, fields: &Vec<String>, ctors: bool, out: &mut Vec<Tok>)
    requires
        fields@.map_values(|f: String| f@) == ts@.map_values(|t: usize| token_field(toks@, t)),
    ensures
        !ctors ==> toks_view(final(out)@) == toks_view(old(out)@) + token_fields(toks@, ts@),
        ctors ==> toks_view(final(out)@) == toks_view(old(out)@) + token_ctors(toks@, ts@),
{
    let ghost head = toks_view(old(out)@);
    let mut k: usize = 0;
    assert(ts@.take(0) =~= Seq::<usize>::empty());
    assert(head + Seq::<TokV>::empty() =~= head);
    while k < ts.len()
        invariant
            k <= ts@.len(),
            fields@.map_values(|f: String| f@) == ts@.map_values(|t: usize| token_field(toks@, t)),
            !ctors ==> toks_view(out@) == head + token_fields(toks@, ts@.take(k as int)),
            ctors ==> toks_view(out@) == head + token_ctors(toks@, ts@.take(k as int)),
        decreases ts@.len() - k,
    {
        let t = ts[k];
        assert(fields@.len() == ts@.len()) by {
            assert(fields@.map_values(|f: String| f@).len() == fields@.len());
        }
        let field = &fields[k];
        proof {
            assert(fields@.map_values(|f: String| f@)[k as int] == field@);
            assert(ts@.map_values(|t: usize| token_field(toks@, t))[k as int] == token_field(toks@, t));
        }
        let ghost before = toks_view(out@);
        if ctors {
            emit_string(out, field);
            emit_punct(out, ':');
            emit_token_path(out, "Token");
            emit_joint(out, ':', ':');
            emit_word(out, "take");
            emit_open(out, Delim::Paren);
            emit_close(out, Delim::Paren);
            emit_punct(out, ',');
        } else {
            emit_punct(out, '#');
            emit_open(out, Delim::Bracket);
            emit_word(out, "allow");
            emit_open(out, Delim::Paren);
            emit_word(out, "missing_docs");
            emit_close(out, Delim::Paren);
            emit_close(out, Delim::Bracket);
            emit_word(out, "pub");
            emit_string(out, field);
            emit_punct(out, ':');
            emit_span(toks, one_exec(t), out);
            emit_punct(out, ',');
        }
        proof {
            let s = ts@.take(k + 1);
            assert(s.drop_last() =~= ts@.take(k as int));
            assert(s.last() == t);
            if ctors {
                assert(toks_view(out@) =~= head + token_ctors(toks@, s));
            } else {
                assert(toks_view(out@) =~= head + token_fields(toks@, s));
            }
        }
        k = k + 1;
    }
    assert(ts@.take(k as int) =~= ts@);
}

#[verifier::spinoff_prover]
#[verifier::rlimit(80)]
fn emit_token_module(
    toks: &Vec<Tok>,
    attrs: Span,
    vis: Vis,
    ident: usize,
    module: &String,
    ts: &Vec<usize>,
    fields: &Vec<String>,
    out: &mut Vec<Tok>,
)
    requires
        fields@.map_values(|f: String| f@) == ts@.map_values(|t: usize| token_field(toks@, t)),
    ensures
        toks_view(final(out)@) == toks_view(old(out)@) + token_module(toks@, attrs, vis, ident, module@, ts@),
{
    let ghost b = toks_view(old(out)@);
    let name = one_exec(ident);
    emit_word(out, "mod");
    emit_string(out, module);
    emit_open(out, Delim::Brace);
    emit_word(out, "use");
    emit_word(out, "super");
    emit_joint(out, ':', ':');
    emit_punct(out, '*');
    emit_punct(out, ';');
    emit_span(toks, attrs, out);
    emit_word(out, "pub");
    emit_word(out, "struct");
    emit_span(toks, name, out);
    emit_open(out, Delim::Brace);
    emit_token_lists(toks, ts, fields, false, out);
    emit_priv_unit(out);
    emit_close(out, Delim::Brace);
    let ghost m1 = toks_view(out@);
    emit_word(out, "unsafe");
    emit_word(out, "impl");
    emit_token_path(out, "Token");
    emit_word(out, "for");
    emit_span(toks, name, out);
    emit_open(out, Delim::Brace);
    emit_inline_attr(out);
    emit_word(out, "unsafe");
    emit_word(out, "fn");
    emit_word(out, "take");
    emit_open(out, Delim::Paren);
    emit_close(out, Delim::Paren);
    emit_joint(out, '-', '>');
    emit_word(out, "Self");
    emit_open(out, Delim::Brace);
    emit_word(out, "Self");
    emit_open(out, Delim::Brace);
    emit_token_lists(toks, ts, fields, true, out);
    emit_priv_unit(out);
    emit_close(out, Delim::Brace);
    emit_close(out, Delim::Brace);
    emit_close(out, Delim::Brace);
    emit_close(out, Delim::Brace);
    emit_span(toks, vis.span, out);
    emit_word(out, "use");
    emit_string(out, module);
    emit_joint(out, ':', ':');
    emit_span(toks, name, out);
    emit_punct(out, ';');
    assert(toks_view(out@) =~= b + token_module(toks@, attrs, vis, ident, module@, ts@));
}

/// The tokens that `simple_tokens!` expands to on the input `toks`.
pub fn expand_simple_tokens(toks: &Vec<Tok>) -> (r: Result<Vec<Tok>, MacroError>)
    ensures
        r matches Err(e) ==> spec_expand_simple_tokens(toks@) == Err::<Seq<TokV>, MacroError>(e),
        r matches Ok(v) ==> spec_expand_simple_tokens(toks@) == Ok::<Seq<TokV>, MacroError>(
            toks_view(v@),
        ),
{
    let p = simple_tokens(toks)?;
    let mut v: Vec<Tok> = Vec::new();
    assert(toks_view(v@) =~= Seq::<TokV>::empty());
    emit_token_module(toks, p.input.attrs, p.input.vis, p.input.ident, &p.module, &p.input.tokens, &p.fields, &mut v);
    assert(toks_view(v@) =~= Seq::<TokV>::empty() + token_module(toks@, p.input.attrs, p.input.vis, p.input.ident, p.module@, p.input.tokens@));
    Ok(v)
}

/// The tokens that `simple_token!` expands to on the input `toks`.
pub fn expand_simple_token(toks: &Vec<Tok>) -> (r: Result<Vec<Tok>, MacroError>)
    ensures
        r matches Err(e) ==> spec_expand_simple_token(toks@) == Err::<Seq<TokV>, MacroError>(e),
        r matches Ok(v) ==> spec_expand_simple_token(toks@) == Ok::<Seq<TokV>, MacroError>(
            toks_view(v@),
        ),
{
    let p = simple_token(toks)?;
    let ts: Vec<usize> = Vec::new();
    let fields: Vec<String> = Vec::new();
    assert(fields@.map_values(|f: String| f@) =~= ts@.map_values(|t: usize| token_field(toks@, t)));
    let mut v: Vec<Tok> = Vec::new();
    assert(toks_view(v@) =~= Seq::<TokV>::empty());
    emit_token_module(toks, p.attrs, p.vis, p.ident, &p.module, &ts, &fields, &mut v);
    assert(ts@ =~= Seq::<usize>::empty());
    assert(toks_view(v@) =~= Seq::<TokV>::empty() + token_module(toks@, p.attrs, p.vis, p.ident, p.module@, ts@));
    Ok(v)
}

} // verus!
