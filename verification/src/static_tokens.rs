//! `unsafe_static_tokens!`: a structure of tokens, one for each static
//! variable that the input lists, each token giving access to its variable.
//!
//! The input is `attrs vis struct Name { attrs NAME: Type, .. }`, the list
//! separated by commas, with an optional comma after the last item.

use crate::thr_static::one;
use crate::case::{cat, cat3, heck_snake, heck_upper_camel, to_snake_heck, to_upper_camel_heck};
use crate::token::{
    TokV, emit_close, emit_joint, emit_open, emit_punct, emit_span, emit_string, emit_word,
    span_toks, tclose, tj, topen, toks_view, tp, tw, Delim, MacroError, Span, Tok, Vis, expect_end, expect_group, expect_ident, expect_punct,
    expect_word, ident_string, ident_text, outer_attrs, parse_type, parse_vis, spec_expect_end,
    spec_expect_group, spec_expect_ident, spec_expect_punct, spec_expect_word, spec_outer_attrs,
    spec_type, spec_vis,
};
use vstd::prelude::*;

verus! {

/// A static variable of the input: `attrs NAME: Type`.
#[derive(PartialEq, Eq, Structural, Clone, Copy, Debug)]
pub struct StaticVar {
    pub attrs: Span,
    pub ident: usize,
    pub ty: Span,
}

/// A variable at `i`.
pub open spec fn spec_static_var(toks: Seq<Tok>, i: int, end: int) -> Result<
    (StaticVar, usize),
    MacroError,
> {
    match spec_outer_attrs(toks, i, end) {
        Err(e) => Err(e),
        Ok(a) => match spec_expect_ident(toks, a as int, end) {
            Err(e) => Err(e),
            Ok(_) => match spec_expect_punct(toks, a + 1, end, ':') {
                Err(e) => Err(e),
                Ok(t) => match spec_type(toks, t as int, end, ',') {
                    Err(e) => Err(e),
                    Ok(n) => Ok(
                        (
                            StaticVar {
                                attrs: Span { start: i as usize, end: a },
                                ident: a,
                                ty: Span { start: t, end: n },
                            },
                            n,
                        ),
                    ),
                },
            },
        },
    }
}

fn parse_static_var(toks: &Vec<Tok>, i: usize, end: usize) -> (r: Result<(StaticVar, usize), MacroError>)
    ensures
        r == spec_static_var(toks@, i as int, end as int),
        r matches Ok((_, n)) ==> i < n <= end,
{
    let a = outer_attrs(toks, i, end)?;
    expect_ident(toks, a, end)?;
    let t = expect_punct(toks, a + 1, end, ':')?;
    let n = parse_type(toks, t, end, ',')?;
    Ok((StaticVar { attrs: Span { start: i, end: a }, ident: a, ty: Span { start: t, end: n } }, n))
}

/// The variables in `[i, end)`, separated by commas, the last one
/// optionally followed by one.
pub open spec fn spec_static_vars(toks: Seq<Tok>, i: int, end: int) -> Result<
    Seq<StaticVar>,
    MacroError,
>
    decreases end - i,
{
    if i >= end {
        Ok(Seq::empty())
    } else {
        match spec_static_var(toks, i, end) {
            Err(e) => Err(e),
            Ok((v, n)) => if n >= end || n <= i {
                Ok(seq![v])
            } else {
                match spec_expect_punct(toks, n as int, end, ',') {
                    Err(e) => Err(e),
                    Ok(q) => if q > i && q <= end {
                        match spec_static_vars(toks, q as int, end) {
                            Err(e) => Err(e),
                            Ok(rest) => Ok(seq![v] + rest),
                        }
                    } else {
                        Ok(seq![v])
                    },
                }
            },
        }
    }
}

fn parse_static_vars(toks: &Vec<Tok>, i: usize, end: usize) -> (r: Result<Vec<StaticVar>, MacroError>)
    ensures
        r matches Ok(v) ==> spec_static_vars(toks@, i as int, end as int) == Ok::<
            Seq<StaticVar>,
            MacroError,
        >(v@),
        r matches Err(e) ==> spec_static_vars(toks@, i as int, end as int) == Err::<
            Seq<StaticVar>,
            MacroError,
        >(e),
{
    let mut out: Vec<StaticVar> = Vec::new();
    let mut j = i;
    let mut done = false;
    while j < end && !done
        invariant
            i <= j,
            spec_static_vars(toks@, i as int, end as int) == (if done {
                Ok(out@)
            } else {
                match spec_static_vars(toks@, j as int, end as int) {
                    Ok(rest) => Ok(out@ + rest),
                    Err(e) => Err(e),
                }
            }),
        decreases end - j + (if done { 0int } else { 1int }),
    {
        let (v, n) = parse_static_var(toks, j, end)?;
        let ghost before = out@;
        out.push(v);
        if n >= end {
            assert(before + seq![v] =~= out@);
            done = true;
        } else {
            let q = expect_punct(toks, n, end, ',')?;
            proof {
                match spec_static_vars(toks@, q as int, end as int) {
                    Ok(rest) => {
                        assert(before + (seq![v] + rest) =~= out@ + rest);
                    },
                    Err(_) => {},
                }
            }
            j = q;
        }
    }
    if !done {
        assert(out@ + Seq::<StaticVar>::empty() =~= out@);
    }
    Ok(out)
}

/// The input of `unsafe_static_tokens!`.
#[derive(Debug)]
pub struct StaticTokensInput {
    pub attrs: Span,
    pub vis: Vis,
    pub ident: usize,
    pub vars: Vec<StaticVar>,
}

pub struct StaticTokensInputV {
    pub attrs: Span,
    pub vis: Vis,
    pub ident: usize,
    pub vars: Seq<StaticVar>,
}

pub open spec fn static_input_view(i: StaticTokensInput) -> StaticTokensInputV {
    StaticTokensInputV { attrs: i.attrs, vis: i.vis, ident: i.ident, vars: i.vars@ }
}

pub open spec fn spec_static_tokens_input(toks: Seq<Tok>) -> Result<StaticTokensInputV, MacroError> {
    let end = toks.len() as int;
    match spec_outer_attrs(toks, 0, end) {
        Err(e) => Err(e),
        Ok(a) => {
            let v = spec_vis(toks, a as int, end);
            match spec_expect_word(toks, v.span.end as int, end, "struct") {
                Err(e) => Err(e),
                Ok(s) => match spec_expect_ident(toks, s as int, end) {
                    Err(e) => Err(e),
                    Ok(_) => match spec_expect_group(toks, s + 1, end, Delim::Brace) {
                        Err(e) => Err(e),
                        Ok(c) => match spec_static_vars(toks, s + 2, c as int) {
                            Err(e) => Err(e),
                            Ok(vars) => match spec_expect_end(c + 1, end) {
                                Err(e) => Err(e),
                                Ok(_) => Ok(
                                    StaticTokensInputV {
                                        attrs: Span { start: 0, end: a },
                                        vis: v,
                                        ident: s,
                                        vars,
                                    },
                                ),
                            },
                        },
                    },
                },
            }
        },
    }
}

pub fn parse_static_tokens_input(toks: &Vec<Tok>) -> (r: Result<StaticTokensInput, MacroError>)
    ensures
        r matches Ok(v) ==> spec_static_tokens_input(toks@) == Ok::<
            StaticTokensInputV,
            MacroError,
        >(static_input_view(v)),
        r matches Err(e) ==> spec_static_tokens_input(toks@) == Err::<
            StaticTokensInputV,
            MacroError,
        >(e),
{
    let end = toks.len();
    let a = outer_attrs(toks, 0, end)?;
    let v = parse_vis(toks, a, end);
    let s = expect_word(toks, v.span.end, end, "struct")?;
    expect_ident(toks, s, end)?;
    let c = expect_group(toks, s + 1, end, Delim::Brace)?;
    let vars = parse_static_vars(toks, s + 2, c)?;
    expect_end(c + 1, end)?;
    Ok(StaticTokensInput { attrs: Span { start: 0, end: a }, vis: v, ident: s, vars })
}

/// The names a variable's token gets: the module that holds it, its type
/// (the name in upper camel case, then `Token`) and its field in the
/// structure (snake case).
#[derive(Debug)]
pub struct VarNames {
    pub module: String,
    pub ty: String,
    pub field: String,
}

pub open spec fn var_names_view(n: VarNames) -> (Seq<char>, Seq<char>, Seq<char>) {
    (n.module@, n.ty@, n.field@)
}

pub open spec fn var_names(toks: Seq<Tok>, v: StaticVar) -> (Seq<char>, Seq<char>, Seq<char>) {
    let name = ident_text(toks, v.ident as int);
    let snk = heck_snake(name);
    ("__"@ + snk + "_nested_static_tokens"@, heck_upper_camel(name) + "Token"@, snk)
}

/// The module that holds the structure.
pub open spec fn structure_module(toks: Seq<Tok>, ident: usize) -> Seq<char> {
    "__"@ + heck_snake(ident_text(toks, ident as int)) + "_static_tokens"@
}

/// What `unsafe_static_tokens!` expands to.
#[derive(Debug)]
pub struct StaticTokensPlan {
    pub input: StaticTokensInput,
    pub module: String,
    pub vars: Vec<VarNames>,
}

fn plan_var(toks: &Vec<Tok>, v: &StaticVar) -> (r: VarNames)
    ensures
        var_names_view(r) == var_names(toks@, *v),
{
    let name = ident_string(toks, v.ident);
    let snk = to_snake_heck(name.as_str());
    let camel = to_upper_camel_heck(name.as_str());
    VarNames {
        module: cat3("__", snk.as_str(), "_nested_static_tokens"),
        ty: cat(camel.as_str(), "Token"),
        field: snk,
    }
}

/// `unsafe_static_tokens!` on the input `toks`.
pub fn unsafe_static_tokens(toks: &Vec<Tok>) -> (r: Result<StaticTokensPlan, MacroError>)
    ensures
        r matches Err(e) ==> spec_static_tokens_input(toks@) == Err::<
            StaticTokensInputV,
            MacroError,
        >(e),
        r matches Ok(p) ==> {
            &&& spec_static_tokens_input(toks@) == Ok::<StaticTokensInputV, MacroError>(
                static_input_view(p.input),
            )
            &&& p.module@ == structure_module(toks@, p.input.ident)
            &&& p.vars@.map_values(|n: VarNames| var_names_view(n)) == p.input.vars@.map_values(
                |v: StaticVar| var_names(toks@, v),
            )
        },
{
    let input = parse_static_tokens_input(toks)?;
    let snk = to_snake_heck(ident_string(toks, input.ident).as_str());
    let module = cat3("__", snk.as_str(), "_static_tokens");
    let mut vars: Vec<VarNames> = Vec::new();
    let mut k: usize = 0;
    while k < input.vars.len()
        invariant
            k <= input.vars@.len(),
            vars@.map_values(|n: VarNames| var_names_view(n)) == input.vars@.take(
                k as int,
            ).map_values(|v: StaticVar| var_names(toks@, v)),
        decreases input.vars@.len() - k,
    {
        let v = input.vars[k];
        let names = plan_var(toks, &v);
        let ghost before = vars@.map_values(|n: VarNames| var_names_view(n));
        let ghost nv = var_names_view(names);
        vars.push(names);
        proof {
            assert(vars@.map_values(|n: VarNames| var_names_view(n)) =~= before.push(nv));
            assert(input.vars@.take(k + 1) =~= input.vars@.take(k as int).push(v));
            assert(input.vars@.take(k + 1).map_values(|v: StaticVar| var_names(toks@, v))
                =~= input.vars@.take(k as int).map_values(|v: StaticVar| var_names(toks@, v)).push(
                var_names(toks@, v),
            ));
        }
        k = k + 1;
    }
    assert(input.vars@.take(k as int) =~= input.vars@);
    Ok(StaticTokensPlan { input, module, vars })
}


// ---------------------------------------------------------------------------
// The expansion

/// `::drone_core::token::W`
pub open spec fn token_path(w: Seq<char>) -> Seq<TokV> {
    tj(':', ':') + tw("drone_core"@) + tj(':', ':') + tw("token"@) + tj(':', ':') + tw(w)
}

/// `#[inline]`
pub open spec fn inline_attr() -> Seq<TokV> {
    tp('#') + topen(Delim::Bracket) + tw("inline"@) + tclose(Delim::Bracket)
}

/// `#[inline] unsafe fn take() -> Self { BODY }`
pub open spec fn take_fn(body: Seq<TokV>) -> Seq<TokV> {
    inline_attr() + tw("unsafe"@) + tw("fn"@) + tw("take"@) + topen(Delim::Paren) + tclose(
        Delim::Paren,
    ) + tj('-', '>') + tw("Self"@) + topen(Delim::Brace) + body + tclose(Delim::Brace)
}

/// `NAME(())`
pub open spec fn unit_ctor(ty: Seq<char>) -> Seq<TokV> {
    tw(ty) + topen(Delim::Paren) + topen(Delim::Paren) + tclose(Delim::Paren) + tclose(Delim::Paren)
}

/// `mod M { use super::*; ATTRS pub struct T(()); unsafe impl
/// ::drone_core::token::Token for T { #[inline] unsafe fn take() -> Self {
/// T(()) } } }`
pub open spec fn var_module(toks: Seq<Tok>, v: StaticVar, m: Seq<char>, ty: Seq<char>) -> Seq<TokV> {
    tw("mod"@) + tw(m) + topen(Delim::Brace) + tw("use"@) + tw("super"@) + tj(':', ':') + tp('*')
        + tp(';') + span_toks(toks, v.attrs) + tw("pub"@) + tw("struct"@) + unit_ctor(ty) + tp(';')
        + tw("unsafe"@) + tw("impl"@) + token_path("Token"@) + tw("for"@) + tw(ty) + topen(
        Delim::Brace,
    ) + take_fn(unit_ctor(ty)) + tclose(Delim::Brace) + tclose(Delim::Brace)
}

/// `unsafe { &mut VAR }`
pub open spec fn var_access(toks: Seq<Tok>, v: StaticVar) -> Seq<TokV> {
    tw("unsafe"@) + topen(Delim::Brace) + tp('&') + tw("mut"@) + span_toks(
        toks,
        one(v.ident),
    ) + tclose(Delim::Brace)
}

/// `#[inline] fn get(&mut self) -> &mut Self::Target { unsafe { &mut VAR } }`
pub open spec fn get_fn(toks: Seq<Tok>, v: StaticVar) -> Seq<TokV> {
    inline_attr() + tw("fn"@) + tw("get"@) + topen(Delim::Paren) + tp('&') + tw("mut"@) + tw(
        "self"@,
    ) + tclose(Delim::Paren) + tj('-', '>') + tp('&') + tw("mut"@) + tw("Self"@) + tj(':', ':') + tw(
        "Target"@,
    ) + topen(Delim::Brace) + var_access(toks, v) + tclose(Delim::Brace)
}

/// `#[inline] fn into_static(self) -> &'static mut Self::Target { unsafe {
/// &mut VAR } }`
pub open spec fn into_static_fn(toks: Seq<Tok>, v: StaticVar) -> Seq<TokV> {
    inline_attr() + tw("fn"@) + tw("into_static"@) + topen(Delim::Paren) + tw("self"@) + tclose(
        Delim::Paren,
    ) + tj('-', '>') + tp('&') + seq![TokV::Punct('\'', true)] + tw("static"@) + tw("mut"@) + tw(
        "Self"@,
    ) + tj(':', ':') + tw("Target"@) + topen(Delim::Brace) + var_access(toks, v) + tclose(
        Delim::Brace,
    )
}

/// `unsafe impl ::drone_core::token::StaticToken for T { type Target = TY;
/// GET INTO_STATIC }`
pub open spec fn var_static_impl(toks: Seq<Tok>, v: StaticVar, ty: Seq<char>) -> Seq<TokV> {
    tw("unsafe"@) + tw("impl"@) + token_path("StaticToken"@) + tw("for"@) + tw(ty) + topen(
        Delim::Brace,
    ) + tw("type"@) + tw("Target"@) + tp('=') + span_toks(toks, v.ty) + tp(';') + get_fn(toks, v)
        + into_static_fn(toks, v) + tclose(Delim::Brace)
}

/// The items of a variable: its token's module, the token's re-export with
/// the structure's visibility, and the token's access to the variable.
pub open spec fn var_items(toks: Seq<Tok>, vis: Vis, v: StaticVar) -> Seq<TokV> {
    let (m, ty, _) = var_names(toks, v);
    var_module(toks, v, m, ty) + span_toks(toks, vis.span) + tw("use"@) + tw(m) + tj(':', ':') + tw(
        ty,
    ) + tp(';') + var_static_impl(toks, v, ty)
}

pub open spec fn vars_items(toks: Seq<Tok>, vis: Vis, vs: Seq<StaticVar>) -> Seq<TokV>
    decreases vs.len(),
{
    if vs.len() == 0 {
        Seq::empty()
    } else {
        vars_items(toks, vis, vs.drop_last()) + var_items(toks, vis, vs.last())
    }
}

/// `#[allow(missing_docs)] pub FIELD: T,`
pub open spec fn var_def(toks: Seq<Tok>, v: StaticVar) -> Seq<TokV> {
    let (_, ty, field) = var_names(toks, v);
    tp('#') + topen(Delim::Bracket) + tw("allow"@) + topen(Delim::Paren) + tw("missing_docs"@)
        + tclose(Delim::Paren) + tclose(Delim::Bracket) + tw("pub"@) + tw(field) + tp(':') + tw(ty)
        + tp(',')
}

pub open spec fn var_defs(toks: Seq<Tok>, vs: Seq<StaticVar>) -> Seq<TokV>
    decreases vs.len(),
{
    if vs.len() == 0 {
        Seq::empty()
    } else {
        var_defs(toks, vs.drop_last()) + var_def(toks, vs.last())
    }
}

/// `FIELD: ::drone_core::token::Token::take(),`
pub open spec fn var_ctor(toks: Seq<Tok>, v: StaticVar) -> Seq<TokV> {
    let (_, _, field) = var_names(toks, v);
    tw(field) + tp(':') + token_path("Token"@) + tj(':', ':') + tw("take"@) + topen(Delim::Paren)
        + tclose(Delim::Paren) + tp(',')
}

pub open spec fn var_ctors(toks: Seq<Tok>, vs: Seq<StaticVar>) -> Seq<TokV>
    decreases vs.len(),
{
    if vs.len() == 0 {
        Seq::empty()
    } else {
        var_ctors(toks, vs.drop_last()) + var_ctor(toks, vs.last())
    }
}

/// `__priv: (),`
pub open spec fn priv_field() -> Seq<TokV> {
    tw("__priv"@) + tp(':') + topen(Delim::Paren) + tclose(Delim::Paren) + tp(',')
}

/// `mod W { use super::*; ATTRS pub struct NAME { DEFS __priv: (), } unsafe
/// impl ::drone_core::token::Token for NAME { #[inline] unsafe fn take() ->
/// Self { Self { CTORS __priv: (), } } } }`
pub open spec fn structure_items(toks: Seq<Tok>, inp: StaticTokensInputV) -> Seq<TokV> {
    let name = span_toks(toks, one(inp.ident));
    tw("mod"@) + tw(structure_module(toks, inp.ident)) + topen(Delim::Brace) + tw("use"@) + tw(
        "super"@,
    ) + tj(':', ':') + tp('*') + tp(';') + span_toks(toks, inp.attrs) + tw("pub"@) + tw("struct"@)
        + name + topen(Delim::Brace) + var_defs(toks, inp.vars) + priv_field() + tclose(Delim::Brace)
        + tw("unsafe"@) + tw("impl"@) + token_path("Token"@) + tw("for"@) + name + topen(
        Delim::Brace,
    ) + take_fn(
        tw("Self"@) + topen(Delim::Brace) + var_ctors(toks, inp.vars) + priv_field() + tclose(
            Delim::Brace,
        ),
    ) + tclose(Delim::Brace) + tclose(Delim::Brace)
}

/// What `unsafe_static_tokens!` expands to, for the input as read: the
/// module of the structure, its re-export, and the items of each variable.
pub open spec fn static_tokens_expansion(toks: Seq<Tok>, inp: StaticTokensInputV) -> Seq<TokV> {
    structure_items(toks, inp) + span_toks(toks, inp.vis.span) + tw("use"@) + tw(
        structure_module(toks, inp.ident),
    ) + tj(':', ':') + span_toks(toks, one(inp.ident))
        + tp(';') + vars_items(toks, inp.vis, inp.vars)
}

pub open spec fn spec_expand_static_tokens(toks: Seq<Tok>) -> Result<Seq<TokV>, MacroError> {
    match spec_static_tokens_input(toks) {
        Err(e) => Err(e),
        Ok(inp) => Ok(static_tokens_expansion(toks, inp)),
    }
}

fn one_span(i: usize) -> (r: Span)
    ensures
        r == one(i),
{
    if i < usize::MAX {
        Span { start: i, end: i + 1 }
    } else {
        Span { start: i, end: i }
    }
}

/// Adds `::drone_core::token::W` to `out`.
pub fn emit_token_path(out: &mut Vec<Tok>, w: &str)
    ensures
        toks_view(final(out)@) == toks_view(old(out)@) + token_path(w@),
{
    let ghost b = toks_view(old(out)@);
    emit_joint(out, ':', ':');
    emit_word(out, "drone_core");
    emit_joint(out, ':', ':');
    emit_word(out, "token");
    emit_joint(out, ':', ':');
    emit_word(out, w);
    assert(toks_view(out@) =~= b + token_path(w@));
}

fn emit_inline_attr(out: &mut Vec<Tok>)
    ensures
        toks_view(final(out)@) == toks_view(old(out)@) + inline_attr(),
{
    let ghost b = toks_view(old(out)@);
    emit_punct(out, '#');
    emit_open(out, Delim::Bracket);
    emit_word(out, "inline");
    emit_close(out, Delim::Bracket);
    assert(toks_view(out@) =~= b + inline_attr());
}

fn emit_take_head(out: &mut Vec<Tok>)
    ensures
        toks_view(final(out)@) == toks_view(old(out)@) + inline_attr() + tw("unsafe"@) + tw("fn"@)
            + tw("take"@) + topen(Delim::Paren) + tclose(Delim::Paren) + tj('-', '>') + tw("Self"@)
            + topen(Delim::Brace),
{
    let ghost b = toks_view(old(out)@);
    emit_inline_attr(out);
    emit_word(out, "unsafe");
    emit_word(out, "fn");
    emit_word(out, "take");
    emit_open(out, Delim::Paren);
    emit_close(out, Delim::Paren);
    emit_joint(out, '-', '>');
    emit_word(out, "Self");
    emit_open(out, Delim::Brace);
}

fn emit_unit_ctor(out: &mut Vec<Tok>, ty: &String)
    ensures
        toks_view(final(out)@) == toks_view(old(out)@) + unit_ctor(ty@),
{
    let ghost b = toks_view(old(out)@);
    emit_string(out, ty);
    emit_open(out, Delim::Paren);
    emit_open(out, Delim::Paren);
    emit_close(out, Delim::Paren);
    emit_close(out, Delim::Paren);
    assert(toks_view(out@) =~= b + unit_ctor(ty@));
}

#[verifier::spinoff_prover]
#[verifier::rlimit(50)]
fn emit_var_module(toks: &Vec<Tok>, v: StaticVar, n: &VarNames, out: &mut Vec<Tok>)
    ensures
        toks_view(final(out)@) == toks_view(old(out)@) + var_module(toks@, v, n.module@, n.ty@),
{
    let ghost b = toks_view(old(out)@);
    emit_word(out, "mod");
    emit_string(out, &n.module);
    emit_open(out, Delim::Brace);
    emit_word(out, "use");
    emit_word(out, "super");
    emit_joint(out, ':', ':');
    emit_punct(out, '*');
    emit_punct(out, ';');
    emit_span(toks, v.attrs, out);
    emit_word(out, "pub");
    emit_word(out, "struct");
    emit_unit_ctor(out, &n.ty);
    emit_punct(out, ';');
    emit_word(out, "unsafe");
    emit_word(out, "impl");
    emit_token_path(out, "Token");
    emit_word(out, "for");
    emit_string(out, &n.ty);
    emit_open(out, Delim::Brace);
    let ghost t = toks_view(out@);
    emit_take_head(out);
    emit_unit_ctor(out, &n.ty);
    emit_close(out, Delim::Brace);
    assert(toks_view(out@) =~= t + take_fn(unit_ctor(n.ty@)));
    emit_close(out, Delim::Brace);
    emit_close(out, Delim::Brace);
    assert(toks_view(out@) =~= b + var_module(toks@, v, n.module@, n.ty@));
}

fn emit_var_access(toks: &Vec<Tok>, v: StaticVar, out: &mut Vec<Tok>)
    ensures
        toks_view(final(out)@) == toks_view(old(out)@) + var_access(toks@, v),
{
    let ghost b = toks_view(old(out)@);
    emit_word(out, "unsafe");
    emit_open(out, Delim::Brace);
    emit_punct(out, '&');
    emit_word(out, "mut");
    emit_span(toks, one_span(v.ident), out);
    emit_close(out, Delim::Brace);
    assert(toks_view(out@) =~= b + var_access(toks@, v));
}

fn emit_get_fn(toks: &Vec<Tok>, v: StaticVar, out: &mut Vec<Tok>)
    ensures
        toks_view(final(out)@) == toks_view(old(out)@) + get_fn(toks@, v),
{
    let ghost b = toks_view(old(out)@);
    emit_inline_attr(out);
    emit_word(out, "fn");
    emit_word(out, "get");
    emit_open(out, Delim::Paren);
    emit_punct(out, '&');
    emit_word(out, "mut");
    emit_word(out, "self");
    emit_close(out, Delim::Paren);
    emit_joint(out, '-', '>');
    emit_punct(out, '&');
    emit_word(out, "mut");
    emit_word(out, "Self");
    emit_joint(out, ':', ':');
    emit_word(out, "Target");
    emit_open(out, Delim::Brace);
    emit_var_access(toks, v, out);
    emit_close(out, Delim::Brace);
    assert(toks_view(out@) =~= b + get_fn(toks@, v));
}

fn emit_into_static_fn(toks: &Vec<Tok>, v: StaticVar, out: &mut Vec<Tok>)
    ensures
        toks_view(final(out)@) == toks_view(old(out)@) + into_static_fn(toks@, v),
{
    let ghost b = toks_view(old(out)@);
    emit_inline_attr(out);
    emit_word(out, "fn");
    emit_word(out, "into_static");
    emit_open(out, Delim::Paren);
    emit_word(out, "self");
    emit_close(out, Delim::Paren);
    emit_joint(out, '-', '>');
    emit_punct(out, '&');
    let ghost m3 = toks_view(out@);
    crate::token::push_tok(out, Tok::Punct('\'', true));
    assert(toks_view(out@) =~= m3 + seq![TokV::Punct('\'', true)]);
    emit_word(out, "static");
    emit_word(out, "mut");
    emit_word(out, "Self");
    emit_joint(out, ':', ':');
    emit_word(out, "Target");
    emit_open(out, Delim::Brace);
    emit_var_access(toks, v, out);
    emit_close(out, Delim::Brace);
    assert(toks_view(out@) =~= b + into_static_fn(toks@, v));
}

fn emit_var_static_impl(toks: &Vec<Tok>, v: StaticVar, ty: &String, out: &mut Vec<Tok>)
    ensures
        toks_view(final(out)@) == toks_view(old(out)@) + var_static_impl(toks@, v, ty@),
{
    let ghost b = toks_view(old(out)@);
    emit_word(out, "unsafe");
    emit_word(out, "impl");
    emit_token_path(out, "StaticToken");
    emit_word(out, "for");
    emit_string(out, ty);
    emit_open(out, Delim::Brace);
    emit_word(out, "type");
    emit_word(out, "Target");
    emit_punct(out, '=');
    emit_span(toks, v.ty, out);
    emit_punct(out, ';');
    emit_get_fn(toks, v, out);
    emit_into_static_fn(toks, v, out);
    emit_close(out, Delim::Brace);
    assert(toks_view(out@) =~= b + var_static_impl(toks@, v, ty@));
}

fn emit_var_items(toks: &Vec<Tok>, vis: Vis, v: StaticVar, n: &VarNames, out: &mut Vec<Tok>)
    requires
        var_names_view(*n) == var_names(toks@, v),
    ensures
        toks_view(final(out)@) == toks_view(old(out)@) + var_items(toks@, vis, v),
{
    let ghost b = toks_view(old(out)@);
    emit_var_module(toks, v, n, out);
    emit_span(toks, vis.span, out);
    emit_word(out, "use");
    emit_string(out, &n.module);
    emit_joint(out, ':', ':');
    emit_string(out, &n.ty);
    emit_punct(out, ';');
    emit_var_static_impl(toks, v, &n.ty, out);
    assert(toks_view(out@) =~= b + var_items(toks@, vis, v));
}

fn emit_var_def(toks: &Vec<Tok>, v: StaticVar, n: &VarNames, out: &mut Vec<Tok>)
    requires
        var_names_view(*n) == var_names(toks@, v),
    ensures
        toks_view(final(out)@) == toks_view(old(out)@) + var_def(toks@, v),
{
    let ghost b = toks_view(old(out)@);
    emit_punct(out, '#');
    emit_open(out, Delim::Bracket);
    emit_word(out, "allow");
    emit_open(out, Delim::Paren);
    emit_word(out, "missing_docs");
    emit_close(out, Delim::Paren);
    emit_close(out, Delim::Bracket);
    emit_word(out, "pub");
    emit_string(out, &n.field);
    emit_punct(out, ':');
    emit_string(out, &n.ty);
    emit_punct(out, ',');
    assert(toks_view(out@) =~= b + var_def(toks@, v));
}

fn emit_var_ctor(toks: &Vec<Tok>, v: StaticVar, n: &VarNames, out: &mut Vec<Tok>)
    requires
        var_names_view(*n) == var_names(toks@, v),
    ensures
        toks_view(final(out)@) == toks_view(old(out)@) + var_ctor(toks@, v),
{
    let ghost b = toks_view(old(out)@);
    emit_string(out, &n.field);
    emit_punct(out, ':');
    emit_token_path(out, "Token");
    emit_joint(out, ':', ':');
    emit_word(out, "take");
    emit_open(out, Delim::Paren);
    emit_close(out, Delim::Paren);
    emit_punct(out, ',');
    assert(toks_view(out@) =~= b + var_ctor(toks@, v));
}

fn emit_priv_field(out: &mut Vec<Tok>)
    ensures
        toks_view(final(out)@) == toks_view(old(out)@) + priv_field(),
{
    let ghost b = toks_view(old(out)@);
    emit_word(out, "__priv");
    emit_punct(out, ':');
    emit_open(out, Delim::Paren);
    emit_close(out, Delim::Paren);
    emit_punct(out, ',');
    assert(toks_view(out@) =~= b + priv_field());
}

/// The list kinds of the structure: definitions, constructors, items.
#[verifier::spinoff_prover]
#[verifier::rlimit(50)]
fn emit_var_list(toks: &Vec<Tok>, p: &StaticTokensPlan, kind: u8, out: &mut Vec<Tok>)
    requires
        p.vars@.map_values(|n: VarNames| var_names_view(n)) == p.input.vars@.map_values(
            |v: StaticVar| var_names(toks@, v),
        ),
    ensures
        kind == 0 ==> toks_view(final(out)@) == toks_view(old(out)@) + var_defs(toks@, p.input.vars@),
        kind == 1 ==> toks_view(final(out)@) == toks_view(old(out)@) + var_ctors(toks@, p.input.vars@),
        kind >= 2 ==> toks_view(final(out)@) == toks_view(old(out)@) + vars_items(
            toks@,
            p.input.vis,
            p.input.vars@,
        ),
{
    let ghost start = toks_view(old(out)@);
    let ghost vs = p.input.vars@;
    let mut k: usize = 0;
    assert(vs.take(0) =~= Seq::<StaticVar>::empty());
    assert(start + Seq::<TokV>::empty() =~= start);
    while k < p.input.vars.len()
        invariant
            k <= p.input.vars@.len(),
            vs == p.input.vars@,
            p.vars@.map_values(|n: VarNames| var_names_view(n)) == p.input.vars@.map_values(
                |v: StaticVar| var_names(toks@, v),
            ),
            kind == 0 ==> toks_view(out@) == start + var_defs(toks@, vs.take(k as int)),
            kind == 1 ==> toks_view(out@) == start + var_ctors(toks@, vs.take(k as int)),
            kind >= 2 ==> toks_view(out@) == start + vars_items(toks@, p.input.vis, vs.take(k as int)),
        decreases p.input.vars@.len() - k,
    {
        let v = p.input.vars[k];
        assert(p.vars@.len() == p.input.vars@.len()) by {
            assert(p.vars@.map_values(|n: VarNames| var_names_view(n)).len() == p.vars@.len());
        }
        let n = &p.vars[k];
        proof {
            assert(p.vars@.map_values(|n: VarNames| var_names_view(n))[k as int] == var_names_view(*n));
            assert(p.input.vars@.map_values(|v: StaticVar| var_names(toks@, v))[k as int] == var_names(toks@, v));
        }
        let ghost before = toks_view(out@);
        if kind == 0 {
            emit_var_def(toks, v, n, out);
        } else if kind == 1 {
            emit_var_ctor(toks, v, n, out);
        } else {
            emit_var_items(toks, p.input.vis, v, n, out);
        }
        proof {
            let t = vs.take(k + 1);
            assert(t.drop_last() =~= vs.take(k as int));
            assert(t.last() == v);
            if kind == 0 {
                assert(toks_view(out@) =~= start + var_defs(toks@, t));
            } else if kind == 1 {
                assert(toks_view(out@) =~= start + var_ctors(toks@, t));
            } else {
                assert(toks_view(out@) =~= start + vars_items(toks@, p.input.vis, t));
            }
        }
        k = k + 1;
    }
    assert(vs.take(k as int) =~= vs);
}

/// The tokens that `unsafe_static_tokens!` expands to, on the input `toks`.
#[verifier::spinoff_prover]
#[verifier::rlimit(50)]
pub fn expand_static_tokens(toks: &Vec<Tok>) -> (r: Result<Vec<Tok>, MacroError>)
    ensures
        r matches Err(e) ==> spec_expand_static_tokens(toks@) == Err::<Seq<TokV>, MacroError>(e),
        r matches Ok(v) ==> spec_expand_static_tokens(toks@) == Ok::<Seq<TokV>, MacroError>(
            toks_view(v@),
        ),
{
    let p = unsafe_static_tokens(toks)?;
    let ghost inp = static_input_view(p.input);
    let name = one_span(p.input.ident);
    let mut out: Vec<Tok> = Vec::new();
    assert(toks_view(out@) =~= Seq::<TokV>::empty());
    emit_word(&mut out, "mod");
    emit_string(&mut out, &p.module);
    emit_open(&mut out, Delim::Brace);
    emit_word(&mut out, "use");
    emit_word(&mut out, "super");
    emit_joint(&mut out, ':', ':');
    emit_punct(&mut out, '*');
    emit_punct(&mut out, ';');
    emit_span(toks, p.input.attrs, &mut out);
    emit_word(&mut out, "pub");
    emit_word(&mut out, "struct");
    emit_span(toks, name, &mut out);
    emit_open(&mut out, Delim::Brace);
    emit_var_list(toks, &p, 0, &mut out);
    emit_priv_field(&mut out);
    emit_close(&mut out, Delim::Brace);
    emit_word(&mut out, "unsafe");
    emit_word(&mut out, "impl");
    emit_token_path(&mut out, "Token");
    emit_word(&mut out, "for");
    emit_span(toks, name, &mut out);
    emit_open(&mut out, Delim::Brace);
    let ghost t = toks_view(out@);
    emit_take_head(&mut out);
    emit_word(&mut out, "Self");
    emit_open(&mut out, Delim::Brace);
    emit_var_list(toks, &p, 1, &mut out);
    emit_priv_field(&mut out);
    emit_close(&mut out, Delim::Brace);
    emit_close(&mut out, Delim::Brace);
    assert(toks_view(out@) =~= t + take_fn(
        tw("Self"@) + topen(Delim::Brace) + var_ctors(toks@, inp.vars) + priv_field() + tclose(
            Delim::Brace,
        ),
    ));
    emit_close(&mut out, Delim::Brace);
    emit_close(&mut out, Delim::Brace);
    assert(toks_view(out@) =~= structure_items(toks@, inp));
    emit_span(toks, p.input.vis.span, &mut out);
    emit_word(&mut out, "use");
    emit_string(&mut out, &p.module);
    emit_joint(&mut out, ':', ':');
    emit_span(toks, name, &mut out);
    emit_punct(&mut out, ';');
    emit_var_list(toks, &p, 2, &mut out);
    assert(toks_view(out@) =~= static_tokens_expansion(toks@, inp));
    Ok(out)
}

} // verus!
