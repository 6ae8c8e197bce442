//! `bindings!`: the structure `Bindings` of register bindings, one field for
//! each `name: path::macro<args>` of the input, each initialized by calling
//! the macro with the arguments.
//!
//! The input is a sequence of inner attributes `#![..]`, which go to the
//! structure, and of bindings separated by commas. A binding's register is
//! a run of identifiers, `::`, `<` and `>`.

use crate::token::{
    ErrorKind, MacroError, Span, Tok, close_of, err, find_close, glued_after, glued_after_exec,
    glued_before, glued_before_exec, is_ident_tok, is_joint_punct, is_punct, is_single,
    peek_ident, peek_joint_punct, peek_punct, peek_single,
};
use crate::thr_static::{one, one_exec};
use crate::token::{Delim, TokV, emit_close, emit_literal, emit_open, emit_punct, emit_span, emit_word, push_tok, span_toks, tclose, tl, topen, toks_view, tp, tw};
use vstd::prelude::*;

verus! {

/// `::` starts at `i`.
pub open spec fn is_mod_sep(toks: Seq<Tok>, i: int, end: int) -> bool {
    &&& is_joint_punct(toks, i, end, ':')
    &&& is_punct(toks, i + 1, end, ':')
    &&& !glued_after(toks, i + 1)
    &&& !glued_before(toks, i)
}

/// The tokens of a register from `j` on, up to a `,` or the end of the
/// input: the positions where they start and the position after the `,`, or
/// the position of a token that cannot be part of it.
pub open spec fn reg_tokens(toks: Seq<Tok>, j: int, end: int) -> Result<(Seq<usize>, int), int>
    decreases end - j,
{
    if j >= end || j < 0 {
        Ok((Seq::empty(), j))
    } else if is_single(toks, j, end, ',') {
        Ok((Seq::empty(), j + 1))
    } else {
        let step = if is_ident_tok(toks, j, end) || is_single(toks, j, end, '<') || is_single(
            toks,
            j,
            end,
            '>',
        ) {
            1int
        } else if is_mod_sep(toks, j, end) {
            2int
        } else {
            0int
        };
        if step == 0 {
            Err(j)
        } else {
            match reg_tokens(toks, j + step, end) {
                Err(p) => Err(p),
                Ok((rest, q)) => Ok((seq![j as usize] + rest, q)),
            }
        }
    }
}

/// A binding: the field's name and the starts of its register's tokens.
#[derive(Debug)]
pub struct Binding {
    pub name: usize,
    pub reg: Vec<usize>,
}

pub open spec fn binding_view(b: Binding) -> (usize, Seq<usize>) {
    (b.name, b.reg@)
}

pub struct BindingsState {
    pub attrs: Seq<Span>,
    pub bindings: Seq<(usize, Seq<usize>)>,
}

pub const AFTER_POUND_BANG: &'static str = "Invalid tokens after `#!`";

pub const AFTER_POUND: &'static str = "Invalid tokens after `#`";

/// The message of a token that cannot follow a binding's name (or its name,
/// `:` and register), which the message quotes.
pub const AFTER_NAME: &'static str = "Invalid token after";

pub const INVALID_TOKEN: &'static str = "Invalid token";

/// The input from `i` on, given what was read before it.
pub open spec fn spec_bindings(toks: Seq<Tok>, i: int, end: int, st: BindingsState) -> Result<
    BindingsState,
    MacroError,
>
    decreases end - i,
{
    if i >= end || i < 0 {
        Ok(st)
    } else if is_punct(toks, i, end, '#') {
        if is_punct(toks, i + 1, end, '!') {
            if 0 <= i + 2 < end && i + 2 < toks.len() && toks[i + 2] is Open {
                match close_of(toks, i + 2, end) {
                    Some(c) => if c + 1 > i && c + 1 <= end {
                        spec_bindings(
                            toks,
                            c + 1,
                            end,
                            BindingsState {
                                attrs: st.attrs.push(Span { start: (i + 2) as usize, end: (c + 1) as usize }),
                                ..st
                            },
                        )
                    } else {
                        err(i + 2, ErrorKind::Invalid(AFTER_POUND_BANG))
                    },
                    None => err(i + 2, ErrorKind::Invalid(AFTER_POUND_BANG)),
                }
            } else {
                err(i + 2, ErrorKind::Invalid(AFTER_POUND_BANG))
            }
        } else {
            err(i + 1, ErrorKind::Invalid(AFTER_POUND))
        }
    } else if is_ident_tok(toks, i, end) {
        if is_single(toks, i + 1, end, ':') {
            match reg_tokens(toks, i + 2, end) {
                Err(p) => err(p, ErrorKind::InvalidAfter(AFTER_NAME, Span { start: i as usize, end: p as usize })),
                Ok((reg, q)) => if q > i && q <= end {
                    spec_bindings(
                        toks,
                        q,
                        end,
                        BindingsState { bindings: st.bindings.push((i as usize, reg)), ..st },
                    )
                } else {
                    Ok(st)
                },
            }
        } else {
            err(i + 1, ErrorKind::InvalidAfter(AFTER_NAME, Span { start: i as usize, end: (i + 1) as usize }))
        }
    } else {
        err(i, ErrorKind::Invalid(INVALID_TOKEN))
    }
}

fn is_mod_sep_exec(toks: &Vec<Tok>, i: usize, end: usize) -> (r: bool)
    ensures
        r == is_mod_sep(toks@, i as int, end as int),
{
    peek_joint_punct(toks, i, end, ':') && i + 1 < end && peek_punct(toks, i + 1, end, ':')
        && !glued_after_exec(toks, i + 1) && !glued_before_exec(toks, i)
}

pub fn scan_reg(toks: &Vec<Tok>, j: usize, end: usize) -> (r: Result<(Vec<usize>, usize), usize>)
    ensures
        r matches Ok((v, q)) ==> reg_tokens(toks@, j as int, end as int) == Ok::<
            (Seq<usize>, int),
            int,
        >((v@, q as int)) && j <= q && (j <= end ==> q <= end),
        r matches Err(p) ==> reg_tokens(toks@, j as int, end as int) == Err::<
            (Seq<usize>, int),
            int,
        >(p as int),
{
    let mut out: Vec<usize> = Vec::new();
    let mut k = j;
    loop
        invariant
            j <= k,
            j <= end ==> k <= end,
            reg_tokens(toks@, j as int, end as int) == (match reg_tokens(
                toks@,
                k as int,
                end as int,
            ) {
                Ok((rest, q)) => Ok((out@ + rest, q)),
                Err(p) => Err(p),
            }),
        decreases end - k,
    {
        if k >= end {
            assert(out@ + Seq::<usize>::empty() =~= out@);
            return Ok((out, k));
        }
        if peek_single(toks, k, end, ',') {
            assert(out@ + Seq::<usize>::empty() =~= out@);
            return Ok((out, k + 1));
        }
        let step: usize = if peek_ident(toks, k, end) || peek_single(toks, k, end, '<')
            || peek_single(toks, k, end, '>') {
            1
        } else if is_mod_sep_exec(toks, k, end) {
            2
        } else {
            0
        };
        if step == 0 {
            return Err(k);
        }
        let ghost before = out@;
        out.push(k);
        proof {
            match reg_tokens(toks@, k + step, end as int) {
                Ok((rest, q)) => {
                    assert(before + (seq![k as usize] + rest) =~= out@ + rest);
                },
                Err(_) => {},
            }
        }
        k = k + step;
    }
}

/// The input of `bindings!`.
#[derive(Debug)]
pub struct BindingsInput {
    /// The structure's attributes: each a `#` followed by the group at this
    /// span.
    pub attrs: Vec<Span>,
    pub bindings: Vec<Binding>,
}

pub open spec fn bindings_start() -> BindingsState {
    BindingsState { attrs: Seq::empty(), bindings: Seq::empty() }
}

/// Reads the input of `bindings!`.
#[verifier::loop_isolation(false)]
pub fn parse_bindings(toks: &Vec<Tok>) -> (r: Result<BindingsInput, MacroError>)
    ensures
        r matches Ok(inp) ==> spec_bindings(toks@, 0, toks@.len() as int, bindings_start())
            matches Ok(st) && st.attrs == inp.attrs@ && st.bindings == inp.bindings@.map_values(
            |b: Binding| binding_view(b),
        ),
        r matches Err(e) ==> spec_bindings(toks@, 0, toks@.len() as int, bindings_start()) == Err::<
            BindingsState,
            MacroError,
        >(e),
{
    let end = toks.len();
    let mut attrs: Vec<Span> = Vec::new();
    let mut bindings: Vec<Binding> = Vec::new();
    let mut i: usize = 0;
    assert(bindings@.map_values(|b: Binding| binding_view(b)) =~= Seq::<(usize, Seq<usize>)>::empty());
    assert(attrs@ =~= Seq::<Span>::empty());
    while i < end
        invariant
            end == toks@.len(),
            spec_bindings(toks@, 0, end as int, bindings_start()) == spec_bindings(
                toks@,
                i as int,
                end as int,
                BindingsState {
                    attrs: attrs@,
                    bindings: bindings@.map_values(|b: Binding| binding_view(b)),
                },
            ),
        decreases end - i,
    {
        if peek_punct(toks, i, end, '#') {
            if !peek_punct(toks, i + 1, end, '!') {
                return Err(MacroError { at: i + 1, kind: ErrorKind::Invalid(AFTER_POUND) });
            }
            let open = i + 2 < end && matches!(toks[i + 2], Tok::Open(_));
            if !open {
                return Err(MacroError { at: i + 2, kind: ErrorKind::Invalid(AFTER_POUND_BANG) });
            }
            match find_close(toks, i + 2, end) {
                Some(c) => {
                    attrs.push(Span { start: i + 2, end: c + 1 });
                    i = c + 1;
                },
                None => {
                    return Err(MacroError { at: i + 2, kind: ErrorKind::Invalid(AFTER_POUND_BANG) });
                },
            }
        } else if peek_ident(toks, i, end) {
            if !peek_single(toks, i + 1, end, ':') {
                return Err(MacroError { at: i + 1, kind: ErrorKind::InvalidAfter(AFTER_NAME, Span { start: i, end: i + 1 }) });
            }
            match scan_reg(toks, i + 2, end) {
                Err(p) => {
                    return Err(MacroError { at: p, kind: ErrorKind::InvalidAfter(AFTER_NAME, Span { start: i, end: p }) });
                },
                Ok((reg, q)) => {
                    let ghost before = bindings@.map_values(|b: Binding| binding_view(b));
                    let b = Binding { name: i, reg };
                    let ghost bv = binding_view(b);
                    bindings.push(b);
                    assert(bindings@.map_values(|b: Binding| binding_view(b)) =~= before.push(bv));
                    i = q;
                },
            }
        } else {
            return Err(MacroError { at: i, kind: ErrorKind::Invalid(INVALID_TOKEN) });
        }
    }
    Ok(BindingsInput { attrs, bindings })
}

/// The first `<` among the register's tokens, by index, or their number.
pub open spec fn first_lt(toks: Seq<Tok>, reg: Seq<usize>, k: int) -> int
    decreases reg.len() - k,
{
    if k >= reg.len() || k < 0 {
        reg.len() as int
    } else if is_punct(toks, reg[k] as int, toks.len() as int, '<') {
        k
    } else {
        first_lt(toks, reg, k + 1)
    }
}

/// A register split into the macro to call (the tokens before the first
/// `<`) and its arguments (the tokens after it, the last one left out).
pub open spec fn split_reg(toks: Seq<Tok>, reg: Seq<usize>) -> (Seq<usize>, Seq<usize>) {
    let k = first_lt(toks, reg, 0);
    let args = if k < reg.len() {
        reg.subrange(k + 1, reg.len() as int)
    } else {
        Seq::empty()
    };
    (reg.take(k), if args.len() > 0 {
        args.drop_last()
    } else {
        args
    })
}

/// What a binding expands to: the field, its type (the register's tokens)
/// and the macro call that initializes it.
#[derive(Debug)]
pub struct BindingPlan {
    pub macro_toks: Vec<usize>,
    pub args: Vec<usize>,
}

fn plan_binding(toks: &Vec<Tok>, reg: &Vec<usize>) -> (r: BindingPlan)
    ensures
        (r.macro_toks@, r.args@) == split_reg(toks@, reg@),
{
    let mut k: usize = 0;
    while k < reg.len() && !peek_punct(toks, reg[k], toks.len(), '<')
        invariant
            k <= reg@.len(),
            first_lt(toks@, reg@, 0) == first_lt(toks@, reg@, k as int),
        decreases reg@.len() - k,
    {
        k = k + 1;
    }
    let mut macro_toks: Vec<usize> = Vec::new();
    let mut m: usize = 0;
    while m < k
        invariant
            m <= k <= reg@.len(),
            macro_toks@ == reg@.take(m as int),
        decreases k - m,
    {
        macro_toks.push(reg[m]);
        assert(reg@.take(m + 1) =~= reg@.take(m as int).push(reg@[m as int]));
        m = m + 1;
    }
    let mut args: Vec<usize> = Vec::new();
    if k < reg.len() {
        let mut m = k + 1;
        while m < reg.len()
            invariant
                k < m <= reg@.len(),
                args@ == reg@.subrange(k + 1, m as int),
            decreases reg@.len() - m,
        {
            args.push(reg[m]);
            assert(reg@.subrange(k + 1, m + 1) =~= reg@.subrange(k + 1, m as int).push(reg@[m as int]));
            m = m + 1;
        }
        if args.len() > 0 {
            args.pop();
        }
    }
    BindingPlan { macro_toks, args }
}

/// What `bindings!` expands to.
#[derive(Debug)]
pub struct BindingsPlan {
    pub input: BindingsInput,
    pub plans: Vec<BindingPlan>,
}

/// `bindings!` on the input `toks`.
pub fn bindings(toks: &Vec<Tok>) -> (r: Result<BindingsPlan, MacroError>)
    ensures
        r matches Err(e) ==> spec_bindings(toks@, 0, toks@.len() as int, bindings_start()) == Err::<
            BindingsState,
            MacroError,
        >(e),
        r matches Ok(p) ==> {
            &&& spec_bindings(toks@, 0, toks@.len() as int, bindings_start()) matches Ok(st)
            &&& st.attrs == p.input.attrs@
            &&& st.bindings == p.input.bindings@.map_values(|b: Binding| binding_view(b))
            &&& p.plans@.len() == p.input.bindings@.len()
            &&& forall|k: int|
                0 <= k < p.plans@.len() ==> ((#[trigger] p.plans@[k]).macro_toks@, p.plans@[k].args@)
                    == split_reg(toks@, p.input.bindings@[k].reg@)
        },
{
    let input = parse_bindings(toks)?;
    let mut plans: Vec<BindingPlan> = Vec::new();
    let mut k: usize = 0;
    while k < input.bindings.len()
        invariant
            k <= input.bindings@.len(),
            plans@.len() == k,
            forall|m: int|
                0 <= m < k ==> ((#[trigger] plans@[m]).macro_toks@, plans@[m].args@) == split_reg(
                    toks@,
                    input.bindings@[m].reg@,
                ),
        decreases input.bindings@.len() - k,
    {
        plans.push(plan_binding(toks, &input.bindings[k].reg));
        k = k + 1;
    }
    Ok(BindingsPlan { input, plans })
}

// ---------------------------------------------------------------------------
// The expansion

/// The register's token that starts at `i`: `::` counts as one.
pub open spec fn start_toks(toks: Seq<Tok>, i: usize) -> Seq<TokV> {
    if i + 1 < toks.len() && toks[i as int] == Tok::Punct(':', true) {
        span_toks(toks, Span { start: i, end: (i + 2) as usize })
    } else {
        span_toks(toks, one(i))
    }
}

/// The register's tokens that start at `is`, in order.
pub open spec fn starts_toks(toks: Seq<Tok>, is: Seq<usize>) -> Seq<TokV>
    decreases is.len(),
{
    if is.len() == 0 {
        Seq::empty()
    } else {
        starts_toks(toks, is.drop_last()) + start_toks(toks, is.last())
    }
}

/// The structure's attributes, each written `#[..]`.
pub open spec fn bindings_attrs(toks: Seq<Tok>, attrs: Seq<Span>) -> Seq<TokV>
    decreases attrs.len(),
{
    if attrs.len() == 0 {
        Seq::empty()
    } else {
        bindings_attrs(toks, attrs.drop_last()) + tp('#') + span_toks(toks, attrs.last())
    }
}

/// The fields `pub NAME: REGISTER,`, one per binding.
pub open spec fn bindings_fields(toks: Seq<Tok>, bs: Seq<(usize, Seq<usize>)>) -> Seq<TokV>
    decreases bs.len(),
{
    if bs.len() == 0 {
        Seq::empty()
    } else {
        bindings_fields(toks, bs.drop_last()) + tw("pub"@) + span_toks(toks, one(bs.last().0)) + tp(':')
            + starts_toks(toks, bs.last().1) + tp(',')
    }
}

/// The constructor's fields `NAME: MACRO!(ARGS),`, one per binding.
pub open spec fn bindings_ctors(toks: Seq<Tok>, bs: Seq<(usize, Seq<usize>)>) -> Seq<TokV>
    decreases bs.len(),
{
    if bs.len() == 0 {
        Seq::empty()
    } else {
        let (m, a) = split_reg(toks, bs.last().1);
        bindings_ctors(toks, bs.drop_last()) + span_toks(toks, one(bs.last().0)) + tp(':') + starts_toks(
            toks,
            m,
        ) + tp('!') + topen(Delim::Paren) + starts_toks(toks, a) + tclose(Delim::Paren) + tp(',')
    }
}

/// `#[doc = TEXT]`
pub open spec fn doc_line(text: Seq<char>) -> Seq<TokV> {
    tp('#') + topen(Delim::Bracket) + tw("doc"@) + tp('=') + tl(text) + tclose(Delim::Bracket)
}

/// The documentation of `Bindings::new`.
pub open spec fn new_docs() -> Seq<TokV> {
    doc_line("\" Create new register bindings.\""@) + doc_line("\"\""@) + doc_line("\" # Safety\""@)
        + doc_line("\"\""@) + doc_line(
        "\" Must be called no more than once, at the very beginning of the program\""@,
    ) + doc_line("\" flow.\""@)
}

/// `ATTRS #[allow(missing_docs)] pub struct Bindings { FIELDS } impl
/// Bindings { DOCS pub unsafe fn new() -> Self { Self { CTORS } } }`
pub open spec fn bindings_expansion(toks: Seq<Tok>, st: BindingsState) -> Seq<TokV> {
    bindings_attrs(toks, st.attrs) + tp('#') + topen(Delim::Bracket) + tw("allow"@) + topen(Delim::Paren)
        + tw("missing_docs"@) + tclose(Delim::Paren) + tclose(Delim::Bracket) + tw("pub"@) + tw(
        "struct"@,
    ) + tw("Bindings"@) + topen(Delim::Brace) + bindings_fields(toks, st.bindings) + tclose(Delim::Brace)
        + tw("impl"@) + tw("Bindings"@) + topen(Delim::Brace) + new_docs() + tw("pub"@) + tw("unsafe"@)
        + tw("fn"@) + tw("new"@) + topen(Delim::Paren) + tclose(Delim::Paren) + seq![
        TokV::Punct('-', true),
        TokV::Punct('>', false),
    ] + tw("Self"@) + topen(Delim::Brace) + tw("Self"@) + topen(Delim::Brace) + bindings_ctors(
        toks,
        st.bindings,
    ) + tclose(Delim::Brace) + tclose(Delim::Brace) + tclose(Delim::Brace)
}

/// What `bindings!` expands to on the input `toks`.
pub open spec fn spec_expand_bindings(toks: Seq<Tok>) -> Result<Seq<TokV>, MacroError> {
    match spec_bindings(toks, 0, toks.len() as int, bindings_start()) {
        Err(e) => Err(e),
        Ok(st) => Ok(bindings_expansion(toks, st)),
    }
}

pub fn emit_starts(toks: &Vec<Tok>, is: &Vec<usize>, out: &mut Vec<Tok>)
    ensures
        toks_view(final(out)@) == toks_view(old(out)@) + starts_toks(toks@, is@),
{
    let ghost head = toks_view(old(out)@);
    let mut k: usize = 0;
    assert(is@.take(0) =~= Seq::<usize>::empty());
    assert(head + Seq::<TokV>::empty() =~= head);
    while k < is.len()
        invariant
            k <= is@.len(),
            toks_view(out@) == head + starts_toks(toks@, is@.take(k as int)),
        decreases is@.len() - k,
    {
        let i = is[k];
        let sep = i < toks.len() && i + 1 < toks.len() && match &toks[i] {
            Tok::Punct(c, j) => *c == ':' && *j,
            _ => false,
        };
        if sep {
            emit_span(toks, Span { start: i, end: i + 2 }, out);
        } else {
            emit_span(toks, one_exec(i), out);
        }
        proof {
            let s = is@.take(k + 1);
            assert(s.drop_last() =~= is@.take(k as int));
            assert(s.last() == i);
            assert(toks_view(out@) =~= head + starts_toks(toks@, s));
        }
        k = k + 1;
    }
    assert(is@.take(k as int) =~= is@);
}

fn emit_bindings_attrs(toks: &Vec<Tok>, attrs: &Vec<Span>, out: &mut Vec<Tok>)
    ensures
        toks_view(final(out)@) == toks_view(old(out)@) + bindings_attrs(toks@, attrs@),
{
    let ghost head = toks_view(old(out)@);
    let mut k: usize = 0;
    assert(attrs@.take(0) =~= Seq::<Span>::empty());
    assert(head + Seq::<TokV>::empty() =~= head);
    while k < attrs.len()
        invariant
            k <= attrs@.len(),
            toks_view(out@) == head + bindings_attrs(toks@, attrs@.take(k as int)),
        decreases attrs@.len() - k,
    {
        emit_punct(out, '#');
        emit_span(toks, attrs[k], out);
        proof {
            let s = attrs@.take(k + 1);
            assert(s.drop_last() =~= attrs@.take(k as int));
            assert(toks_view(out@) =~= head + bindings_attrs(toks@, s));
        }
        k = k + 1;
    }
    assert(attrs@.take(k as int) =~= attrs@);
}

#[verifier::spinoff_prover]
#[verifier::rlimit(50)]
fn emit_bindings_lists(toks: &Vec<Tok>, p: &BindingsPlan, ctors: bool, out: &mut Vec<Tok>)
    requires
        p.plans@.len() == p.input.bindings@.len(),
        forall|k: int|
            0 <= k < p.plans@.len() ==> ((#[trigger] p.plans@[k]).macro_toks@, p.plans@[k].args@)
                == split_reg(toks@, p.input.bindings@[k].reg@),
    ensures
        !ctors ==> toks_view(final(out)@) == toks_view(old(out)@) + bindings_fields(
            toks@,
            p.input.bindings@.map_values(|b: Binding| binding_view(b)),
        ),
        ctors ==> toks_view(final(out)@) == toks_view(old(out)@) + bindings_ctors(
            toks@,
            p.input.bindings@.map_values(|b: Binding| binding_view(b)),
        ),
{
    let ghost head = toks_view(old(out)@);
    let ghost bs = p.input.bindings@.map_values(|b: Binding| binding_view(b));
    let mut k: usize = 0;
    assert(bs.take(0) =~= Seq::<(usize, Seq<usize>)>::empty());
    assert(head + Seq::<TokV>::empty() =~= head);
    while k < p.input.bindings.len()
        invariant
            k <= bs.len(),
            bs == p.input.bindings@.map_values(|b: Binding| binding_view(b)),
            p.plans@.len() == p.input.bindings@.len(),
            forall|k: int|
                0 <= k < p.plans@.len() ==> ((#[trigger] p.plans@[k]).macro_toks@, p.plans@[k].args@)
                    == split_reg(toks@, p.input.bindings@[k].reg@),
            !ctors ==> toks_view(out@) == head + bindings_fields(toks@, bs.take(k as int)),
            ctors ==> toks_view(out@) == head + bindings_ctors(toks@, bs.take(k as int)),
        decreases bs.len() - k,
    {
        let b = &p.input.bindings[k];
        let pl = &p.plans[k];
        assert(bs[k as int] == binding_view(*b));
        assert((pl.macro_toks@, pl.args@) == split_reg(toks@, b.reg@));
        if ctors {
            emit_span(toks, one_exec(b.name), out);
            emit_punct(out, ':');
            emit_starts(toks, &pl.macro_toks, out);
            emit_punct(out, '!');
            emit_open(out, Delim::Paren);
            emit_starts(toks, &pl.args, out);
            emit_close(out, Delim::Paren);
            emit_punct(out, ',');
        } else {
            emit_word(out, "pub");
            emit_span(toks, one_exec(b.name), out);
            emit_punct(out, ':');
            emit_starts(toks, &b.reg, out);
            emit_punct(out, ',');
        }
        proof {
            let s = bs.take(k + 1);
            assert(s.drop_last() =~= bs.take(k as int));
            assert(s.last() == bs[k as int]);
            if ctors {
                assert(toks_view(out@) =~= head + bindings_ctors(toks@, s));
            } else {
                assert(toks_view(out@) =~= head + bindings_fields(toks@, s));
            }
        }
        k = k + 1;
    }
    assert(bs.take(k as int) =~= bs);
}

pub fn emit_doc_line(out: &mut Vec<Tok>, text: &str)
    ensures
        toks_view(final(out)@) == toks_view(old(out)@) + doc_line(text@),
{
    let ghost b = toks_view(old(out)@);
    emit_punct(out, '#');
    emit_open(out, Delim::Bracket);
    emit_word(out, "doc");
    emit_punct(out, '=');
    emit_literal(out, text);
    emit_close(out, Delim::Bracket);
    assert(toks_view(out@) =~= b + doc_line(text@));
}

/// The tokens that `bindings!` expands to on the input `toks`.
#[verifier::spinoff_prover]
#[verifier::rlimit(80)]
pub fn expand_bindings(toks: &Vec<Tok>) -> (r: Result<Vec<Tok>, MacroError>)
    ensures
        r matches Err(e) ==> spec_expand_bindings(toks@) == Err::<Seq<TokV>, MacroError>(e),
        r matches Ok(v) ==> spec_expand_bindings(toks@) == Ok::<Seq<TokV>, MacroError>(
            toks_view(v@),
        ),
{
    let p = bindings(toks)?;
    let ghost st = BindingsState {
        attrs: p.input.attrs@,
        bindings: p.input.bindings@.map_values(|b: Binding| binding_view(b)),
    };
    let mut v: Vec<Tok> = Vec::new();
    let out = &mut v;
    assert(toks_view(out@) =~= Seq::<TokV>::empty());
    emit_bindings_attrs(toks, &p.input.attrs, out);
    emit_punct(out, '#');
    emit_open(out, Delim::Bracket);
    emit_word(out, "allow");
    emit_open(out, Delim::Paren);
    emit_word(out, "missing_docs");
    emit_close(out, Delim::Paren);
    emit_close(out, Delim::Bracket);
    emit_word(out, "pub");
    emit_word(out, "struct");
    emit_word(out, "Bindings");
    emit_open(out, Delim::Brace);
    emit_bindings_lists(toks, &p, false, out);
    emit_close(out, Delim::Brace);
    let ghost m1 = toks_view(out@);
    emit_word(out, "impl");
    emit_word(out, "Bindings");
    emit_open(out, Delim::Brace);
    let ghost m2 = toks_view(out@);
    emit_doc_line(out, "\" Create new register bindings.\"");
    emit_doc_line(out, "\"\"");
    emit_doc_line(out, "\" # Safety\"");
    emit_doc_line(out, "\"\"");
    emit_doc_line(out, "\" Must be called no more than once, at the very beginning of the program\"");
    emit_doc_line(out, "\" flow.\"");
    assert(toks_view(out@) =~= m2 + new_docs());
    emit_word(out, "pub");
    emit_word(out, "unsafe");
    emit_word(out, "fn");
    emit_word(out, "new");
    emit_open(out, Delim::Paren);
    emit_close(out, Delim::Paren);
    push_tok(out, Tok::Punct('-', true));
    push_tok(out, Tok::Punct('>', false));
    emit_word(out, "Self");
    emit_open(out, Delim::Brace);
    emit_word(out, "Self");
    emit_open(out, Delim::Brace);
    emit_bindings_lists(toks, &p, true, out);
    emit_close(out, Delim::Brace);
    emit_close(out, Delim::Brace);
    emit_close(out, Delim::Brace);
    assert(toks_view(v@) =~= bindings_expansion(toks@, st));
    Ok(v)
}

} // verus!
