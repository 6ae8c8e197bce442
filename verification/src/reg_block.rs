//! `reg_block!`: a block module holding the given `reg!` invocations, and
//! an alias outside the block for each register.
//!
//! The input is the block's inner attributes `#![..]`, its name, then the
//! invocations `reg! { .. }`, optionally separated by `;`. A register's name
//! is the first identifier of its invocation outside any group.

use crate::case::{cat, inflector_pascal, inflector_snake, to_pascal_inflector, to_snake_inflector};
use crate::mappings::{
    AFTER_POUND, AFTER_POUND_BANG, INVALID_TOKEN, UNEXPECTED_END, find_group, group_at, spec_head,
};
use crate::token::{
    ErrorKind, MacroError, Span, Tok, err, ident_string, ident_text, is_ident_tok, is_punct,
    is_word, peek_ident, peek_punct, peek_word, skip_tree, tree_end,
};
use crate::token::{Delim, TokV, emit_close, emit_joint, emit_open, emit_punct, emit_span, emit_string, emit_word, span_toks, tclose, tj, topen, toks_view, tp, tw};
use vstd::prelude::*;

verus! {

pub const AFTER_REG: &'static str = "Invalid tokens after `reg`";

pub const AFTER_REG_BANG: &'static str = "Invalid tokens after `reg!`";

pub const NO_REG_NAME: &'static str = "Register name not found";

/// The invocations from `i` on: the spans inside their groups.
pub open spec fn spec_invocations(toks: Seq<Tok>, i: int, end: int, acc: Seq<Span>) -> Result<
    Seq<Span>,
    MacroError,
>
    decreases end - i,
{
    if i >= end || i < 0 {
        Ok(acc)
    } else if is_word(toks, i, end, "reg"@) {
        if is_punct(toks, i + 1, end, '!') {
            match group_at(toks, i + 2, end) {
                Some(c) => if c + 1 > i && c + 1 <= end {
                    spec_invocations(
                        toks,
                        c + 1,
                        end,
                        acc.push(Span { start: (i + 3) as usize, end: c as usize }),
                    )
                } else {
                    err(i + 2, ErrorKind::Invalid(AFTER_REG_BANG))
                },
                None => err(i + 2, ErrorKind::Invalid(AFTER_REG_BANG)),
            }
        } else {
            err(i + 1, ErrorKind::Invalid(AFTER_REG))
        }
    } else if is_punct(toks, i, end, ';') {
        spec_invocations(toks, i + 1, end, acc)
    } else {
        err(i, ErrorKind::Invalid(INVALID_TOKEN))
    }
}

/// The first identifier in `[i, end)` outside any group.
pub open spec fn first_ident(toks: Seq<Tok>, i: int, end: int) -> Option<usize>
    decreases end - i,
{
    if i >= end || i < 0 {
        None
    } else if is_ident_tok(toks, i, end) {
        Some(i as usize)
    } else {
        match tree_end(toks, i, end) {
            Some(n) => if n > i && n <= end {
                first_ident(toks, n, end)
            } else {
                None
            },
            None => None,
        }
    }
}

fn find_first_ident(toks: &Vec<Tok>, i: usize, end: usize) -> (r: Option<usize>)
    ensures
        r == first_ident(toks@, i as int, end as int),
{
    let mut j = i;
    while j < end
        invariant
            i <= j,
            first_ident(toks@, i as int, end as int) == first_ident(toks@, j as int, end as int),
        decreases end - j,
    {
        if peek_ident(toks, j, end) {
            return Some(j);
        }
        match skip_tree(toks, j, end) {
            Some(n) => {
                j = n;
            },
            None => {
                return None;
            },
        }
    }
    None
}

/// The input of `reg_block!`.
#[derive(Debug)]
pub struct RegBlockInput {
    /// The block's attributes: each a `#` followed by the group at this span.
    pub attrs: Vec<Span>,
    pub block: usize,
    /// The tokens inside each invocation, and the register's name in it.
    pub regs: Vec<(Span, usize)>,
}

pub struct RegBlockInputV {
    pub attrs: Seq<Span>,
    pub block: usize,
    pub regs: Seq<(Span, usize)>,
}

/// The registers' names, one for each invocation; an error where an
/// invocation names none.
pub open spec fn reg_names(toks: Seq<Tok>, spans: Seq<Span>) -> Result<Seq<(Span, usize)>, MacroError>
    decreases spans.len(),
{
    if spans.len() == 0 {
        Ok(Seq::empty())
    } else {
        match reg_names(toks, spans.drop_last()) {
            Err(e) => Err(e),
            Ok(rest) => match first_ident(toks, spans.last().start as int, spans.last().end as int) {
                None => err(spans.last().end as int, ErrorKind::Invalid(NO_REG_NAME)),
                Some(n) => Ok(rest.push((spans.last(), n))),
            },
        }
    }
}

pub open spec fn spec_reg_block_input(toks: Seq<Tok>) -> Result<RegBlockInputV, MacroError> {
    let end = toks.len() as int;
    match spec_head(toks, 0, end, Seq::empty()) {
        Err(e) => Err(e),
        Ok((attrs, block)) => match spec_invocations(toks, block + 1, end, Seq::empty()) {
            Err(e) => Err(e),
            Ok(spans) => match reg_names(toks, spans) {
                Err(e) => Err(e),
                Ok(regs) => Ok(RegBlockInputV { attrs, block, regs }),
            },
        },
    }
}

/// Reads the input of `reg_block!`.
#[verifier::loop_isolation(false)]
pub fn parse_reg_block_input(toks: &Vec<Tok>) -> (r: Result<RegBlockInput, MacroError>)
    ensures
        r matches Ok(v) ==> spec_reg_block_input(toks@) == Ok::<RegBlockInputV, MacroError>(
            RegBlockInputV { attrs: v.attrs@, block: v.block, regs: v.regs@ },
        ),
        r matches Err(e) ==> spec_reg_block_input(toks@) == Err::<RegBlockInputV, MacroError>(e),
{
    let end = toks.len();
    let mut attrs: Vec<Span> = Vec::new();
    let mut i: usize = 0;
    assert(attrs@ =~= Seq::<Span>::empty());
    let mut found = false;
    while !found
        invariant
            end == toks@.len(),
            spec_head(toks@, 0, end as int, Seq::empty()) == spec_head(
                toks@,
                i as int,
                end as int,
                attrs@,
            ),
            found ==> i < end && is_ident_tok(toks@, i as int, end as int),
        decreases end - i + (if found { 0int } else { 1int }),
    {
        if i >= end {
            return Err(MacroError { at: end, kind: ErrorKind::Invalid(UNEXPECTED_END) });
        }
        if peek_punct(toks, i, end, '#') {
            if !peek_punct(toks, i + 1, end, '!') {
                return Err(MacroError { at: i + 1, kind: ErrorKind::Invalid(AFTER_POUND) });
            }
            match find_group(toks, i + 2, end) {
                Some(c) => {
                    attrs.push(Span { start: i + 2, end: c + 1 });
                    i = c + 1;
                },
                None => {
                    return Err(MacroError { at: i + 2, kind: ErrorKind::Invalid(AFTER_POUND_BANG) });
                },
            }
        } else if peek_ident(toks, i, end) {
            found = true;
        } else {
            return Err(MacroError { at: i, kind: ErrorKind::Invalid(INVALID_TOKEN) });
        }
    }
    let block = i;
    let mut spans: Vec<Span> = Vec::new();
    let mut j = block + 1;
    assert(spans@ =~= Seq::<Span>::empty());
    while j < end
        invariant
            end == toks@.len(),
            spec_invocations(toks@, block + 1, end as int, Seq::empty()) == spec_invocations(
                toks@,
                j as int,
                end as int,
                spans@,
            ),
        decreases end - j,
    {
        if peek_word(toks, j, end, "reg") {
            if !peek_punct(toks, j + 1, end, '!') {
                return Err(MacroError { at: j + 1, kind: ErrorKind::Invalid(AFTER_REG) });
            }
            match find_group(toks, j + 2, end) {
                Some(c) => {
                    spans.push(Span { start: j + 3, end: c });
                    j = c + 1;
                },
                None => {
                    return Err(MacroError { at: j + 2, kind: ErrorKind::Invalid(AFTER_REG_BANG) });
                },
            }
        } else if peek_punct(toks, j, end, ';') {
            j = j + 1;
        } else {
            return Err(MacroError { at: j, kind: ErrorKind::Invalid(INVALID_TOKEN) });
        }
    }
    let mut regs: Vec<(Span, usize)> = Vec::new();
    let mut k: usize = 0;
    while k < spans.len()
        invariant
            k <= spans@.len(),
            reg_names(toks@, spans@.take(k as int)) == Ok::<Seq<(Span, usize)>, MacroError>(regs@),
        decreases spans@.len() - k,
    {
        let s = spans[k];
        assert(spans@.take(k + 1).drop_last() =~= spans@.take(k as int));
        assert(spans@.take(k + 1).last() == s);
        match find_first_ident(toks, s.start, s.end) {
            Some(n) => {
                regs.push((s, n));
            },
            None => {
                assert(reg_names(toks@, spans@.take(k + 1)) is Err);
                proof {
                    lemma_reg_names_err_extends(toks@, spans@, k + 1);
                }
                assert(spans@.take(spans@.len() as int) =~= spans@);
                return Err(MacroError { at: s.end, kind: ErrorKind::Invalid(NO_REG_NAME) });
            },
        }
        k = k + 1;
    }
    assert(spans@.take(k as int) =~= spans@);
    Ok(RegBlockInput { attrs, block, regs })
}

/// An error on the first `k` invocations is the error on all of them.
proof fn lemma_reg_names_err_extends(toks: Seq<Tok>, spans: Seq<Span>, k: int)
    requires
        0 <= k <= spans.len(),
        reg_names(toks, spans.take(k)) is Err,
    ensures
        reg_names(toks, spans) == reg_names(toks, spans.take(k)),
    decreases spans.len() - k,
{
    if k < spans.len() {
        assert(spans.take(k + 1).drop_last() =~= spans.take(k));
        lemma_reg_names_err_extends(toks, spans, k + 1);
    } else {
        assert(spans.take(k) =~= spans);
    }
}

/// What `reg_block!` expands to: the block's module (snake case), and for
/// each register its type (Pascal case) and its alias outside the block
/// (the block in Pascal case, then the register's name as written).
#[derive(Debug)]
pub struct RegBlockPlan {
    pub input: RegBlockInput,
    pub module: String,
    pub regs: Vec<(String, String)>,
}

pub open spec fn reg_block_names(toks: Seq<Tok>, block: usize, r: (Span, usize)) -> (
    Seq<char>,
    Seq<char>,
) {
    let name = ident_text(toks, r.1 as int);
    (inflector_pascal(name), inflector_pascal(ident_text(toks, block as int)) + name)
}

/// `reg_block!` on the input `toks`.
pub fn reg_block(toks: &Vec<Tok>) -> (r: Result<RegBlockPlan, MacroError>)
    ensures
        r matches Err(e) ==> spec_reg_block_input(toks@) == Err::<RegBlockInputV, MacroError>(e),
        r matches Ok(p) ==> {
            &&& spec_reg_block_input(toks@) == Ok::<RegBlockInputV, MacroError>(
                RegBlockInputV { attrs: p.input.attrs@, block: p.input.block, regs: p.input.regs@ },
            )
            &&& p.module@ == inflector_snake(ident_text(toks@, p.input.block as int))
            &&& p.regs@.map_values(|t: (String, String)| (t.0@, t.1@)) == p.input.regs@.map_values(
                |r: (Span, usize)| reg_block_names(toks@, p.input.block, r),
            )
        },
{
    let input = parse_reg_block_input(toks)?;
    let block_name = ident_string(toks, input.block);
    let module = to_snake_inflector(block_name.as_str());
    let prefix = to_pascal_inflector(block_name.as_str());
    let mut regs: Vec<(String, String)> = Vec::new();
    let mut k: usize = 0;
    while k < input.regs.len()
        invariant
            k <= input.regs@.len(),
            prefix@ == inflector_pascal(ident_text(toks@, input.block as int)),
            regs@.map_values(|t: (String, String)| (t.0@, t.1@)) == input.regs@.take(
                k as int,
            ).map_values(|r: (Span, usize)| reg_block_names(toks@, input.block, r)),
        decreases input.regs@.len() - k,
    {
        let r = input.regs[k];
        let name = ident_string(toks, r.1);
        let pair = (to_pascal_inflector(name.as_str()), cat(prefix.as_str(), name.as_str()));
        let ghost before = regs@.map_values(|t: (String, String)| (t.0@, t.1@));
        let ghost pv = (pair.0@, pair.1@);
        regs.push(pair);
        proof {
            assert(regs@.map_values(|t: (String, String)| (t.0@, t.1@)) =~= before.push(pv));
            assert(input.regs@.take(k + 1) =~= input.regs@.take(k as int).push(r));
            assert(input.regs@.take(k + 1).map_values(
                |r: (Span, usize)| reg_block_names(toks@, input.block, r),
            ) =~= input.regs@.take(k as int).map_values(
                |r: (Span, usize)| reg_block_names(toks@, input.block, r),
            ).push(reg_block_names(toks@, input.block, r)));
        }
        k = k + 1;
    }
    assert(input.regs@.take(k as int) =~= input.regs@);
    Ok(RegBlockPlan { input, module, regs })
}

// ---------------------------------------------------------------------------
// The expansion

/// The block's attributes, each written `#[..]`.
pub open spec fn block_attrs(toks: Seq<Tok>, attrs: Seq<Span>) -> Seq<TokV>
    decreases attrs.len(),
{
    if attrs.len() == 0 {
        Seq::empty()
    } else {
        block_attrs(toks, attrs.drop_last()) + tp('#') + span_toks(toks, attrs.last())
    }
}

/// The invocations `reg! { .. }`, each with the tokens of its group.
pub open spec fn block_invocations(toks: Seq<Tok>, regs: Seq<(Span, usize)>) -> Seq<TokV>
    decreases regs.len(),
{
    if regs.len() == 0 {
        Seq::empty()
    } else {
        block_invocations(toks, regs.drop_last()) + tw("reg"@) + tp('!') + topen(Delim::Brace)
            + span_toks(toks, regs.last().0) + tclose(Delim::Brace)
    }
}

/// The aliases `pub use self::MODULE::REG as BLOCKREG;`, one per register.
pub open spec fn block_aliases(toks: Seq<Tok>, block: usize, module: Seq<char>, regs: Seq<(Span, usize)>) -> Seq<TokV>
    decreases regs.len(),
{
    if regs.len() == 0 {
        Seq::empty()
    } else {
        let names = reg_block_names(toks, block, regs.last());
        block_aliases(toks, block, module, regs.drop_last()) + tw("pub"@) + tw("use"@) + tw("self"@) + tj(
            ':',
            ':',
        ) + tw(module) + tj(':', ':') + tw(names.0) + tw("as"@) + tw(names.1) + tp(';')
    }
}

/// `use ::drone::reg; use ::drone::reg::prelude::*;`
pub open spec fn block_uses() -> Seq<TokV> {
    tw("use"@) + tj(':', ':') + tw("drone"@) + tj(':', ':') + tw("reg"@) + tp(';') + tw("use"@) + tj(
        ':',
        ':',
    ) + tw("drone"@) + tj(':', ':') + tw("reg"@) + tj(':', ':') + tw("prelude"@) + tj(':', ':') + tp(
        '*',
    ) + tp(';')
}

/// What `reg_block!` expands to on the input `toks`: `ATTRS pub mod MODULE
/// { USES INVOCATIONS } ALIASES`.
pub open spec fn spec_expand_reg_block(toks: Seq<Tok>) -> Result<Seq<TokV>, MacroError> {
    match spec_reg_block_input(toks) {
        Err(e) => Err(e),
        Ok(inp) => {
            let module = inflector_snake(ident_text(toks, inp.block as int));
            Ok(
                block_attrs(toks, inp.attrs) + tw("pub"@) + tw("mod"@) + tw(module) + topen(
                    Delim::Brace,
                ) + block_uses() + block_invocations(toks, inp.regs) + tclose(Delim::Brace)
                    + block_aliases(toks, inp.block, module, inp.regs),
            )
        },
    }
}

fn emit_block_attrs(toks: &Vec<Tok>, attrs: &Vec<Span>, out: &mut Vec<Tok>)
    ensures
        toks_view(final(out)@) == toks_view(old(out)@) + block_attrs(toks@, attrs@),
{
    let ghost head = toks_view(old(out)@);
    let mut k: usize = 0;
    assert(attrs@.take(0) =~= Seq::<Span>::empty());
    assert(head + Seq::<TokV>::empty() =~= head);
    while k < attrs.len()
        invariant
            k <= attrs@.len(),
            toks_view(out@) == head + block_attrs(toks@, attrs@.take(k as int)),
        decreases attrs@.len() - k,
    {
        emit_punct(out, '#');
        emit_span(toks, attrs[k], out);
        proof {
            let s = attrs@.take(k + 1);
            assert(s.drop_last() =~= attrs@.take(k as int));
            assert(toks_view(out@) =~= head + block_attrs(toks@, s));
        }
        k = k + 1;
    }
    assert(attrs@.take(k as int) =~= attrs@);
}

fn emit_block_invocations(toks: &Vec<Tok>, regs: &Vec<(Span, usize)>, out: &mut Vec<Tok>)
    ensures
        toks_view(final(out)@) == toks_view(old(out)@) + block_invocations(toks@, regs@),
{
    let ghost head = toks_view(old(out)@);
    let mut k: usize = 0;
    assert(regs@.take(0) =~= Seq::<(Span, usize)>::empty());
    assert(head + Seq::<TokV>::empty() =~= head);
    while k < regs.len()
        invariant
            k <= regs@.len(),
            toks_view(out@) == head + block_invocations(toks@, regs@.take(k as int)),
        decreases regs@.len() - k,
    {
        emit_word(out, "reg");
        emit_punct(out, '!');
        emit_open(out, Delim::Brace);
        emit_span(toks, regs[k].0, out);
        emit_close(out, Delim::Brace);
        proof {
            let s = regs@.take(k + 1);
            assert(s.drop_last() =~= regs@.take(k as int));
            assert(toks_view(out@) =~= head + block_invocations(toks@, s));
        }
        k = k + 1;
    }
    assert(regs@.take(k as int) =~= regs@);
}

#[verifier::spinoff_prover]
#[verifier::rlimit(50)]
fn emit_block_aliases(toks: &Vec<Tok>, p: &RegBlockPlan, out: &mut Vec<Tok>)
    requires
        p.regs@.map_values(|t: (String, String)| (t.0@, t.1@)) == p.input.regs@.map_values(
            |r: (Span, usize)| reg_block_names(toks@, p.input.block, r),
        ),
    ensures
        toks_view(final(out)@) == toks_view(old(out)@) + block_aliases(
            toks@,
            p.input.block,
            p.module@,
            p.input.regs@,
        ),
{
    let ghost head = toks_view(old(out)@);
    let ghost rs = p.input.regs@;
    let mut k: usize = 0;
    assert(rs.take(0) =~= Seq::<(Span, usize)>::empty());
    assert(head + Seq::<TokV>::empty() =~= head);
    while k < p.input.regs.len()
        invariant
            k <= rs.len(),
            rs == p.input.regs@,
            p.regs@.map_values(|t: (String, String)| (t.0@, t.1@)) == rs.map_values(
                |r: (Span, usize)| reg_block_names(toks@, p.input.block, r),
            ),
            toks_view(out@) == head + block_aliases(toks@, p.input.block, p.module@, rs.take(k as int)),
        decreases rs.len() - k,
    {
        assert(p.regs@.len() == rs.len()) by {
            assert(p.regs@.map_values(|t: (String, String)| (t.0@, t.1@)).len() == p.regs@.len());
        }
        let names = &p.regs[k];
        proof {
            assert(p.regs@.map_values(|t: (String, String)| (t.0@, t.1@))[k as int] == (names.0@, names.1@));
            assert(rs.map_values(|r: (Span, usize)| reg_block_names(toks@, p.input.block, r))[k as int]
                == reg_block_names(toks@, p.input.block, rs[k as int]));
        }
        emit_word(out, "pub");
        emit_word(out, "use");
        emit_word(out, "self");
        emit_joint(out, ':', ':');
        emit_string(out, &p.module);
        emit_joint(out, ':', ':');
        emit_string(out, &names.0);
        emit_word(out, "as");
        emit_string(out, &names.1);
        emit_punct(out, ';');
        proof {
            let s = rs.take(k + 1);
            assert(s.drop_last() =~= rs.take(k as int));
            assert(s.last() == rs[k as int]);
            assert(toks_view(out@) =~= head + block_aliases(toks@, p.input.block, p.module@, s));
        }
        k = k + 1;
    }
    assert(rs.take(k as int) =~= rs);
}

/// The tokens that `reg_block!` expands to on the input `toks`.
#[verifier::spinoff_prover]
#[verifier::rlimit(50)]
pub fn expand_reg_block(toks: &Vec<Tok>) -> (r: Result<Vec<Tok>, MacroError>)
    ensures
        r matches Err(e) ==> spec_expand_reg_block(toks@) == Err::<Seq<TokV>, MacroError>(e),
        r matches Ok(v) ==> spec_expand_reg_block(toks@) == Ok::<Seq<TokV>, MacroError>(
            toks_view(v@),
        ),
{
    let p = reg_block(toks)?;
    let mut v: Vec<Tok> = Vec::new();
    let out = &mut v;
    assert(toks_view(out@) =~= Seq::<TokV>::empty());
    emit_block_attrs(toks, &p.input.attrs, out);
    emit_word(out, "pub");
    emit_word(out, "mod");
    emit_string(out, &p.module);
    emit_open(out, Delim::Brace);
    let ghost m = toks_view(out@);
    emit_word(out, "use");
    emit_joint(out, ':', ':');
    emit_word(out, "drone");
    emit_joint(out, ':', ':');
    emit_word(out, "reg");
    emit_punct(out, ';');
    emit_word(out, "use");
    emit_joint(out, ':', ':');
    emit_word(out, "drone");
    emit_joint(out, ':', ':');
    emit_word(out, "reg");
    emit_joint(out, ':', ':');
    emit_word(out, "prelude");
    emit_joint(out, ':', ':');
    emit_punct(out, '*');
    emit_punct(out, ';');
    assert(toks_view(out@) =~= m + block_uses());
    emit_block_invocations(toks, &p.input.regs, out);
    emit_close(out, Delim::Brace);
    emit_block_aliases(toks, &p, out);
    Ok(v)
}

} // verus!
