//! The tokens of `unsafe_reg_tokens!`: for each macro of the plan, the
//! modules of re-exports of its blocks, then the `macro_rules!` macro that
//! adds the blocks' registers to the definitions it is given and hands them
//! on.

use crate::reg_tokens::{
    BlockPlan, MacroAttrs, MacroPlan, MacroPlanV, PrevMacro, PrevMacroV, RegNames, RegNamesV,
    RegTokensInputV, RegTokensPlan, TokBlock, TokBlockV, block_plan, block_plan_view, blocks_view,
    input_view, macro_plans, macro_view, prev_view, reg_names_view, unsafe_reg_tokens, spec_reg_tokens_input,
};
use crate::thr_static::{one, one_exec};
use crate::token::{
    Delim, MacroError, Span, Tok, TokV, VisKind, close_of, copy_tok, emit_close, emit_joint, emit_open,
    emit_punct, emit_span, emit_string, emit_word, find_close, lemma_close_scan_bounds, push_tok,
    span_toks, tclose, tj, topen, toks_view, tp, tw,
};
use vstd::prelude::*;

verus! {

/// The attribute whose `#` stands at `a`: the `#` and its bracketed group,
/// within `[.., end)`.
pub open spec fn attr_toks(toks: Seq<Tok>, a: usize, end: int) -> Seq<TokV> {
    match close_of(toks, a + 1, end) {
        Some(c) => span_toks(toks, Span { start: a, end: (c + 1) as usize }),
        None => Seq::empty(),
    }
}

/// The attributes whose `#` stand at `attrs`, in order.
pub open spec fn attrs_toks(toks: Seq<Tok>, attrs: Seq<usize>, end: int) -> Seq<TokV>
    decreases attrs.len(),
{
    if attrs.len() == 0 {
        Seq::empty()
    } else {
        attrs_toks(toks, attrs.drop_last(), end) + attr_toks(toks, attrs.last(), end)
    }
}

/// `pub use ROOT::LONG as SHORT; pub use ROOT::LONG::Reg as CML;` for each
/// register.
pub open spec fn reg_uses(root: Seq<TokV>, rs: Seq<RegNamesV>) -> Seq<TokV>
    decreases rs.len(),
{
    if rs.len() == 0 {
        Seq::empty()
    } else {
        let r = rs.last();
        reg_uses(root, rs.drop_last()) + tw("pub"@) + tw("use"@) + root + tj(':', ':') + tw(r.long) + tw(
            "as"@,
        ) + tw(r.short) + tp(';') + tw("pub"@) + tw("use"@) + root + tj(':', ':') + tw(r.long) + tj(
            ':',
            ':',
        ) + tw("Reg"@) + tw("as"@) + tw(r.cml) + tp(';')
    }
}

/// The module of re-exports of a block, none where the block is marked `!`:
/// `ATTRS VIS mod NAME { USES }`.
pub open spec fn block_module(toks: Seq<Tok>, b: TokBlockV, bp: RegBlockV, root: Seq<TokV>) -> Seq<TokV> {
    if b.skip {
        Seq::empty()
    } else {
        span_toks(toks, b.attrs) + span_toks(toks, b.vis.span) + tw("mod"@) + tw(bp.name) + topen(
            Delim::Brace,
        ) + reg_uses(root, bp.regs) + tclose(Delim::Brace)
    }
}

/// The names of a block that its tokens need.
pub struct RegBlockV {
    pub name: Seq<char>,
    pub plain_attrs: Seq<usize>,
    pub regs: Seq<RegNamesV>,
}

pub open spec fn reg_block_v(toks: Seq<Tok>, b: TokBlockV) -> RegBlockV {
    let bp = block_plan(toks, b);
    RegBlockV { name: bp.name, plain_attrs: bp.plain_attrs, regs: bp.regs }
}

/// The definitions of the first `k` registers of a block, those marked `!`
/// left out: `PLAIN_ATTRS ATTRS LONG $crate MACRO_ROOT::NAME::CML;` each.
pub open spec fn reg_defs(toks: Seq<Tok>, b: TokBlockV, bp: RegBlockV, mrp: Seq<TokV>, k: nat) -> Seq<TokV>
    decreases k,
{
    if k == 0 {
        Seq::empty()
    } else {
        let r = b.regs[k - 1];
        let n = bp.regs[k - 1];
        reg_defs(toks, b, bp, mrp, (k - 1) as nat) + (if r.skip {
            Seq::empty()
        } else {
            attrs_toks(toks, bp.plain_attrs, b.attrs.end as int) + span_toks(toks, r.attrs) + tw(n.long)
                + tp('$') + tw("crate"@) + mrp + tj(':', ':') + tw(bp.name) + tj(':', ':') + tw(n.cml)
                + tp(';')
        })
    }
}

/// The modules of the blocks at `bs`.
pub open spec fn modules_of(toks: Seq<Tok>, inp: RegTokensInputV, bs: Seq<usize>) -> Seq<TokV>
    decreases bs.len(),
{
    if bs.len() == 0 {
        Seq::empty()
    } else {
        let b = bs.last();
        modules_of(toks, inp, bs.drop_last()) + (if b < inp.blocks.len() {
            block_module(toks, inp.blocks[b as int], reg_block_v(toks, inp.blocks[b as int]), span_toks(toks, inp.root_path))
        } else {
            Seq::empty()
        })
    }
}

/// The path after `$crate` where the block modules are.
pub open spec fn macro_root(toks: Seq<Tok>, inp: RegTokensInputV) -> Seq<TokV> {
    match inp.macro_root_path {
        Some(s) => span_toks(toks, s),
        None => Seq::empty(),
    }
}

/// The definitions of the registers of the blocks at `bs`.
pub open spec fn defs_of(toks: Seq<Tok>, inp: RegTokensInputV, bs: Seq<usize>) -> Seq<TokV>
    decreases bs.len(),
{
    if bs.len() == 0 {
        Seq::empty()
    } else {
        let b = bs.last();
        defs_of(toks, inp, bs.drop_last()) + (if b < inp.blocks.len() {
            let blk = inp.blocks[b as int];
            reg_defs(toks, blk, reg_block_v(toks, blk), macro_root(toks, inp), blk.regs.len())
        } else {
            Seq::empty()
        })
    }
}

/// The plan's blocks are those of the input, planned.
pub open spec fn blocks_planned(toks: Seq<Tok>, p: RegTokensPlan) -> bool {
    p.blocks@.map_values(|b: BlockPlan| block_plan_view(b)) == blocks_view(p.input.blocks@).map_values(
        |b: TokBlockV| block_plan(toks, b),
    )
}

proof fn lemma_block_at(toks: Seq<Tok>, p: RegTokensPlan, b: int)
    requires
        blocks_planned(toks, p),
        0 <= b < p.input.blocks@.len(),
    ensures
        b < p.blocks@.len(),
        block_plan_view(p.blocks@[b]) == block_plan(toks, p.input.blocks@[b]@),
        input_view(p.input).blocks[b] == p.input.blocks@[b]@,
{
    assert(p.blocks@.map_values(|b: BlockPlan| block_plan_view(b)).len() == p.blocks@.len());
    assert(p.blocks@.map_values(|b: BlockPlan| block_plan_view(b))[b] == block_plan_view(p.blocks@[b]));
    assert(blocks_view(p.input.blocks@).map_values(|b: TokBlockV| block_plan(toks, b))[b] == block_plan(
        toks,
        blocks_view(p.input.blocks@)[b],
    ));
}

fn emit_attr(toks: &Vec<Tok>, a: usize, end: usize, out: &mut Vec<Tok>)
    ensures
        toks_view(final(out)@) == toks_view(old(out)@) + attr_toks(toks@, a, end as int),
{
    let ghost b = toks_view(old(out)@);
    if end > 0 && a < end - 1 {
        match find_close(toks, a + 1, end) {
            Some(c) => {
                proof {
                    lemma_close_scan_bounds(toks@, a + 2, end as int, 1);
                }
                emit_span(toks, Span { start: a, end: c + 1 }, out);
            },
            None => {
                assert(toks_view(out@) =~= b + Seq::<TokV>::empty());
            },
        }
    } else {
        assert(close_of(toks@, a + 1, end as int) is None);
        assert(toks_view(out@) =~= b + Seq::<TokV>::empty());
    }
}

pub fn emit_attrs(toks: &Vec<Tok>, attrs: &Vec<usize>, end: usize, out: &mut Vec<Tok>)
    ensures
        toks_view(final(out)@) == toks_view(old(out)@) + attrs_toks(toks@, attrs@, end as int),
{
    let ghost head = toks_view(old(out)@);
    let mut k: usize = 0;
    assert(attrs@.take(0) =~= Seq::<usize>::empty());
    assert(head + Seq::<TokV>::empty() =~= head);
    while k < attrs.len()
        invariant
            k <= attrs@.len(),
            toks_view(out@) == head + attrs_toks(toks@, attrs@.take(k as int), end as int),
        decreases attrs@.len() - k,
    {
        emit_attr(toks, attrs[k], end, out);
        proof {
            let s = attrs@.take(k + 1);
            assert(s.drop_last() =~= attrs@.take(k as int));
            assert(toks_view(out@) =~= head + attrs_toks(toks@, s, end as int));
        }
        k = k + 1;
    }
    assert(attrs@.take(k as int) =~= attrs@);
}

#[verifier::spinoff_prover]
#[verifier::rlimit(50)]
fn emit_reg_uses(toks: &Vec<Tok>, root: Span, rs: &Vec<RegNames>, out: &mut Vec<Tok>)
    ensures
        toks_view(final(out)@) == toks_view(old(out)@) + reg_uses(
            span_toks(toks@, root),
            rs@.map_values(|r: RegNames| reg_names_view(r)),
        ),
{
    let ghost head = toks_view(old(out)@);
    let ghost v = rs@.map_values(|r: RegNames| reg_names_view(r));
    let ghost rt = span_toks(toks@, root);
    let mut k: usize = 0;
    assert(v.take(0) =~= Seq::<RegNamesV>::empty());
    assert(head + Seq::<TokV>::empty() =~= head);
    while k < rs.len()
        invariant
            k <= v.len(),
            v == rs@.map_values(|r: RegNames| reg_names_view(r)),
            rt == span_toks(toks@, root),
            toks_view(out@) == head + reg_uses(rt, v.take(k as int)),
        decreases v.len() - k,
    {
        let r = &rs[k];
        assert(v[k as int] == reg_names_view(*r));
        emit_word(out, "pub");
        emit_word(out, "use");
        emit_span(toks, root, out);
        emit_joint(out, ':', ':');
        emit_string(out, &r.long);
        emit_word(out, "as");
        emit_string(out, &r.short);
        emit_punct(out, ';');
        emit_word(out, "pub");
        emit_word(out, "use");
        emit_span(toks, root, out);
        emit_joint(out, ':', ':');
        emit_string(out, &r.long);
        emit_joint(out, ':', ':');
        emit_word(out, "Reg");
        emit_word(out, "as");
        emit_string(out, &r.cml);
        emit_punct(out, ';');
        proof {
            let s = v.take(k + 1);
            assert(s.drop_last() =~= v.take(k as int));
            assert(s.last() == v[k as int]);
            assert(toks_view(out@) =~= head + reg_uses(rt, s));
        }
        k = k + 1;
    }
    assert(v.take(k as int) =~= v);
}

#[verifier::spinoff_prover]
#[verifier::rlimit(50)]
fn emit_block_module(toks: &Vec<Tok>, blk: &TokBlock, bp: &BlockPlan, root: Span, out: &mut Vec<Tok>)
    requires
        block_plan_view(*bp) == block_plan(toks@, blk@),
    ensures
        toks_view(final(out)@) == toks_view(old(out)@) + block_module(
            toks@,
            blk@,
            reg_block_v(toks@, blk@),
            span_toks(toks@, root),
        ),
{
    let ghost b = toks_view(old(out)@);
    if blk.skip {
        assert(toks_view(out@) =~= b + Seq::<TokV>::empty());
    } else {
        emit_span(toks, blk.attrs, out);
        emit_span(toks, blk.vis.span, out);
        emit_word(out, "mod");
        emit_string(out, &bp.name);
        emit_open(out, Delim::Brace);
        emit_reg_uses(toks, root, &bp.regs, out);
        emit_close(out, Delim::Brace);
        assert(toks_view(out@) =~= b + block_module(toks@, blk@, reg_block_v(toks@, blk@), span_toks(toks@, root)));
    }
}

#[verifier::spinoff_prover]
#[verifier::rlimit(80)]
fn emit_reg_defs(toks: &Vec<Tok>, blk: &TokBlock, bp: &BlockPlan, mrp: Option<Span>, out: &mut Vec<Tok>)
    requires
        block_plan_view(*bp) == block_plan(toks@, blk@),
    ensures
        toks_view(final(out)@) == toks_view(old(out)@) + reg_defs(
            toks@,
            blk@,
            reg_block_v(toks@, blk@),
            match mrp {
                Some(s) => span_toks(toks@, s),
                None => Seq::empty(),
            },
            blk.regs@.len(),
        ),
{
    let ghost head = toks_view(old(out)@);
    let ghost bv = reg_block_v(toks@, blk@);
    let ghost m = match mrp {
        Some(s) => span_toks(toks@, s),
        None => Seq::<TokV>::empty(),
    };
    assert(bp.regs@.map_values(|r: RegNames| reg_names_view(r)).len() == bp.regs@.len());
    assert(bv.regs.len() == blk.regs@.len());
    let mut k: usize = 0;
    assert(head + Seq::<TokV>::empty() =~= head);
    while k < blk.regs.len()
        invariant
            k <= blk.regs@.len(),
            bp.regs@.len() == blk.regs@.len(),
            block_plan_view(*bp) == block_plan(toks@, blk@),
            bv == reg_block_v(toks@, blk@),
            m == (match mrp {
                Some(s) => span_toks(toks@, s),
                None => Seq::<TokV>::empty(),
            }),
            toks_view(out@) == head + reg_defs(toks@, blk@, bv, m, k as nat),
        decreases blk.regs@.len() - k,
    {
        let r = blk.regs[k];
        let names = &bp.regs[k];
        assert(bp.regs@.map_values(|r: RegNames| reg_names_view(r))[k as int] == reg_names_view(*names));
        assert(bv.regs[k as int] == reg_names_view(*names));
        let ghost before = toks_view(out@);
        if r.skip {
            assert(toks_view(out@) =~= before + Seq::<TokV>::empty());
        } else {
            emit_attrs(toks, &bp.plain_attrs, blk.attrs.end, out);
            emit_span(toks, r.attrs, out);
            emit_string(out, &names.long);
            emit_punct(out, '$');
            emit_word(out, "crate");
            match mrp {
                Some(s) => emit_span(toks, s, out),
                None => {},
            }
            emit_joint(out, ':', ':');
            emit_string(out, &bp.name);
            emit_joint(out, ':', ':');
            emit_string(out, &names.cml);
            emit_punct(out, ';');
        }
        proof {
            if !r.skip {
                assert(toks_view(out@) =~= before + (attrs_toks(toks@, bv.plain_attrs, blk.attrs.end as int)
                    + span_toks(toks@, r.attrs) + tw(reg_names_view(*names).long) + tp('$') + tw("crate"@) + m
                    + tj(':', ':') + tw(bv.name) + tj(':', ':') + tw(reg_names_view(*names).cml) + tp(';')));
            }
            assert(toks_view(out@) =~= head + reg_defs(toks@, blk@, bv, m, (k + 1) as nat));
        }
        k = k + 1;
    }
}

/// `#[doc(hidden)]`
pub open spec fn doc_hidden() -> Seq<TokV> {
    tp('#') + topen(Delim::Bracket) + tw("doc"@) + topen(Delim::Paren) + tw("hidden"@) + tclose(Delim::Paren)
        + tclose(Delim::Bracket)
}

/// The attributes of a macro: those of the input for the macro it names;
/// for a helper macro, `#[doc(hidden)]` and the negation of its block's
/// `cfg` attributes, or those attributes and `#[doc(hidden)]`.
pub open spec fn macro_attrs(toks: Seq<Tok>, inp: RegTokensInputV, a: MacroAttrs) -> Seq<TokV> {
    match a {
        MacroAttrs::Given => span_toks(toks, inp.attrs),
        MacroAttrs::Absent(b) => doc_hidden() + (if b < inp.blocks.len() {
            block_plan(toks, inp.blocks[b as int]).negated_cfg
        } else {
            Seq::empty()
        }),
        MacroAttrs::Present(b) => (if b < inp.blocks.len() {
            attrs_toks(
                toks,
                block_plan(toks, inp.blocks[b as int]).cfg_attrs,
                inp.blocks[b as int].attrs.end as int,
            )
        } else {
            Seq::empty()
        }) + doc_hidden(),
    }
}

/// `#[macro_export]` where the macros are exported.
pub open spec fn macro_export(export: bool) -> Seq<TokV> {
    if export {
        tp('#') + topen(Delim::Bracket) + tw("macro_export"@) + tclose(Delim::Bracket)
    } else {
        Seq::empty()
    }
}

/// `$(#[$attr:meta])* index => $vis:vis $ty:ident`
pub open spec fn head_pattern() -> Seq<TokV> {
    tp('$') + topen(Delim::Paren) + tp('#') + topen(Delim::Bracket) + tp('$') + tw("attr"@) + tp(':') + tw(
        "meta"@,
    ) + tclose(Delim::Bracket) + tclose(Delim::Paren) + tp('*') + tw("index"@) + tj('=', '>') + tp('$')
        + tw("vis"@) + tp(':') + tw("vis"@) + tp('$') + tw("ty"@) + tp(':') + tw("ident"@)
}

/// `$(#[$attr])* index => $vis $ty`
pub open spec fn head_args() -> Seq<TokV> {
    tp('$') + topen(Delim::Paren) + tp('#') + topen(Delim::Bracket) + tp('$') + tw("attr"@) + tclose(
        Delim::Bracket,
    ) + tclose(Delim::Paren) + tp('*') + tw("index"@) + tj('=', '>') + tp('$') + tw("vis"@) + tp('$')
        + tw("ty"@)
}

/// `(HEAD $(; $(exclude => { $($undefs:ident),* $(,)? })? $(;)?)?)`
pub open spec fn first_pattern() -> Seq<TokV> {
    topen(Delim::Paren) + head_pattern() + tp('$') + topen(Delim::Paren) + tp(';') + tp('$') + topen(
        Delim::Paren,
    ) + tw("exclude"@) + tj('=', '>') + topen(Delim::Brace) + tp('$') + topen(Delim::Paren) + tp('$')
        + tw("undefs"@) + tp(':') + tw("ident"@) + tclose(Delim::Paren) + tp(',') + tp('*') + tp('$')
        + topen(Delim::Paren) + tp(',') + tclose(Delim::Paren) + tp('?') + tclose(Delim::Brace) + tclose(
        Delim::Paren,
    ) + tp('?') + tp('$') + topen(Delim::Paren) + tp(';') + tclose(Delim::Paren) + tp('?') + tclose(
        Delim::Paren,
    ) + tp('?') + tclose(Delim::Paren)
}

/// `NAME! { HEAD_ARGS; exclude => { $($($($undefs,)*)?)? }; __extend =>
/// {}; }`
pub open spec fn first_call(name: Seq<char>) -> Seq<TokV> {
    tw(name) + tp('!') + topen(Delim::Brace) + head_args() + tp(';') + tw("exclude"@) + tj('=', '>') + topen(
        Delim::Brace,
    ) + tp('$') + topen(Delim::Paren) + tp('$') + topen(Delim::Paren) + tp('$') + topen(Delim::Paren) + tp(
        '$',
    ) + tw("undefs"@) + tp(',') + tclose(Delim::Paren) + tp('*') + tclose(Delim::Paren) + tp('?') + tclose(
        Delim::Paren,
    ) + tp('?') + tclose(Delim::Brace) + tp(';') + tw("__extend"@) + tj('=', '>') + topen(Delim::Brace)
        + tclose(Delim::Brace) + tp(';') + tclose(Delim::Brace)
}

/// The first rule: `FIRST_PATTERN => { FIRST_CALL };`
pub open spec fn first_rule(name: Seq<char>) -> Seq<TokV> {
    first_pattern() + tj('=', '>') + topen(Delim::Brace) + first_call(name) + tclose(Delim::Brace) + tp(';')
}

/// The pattern of the second rule: `(HEAD; exclude => { $($undefs:ident,)*
/// }; __extend => { $($defs:tt)* };) =>`
pub open spec fn second_pattern() -> Seq<TokV> {
    topen(Delim::Paren) + head_pattern() + tp(';') + tw("exclude"@) + tj('=', '>') + topen(Delim::Brace)
        + tp('$') + topen(Delim::Paren) + tp('$') + tw("undefs"@) + tp(':') + tw("ident"@) + tp(',')
        + tclose(Delim::Paren) + tp('*') + tclose(Delim::Brace) + tp(';') + tw("__extend"@) + tj('=', '>')
        + topen(Delim::Brace) + tp('$') + topen(Delim::Paren) + tp('$') + tw("defs"@) + tp(':') + tw(
        "tt"@,
    ) + tclose(Delim::Paren) + tp('*') + tclose(Delim::Brace) + tp(';') + tclose(Delim::Paren) + tj('=', '>')
}

/// `$($defs)*`
pub open spec fn defs_rep() -> Seq<TokV> {
    tp('$') + topen(Delim::Paren) + tp('$') + tw("defs"@) + tclose(Delim::Paren) + tp('*')
}

/// The macro handed on to: its path, or `$crate::NAME` (`NAME` where the
/// macros are not exported) for a helper macro of this expansion.
pub open spec fn prev_toks(toks: Seq<Tok>, p: PrevMacroV, export: bool) -> Seq<TokV> {
    match p {
        PrevMacroV::Given(s) => span_toks(toks, s),
        PrevMacroV::Local(n) => if export {
            tp('$') + tw("crate"@) + tj(':', ':') + tw(n)
        } else {
            tw(n)
        },
        PrevMacroV::Root => Seq::empty(),
    }
}

/// `::drone_core::reg::tokens_inner! { $(#[$attr])* $vis $ty { DEFS
/// $($defs)* } { $($undefs;)* } }`
pub open spec fn root_call(defs: Seq<TokV>) -> Seq<TokV> {
    tj(':', ':') + tw("drone_core"@) + tj(':', ':') + tw("reg"@) + tj(':', ':') + tw("tokens_inner"@) + tp(
        '!',
    ) + topen(Delim::Brace) + tp('$') + topen(Delim::Paren) + tp('#') + topen(Delim::Bracket) + tp('$')
        + tw("attr"@) + tclose(Delim::Bracket) + tclose(Delim::Paren) + tp('*') + tp('$') + tw("vis"@) + tp(
        '$',
    ) + tw("ty"@) + topen(Delim::Brace) + defs + defs_rep() + tclose(Delim::Brace) + topen(Delim::Brace)
        + tp('$') + topen(Delim::Paren) + tp('$') + tw("undefs"@) + tp(';') + tclose(Delim::Paren) + tp('*')
        + tclose(Delim::Brace) + tclose(Delim::Brace)
}

/// `PREV! { HEAD_ARGS; exclude => { $($undefs,)* }; __extend => { DEFS
/// $($defs)* }; }`
pub open spec fn prev_call(prev: Seq<TokV>, defs: Seq<TokV>) -> Seq<TokV> {
    prev + tp('!') + topen(Delim::Brace) + head_args() + tp(';') + tw("exclude"@) + tj('=', '>') + topen(
        Delim::Brace,
    ) + tp('$') + topen(Delim::Paren) + tp('$') + tw("undefs"@) + tp(',') + tclose(Delim::Paren) + tp('*')
        + tclose(Delim::Brace) + tp(';') + tw("__extend"@) + tj('=', '>') + topen(Delim::Brace) + defs
        + defs_rep() + tclose(Delim::Brace) + tp(';') + tclose(Delim::Brace)
}

/// What the second rule expands to: the definitions handed on to the
/// previous macro, or to the inner macro of `drone_core` where there is
/// none.
pub open spec fn second_body(prev: Seq<TokV>, root: bool, defs: Seq<TokV>) -> Seq<TokV> {
    if root {
        root_call(defs)
    } else {
        prev_call(prev, defs)
    }
}

/// A macro of the plan as `macro_rules!`: `ATTRS [#[macro_export]]
/// macro_rules! NAME { FIRST_RULE SECOND_PATTERN { BODY }; }`.
pub open spec fn macro_def(toks: Seq<Tok>, inp: RegTokensInputV, m: MacroPlanV, export: bool) -> Seq<TokV> {
    macro_attrs(toks, inp, m.attrs) + macro_export(export) + tw("macro_rules"@) + tp('!') + tw(m.name)
        + topen(Delim::Brace) + first_rule(m.name) + second_pattern() + topen(Delim::Brace) + second_body(
        prev_toks(toks, m.prev, export),
        m.prev is Root,
        defs_of(toks, inp, m.blocks),
    ) + tclose(Delim::Brace) + tp(';') + tclose(Delim::Brace)
}

/// The items of the macros `ms`: each one's modules, then the macro.
pub open spec fn macros_items(toks: Seq<Tok>, inp: RegTokensInputV, ms: Seq<MacroPlanV>, export: bool) -> Seq<TokV>
    decreases ms.len(),
{
    if ms.len() == 0 {
        Seq::empty()
    } else {
        macros_items(toks, inp, ms.drop_last(), export) + modules_of(toks, inp, ms.last().blocks) + macro_def(
            toks,
            inp,
            ms.last(),
            export,
        )
    }
}

/// What `unsafe_reg_tokens!` expands to on the input `toks`.
pub open spec fn spec_expand_unsafe_reg_tokens(toks: Seq<Tok>) -> Result<Seq<TokV>, MacroError> {
    match spec_reg_tokens_input(toks) {
        Err(e) => Err(e),
        Ok(inp) => Ok(macros_items(toks, inp, macro_plans(toks, inp), inp.vis.kind == VisKind::Public)),
    }
}

#[verifier::spinoff_prover]
#[verifier::rlimit(50)]
fn emit_modules(toks: &Vec<Tok>, p: &RegTokensPlan, bs: &Vec<usize>, out: &mut Vec<Tok>)
    requires
        blocks_planned(toks@, *p),
    ensures
        toks_view(final(out)@) == toks_view(old(out)@) + modules_of(toks@, input_view(p.input), bs@),
{
    let ghost head = toks_view(old(out)@);
    let ghost inp = input_view(p.input);
    let mut k: usize = 0;
    assert(bs@.take(0) =~= Seq::<usize>::empty());
    assert(head + Seq::<TokV>::empty() =~= head);
    while k < bs.len()
        invariant
            k <= bs@.len(),
            inp == input_view(p.input),
            blocks_planned(toks@, *p),
            toks_view(out@) == head + modules_of(toks@, inp, bs@.take(k as int)),
        decreases bs@.len() - k,
    {
        let b = bs[k];
        let ghost before = toks_view(out@);
        if b < p.input.blocks.len() {
            proof {
                lemma_block_at(toks@, *p, b as int);
            }
            emit_block_module(toks, &p.input.blocks[b], &p.blocks[b], p.input.root_path, out);
        } else {
            assert(toks_view(out@) =~= before + Seq::<TokV>::empty());
        }
        proof {
            let s = bs@.take(k + 1);
            assert(s.drop_last() =~= bs@.take(k as int));
            assert(s.last() == b);
            assert(toks_view(out@) =~= head + modules_of(toks@, inp, s));
        }
        k = k + 1;
    }
    assert(bs@.take(k as int) =~= bs@);
}

#[verifier::spinoff_prover]
#[verifier::rlimit(50)]
fn emit_defs(toks: &Vec<Tok>, p: &RegTokensPlan, bs: &Vec<usize>, out: &mut Vec<Tok>)
    requires
        blocks_planned(toks@, *p),
    ensures
        toks_view(final(out)@) == toks_view(old(out)@) + defs_of(toks@, input_view(p.input), bs@),
{
    let ghost head = toks_view(old(out)@);
    let ghost inp = input_view(p.input);
    let mut k: usize = 0;
    assert(bs@.take(0) =~= Seq::<usize>::empty());
    assert(head + Seq::<TokV>::empty() =~= head);
    while k < bs.len()
        invariant
            k <= bs@.len(),
            inp == input_view(p.input),
            blocks_planned(toks@, *p),
            toks_view(out@) == head + defs_of(toks@, inp, bs@.take(k as int)),
        decreases bs@.len() - k,
    {
        let b = bs[k];
        let ghost before = toks_view(out@);
        if b < p.input.blocks.len() {
            proof {
                lemma_block_at(toks@, *p, b as int);
            }
            emit_reg_defs(toks, &p.input.blocks[b], &p.blocks[b], p.input.macro_root_path, out);
        } else {
            assert(toks_view(out@) =~= before + Seq::<TokV>::empty());
        }
        proof {
            let s = bs@.take(k + 1);
            assert(s.drop_last() =~= bs@.take(k as int));
            assert(s.last() == b);
            assert(toks_view(out@) =~= head + defs_of(toks@, inp, s));
        }
        k = k + 1;
    }
    assert(bs@.take(k as int) =~= bs@);
}

#[verifier::spinoff_prover]
#[verifier::rlimit(50)]
fn emit_head_pattern(out: &mut Vec<Tok>)
    ensures
        toks_view(final(out)@) == toks_view(old(out)@) + head_pattern(),
{
    let ghost b = toks_view(old(out)@);

    emit_punct(out, '$');
    emit_open(out, Delim::Paren);
    emit_punct(out, '#');
    emit_open(out, Delim::Bracket);
    emit_punct(out, '$');
    emit_word(out, "attr");
    emit_punct(out, ':');
    emit_word(out, "meta");
    emit_close(out, Delim::Bracket);
    emit_close(out, Delim::Paren);
    emit_punct(out, '*');
    emit_word(out, "index");
    emit_joint(out, '=', '>');
    emit_punct(out, '$');
    emit_word(out, "vis");
    emit_punct(out, ':');
    emit_word(out, "vis");
    emit_punct(out, '$');
    emit_word(out, "ty");
    emit_punct(out, ':');
    emit_word(out, "ident");
    assert(toks_view(out@) =~= b + head_pattern());
}

#[verifier::spinoff_prover]
#[verifier::rlimit(50)]
fn emit_head_args(out: &mut Vec<Tok>)
    ensures
        toks_view(final(out)@) == toks_view(old(out)@) + head_args(),
{
    let ghost b = toks_view(old(out)@);

    emit_punct(out, '$');
    emit_open(out, Delim::Paren);
    emit_punct(out, '#');
    emit_open(out, Delim::Bracket);
    emit_punct(out, '$');
    emit_word(out, "attr");
    emit_close(out, Delim::Bracket);
    emit_close(out, Delim::Paren);
    emit_punct(out, '*');
    emit_word(out, "index");
    emit_joint(out, '=', '>');
    emit_punct(out, '$');
    emit_word(out, "vis");
    emit_punct(out, '$');
    emit_word(out, "ty");
    assert(toks_view(out@) =~= b + head_args());
}

#[verifier::spinoff_prover]
#[verifier::rlimit(80)]
fn emit_first_pattern(out: &mut Vec<Tok>)
    ensures
        toks_view(final(out)@) == toks_view(old(out)@) + first_pattern(),
{
    let ghost b = toks_view(old(out)@);

    emit_open(out, Delim::Paren);
    emit_head_pattern(out);
    emit_punct(out, '$');
    emit_open(out, Delim::Paren);
    emit_punct(out, ';');
    emit_punct(out, '$');
    emit_open(out, Delim::Paren);
    emit_word(out, "exclude");
    emit_joint(out, '=', '>');
    emit_open(out, Delim::Brace);
    emit_punct(out, '$');
    emit_open(out, Delim::Paren);
    emit_punct(out, '$');
    emit_word(out, "undefs");
    emit_punct(out, ':');
    emit_word(out, "ident");
    emit_close(out, Delim::Paren);
    emit_punct(out, ',');
    emit_punct(out, '*');
    emit_punct(out, '$');
    emit_open(out, Delim::Paren);
    emit_punct(out, ',');
    emit_close(out, Delim::Paren);
    emit_punct(out, '?');
    emit_close(out, Delim::Brace);
    emit_close(out, Delim::Paren);
    emit_punct(out, '?');
    emit_punct(out, '$');
    emit_open(out, Delim::Paren);
    emit_punct(out, ';');
    emit_close(out, Delim::Paren);
    emit_punct(out, '?');
    emit_close(out, Delim::Paren);
    emit_punct(out, '?');
    emit_close(out, Delim::Paren);
    assert(toks_view(out@) =~= b + first_pattern());
}

#[verifier::spinoff_prover]
#[verifier::rlimit(80)]
fn emit_first_call(name: &String, out: &mut Vec<Tok>)
    ensures
        toks_view(final(out)@) == toks_view(old(out)@) + first_call(name@),
{
    let ghost b = toks_view(old(out)@);

    emit_string(out, name);
    emit_punct(out, '!');
    emit_open(out, Delim::Brace);
    emit_head_args(out);
    emit_punct(out, ';');
    emit_word(out, "exclude");
    emit_joint(out, '=', '>');
    emit_open(out, Delim::Brace);
    emit_punct(out, '$');
    emit_open(out, Delim::Paren);
    emit_punct(out, '$');
    emit_open(out, Delim::Paren);
    emit_punct(out, '$');
    emit_open(out, Delim::Paren);
    emit_punct(out, '$');
    emit_word(out, "undefs");
    emit_punct(out, ',');
    emit_close(out, Delim::Paren);
    emit_punct(out, '*');
    emit_close(out, Delim::Paren);
    emit_punct(out, '?');
    emit_close(out, Delim::Paren);
    emit_punct(out, '?');
    emit_close(out, Delim::Brace);
    emit_punct(out, ';');
    emit_word(out, "__extend");
    emit_joint(out, '=', '>');
    emit_open(out, Delim::Brace);
    emit_close(out, Delim::Brace);
    emit_punct(out, ';');
    emit_close(out, Delim::Brace);
    assert(toks_view(out@) =~= b + first_call(name@));
}

#[verifier::spinoff_prover]
#[verifier::rlimit(80)]
fn emit_second_pattern(out: &mut Vec<Tok>)
    ensures
        toks_view(final(out)@) == toks_view(old(out)@) + second_pattern(),
{
    let ghost b = toks_view(old(out)@);

    emit_open(out, Delim::Paren);
    emit_head_pattern(out);
    emit_punct(out, ';');
    emit_word(out, "exclude");
    emit_joint(out, '=', '>');
    emit_open(out, Delim::Brace);
    emit_punct(out, '$');
    emit_open(out, Delim::Paren);
    emit_punct(out, '$');
    emit_word(out, "undefs");
    emit_punct(out, ':');
    emit_word(out, "ident");
    emit_punct(out, ',');
    emit_close(out, Delim::Paren);
    emit_punct(out, '*');
    emit_close(out, Delim::Brace);
    emit_punct(out, ';');
    emit_word(out, "__extend");
    emit_joint(out, '=', '>');
    emit_open(out, Delim::Brace);
    emit_punct(out, '$');
    emit_open(out, Delim::Paren);
    emit_punct(out, '$');
    emit_word(out, "defs");
    emit_punct(out, ':');
    emit_word(out, "tt");
    emit_close(out, Delim::Paren);
    emit_punct(out, '*');
    emit_close(out, Delim::Brace);
    emit_punct(out, ';');
    emit_close(out, Delim::Paren);
    emit_joint(out, '=', '>');
    assert(toks_view(out@) =~= b + second_pattern());
}

fn emit_defs_rep(out: &mut Vec<Tok>)
    ensures
        toks_view(final(out)@) == toks_view(old(out)@) + defs_rep(),
{
    let ghost b = toks_view(old(out)@);

    emit_punct(out, '$');
    emit_open(out, Delim::Paren);
    emit_punct(out, '$');
    emit_word(out, "defs");
    emit_close(out, Delim::Paren);
    emit_punct(out, '*');
    assert(toks_view(out@) =~= b + defs_rep());
}

fn emit_doc_hidden(out: &mut Vec<Tok>)
    ensures
        toks_view(final(out)@) == toks_view(old(out)@) + doc_hidden(),
{
    let ghost b = toks_view(old(out)@);

    emit_punct(out, '#');
    emit_open(out, Delim::Bracket);
    emit_word(out, "doc");
    emit_open(out, Delim::Paren);
    emit_word(out, "hidden");
    emit_close(out, Delim::Paren);
    emit_close(out, Delim::Bracket);
    assert(toks_view(out@) =~= b + doc_hidden());
}

#[verifier::spinoff_prover]
#[verifier::rlimit(80)]
fn emit_root_call(toks: &Vec<Tok>, p: &RegTokensPlan, bs: &Vec<usize>, out: &mut Vec<Tok>)
    requires
        blocks_planned(toks@, *p),
    ensures
        toks_view(final(out)@) == toks_view(old(out)@) + root_call(defs_of(toks@, input_view(p.input), bs@)),
{
    let ghost b = toks_view(old(out)@);
    emit_joint(out, ':', ':');
    emit_word(out, "drone_core");
    emit_joint(out, ':', ':');
    emit_word(out, "reg");
    emit_joint(out, ':', ':');
    emit_word(out, "tokens_inner");
    emit_punct(out, '!');
    emit_open(out, Delim::Brace);
    emit_punct(out, '$');
    emit_open(out, Delim::Paren);
    emit_punct(out, '#');
    emit_open(out, Delim::Bracket);
    emit_punct(out, '$');
    emit_word(out, "attr");
    emit_close(out, Delim::Bracket);
    emit_close(out, Delim::Paren);
    emit_punct(out, '*');
    emit_punct(out, '$');
    emit_word(out, "vis");
    emit_punct(out, '$');
    emit_word(out, "ty");
    emit_open(out, Delim::Brace);
    emit_defs(toks, p, bs, out);
    emit_defs_rep(out);
    emit_close(out, Delim::Brace);
    emit_open(out, Delim::Brace);
    emit_punct(out, '$');
    emit_open(out, Delim::Paren);
    emit_punct(out, '$');
    emit_word(out, "undefs");
    emit_punct(out, ';');
    emit_close(out, Delim::Paren);
    emit_punct(out, '*');
    emit_close(out, Delim::Brace);
    emit_close(out, Delim::Brace);
    assert(toks_view(out@) =~= b + root_call(defs_of(toks@, input_view(p.input), bs@)));
}

#[verifier::spinoff_prover]
#[verifier::rlimit(80)]
fn emit_prev_call(toks: &Vec<Tok>, p: &RegTokensPlan, bs: &Vec<usize>, prev: &Vec<Tok>, out: &mut Vec<Tok>)
    requires
        blocks_planned(toks@, *p),
    ensures
        toks_view(final(out)@) == toks_view(old(out)@) + prev_call(toks_view(prev@), defs_of(toks@, input_view(p.input), bs@)),
{
    let ghost b = toks_view(old(out)@);
    emit_toks(prev, out);
    emit_punct(out, '!');
    emit_open(out, Delim::Brace);
    emit_head_args(out);
    emit_punct(out, ';');
    emit_word(out, "exclude");
    emit_joint(out, '=', '>');
    emit_open(out, Delim::Brace);
    emit_punct(out, '$');
    emit_open(out, Delim::Paren);
    emit_punct(out, '$');
    emit_word(out, "undefs");
    emit_punct(out, ',');
    emit_close(out, Delim::Paren);
    emit_punct(out, '*');
    emit_close(out, Delim::Brace);
    emit_punct(out, ';');
    emit_word(out, "__extend");
    emit_joint(out, '=', '>');
    emit_open(out, Delim::Brace);
    emit_defs(toks, p, bs, out);
    emit_defs_rep(out);
    emit_close(out, Delim::Brace);
    emit_punct(out, ';');
    emit_close(out, Delim::Brace);
    assert(toks_view(out@) =~= b + prev_call(toks_view(prev@), defs_of(toks@, input_view(p.input), bs@)));
}

/// Adds copies of the tokens `v` to `out`.
fn emit_toks(v: &Vec<Tok>, out: &mut Vec<Tok>)
    ensures
        toks_view(final(out)@) == toks_view(old(out)@) + toks_view(v@),
{
    let ghost b = toks_view(old(out)@);
    let mut k: usize = 0;
    assert(v@.take(0) =~= Seq::<Tok>::empty());
    assert(toks_view(v@.take(0)) =~= Seq::<TokV>::empty());
    assert(b + Seq::<TokV>::empty() =~= b);
    while k < v.len()
        invariant
            k <= v@.len(),
            toks_view(out@) == b + toks_view(v@.take(k as int)),
        decreases v@.len() - k,
    {
        push_tok(out, copy_tok(&v[k]));
        proof {
            assert(v@.take(k + 1) =~= v@.take(k as int).push(v@[k as int]));
            assert(toks_view(v@.take(k + 1)) =~= toks_view(v@.take(k as int)).push(toks_view(v@)[k as int]));
        }
        k = k + 1;
    }
    assert(v@.take(k as int) =~= v@);
}

#[verifier::spinoff_prover]
#[verifier::rlimit(50)]
fn emit_macro_attrs(toks: &Vec<Tok>, p: &RegTokensPlan, a: MacroAttrs, out: &mut Vec<Tok>)
    requires
        blocks_planned(toks@, *p),
    ensures
        toks_view(final(out)@) == toks_view(old(out)@) + macro_attrs(toks@, input_view(p.input), a),
{
    let ghost b0 = toks_view(old(out)@);
    let ghost inp = input_view(p.input);
    match a {
        MacroAttrs::Given => {
            emit_span(toks, p.input.attrs, out);
        },
        MacroAttrs::Absent(b) => {
            emit_doc_hidden(out);
            let ghost m = toks_view(out@);
            if b < p.input.blocks.len() {
                proof {
                    lemma_block_at(toks@, *p, b as int);
                }
                emit_toks(&p.blocks[b].negated_cfg, out);
            } else {
                assert(toks_view(out@) =~= m + Seq::<TokV>::empty());
            }
            assert(toks_view(out@) =~= b0 + macro_attrs(toks@, inp, a));
        },
        MacroAttrs::Present(b) => {
            if b < p.input.blocks.len() {
                proof {
                    lemma_block_at(toks@, *p, b as int);
                }
                emit_attrs(toks, &p.blocks[b].cfg_attrs, p.input.blocks[b].attrs.end, out);
            } else {
                assert(toks_view(out@) =~= b0 + Seq::<TokV>::empty());
            }
            emit_doc_hidden(out);
            assert(toks_view(out@) =~= b0 + macro_attrs(toks@, inp, a));
        },
    }
}

fn prev_tokens(toks: &Vec<Tok>, prev: &PrevMacro, export: bool) -> (r: Vec<Tok>)
    ensures
        toks_view(r@) == prev_toks(toks@, prev_view(*prev), export),
{
    let mut v: Vec<Tok> = Vec::new();
    assert(toks_view(v@) =~= Seq::<TokV>::empty());
    match prev {
        PrevMacro::Given(s) => {
            emit_span(toks, *s, &mut v);
            assert(toks_view(v@) =~= Seq::<TokV>::empty() + span_toks(toks@, *s));
        },
        PrevMacro::Local(n) => {
            if export {
                emit_punct(&mut v, '$');
                emit_word(&mut v, "crate");
                emit_joint(&mut v, ':', ':');
            }
            emit_string(&mut v, n);
            assert(toks_view(v@) =~= prev_toks(toks@, prev_view(*prev), export));
        },
        PrevMacro::Root => {},
    }
    v
}

#[verifier::spinoff_prover]
#[verifier::rlimit(100)]
fn emit_macro_def(toks: &Vec<Tok>, p: &RegTokensPlan, m: &MacroPlan, out: &mut Vec<Tok>)
    requires
        blocks_planned(toks@, *p),
    ensures
        toks_view(final(out)@) == toks_view(old(out)@) + macro_def(
            toks@,
            input_view(p.input),
            macro_view(*m),
            p.export,
        ),
{
    let ghost b = toks_view(old(out)@);
    let ghost inp = input_view(p.input);
    let ghost mv = macro_view(*m);
    emit_macro_attrs(toks, p, m.attrs, out);
    let ghost m1 = toks_view(out@);
    if p.export {
        emit_punct(out, '#');
        emit_open(out, Delim::Bracket);
        emit_word(out, "macro_export");
        emit_close(out, Delim::Bracket);
    }
    assert(toks_view(out@) =~= m1 + macro_export(p.export));
    let ghost m2 = toks_view(out@);
    emit_word(out, "macro_rules");
    emit_punct(out, '!');
    emit_string(out, &m.name);
    emit_open(out, Delim::Brace);
    let ghost m3 = toks_view(out@);
    emit_first_pattern(out);
    emit_joint(out, '=', '>');
    emit_open(out, Delim::Brace);
    emit_first_call(&m.name, out);
    emit_close(out, Delim::Brace);
    emit_punct(out, ';');
    assert(toks_view(out@) =~= m3 + first_rule(mv.name));
    let ghost m4 = toks_view(out@);
    emit_second_pattern(out);
    emit_open(out, Delim::Brace);
    let ghost m5 = toks_view(out@);
    let ghost defs = defs_of(toks@, inp, mv.blocks);
    match &m.prev {
        PrevMacro::Root => {
            emit_root_call(toks, p, &m.blocks, out);
            assert(toks_view(out@) =~= m5 + second_body(prev_toks(toks@, mv.prev, p.export), mv.prev is Root, defs));
        },
        _ => {
            let pv = prev_tokens(toks, &m.prev, p.export);
            emit_prev_call(toks, p, &m.blocks, &pv, out);
            assert(toks_view(out@) =~= m5 + second_body(prev_toks(toks@, mv.prev, p.export), mv.prev is Root, defs));
        },
    }
    emit_close(out, Delim::Brace);
    emit_punct(out, ';');
    emit_close(out, Delim::Brace);
    assert(toks_view(out@) =~= b + macro_def(toks@, inp, mv, p.export));
}

/// The tokens that `unsafe_reg_tokens!` expands to on the input `toks`.
#[verifier::spinoff_prover]
#[verifier::rlimit(80)]
pub fn expand_unsafe_reg_tokens(toks: &Vec<Tok>) -> (r: Result<Vec<Tok>, MacroError>)
    ensures
        r matches Err(e) ==> spec_expand_unsafe_reg_tokens(toks@) == Err::<Seq<TokV>, MacroError>(e),
        r matches Ok(v) ==> spec_expand_unsafe_reg_tokens(toks@) == Ok::<Seq<TokV>, MacroError>(
            toks_view(v@),
        ),
{
    let p = unsafe_reg_tokens(toks)?;
    let ghost inp = input_view(p.input);
    let ghost ms = p.macros@.map_values(|m: MacroPlan| macro_view(m));
    assert(ms == macro_plans(toks@, inp));
    assert(ms.len() == p.macros@.len());
    let mut out: Vec<Tok> = Vec::new();
    let mut k: usize = 0;
    assert(ms.take(0) =~= Seq::<MacroPlanV>::empty());
    assert(toks_view(out@) =~= Seq::<TokV>::empty());
    while k < p.macros.len()
        invariant
            k <= ms.len(),
            ms.len() == p.macros@.len(),
            ms == p.macros@.map_values(|m: MacroPlan| macro_view(m)),
            inp == input_view(p.input),
            blocks_planned(toks@, p),
            toks_view(out@) == macros_items(toks@, inp, ms.take(k as int), p.export),
        decreases ms.len() - k,
    {
        let m = &p.macros[k];
        assert(ms[k as int] == macro_view(*m));
        emit_modules(toks, &p, &m.blocks, &mut out);
        emit_macro_def(toks, &p, m, &mut out);
        proof {
            let s = ms.take(k + 1);
            assert(s.drop_last() =~= ms.take(k as int));
            assert(s.last() == ms[k as int]);
            assert(toks_view(out@) =~= macros_items(toks@, inp, s, p.export));
        }
        k = k + 1;
    }
    assert(ms.take(k as int) =~= ms);
    Ok(out)
}

} // verus!
