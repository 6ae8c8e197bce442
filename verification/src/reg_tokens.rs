//! `unsafe_reg_tokens!`: modules that re-export register tokens by block, and
//! a chain of `macro_rules!` macros that define a structure of register
//! tokens.
//!
//! Blocks with `cfg` attributes each get a pair of helper macros (one for the
//! configuration where the block is present, one for where it is not),
//! chained before the macro that the input names.

use crate::case::{cat, cat3, decimal, decimal_usize, heck_snake, heck_upper_camel, to_snake_heck, to_upper_camel_heck, unkeywordize, unkeywordize_exec};
use crate::token::{TokV, close_of, copy_span, find_close, push_tok, push_word, toks_view, Delim, MacroError, Span, Tok, Vis, VisKind, expect_group, expect_ident, expect_punct, expect_word, find_named_attrs, ident_string, ident_text, is_punct, is_word, named_attrs, outer_attrs, parse_path, parse_vis, peek_punct, peek_word, spec_expect_group, spec_expect_ident, spec_expect_punct, spec_expect_word, spec_outer_attrs, spec_path, spec_vis, attrs_by_name, find_attrs_by_name};
use vstd::prelude::*;

verus! {

/// A register of a block: `attrs [!] Name;`, `!` meaning that the register
/// is left out of the token structure.
#[derive(PartialEq, Eq, Structural, Clone, Copy, Debug)]
pub struct TokReg {
    pub attrs: Span,
    pub ident: usize,
    pub skip: bool,
}

/// A block: `attrs vis mod [!] Name { regs }`, `!` meaning that no module of
/// re-exports is made for it.
#[derive(Debug)]
pub struct TokBlock {
    pub attrs: Span,
    pub vis: Vis,
    pub ident: usize,
    pub skip: bool,
    pub regs: Vec<TokReg>,
}

pub struct TokBlockV {
    pub attrs: Span,
    pub vis: Vis,
    pub ident: usize,
    pub skip: bool,
    pub regs: Seq<TokReg>,
}

impl View for TokBlock {
    type V = TokBlockV;

    open spec fn view(&self) -> TokBlockV {
        TokBlockV {
            attrs: self.attrs,
            vis: self.vis,
            ident: self.ident,
            skip: self.skip,
            regs: self.regs@,
        }
    }
}

pub open spec fn blocks_view(v: Seq<TokBlock>) -> Seq<TokBlockV> {
    v.map_values(|b: TokBlock| b@)
}

/// The input of `unsafe_reg_tokens!`.
#[derive(Debug)]
pub struct RegTokensInput {
    /// The attributes, visibility and name of the macro to define.
    pub attrs: Span,
    pub vis: Vis,
    pub ident: usize,
    /// The path of the macro that this one extends (`use macro path;`).
    pub prev_macro: Option<Span>,
    /// The path of the register modules.
    pub root_path: Span,
    /// The path after `crate` where the block modules are (`crate path;`).
    pub macro_root_path: Option<Span>,
    pub blocks: Vec<TokBlock>,
}

/// A register at `i`.
pub open spec fn spec_tok_reg(toks: Seq<Tok>, i: int, end: int) -> Result<
    (TokReg, usize),
    MacroError,
> {
    match spec_outer_attrs(toks, i, end) {
        Err(e) => Err(e),
        Ok(a) => {
            let skip = is_punct(toks, a as int, end, '!');
            let id = if skip {
                a + 1
            } else {
                a as int
            };
            match spec_expect_ident(toks, id, end) {
                Err(e) => Err(e),
                Ok(_) => match spec_expect_punct(toks, id + 1, end, ';') {
                    Err(e) => Err(e),
                    Ok(q) => Ok(
                        (TokReg { attrs: Span { start: i as usize, end: a }, ident: id as usize, skip }, q),
                    ),
                },
            }
        },
    }
}

fn parse_tok_reg(toks: &Vec<Tok>, i: usize, end: usize) -> (r: Result<(TokReg, usize), MacroError>)
    ensures
        r == spec_tok_reg(toks@, i as int, end as int),
        r matches Ok((_, n)) ==> i < n <= end,
{
    let a = outer_attrs(toks, i, end)?;
    let skip = peek_punct(toks, a, end, '!');
    let id = if skip {
        a + 1
    } else {
        a
    };
    expect_ident(toks, id, end)?;
    let q = expect_punct(toks, id + 1, end, ';')?;
    Ok((TokReg { attrs: Span { start: i, end: a }, ident: id, skip }, q))
}

/// The registers in `[i, end)`.
pub open spec fn spec_tok_regs(toks: Seq<Tok>, i: int, end: int) -> Result<Seq<TokReg>, MacroError>
    decreases end - i,
{
    if i >= end {
        Ok(Seq::empty())
    } else {
        match spec_tok_reg(toks, i, end) {
            Err(e) => Err(e),
            Ok((r, q)) => if q > i && q <= end {
                match spec_tok_regs(toks, q as int, end) {
                    Err(e) => Err(e),
                    Ok(rest) => Ok(seq![r] + rest),
                }
            } else {
                Ok(seq![r])
            },
        }
    }
}

fn parse_tok_regs(toks: &Vec<Tok>, i: usize, end: usize) -> (r: Result<Vec<TokReg>, MacroError>)
    ensures
        r matches Ok(v) ==> spec_tok_regs(toks@, i as int, end as int) == Ok::<
            Seq<TokReg>,
            MacroError,
        >(v@),
        r matches Err(e) ==> spec_tok_regs(toks@, i as int, end as int) == Err::<
            Seq<TokReg>,
            MacroError,
        >(e),
{
    let mut out: Vec<TokReg> = Vec::new();
    let mut j = i;
    while j < end
        invariant
            i <= j,
            spec_tok_regs(toks@, i as int, end as int) == (match spec_tok_regs(
                toks@,
                j as int,
                end as int,
            ) {
                Ok(rest) => Ok(out@ + rest),
                Err(e) => Err(e),
            }),
        decreases end - j,
    {
        let (r, q) = parse_tok_reg(toks, j, end)?;
        let ghost before = out@;
        out.push(r);
        proof {
            match spec_tok_regs(toks@, q as int, end as int) {
                Ok(rest) => {
                    assert(before + (seq![r] + rest) =~= out@ + rest);
                },
                Err(_) => {},
            }
        }
        j = q;
    }
    assert(out@ + Seq::<TokReg>::empty() =~= out@);
    Ok(out)
}

/// A block at `i`.
pub open spec fn spec_tok_block(toks: Seq<Tok>, i: int, end: int) -> Result<
    (TokBlockV, usize),
    MacroError,
> {
    match spec_outer_attrs(toks, i, end) {
        Err(e) => Err(e),
        Ok(a) => {
            let v = spec_vis(toks, a as int, end);
            match spec_expect_word(toks, v.span.end as int, end, "mod") {
                Err(e) => Err(e),
                Ok(m) => {
                    let skip = is_punct(toks, m as int, end, '!');
                    let id = if skip {
                        m + 1
                    } else {
                        m as int
                    };
                    match spec_expect_ident(toks, id, end) {
                        Err(e) => Err(e),
                        Ok(_) => match spec_expect_group(toks, id + 1, end, Delim::Brace) {
                            Err(e) => Err(e),
                            Ok(c) => match spec_tok_regs(toks, id + 2, c as int) {
                                Err(e) => Err(e),
                                Ok(regs) => Ok(
                                    (
                                        TokBlockV {
                                            attrs: Span { start: i as usize, end: a },
                                            vis: v,
                                            ident: id as usize,
                                            skip,
                                            regs,
                                        },
                                        (c + 1) as usize,
                                    ),
                                ),
                            },
                        },
                    }
                },
            }
        },
    }
}

fn parse_tok_block(toks: &Vec<Tok>, i: usize, end: usize) -> (r: Result<
    (TokBlock, usize),
    MacroError,
>)
    ensures
        r matches Ok((b, n)) ==> spec_tok_block(toks@, i as int, end as int) == Ok::<
            (TokBlockV, usize),
            MacroError,
        >((b@, n)) && i < n <= end,
        r matches Err(e) ==> spec_tok_block(toks@, i as int, end as int) == Err::<
            (TokBlockV, usize),
            MacroError,
        >(e),
{
    let a = outer_attrs(toks, i, end)?;
    let v = parse_vis(toks, a, end);
    let m = expect_word(toks, v.span.end, end, "mod")?;
    let skip = peek_punct(toks, m, end, '!');
    let id = if skip {
        m + 1
    } else {
        m
    };
    expect_ident(toks, id, end)?;
    let c = expect_group(toks, id + 1, end, Delim::Brace)?;
    let regs = parse_tok_regs(toks, id + 2, c)?;
    Ok((TokBlock { attrs: Span { start: i, end: a }, vis: v, ident: id, skip, regs }, c + 1))
}

/// The blocks in `[i, end)`.
pub open spec fn spec_tok_blocks(toks: Seq<Tok>, i: int, end: int) -> Result<
    Seq<TokBlockV>,
    MacroError,
>
    decreases end - i,
{
    if i >= end {
        Ok(Seq::empty())
    } else {
        match spec_tok_block(toks, i, end) {
            Err(e) => Err(e),
            Ok((b, q)) => if q > i && q <= end {
                match spec_tok_blocks(toks, q as int, end) {
                    Err(e) => Err(e),
                    Ok(rest) => Ok(seq![b] + rest),
                }
            } else {
                Ok(seq![b])
            },
        }
    }
}

/// The input, as a value of the specification.
pub struct RegTokensInputV {
    pub attrs: Span,
    pub vis: Vis,
    pub ident: usize,
    pub prev_macro: Option<Span>,
    pub root_path: Span,
    pub macro_root_path: Option<Span>,
    pub blocks: Seq<TokBlockV>,
}

pub open spec fn input_view(i: RegTokensInput) -> RegTokensInputV {
    RegTokensInputV {
        attrs: i.attrs,
        vis: i.vis,
        ident: i.ident,
        prev_macro: i.prev_macro,
        root_path: i.root_path,
        macro_root_path: i.macro_root_path,
        blocks: blocks_view(i.blocks@),
    }
}

/// The input of `unsafe_reg_tokens!`: `attrs vis macro Name;`, optionally
/// `use macro path;`, `path;`, `crate [path];`, then the blocks.
pub open spec fn spec_reg_tokens_input(toks: Seq<Tok>) -> Result<RegTokensInputV, MacroError> {
    let end = toks.len() as int;
    match spec_outer_attrs(toks, 0, end) {
        Err(e) => Err(e),
        Ok(a) => {
            let v = spec_vis(toks, a as int, end);
            match spec_expect_word(toks, v.span.end as int, end, "macro") {
                Err(e) => Err(e),
                Ok(m) => match spec_expect_ident(toks, m as int, end) {
                    Err(e) => Err(e),
                    Ok(_) => match spec_expect_punct(toks, m + 1, end, ';') {
                        Err(e) => Err(e),
                        Ok(p) => {
                            let prev: Result<(Option<Span>, int), MacroError> = if is_word(
                                toks,
                                p as int,
                                end,
                                "use"@,
                            ) {
                                match spec_expect_word(toks, p + 1, end, "macro") {
                                    Err(e) => Err(e),
                                    Ok(_) => match spec_path(toks, p + 2, end) {
                                        Err(e) => Err(e),
                                        Ok(pe) => match spec_expect_punct(
                                            toks,
                                            pe as int,
                                            end,
                                            ';',
                                        ) {
                                            Err(e) => Err(e),
                                            Ok(q) => Ok(
                                                (
                                                    Some(
                                                        Span { start: (p + 2) as usize, end: pe },
                                                    ),
                                                    q as int,
                                                ),
                                            ),
                                        },
                                    },
                                }
                            } else {
                                Ok((None, p as int))
                            };
                            match prev {
                                Err(e) => Err(e),
                                Ok((prev_macro, q)) => match spec_path(toks, q, end) {
                                    Err(e) => Err(e),
                                    Ok(re) => match spec_expect_punct(toks, re as int, end, ';') {
                                        Err(e) => Err(e),
                                        Ok(q2) => match spec_expect_word(
                                            toks,
                                            q2 as int,
                                            end,
                                            "crate",
                                        ) {
                                            Err(e) => Err(e),
                                            Ok(q3) => {
                                                let mrp: Result<
                                                    (Option<Span>, int),
                                                    MacroError,
                                                > = if is_punct(toks, q3 as int, end, ';') {
                                                    Ok((None, q3 + 1))
                                                } else {
                                                    match spec_path(toks, q3 as int, end) {
                                                        Err(e) => Err(e),
                                                        Ok(me) => match spec_expect_punct(
                                                            toks,
                                                            me as int,
                                                            end,
                                                            ';',
                                                        ) {
                                                            Err(e) => Err(e),
                                                            Ok(q4) => Ok(
                                                                (
                                                                    Some(
                                                                        Span {
                                                                            start: q3,
                                                                            end: me,
                                                                        },
                                                                    ),
                                                                    q4 as int,
                                                                ),
                                                            ),
                                                        },
                                                    }
                                                };
                                                match mrp {
                                                    Err(e) => Err(e),
                                                    Ok((macro_root_path, q5)) => match spec_tok_blocks(
                                                        toks,
                                                        q5,
                                                        end,
                                                    ) {
                                                        Err(e) => Err(e),
                                                        Ok(blocks) => Ok(
                                                            RegTokensInputV {
                                                                attrs: Span {
                                                                    start: 0,
                                                                    end: a,
                                                                },
                                                                vis: v,
                                                                ident: m,
                                                                prev_macro,
                                                                root_path: Span {
                                                                    start: q as usize,
                                                                    end: re,
                                                                },
                                                                macro_root_path,
                                                                blocks,
                                                            },
                                                        ),
                                                    },
                                                }
                                            },
                                        },
                                    },
                                },
                            }
                        },
                    },
                },
            }
        },
    }
}

/// Reads the input of `unsafe_reg_tokens!`.
#[verifier::loop_isolation(false)]
pub fn parse_reg_tokens_input(toks: &Vec<Tok>) -> (r: Result<RegTokensInput, MacroError>)
    ensures
        r matches Ok(v) ==> spec_reg_tokens_input(toks@) == Ok::<RegTokensInputV, MacroError>(
            input_view(v),
        ),
        r matches Err(e) ==> spec_reg_tokens_input(toks@) == Err::<RegTokensInputV, MacroError>(
            e,
        ),
{
    let end = toks.len();
    let a = outer_attrs(toks, 0, end)?;
    let v = parse_vis(toks, a, end);
    let m = expect_word(toks, v.span.end, end, "macro")?;
    expect_ident(toks, m, end)?;
    let p = expect_punct(toks, m + 1, end, ';')?;
    let (prev_macro, q) = if peek_word(toks, p, end, "use") {
        expect_word(toks, p + 1, end, "macro")?;
        let pe = parse_path(toks, p + 2, end)?;
        let q = expect_punct(toks, pe, end, ';')?;
        (Some(Span { start: p + 2, end: pe }), q)
    } else {
        (None, p)
    };
    let re = parse_path(toks, q, end)?;
    let q2 = expect_punct(toks, re, end, ';')?;
    let q3 = expect_word(toks, q2, end, "crate")?;
    let (macro_root_path, q5) = if peek_punct(toks, q3, end, ';') {
        (None, q3 + 1)
    } else {
        let me = parse_path(toks, q3, end)?;
        let q4 = expect_punct(toks, me, end, ';')?;
        (Some(Span { start: q3, end: me }), q4)
    };
    let mut blocks: Vec<TokBlock> = Vec::new();
    let mut j = q5;
    while j < end
        invariant
            end == toks@.len(),
            q5 <= j,
            spec_tok_blocks(toks@, q5 as int, end as int) == (match spec_tok_blocks(
                toks@,
                j as int,
                end as int,
            ) {
                Ok(rest) => Ok(blocks_view(blocks@) + rest),
                Err(e) => Err(e),
            }),
        decreases end - j,
    {
        let ghost before = blocks_view(blocks@);
        let (b, n) = parse_tok_block(toks, j, end)?;
        let ghost bv = b@;
        blocks.push(b);
        proof {
            assert(blocks_view(blocks@) =~= before.push(bv));
            match spec_tok_blocks(toks@, n as int, end as int) {
                Ok(rest) => {
                    assert(before + (seq![bv] + rest) =~= blocks_view(blocks@) + rest);
                },
                Err(_) => {},
            }
        }
        j = n;
    }
    assert(blocks_view(blocks@) + Seq::<TokBlockV>::empty() =~= blocks_view(blocks@));
    Ok(
        RegTokensInput {
            attrs: Span { start: 0, end: a },
            vis: v,
            ident: m,
            prev_macro,
            root_path: Span { start: q, end: re },
            macro_root_path,
            blocks,
        },
    )
}

// ---------------------------------------------------------------------------
// The expansion

/// The names a register gets in the expansion: its token type (upper camel
/// case), its module (the block and the register in snake case, joined by
/// `_`) and its name inside the block's module (snake case, made a valid
/// identifier).
#[derive(Debug)]
pub struct RegNames {
    pub cml: String,
    pub long: String,
    pub short: String,
}

pub struct RegNamesV {
    pub cml: Seq<char>,
    pub long: Seq<char>,
    pub short: Seq<char>,
}

pub open spec fn reg_names_view(r: RegNames) -> RegNamesV {
    RegNamesV { cml: r.cml@, long: r.long@, short: r.short@ }
}

pub open spec fn reg_names(toks: Seq<Tok>, block_snk: Seq<char>, r: TokReg) -> RegNamesV {
    let name = ident_text(toks, r.ident as int);
    let snk = heck_snake(name);
    RegNamesV { cml: heck_upper_camel(name), long: block_snk + "_"@ + snk, short: unkeywordize(snk) }
}

/// What a block expands to: the name of its module, its attributes without
/// and with the path `cfg`, and the names of its registers.
#[derive(Debug)]
pub struct BlockPlan {
    pub name: String,
    pub plain_attrs: Vec<usize>,
    pub cfg_attrs: Vec<usize>,
    /// The attribute that holds where the `cfg` attributes do not.
    pub negated_cfg: Vec<Tok>,
    pub regs: Vec<RegNames>,
}

pub struct BlockPlanV {
    pub name: Seq<char>,
    pub plain_attrs: Seq<usize>,
    pub cfg_attrs: Seq<usize>,
    pub negated_cfg: Seq<TokV>,
    pub regs: Seq<RegNamesV>,
}

pub open spec fn block_plan_view(b: BlockPlan) -> BlockPlanV {
    BlockPlanV {
        name: b.name@,
        plain_attrs: b.plain_attrs@,
        cfg_attrs: b.cfg_attrs@,
        negated_cfg: toks_view(b.negated_cfg@),
        regs: b.regs@.map_values(|r: RegNames| reg_names_view(r)),
    }
}

pub open spec fn block_plan(toks: Seq<Tok>, b: TokBlockV) -> BlockPlanV {
    let snk = heck_snake(ident_text(toks, b.ident as int));
    BlockPlanV {
        name: unkeywordize(snk),
        plain_attrs: attrs_by_name(toks, b.attrs.start as int, b.attrs.end as int, "cfg"@, false),
        cfg_attrs: named_attrs(toks, b.attrs.start as int, b.attrs.end as int, "cfg"@),
        negated_cfg: negated_cfg(
            toks,
            named_attrs(toks, b.attrs.start as int, b.attrs.end as int, "cfg"@),
            b.attrs.end as int,
        ),
        regs: b.regs.map_values(|r: TokReg| reg_names(toks, snk, r)),
    }
}

/// The tokens after the path of the attribute whose `#` stands at `a`
/// (the group `(..)` of `#[cfg(..)]`), within `[.., end)`.
pub open spec fn attr_args(toks: Seq<Tok>, a: int, end: int) -> Seq<TokV> {
    match close_of(toks, a + 1, end) {
        Some(c) => if 0 <= a + 3 <= c <= toks.len() {
            toks_view(toks.subrange(a + 3, c))
        } else {
            Seq::empty()
        },
        None => Seq::empty(),
    }
}

/// `all ARGS` for each of the attributes `cfgs`, separated by commas.
pub open spec fn all_list(toks: Seq<Tok>, cfgs: Seq<usize>, end: int) -> Seq<TokV>
    decreases cfgs.len(),
{
    if cfgs.len() == 0 {
        Seq::empty()
    } else {
        let sep = if cfgs.len() > 1 {
            seq![TokV::Punct(',', false)]
        } else {
            Seq::empty()
        };
        all_list(toks, cfgs.drop_last(), end) + sep + seq![TokV::Ident("all"@)] + attr_args(
            toks,
            cfgs.last() as int,
            end,
        )
    }
}

/// `#[cfg(not(all(all ARGS1, all ARGS2, ..)))]`: the attribute that holds
/// exactly where not all of the attributes `cfgs` hold.
pub open spec fn negated_cfg(toks: Seq<Tok>, cfgs: Seq<usize>, end: int) -> Seq<TokV> {
    seq![
        TokV::Punct('#', false),
        TokV::Open(Delim::Bracket),
        TokV::Ident("cfg"@),
        TokV::Open(Delim::Paren),
        TokV::Ident("not"@),
        TokV::Open(Delim::Paren),
        TokV::Ident("all"@),
        TokV::Open(Delim::Paren),
    ] + all_list(toks, cfgs, end) + seq![
        TokV::Close(Delim::Paren),
        TokV::Close(Delim::Paren),
        TokV::Close(Delim::Paren),
        TokV::Close(Delim::Bracket),
    ]
}

fn push_attr_args(toks: &Vec<Tok>, a: usize, end: usize, out: &mut Vec<Tok>)
    ensures
        toks_view(final(out)@) == toks_view(old(out)@) + attr_args(toks@, a as int, end as int),
{
    let ghost start = toks_view(old(out)@);
    if end > 0 && a < end - 1 {
        match find_close(toks, a + 1, end) {
            Some(c) => {
                if a + 3 <= c && c <= toks.len() {
                    copy_span(toks, a + 3, c, out);
                    return ;
                }
            },
            None => {},
        }
    }
    assert(start + Seq::<TokV>::empty() =~= start);
}

/// Builds the attribute `#[cfg(not(all(..)))]` that negates the `cfg`
/// attributes whose `#` stand at `cfgs`, within `[.., end)`.
#[verifier::spinoff_prover]
#[verifier::rlimit(50)]
pub fn build_negated_cfg(toks: &Vec<Tok>, cfgs: &Vec<usize>, end: usize) -> (r: Vec<Tok>)
    ensures
        toks_view(r@) == negated_cfg(toks@, cfgs@, end as int),
{
    let mut out: Vec<Tok> = Vec::new();
    push_tok(&mut out, Tok::Punct('#', false));
    push_tok(&mut out, Tok::Open(Delim::Bracket));
    push_word(&mut out, "cfg");
    push_tok(&mut out, Tok::Open(Delim::Paren));
    push_word(&mut out, "not");
    push_tok(&mut out, Tok::Open(Delim::Paren));
    push_word(&mut out, "all");
    push_tok(&mut out, Tok::Open(Delim::Paren));
    let ghost head = toks_view(out@);
    assert(head =~= seq![
        TokV::Punct('#', false),
        TokV::Open(Delim::Bracket),
        TokV::Ident("cfg"@),
        TokV::Open(Delim::Paren),
        TokV::Ident("not"@),
        TokV::Open(Delim::Paren),
        TokV::Ident("all"@),
        TokV::Open(Delim::Paren),
    ]);
    let mut k: usize = 0;
    assert(head + all_list(toks@, cfgs@.take(0), end as int) =~= head);
    while k < cfgs.len()
        invariant
            k <= cfgs@.len(),
            toks_view(out@) == head + all_list(toks@, cfgs@.take(k as int), end as int),
        decreases cfgs@.len() - k,
    {
        let ghost before = toks_view(out@);
        if k > 0 {
            push_tok(&mut out, Tok::Punct(',', false));
        }
        push_word(&mut out, "all");
        push_attr_args(toks, cfgs[k], end, &mut out);
        proof {
            let t = cfgs@.take(k + 1);
            assert(t.drop_last() =~= cfgs@.take(k as int));
            assert(t.last() == cfgs@[k as int]);
            let sep = if t.len() > 1 { seq![TokV::Punct(',', false)] } else { Seq::<TokV>::empty() };
            assert(toks_view(out@) =~= before + sep + seq![TokV::Ident("all"@)] + attr_args(toks@, cfgs@[k as int] as int, end as int));
            assert(all_list(toks@, t, end as int) == all_list(toks@, cfgs@.take(k as int), end as int) + sep + seq![TokV::Ident("all"@)] + attr_args(toks@, cfgs@[k as int] as int, end as int));
            assert(toks_view(out@) =~= head + all_list(toks@, t, end as int));
        }
        k = k + 1;
    }
    assert(cfgs@.take(k as int) =~= cfgs@);
    let ghost mid = toks_view(out@);
    push_tok(&mut out, Tok::Close(Delim::Paren));
    push_tok(&mut out, Tok::Close(Delim::Paren));
    push_tok(&mut out, Tok::Close(Delim::Paren));
    push_tok(&mut out, Tok::Close(Delim::Bracket));
    assert(toks_view(out@) =~= mid + seq![
        TokV::Close(Delim::Paren),
        TokV::Close(Delim::Paren),
        TokV::Close(Delim::Paren),
        TokV::Close(Delim::Bracket),
    ]);
    out
}

fn plan_block(toks: &Vec<Tok>, b: &TokBlock) -> (r: BlockPlan)
    ensures
        block_plan_view(r) == block_plan(toks@, b@),
{
    let snk = to_snake_heck(ident_string(toks, b.ident).as_str());
    let name = unkeywordize_exec(&snk);
    let plain_attrs = find_attrs_by_name(toks, b.attrs.start, b.attrs.end, "cfg", false);
    let cfg_attrs = find_named_attrs(toks, b.attrs.start, b.attrs.end, "cfg");
    let negated_cfg = build_negated_cfg(toks, &cfg_attrs, b.attrs.end);
    let mut regs: Vec<RegNames> = Vec::new();
    let mut k: usize = 0;
    while k < b.regs.len()
        invariant
            k <= b.regs@.len(),
            snk@ == heck_snake(ident_text(toks@, b.ident as int)),
            regs@.map_values(|r: RegNames| reg_names_view(r)) == b.regs@.take(k as int).map_values(
                |r: TokReg| reg_names(toks@, snk@, r),
            ),
        decreases b.regs@.len() - k,
    {
        let r = b.regs[k];
        let text = ident_string(toks, r.ident);
        let rs = to_snake_heck(text.as_str());
        let names = RegNames {
            cml: to_upper_camel_heck(text.as_str()),
            long: cat3(snk.as_str(), "_", rs.as_str()),
            short: unkeywordize_exec(&rs),
        };
        let ghost before = regs@.map_values(|r: RegNames| reg_names_view(r));
        let ghost nv = reg_names_view(names);
        regs.push(names);
        proof {
            assert(regs@.map_values(|r: RegNames| reg_names_view(r)) =~= before.push(nv));
            assert(b.regs@.take(k + 1) =~= b.regs@.take(k as int).push(r));
            assert(b.regs@.take(k + 1).map_values(|r: TokReg| reg_names(toks@, snk@, r))
                =~= b.regs@.take(k as int).map_values(|r: TokReg| reg_names(toks@, snk@, r)).push(
                reg_names(toks@, snk@, r),
            ));
        }
        k = k + 1;
    }
    assert(b.regs@.take(k as int) =~= b.regs@);
    BlockPlan { name, plain_attrs, cfg_attrs, negated_cfg, regs }
}

/// A block has a `cfg` attribute.
pub open spec fn is_conditional(toks: Seq<Tok>, b: TokBlockV) -> bool {
    named_attrs(toks, b.attrs.start as int, b.attrs.end as int, "cfg"@).len() > 0
}

/// The indices of the blocks before `n` that are conditional (where `cond`
/// holds) or regular (where it does not), in their order.
pub open spec fn blocks_where(toks: Seq<Tok>, bs: Seq<TokBlockV>, n: int, cond: bool) -> Seq<usize>
    decreases n,
{
    if n <= 0 {
        Seq::empty()
    } else if is_conditional(toks, bs[n - 1]) == cond {
        blocks_where(toks, bs, n - 1, cond).push((n - 1) as usize)
    } else {
        blocks_where(toks, bs, n - 1, cond)
    }
}

/// The attributes of a macro: those of the input, or, for the pair of
/// helper macros of a conditional block, `#[doc(hidden)]` with the negation
/// of the block's `cfg` attributes (`Absent`) or with those attributes
/// (`Present`).
#[derive(PartialEq, Eq, Structural, Clone, Copy, Debug)]
pub enum MacroAttrs {
    Given,
    Absent(usize),
    Present(usize),
}

/// The macro that a macro hands its definitions on to: the inner macro of
/// `drone_core` where there is none, the one the input names, or a helper
/// macro of this expansion, by name.
#[derive(Debug)]
pub enum PrevMacro {
    Root,
    Given(Span),
    Local(String),
}

pub enum PrevMacroV {
    Root,
    Given(Span),
    Local(Seq<char>),
}

pub open spec fn prev_view(p: PrevMacro) -> PrevMacroV {
    match p {
        PrevMacro::Root => PrevMacroV::Root,
        PrevMacro::Given(s) => PrevMacroV::Given(s),
        PrevMacro::Local(n) => PrevMacroV::Local(n@),
    }
}

/// A `macro_rules!` macro of the expansion, with the indices of the blocks
/// whose registers it defines.
#[derive(Debug)]
pub struct MacroPlan {
    pub attrs: MacroAttrs,
    pub name: String,
    pub prev: PrevMacro,
    pub blocks: Vec<usize>,
}

pub struct MacroPlanV {
    pub attrs: MacroAttrs,
    pub name: Seq<char>,
    pub prev: PrevMacroV,
    pub blocks: Seq<usize>,
}

pub open spec fn macro_view(m: MacroPlan) -> MacroPlanV {
    MacroPlanV { attrs: m.attrs, name: m.name@, prev: prev_view(m.prev), blocks: m.blocks@ }
}

/// The name of the helper macros of the `k`-th conditional block.
pub open spec fn helper_name(toks: Seq<Tok>, ident: usize, k: nat) -> Seq<char> {
    "__"@ + ident_text(toks, ident as int) + "_cfg_"@ + decimal(k)
}

/// The macro that the `k`-th pair of helper macros (or, for the last `k`,
/// the final macro) hands on to.
pub open spec fn prev_of(toks: Seq<Tok>, inp: RegTokensInputV, k: nat) -> PrevMacroV {
    if k == 0 {
        match inp.prev_macro {
            Some(s) => PrevMacroV::Given(s),
            None => PrevMacroV::Root,
        }
    } else {
        PrevMacroV::Local(helper_name(toks, inp.ident, (k - 1) as nat))
    }
}

/// The helper macros of the first `k` conditional blocks `cs`.
pub open spec fn helper_macros(toks: Seq<Tok>, inp: RegTokensInputV, cs: Seq<usize>, k: nat) -> Seq<
    MacroPlanV,
>
    decreases k,
{
    if k == 0 {
        Seq::empty()
    } else {
        let j = (k - 1) as nat;
        let name = helper_name(toks, inp.ident, j);
        let prev = prev_of(toks, inp, j);
        helper_macros(toks, inp, cs, j).push(
            MacroPlanV { attrs: MacroAttrs::Absent(cs[j as int]), name, prev, blocks: Seq::empty() },
        ).push(
            MacroPlanV {
                attrs: MacroAttrs::Present(cs[j as int]),
                name,
                prev,
                blocks: seq![cs[j as int]],
            },
        )
    }
}

/// All the macros of the expansion: the helper pairs, then the macro that
/// the input names, which defines the regular blocks.
pub open spec fn macro_plans(toks: Seq<Tok>, inp: RegTokensInputV) -> Seq<MacroPlanV> {
    let n = inp.blocks.len() as int;
    let cs = blocks_where(toks, inp.blocks, n, true);
    helper_macros(toks, inp, cs, cs.len()).push(
        MacroPlanV {
            attrs: MacroAttrs::Given,
            name: ident_text(toks, inp.ident as int),
            prev: prev_of(toks, inp, cs.len()),
            blocks: blocks_where(toks, inp.blocks, n, false),
        },
    )
}

/// The blocks are split between the helper macros and the final one: the
/// indices of the conditional blocks and those of the regular blocks each
/// come in increasing order, and every block is in exactly one of them,
/// after whether it has a `cfg` attribute.
pub proof fn law_blocks_split(toks: Seq<Tok>, bs: Seq<TokBlockV>, n: int, cond: bool)
    requires
        0 <= n <= bs.len(),
        bs.len() <= usize::MAX,
    ensures
        forall|m: int|
            0 <= m < blocks_where(toks, bs, n, cond).len() ==> #[trigger] blocks_where(
                toks,
                bs,
                n,
                cond,
            )[m] < n,
        forall|m1: int, m2: int|
            0 <= m1 < m2 < blocks_where(toks, bs, n, cond).len() ==> #[trigger] blocks_where(
                toks,
                bs,
                n,
                cond,
            )[m1] < #[trigger] blocks_where(toks, bs, n, cond)[m2],
        forall|k: int|
            0 <= k < n ==> (blocks_where(toks, bs, n, cond).contains(k as usize) <==> (
            is_conditional(toks, #[trigger] bs[k]) == cond)),
    decreases n,
{
    if n > 0 {
        law_blocks_split(toks, bs, n - 1, cond);
        let pre = blocks_where(toks, bs, n - 1, cond);
        let all = blocks_where(toks, bs, n, cond);
        assert forall|k: int| 0 <= k < n implies (all.contains(k as usize) <==> (is_conditional(
            toks,
            #[trigger] bs[k],
        ) == cond)) by {
            if k < n - 1 {
                if is_conditional(toks, bs[n - 1]) == cond {
                    assert(all == pre.push((n - 1) as usize));
                    if all.contains(k as usize) {
                        let m = choose|m: int| 0 <= m < all.len() && all[m] == k as usize;
                        if m < pre.len() {
                            assert(pre[m] == all[m]);
                        }
                    }
                    if pre.contains(k as usize) {
                        let m = choose|m: int| 0 <= m < pre.len() && pre[m] == k as usize;
                        assert(all[m] == pre[m]);
                    }
                }
            } else {
                if is_conditional(toks, bs[n - 1]) == cond {
                    assert(all[pre.len() as int] == k as usize);
                } else {
                    if all.contains(k as usize) {
                        let m = choose|m: int| 0 <= m < all.len() && all[m] == k as usize;
                        assert(all[m] < n - 1);
                    }
                }
            }
        }
    }
}

proof fn lemma_helper_macros(toks: Seq<Tok>, inp: RegTokensInputV, cs: Seq<usize>, k: nat)
    requires
        k <= cs.len(),
    ensures
        helper_macros(toks, inp, cs, k).len() == 2 * k,
        forall|j: int|
            0 <= j < k ==> {
                &&& (#[trigger] helper_macros(toks, inp, cs, k)[2 * j]).attrs == MacroAttrs::Absent(cs[j])
                &&& helper_macros(toks, inp, cs, k)[2 * j + 1].attrs == MacroAttrs::Present(cs[j])
                &&& helper_macros(toks, inp, cs, k)[2 * j].name == helper_name(toks, inp.ident, j as nat)
                &&& helper_macros(toks, inp, cs, k)[2 * j + 1].name == helper_name(toks, inp.ident, j as nat)
                &&& helper_macros(toks, inp, cs, k)[2 * j].prev == prev_of(toks, inp, j as nat)
                &&& helper_macros(toks, inp, cs, k)[2 * j + 1].prev == prev_of(toks, inp, j as nat)
                &&& helper_macros(toks, inp, cs, k)[2 * j].blocks == Seq::<usize>::empty()
                &&& helper_macros(toks, inp, cs, k)[2 * j + 1].blocks == seq![cs[j]]
            },
    decreases k,
{
    if k > 0 {
        lemma_helper_macros(toks, inp, cs, (k - 1) as nat);
        let pre = helper_macros(toks, inp, cs, (k - 1) as nat);
        let ms = helper_macros(toks, inp, cs, k);
        assert forall|j: int| 0 <= j < k implies {
            &&& (#[trigger] ms[2 * j]).attrs == MacroAttrs::Absent(cs[j])
            &&& ms[2 * j + 1].attrs == MacroAttrs::Present(cs[j])
            &&& ms[2 * j].name == helper_name(toks, inp.ident, j as nat)
            &&& ms[2 * j + 1].name == helper_name(toks, inp.ident, j as nat)
            &&& ms[2 * j].prev == prev_of(toks, inp, j as nat)
            &&& ms[2 * j + 1].prev == prev_of(toks, inp, j as nat)
            &&& ms[2 * j].blocks == Seq::<usize>::empty()
            &&& ms[2 * j + 1].blocks == seq![cs[j]]
        } by {
            if j < k - 1 {
                assert(ms[2 * j] == pre[2 * j]);
                assert(ms[2 * j + 1] == pre[2 * j + 1]);
            }
        }
    }
}

/// The macros form a chain: a pair of helper macros for each conditional
/// block, in order, the first of the pair without the block and the second
/// with it, both under the pair's name; then the macro that the input
/// names, with the regular blocks. Each pair, and the last macro, hands its
/// definitions on to the macro of the pair before it; the first pair hands
/// them on to the macro that the input names after `use macro`, or to the
/// inner macro of `drone_core`.
pub proof fn law_macro_chain(toks: Seq<Tok>, inp: RegTokensInputV)
    ensures
        ({
            let cs = blocks_where(toks, inp.blocks, inp.blocks.len() as int, true);
            let ms = macro_plans(toks, inp);
            &&& ms.len() == 2 * cs.len() + 1
            &&& ms[2 * cs.len() as int].attrs == MacroAttrs::Given
            &&& ms[2 * cs.len() as int].name == ident_text(toks, inp.ident as int)
            &&& ms[2 * cs.len() as int].blocks == blocks_where(
                toks,
                inp.blocks,
                inp.blocks.len() as int,
                false,
            )
            &&& ms[0].prev == (match inp.prev_macro {
                Some(s) => PrevMacroV::Given(s),
                None => PrevMacroV::Root,
            })
            &&& forall|j: int|
                0 <= j < cs.len() ==> {
                    &&& (#[trigger] ms[2 * j]).attrs == MacroAttrs::Absent(cs[j])
                    &&& ms[2 * j + 1].attrs == MacroAttrs::Present(cs[j])
                    &&& ms[2 * j].name == ms[2 * j + 1].name
                    &&& ms[2 * j].prev == ms[2 * j + 1].prev
                    &&& ms[2 * j].blocks == Seq::<usize>::empty()
                    &&& ms[2 * j + 1].blocks == seq![cs[j]]
                }
            &&& forall|j: int|
                0 < j <= cs.len() ==> (#[trigger] ms[2 * j]).prev == PrevMacroV::Local(
                    ms[2 * j - 1].name,
                )
        }),
{
    let cs = blocks_where(toks, inp.blocks, inp.blocks.len() as int, true);
    let ms = macro_plans(toks, inp);
    let hs = helper_macros(toks, inp, cs, cs.len());
    lemma_helper_macros(toks, inp, cs, cs.len());
    assert(ms == hs.push(
        MacroPlanV {
            attrs: MacroAttrs::Given,
            name: ident_text(toks, inp.ident as int),
            prev: prev_of(toks, inp, cs.len()),
            blocks: blocks_where(toks, inp.blocks, inp.blocks.len() as int, false),
        },
    ));
    assert forall|j: int| 0 <= j < cs.len() implies {
        &&& (#[trigger] ms[2 * j]).attrs == MacroAttrs::Absent(cs[j])
        &&& ms[2 * j + 1].attrs == MacroAttrs::Present(cs[j])
        &&& ms[2 * j].name == ms[2 * j + 1].name
        &&& ms[2 * j].prev == ms[2 * j + 1].prev
        &&& ms[2 * j].blocks == Seq::<usize>::empty()
        &&& ms[2 * j + 1].blocks == seq![cs[j]]
    } by {
        assert(ms[2 * j] == hs[2 * j]);
        assert(ms[2 * j + 1] == hs[2 * j + 1]);
    }
    assert forall|j: int| 0 < j <= cs.len() implies (#[trigger] ms[2 * j]).prev == PrevMacroV::Local(
        ms[2 * j - 1].name,
    ) by {
        assert(hs[2 * (j - 1)] == ms[2 * (j - 1)]);
        assert(ms[2 * j - 1] == hs[2 * (j - 1) + 1]);
        if j < cs.len() {
            assert(ms[2 * j] == hs[2 * j]);
        }
    }
    assert(ms[2 * cs.len() as int].prev == prev_of(toks, inp, cs.len()));
    if cs.len() > 0 {
        assert(ms[0] == hs[2 * 0int]);
    }
}

/// What `unsafe_reg_tokens!` expands to.
#[derive(Debug)]
pub struct RegTokensPlan {
    pub input: RegTokensInput,
    /// The macros are exported (the input's visibility is `pub`), and refer
    /// to each other by `$crate::`.
    pub export: bool,
    pub blocks: Vec<BlockPlan>,
    pub macros: Vec<MacroPlan>,
}

fn collect_blocks(toks: &Vec<Tok>, bs: &Vec<TokBlock>) -> (r: (Vec<usize>, Vec<usize>))
    ensures
        r.0@ == blocks_where(toks@, blocks_view(bs@), bs@.len() as int, true),
        r.1@ == blocks_where(toks@, blocks_view(bs@), bs@.len() as int, false),
{
    let ghost v = blocks_view(bs@);
    let mut cs: Vec<usize> = Vec::new();
    let mut rs: Vec<usize> = Vec::new();
    let mut k: usize = 0;
    while k < bs.len()
        invariant
            k <= bs@.len(),
            v == blocks_view(bs@),
            cs@ == blocks_where(toks@, v, k as int, true),
            rs@ == blocks_where(toks@, v, k as int, false),
        decreases bs@.len() - k,
    {
        let b = &bs[k];
        let cfgs = find_named_attrs(toks, b.attrs.start, b.attrs.end, "cfg");
        assert(v[k as int] == b@);
        if cfgs.len() > 0 {
            cs.push(k);
        } else {
            rs.push(k);
        }
        k = k + 1;
    }
    (cs, rs)
}

fn helper_macro_name(toks: &Vec<Tok>, ident: usize, k: usize) -> (r: String)
    ensures
        r@ == helper_name(toks@, ident, k as nat),
{
    let a = cat3("__", ident_string(toks, ident).as_str(), "_cfg_");
    cat(a.as_str(), decimal_usize(k).as_str())
}

fn initial_prev(inp: &RegTokensInput) -> (r: PrevMacro)
    ensures
        prev_view(r) == (match inp.prev_macro {
            Some(s) => PrevMacroV::Given(s),
            None => PrevMacroV::Root,
        }),
{
    match inp.prev_macro {
        Some(s) => PrevMacro::Given(s),
        None => PrevMacro::Root,
    }
}

/// `unsafe_reg_tokens!` on the input `toks`.
pub fn unsafe_reg_tokens(toks: &Vec<Tok>) -> (r: Result<RegTokensPlan, MacroError>)
    ensures
        r matches Err(e) ==> spec_reg_tokens_input(toks@) == Err::<RegTokensInputV, MacroError>(
            e,
        ),
        r matches Ok(p) ==> {
            &&& spec_reg_tokens_input(toks@) == Ok::<RegTokensInputV, MacroError>(
                input_view(p.input),
            )
            &&& p.export == (p.input.vis.kind == VisKind::Public)
            &&& p.blocks@.map_values(|b: BlockPlan| block_plan_view(b)) == blocks_view(
                p.input.blocks@,
            ).map_values(|b: TokBlockV| block_plan(toks@, b))
            &&& p.macros@.map_values(|m: MacroPlan| macro_view(m)) == macro_plans(
                toks@,
                input_view(p.input),
            )
        },
{
    let input = parse_reg_tokens_input(toks)?;
    let ghost inp = input_view(input);
    let ghost bv = blocks_view(input.blocks@);
    let export = match input.vis.kind {
        VisKind::Public => true,
        _ => false,
    };
    let mut blocks: Vec<BlockPlan> = Vec::new();
    let mut k: usize = 0;
    while k < input.blocks.len()
        invariant
            k <= input.blocks@.len(),
            bv == blocks_view(input.blocks@),
            blocks@.map_values(|b: BlockPlan| block_plan_view(b)) == bv.take(k as int).map_values(
                |b: TokBlockV| block_plan(toks@, b),
            ),
        decreases input.blocks@.len() - k,
    {
        let bp = plan_block(toks, &input.blocks[k]);
        let ghost before = blocks@.map_values(|b: BlockPlan| block_plan_view(b));
        let ghost pv = block_plan_view(bp);
        blocks.push(bp);
        proof {
            assert(blocks@.map_values(|b: BlockPlan| block_plan_view(b)) =~= before.push(pv));
            assert(bv.take(k + 1) =~= bv.take(k as int).push(bv[k as int]));
            assert(bv.take(k + 1).map_values(|b: TokBlockV| block_plan(toks@, b)) =~= bv.take(
                k as int,
            ).map_values(|b: TokBlockV| block_plan(toks@, b)).push(block_plan(toks@, bv[k as int])));
        }
        k = k + 1;
    }
    assert(bv.take(k as int) =~= bv);
    let (cs, rs) = collect_blocks(toks, &input.blocks);
    let mut macros: Vec<MacroPlan> = Vec::new();
    let mut j: usize = 0;
    while j < cs.len()
        invariant
            j <= cs@.len(),
            inp == input_view(input),
            cs@ == blocks_where(toks@, inp.blocks, inp.blocks.len() as int, true),
            macros@.map_values(|m: MacroPlan| macro_view(m)) == helper_macros(
                toks@,
                inp,
                cs@,
                j as nat,
            ),
        decreases cs@.len() - j,
    {
        let c = cs[j];
        let prev_absent = if j == 0 {
            initial_prev(&input)
        } else {
            PrevMacro::Local(helper_macro_name(toks, input.ident, j - 1))
        };
        let prev_present = if j == 0 {
            initial_prev(&input)
        } else {
            PrevMacro::Local(helper_macro_name(toks, input.ident, j - 1))
        };
        let ghost before = macros@.map_values(|m: MacroPlan| macro_view(m));
        let absent = MacroPlan {
            attrs: MacroAttrs::Absent(c),
            name: helper_macro_name(toks, input.ident, j),
            prev: prev_absent,
            blocks: Vec::new(),
        };
        let mut one: Vec<usize> = Vec::new();
        one.push(c);
        let present = MacroPlan {
            attrs: MacroAttrs::Present(c),
            name: helper_macro_name(toks, input.ident, j),
            prev: prev_present,
            blocks: one,
        };
        let ghost av = macro_view(absent);
        let ghost pv = macro_view(present);
        macros.push(absent);
        macros.push(present);
        proof {
            assert(av.blocks =~= Seq::<usize>::empty());
            assert(pv.blocks =~= seq![c]);
            assert(macros@.map_values(|m: MacroPlan| macro_view(m)) =~= before.push(av).push(pv));
        }
        j = j + 1;
    }
    let last_prev = if cs.len() == 0 {
        initial_prev(&input)
    } else {
        PrevMacro::Local(helper_macro_name(toks, input.ident, cs.len() - 1))
    };
    let last = MacroPlan {
        attrs: MacroAttrs::Given,
        name: ident_string(toks, input.ident),
        prev: last_prev,
        blocks: rs,
    };
    let ghost before = macros@.map_values(|m: MacroPlan| macro_view(m));
    let ghost lv = macro_view(last);
    macros.push(last);
    assert(macros@.map_values(|m: MacroPlan| macro_view(m)) =~= before.push(lv));
    Ok(RegTokensPlan { input, export, blocks, macros })
}

} // verus!
