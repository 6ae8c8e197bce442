//! The structure of register tokens: `attrs vis struct Name;` followed by
//! blocks `Block { attrs Reg; .. }`. Each register becomes a field of the
//! structure, named by its block and its own name in snake case, whose type
//! is the register's structure in the block's module.

use crate::case::{
    inflector_pascal, inflector_snake, to_pascal_inflector, to_snake_inflector, unkeywordize,
    unkeywordize_exec,
};
use crate::token::{
    TokV, emit_close, emit_joint, emit_open, emit_punct, emit_span, emit_string, emit_word,
    span_toks, tclose, tj, topen, toks_view, tp, tw, expect_group, expect_ident, expect_punct, expect_word, ident_string, ident_text, outer_attrs,
    parse_vis, spec_expect_group, spec_expect_ident, spec_expect_punct, spec_expect_word,
    spec_outer_attrs, spec_vis, Delim, MacroError, Span, Tok, Vis,
};
use vstd::prelude::*;

verus! {

/// A register of a block: the position of the block's name, the register's
/// attributes and the position of its name.
#[derive(PartialEq, Eq, Structural, Clone, Copy, Debug)]
pub struct BlockReg {
    pub block: usize,
    pub attrs: Span,
    pub ident: usize,
}

/// A register `attrs Name;` at `i`, of the block named at `b`.
pub open spec fn spec_block_reg(toks: Seq<Tok>, b: int, i: int, end: int) -> Result<
    BlockReg,
    MacroError,
> {
    match spec_outer_attrs(toks, i, end) {
        Err(e) => Err(e),
        Ok(a) => match spec_expect_ident(toks, a as int, end) {
            Err(e) => Err(e),
            Ok(_) => match spec_expect_punct(toks, a + 1, end, ';') {
                Err(e) => Err(e),
                Ok(_) => Ok(
                    BlockReg { block: b as usize, attrs: Span { start: i as usize, end: a }, ident: a },
                ),
            },
        },
    }
}

/// The registers in `[i, end)`, of the block named at `b`.
pub open spec fn spec_block_regs(toks: Seq<Tok>, b: int, i: int, end: int) -> Result<
    Seq<BlockReg>,
    MacroError,
>
    decreases end - i,
{
    if i >= end {
        Ok(Seq::empty())
    } else {
        match spec_block_reg(toks, b, i, end) {
            Err(e) => Err(e),
            Ok(r) => if r.ident + 2 > i {
                match spec_block_regs(toks, b, r.ident + 2, end) {
                    Err(e) => Err(e),
                    Ok(rest) => Ok(seq![r] + rest),
                }
            } else {
                Ok(seq![r])
            },
        }
    }
}

/// The blocks `Name { regs }` in `[i, end)`: their registers, in order.
pub open spec fn spec_blocks(toks: Seq<Tok>, i: int, end: int) -> Result<
    Seq<BlockReg>,
    MacroError,
>
    decreases end - i,
{
    if i >= end {
        Ok(Seq::empty())
    } else {
        match spec_expect_ident(toks, i, end) {
            Err(e) => Err(e),
            Ok(_) => match spec_expect_group(toks, i + 1, end, Delim::Brace) {
                Err(e) => Err(e),
                Ok(c) => match spec_block_regs(toks, i, i + 2, c as int) {
                    Err(e) => Err(e),
                    Ok(regs) => if c + 1 > i && c + 1 <= end {
                        match spec_blocks(toks, c + 1, end) {
                            Err(e) => Err(e),
                            Ok(rest) => Ok(regs + rest),
                        }
                    } else {
                        Ok(regs)
                    },
                },
            },
        }
    }
}

fn parse_block_reg(toks: &Vec<Tok>, b: usize, i: usize, end: usize) -> (r: Result<
    BlockReg,
    MacroError,
>)
    ensures
        r == spec_block_reg(toks@, b as int, i as int, end as int),
        r matches Ok(reg) ==> i <= reg.ident && reg.ident + 2 <= end,
{
    let a = outer_attrs(toks, i, end)?;
    expect_ident(toks, a, end)?;
    expect_punct(toks, a + 1, end, ';')?;
    Ok(BlockReg { block: b, attrs: Span { start: i, end: a }, ident: a })
}

fn parse_block_regs(toks: &Vec<Tok>, b: usize, i: usize, end: usize) -> (r: Result<
    Vec<BlockReg>,
    MacroError,
>)
    ensures
        r matches Ok(v) ==> spec_block_regs(toks@, b as int, i as int, end as int) == Ok::<
            Seq<BlockReg>,
            MacroError,
        >(v@),
        r matches Err(e) ==> spec_block_regs(toks@, b as int, i as int, end as int) == Err::<
            Seq<BlockReg>,
            MacroError,
        >(e),
{
    let mut out: Vec<BlockReg> = Vec::new();
    let mut j = i;
    while j < end
        invariant
            i <= j,
            spec_block_regs(toks@, b as int, i as int, end as int) == (match spec_block_regs(
                toks@,
                b as int,
                j as int,
                end as int,
            ) {
                Ok(rest) => Ok(out@ + rest),
                Err(e) => Err(e),
            }),
        decreases end - j,
    {
        let r = parse_block_reg(toks, b, j, end)?;
        let ghost before = out@;
        out.push(r);
        proof {
            match spec_block_regs(toks@, b as int, r.ident + 2, end as int) {
                Ok(rest) => {
                    assert(before + (seq![r] + rest) =~= out@ + rest);
                },
                Err(_) => {},
            }
        }
        j = r.ident + 2;
    }
    assert(out@ + Seq::<BlockReg>::empty() =~= out@);
    Ok(out)
}

fn parse_blocks(toks: &Vec<Tok>, i: usize, end: usize) -> (r: Result<Vec<BlockReg>, MacroError>)
    ensures
        r matches Ok(v) ==> spec_blocks(toks@, i as int, end as int) == Ok::<
            Seq<BlockReg>,
            MacroError,
        >(v@),
        r matches Err(e) ==> spec_blocks(toks@, i as int, end as int) == Err::<
            Seq<BlockReg>,
            MacroError,
        >(e),
{
    let mut out: Vec<BlockReg> = Vec::new();
    let mut j = i;
    while j < end
        invariant
            i <= j,
            spec_blocks(toks@, i as int, end as int) == (match spec_blocks(
                toks@,
                j as int,
                end as int,
            ) {
                Ok(rest) => Ok(out@ + rest),
                Err(e) => Err(e),
            }),
        decreases end - j,
    {
        expect_ident(toks, j, end)?;
        let c = expect_group(toks, j + 1, end, Delim::Brace)?;
        let mut regs = parse_block_regs(toks, j, j + 2, c)?;
        let ghost before = out@;
        let ghost rs = regs@;
        out.append(&mut regs);
        proof {
            match spec_blocks(toks@, c + 1, end as int) {
                Ok(rest) => {
                    assert(before + (rs + rest) =~= out@ + rest);
                },
                Err(_) => {},
            }
        }
        j = c + 1;
    }
    assert(out@ + Seq::<BlockReg>::empty() =~= out@);
    Ok(out)
}

/// The input as read: the structure's attributes, visibility and name, and
/// the registers of all blocks, in order.
pub struct TokensStructInput {
    pub attrs: Span,
    pub vis: Vis,
    pub ident: usize,
    pub regs: Seq<BlockReg>,
}

pub open spec fn spec_tokens_struct_input(toks: Seq<Tok>) -> Result<TokensStructInput, MacroError> {
    let end = toks.len() as int;
    match spec_outer_attrs(toks, 0, end) {
        Err(e) => Err(e),
        Ok(a) => {
            let v = spec_vis(toks, a as int, end);
            let s = v.span.end as int;
            match spec_expect_word(toks, s, end, "struct") {
                Err(e) => Err(e),
                Ok(_) => match spec_expect_ident(toks, s + 1, end) {
                    Err(e) => Err(e),
                    Ok(_) => match spec_expect_punct(toks, s + 2, end, ';') {
                        Err(e) => Err(e),
                        Ok(_) => match spec_blocks(toks, s + 3, end) {
                            Err(e) => Err(e),
                            Ok(regs) => Ok(
                                TokensStructInput {
                                    attrs: Span { start: 0, end: a },
                                    vis: v,
                                    ident: (s + 1) as usize,
                                    regs,
                                },
                            ),
                        },
                    },
                },
            }
        },
    }
}

/// A field of the structure of tokens: the register's attributes, the
/// module of its block, its structure there, and the field's name.
#[derive(Debug)]
pub struct TokenField {
    pub attrs: Span,
    pub block_mod: String,
    pub reg_struct: String,
    pub name: String,
}

pub struct TokenFieldV {
    pub attrs: Span,
    pub block_mod: Seq<char>,
    pub reg_struct: Seq<char>,
    pub name: Seq<char>,
}

pub open spec fn token_field_view(f: TokenField) -> TokenFieldV {
    TokenFieldV { attrs: f.attrs, block_mod: f.block_mod@, reg_struct: f.reg_struct@, name: f.name@ }
}

/// The field of the register `r`: its block's name in snake case (with an
/// underscore after a reserved word) is the module; the register's name in
/// Pascal case is the structure; the field is named by the block's and the
/// register's names in snake case, joined by an underscore.
pub open spec fn token_field(toks: Seq<Tok>, r: BlockReg) -> TokenFieldV {
    let block = inflector_snake(ident_text(toks, r.block as int));
    let reg = ident_text(toks, r.ident as int);
    TokenFieldV {
        attrs: r.attrs,
        block_mod: unkeywordize(block),
        reg_struct: inflector_pascal(reg),
        name: block + "_"@ + inflector_snake(reg),
    }
}

/// What the macro expands to: a module `rt` of runtime names, the structure
/// (with the input's attributes, visibility and name) with one field for
/// each register, and its constructor.
#[derive(Debug)]
pub struct TokensStructPlan {
    pub attrs: Span,
    pub vis: Vis,
    pub ident: usize,
    pub rt: String,
    pub fields: Vec<TokenField>,
}

fn field_of(toks: &Vec<Tok>, r: BlockReg) -> (f: TokenField)
    ensures
        token_field_view(f) == token_field(toks@, r),
{
    let block = ident_string(toks, r.block);
    let block = to_snake_inflector(block.as_str());
    let reg = ident_string(toks, r.ident);
    let block_mod = unkeywordize_exec(&block);
    let reg_struct = to_pascal_inflector(reg.as_str());
    let reg_snk = to_snake_inflector(reg.as_str());
    let name = block.concat("_").concat(reg_snk.as_str());
    TokenField { attrs: r.attrs, block_mod, reg_struct, name }
}

/// The structure of register tokens on the input `toks`; the module of
/// runtime names is `__reg_tokens_rt_` and the structure's name in snake
/// case.
pub fn reg_tokens_struct(toks: &Vec<Tok>) -> (r: Result<TokensStructPlan, MacroError>)
    ensures
        r matches Err(e) ==> spec_tokens_struct_input(toks@) == Err::<TokensStructInput, MacroError>(
            e,
        ),
        r matches Ok(p) ==> spec_tokens_struct_input(toks@) matches Ok(inp) && p.attrs == inp.attrs
            && p.vis == inp.vis && p.ident == inp.ident && p.rt@ == "__reg_tokens_rt_"@
            + inflector_snake(ident_text(toks@, inp.ident as int)) && p.fields@.map_values(
            |f: TokenField| token_field_view(f),
        ) == inp.regs.map_values(|reg: BlockReg| token_field(toks@, reg)),
{
    let end = toks.len();
    let a = outer_attrs(toks, 0, end)?;
    let v = parse_vis(toks, a, end);
    let s = v.span.end;
    expect_word(toks, s, end, "struct")?;
    expect_ident(toks, s + 1, end)?;
    expect_punct(toks, s + 2, end, ';')?;
    let regs = parse_blocks(toks, s + 3, end)?;
    let mut fields: Vec<TokenField> = Vec::new();
    let mut k: usize = 0;
    while k < regs.len()
        invariant
            k <= regs@.len(),
            fields@.map_values(|f: TokenField| token_field_view(f)) == regs@.subrange(
                0,
                k as int,
            ).map_values(|reg: BlockReg| token_field(toks@, reg)),
        decreases regs@.len() - k,
    {
        let f = field_of(toks, regs[k]);
        let ghost before = fields@;
        fields.push(f);
        proof {
            assert(fields@.map_values(|f: TokenField| token_field_view(f)) =~= before.map_values(
                |f: TokenField| token_field_view(f),
            ).push(token_field_view(f)));
            assert(regs@.subrange(0, k + 1).map_values(|reg: BlockReg| token_field(toks@, reg))
                =~= regs@.subrange(0, k as int).map_values(
                |reg: BlockReg| token_field(toks@, reg),
            ).push(token_field(toks@, regs@[k as int])));
        }
        k = k + 1;
    }
    assert(regs@.subrange(0, regs@.len() as int) =~= regs@);
    let name = ident_string(toks, s + 1);
    let snk = to_snake_inflector(name.as_str());
    let rt = String::from_str("__reg_tokens_rt_").concat(snk.as_str());
    Ok(TokensStructPlan { attrs: Span { start: 0, end: a }, vis: v, ident: s + 1, rt, fields })
}


// ---------------------------------------------------------------------------
// The expansion

/// `mod RT { extern crate drone_core; pub use self::drone_core::reg::{Reg,
/// RegTokens, Srt}; }`
pub open spec fn rt_module(rt: Seq<char>) -> Seq<TokV> {
    tw("mod"@) + tw(rt) + topen(Delim::Brace) + tw("extern"@) + tw("crate"@) + tw("drone_core"@)
        + tp(';') + tw("pub"@) + tw("use"@) + tw("self"@) + tj(':', ':') + tw("drone_core"@) + tj(
        ':',
        ':',
    ) + tw("reg"@) + tj(':', ':') + topen(Delim::Brace) + tw("Reg"@) + tp(',') + tw("RegTokens"@)
        + tp(',') + tw("Srt"@) + tclose(Delim::Brace) + tp(';') + tclose(Delim::Brace)
}

/// The field of a register: `ATTRS pub NAME: BLOCK::Reg<RT::Srt>`.
pub open spec fn field_decl(toks: Seq<Tok>, f: TokenFieldV, rt: Seq<char>) -> Seq<TokV> {
    span_toks(toks, f.attrs) + tw("pub"@) + tw(f.name) + tp(':') + tw(f.block_mod) + tj(':', ':')
        + tw(f.reg_struct) + tp('<') + tw(rt) + tj(':', ':') + tw("Srt"@) + tp('>')
}

/// The fields, separated by commas.
pub open spec fn field_decls(toks: Seq<Tok>, fs: Seq<TokenFieldV>, rt: Seq<char>) -> Seq<TokV>
    decreases fs.len(),
{
    if fs.len() == 0 {
        Seq::empty()
    } else {
        field_decls(toks, fs.drop_last(), rt) + (if fs.len() > 1 {
            tp(',')
        } else {
            Seq::empty()
        }) + field_decl(toks, fs.last(), rt)
    }
}

/// The field's value in the constructor: `NAME: <BLOCK::Reg<_> as
/// RT::Reg<_>>::new(),`.
pub open spec fn field_ctor(f: TokenFieldV, rt: Seq<char>) -> Seq<TokV> {
    tw(f.name) + tp(':') + tp('<') + tw(f.block_mod) + tj(':', ':') + tw(f.reg_struct) + tp('<')
        + tw("_"@) + tp('>') + tw("as"@) + tw(rt) + tj(':', ':') + tw("Reg"@) + tp('<') + tw("_"@)
        + tp('>') + tp('>') + tj(':', ':') + tw("new"@) + topen(Delim::Paren) + tclose(Delim::Paren)
        + tp(',')
}

pub open spec fn field_ctors(fs: Seq<TokenFieldV>, rt: Seq<char>) -> Seq<TokV>
    decreases fs.len(),
{
    if fs.len() == 0 {
        Seq::empty()
    } else {
        field_ctors(fs.drop_last(), rt) + field_ctor(fs.last(), rt)
    }
}

/// What the macro expands to, for the input as read: the module of runtime
/// names, the structure with a field for each register, and its
/// constructor `unsafe fn new() -> Self` in the implementation of
/// `RegTokens`.
pub open spec fn expansion(toks: Seq<Tok>, inp: TokensStructInput) -> Seq<TokV> {
    let name = Span { start: inp.ident, end: (inp.ident + 1) as usize };
    let rt = "__reg_tokens_rt_"@ + inflector_snake(ident_text(toks, inp.ident as int));
    let fs = inp.regs.map_values(|reg: BlockReg| token_field(toks, reg));
    rt_module(rt) + span_toks(toks, inp.attrs) + span_toks(toks, inp.vis.span) + tw("struct"@)
        + span_toks(toks, name) + topen(Delim::Brace) + field_decls(toks, fs, rt) + tclose(
        Delim::Brace,
    ) + tw("impl"@) + tw(rt) + tj(':', ':') + tw("RegTokens"@) + tw("for"@) + span_toks(toks, name)
        + topen(Delim::Brace) + tw("unsafe"@) + tw("fn"@) + tw("new"@) + topen(Delim::Paren)
        + tclose(Delim::Paren) + tj('-', '>') + tw("Self"@) + topen(Delim::Brace) + tw("Self"@)
        + topen(Delim::Brace) + field_ctors(fs, rt) + tclose(Delim::Brace) + tclose(Delim::Brace)
        + tclose(Delim::Brace)
}

/// The expansion of the macro on the input `toks`.
pub open spec fn spec_expand_reg_tokens_struct(toks: Seq<Tok>) -> Result<Seq<TokV>, MacroError> {
    match spec_tokens_struct_input(toks) {
        Err(e) => Err(e),
        Ok(inp) => Ok(expansion(toks, inp)),
    }
}

#[verifier::spinoff_prover]
#[verifier::rlimit(50)]
fn emit_rt_module(out: &mut Vec<Tok>, rt: &String)
    ensures
        toks_view(final(out)@) == toks_view(old(out)@) + rt_module(rt@),
{
    let ghost b = toks_view(old(out)@);
    emit_word(out, "mod");
    emit_string(out, rt);
    emit_open(out, Delim::Brace);
    emit_word(out, "extern");
    emit_word(out, "crate");
    emit_word(out, "drone_core");
    emit_punct(out, ';');
    emit_word(out, "pub");
    emit_word(out, "use");
    emit_word(out, "self");
    emit_joint(out, ':', ':');
    emit_word(out, "drone_core");
    emit_joint(out, ':', ':');
    emit_word(out, "reg");
    emit_joint(out, ':', ':');
    emit_open(out, Delim::Brace);
    emit_word(out, "Reg");
    emit_punct(out, ',');
    emit_word(out, "RegTokens");
    emit_punct(out, ',');
    emit_word(out, "Srt");
    emit_close(out, Delim::Brace);
    emit_punct(out, ';');
    emit_close(out, Delim::Brace);
    assert(toks_view(out@) =~= b + rt_module(rt@));
}

#[verifier::spinoff_prover]
#[verifier::rlimit(50)]
fn emit_field_decl(toks: &Vec<Tok>, f: &TokenField, rt: &String, out: &mut Vec<Tok>)
    ensures
        toks_view(final(out)@) == toks_view(old(out)@) + field_decl(toks@, token_field_view(*f), rt@),
{
    let ghost b = toks_view(old(out)@);
    emit_span(toks, f.attrs, out);
    emit_word(out, "pub");
    emit_string(out, &f.name);
    emit_punct(out, ':');
    emit_string(out, &f.block_mod);
    emit_joint(out, ':', ':');
    emit_string(out, &f.reg_struct);
    emit_punct(out, '<');
    emit_string(out, rt);
    emit_joint(out, ':', ':');
    emit_word(out, "Srt");
    emit_punct(out, '>');
    assert(toks_view(out@) =~= b + field_decl(toks@, token_field_view(*f), rt@));
}

#[verifier::spinoff_prover]
#[verifier::rlimit(50)]
fn emit_field_ctor(f: &TokenField, rt: &String, out: &mut Vec<Tok>)
    ensures
        toks_view(final(out)@) == toks_view(old(out)@) + field_ctor(token_field_view(*f), rt@),
{
    let ghost b = toks_view(old(out)@);
    emit_string(out, &f.name);
    emit_punct(out, ':');
    emit_punct(out, '<');
    emit_string(out, &f.block_mod);
    emit_joint(out, ':', ':');
    emit_string(out, &f.reg_struct);
    emit_punct(out, '<');
    emit_word(out, "_");
    emit_punct(out, '>');
    emit_word(out, "as");
    emit_string(out, rt);
    emit_joint(out, ':', ':');
    emit_word(out, "Reg");
    emit_punct(out, '<');
    emit_word(out, "_");
    emit_punct(out, '>');
    emit_punct(out, '>');
    emit_joint(out, ':', ':');
    emit_word(out, "new");
    emit_open(out, Delim::Paren);
    emit_close(out, Delim::Paren);
    emit_punct(out, ',');
    assert(toks_view(out@) =~= b + field_ctor(token_field_view(*f), rt@));
}

/// The expansion of the structure of register tokens on the input `toks`,
/// as tokens of the flat model.
#[verifier::spinoff_prover]
#[verifier::rlimit(50)]
pub fn expand_reg_tokens_struct(toks: &Vec<Tok>) -> (r: Result<Vec<Tok>, MacroError>)
    ensures
        r matches Err(e) ==> spec_expand_reg_tokens_struct(toks@) == Err::<Seq<TokV>, MacroError>(e),
        r matches Ok(v) ==> spec_expand_reg_tokens_struct(toks@) == Ok::<Seq<TokV>, MacroError>(
            toks_view(v@),
        ),
{
    let p = reg_tokens_struct(toks)?;
    let ghost inp = spec_tokens_struct_input(toks@)->Ok_0;
    let ghost fs = p.fields@.map_values(|f: TokenField| token_field_view(f));
    let ghost rt = p.rt@;
    let name = Span { start: p.ident, end: if p.ident < usize::MAX { p.ident + 1 } else { p.ident } };
    proof {
        assert(inp.regs.map_values(|reg: BlockReg| token_field(toks@, reg)) == fs);
    }
    let mut out: Vec<Tok> = Vec::new();
    emit_rt_module(&mut out, &p.rt);
    emit_span(toks, p.attrs, &mut out);
    emit_span(toks, p.vis.span, &mut out);
    emit_word(&mut out, "struct");
    emit_span(toks, name, &mut out);
    emit_open(&mut out, Delim::Brace);
    let ghost head = toks_view(out@);
    let mut k: usize = 0;
    assert(fs.take(0) =~= Seq::<TokenFieldV>::empty());
    assert(head + field_decls(toks@, fs.take(0), rt) =~= head);
    while k < p.fields.len()
        invariant
            k <= p.fields@.len(),
            fs == p.fields@.map_values(|f: TokenField| token_field_view(f)),
            rt == p.rt@,
            toks_view(out@) == head + field_decls(toks@, fs.take(k as int), rt),
        decreases p.fields@.len() - k,
    {
        let ghost before = toks_view(out@);
        if k > 0 {
            emit_punct(&mut out, ',');
        }
        emit_field_decl(toks, &p.fields[k], &p.rt, &mut out);
        proof {
            let t = fs.take(k + 1);
            assert(t.drop_last() =~= fs.take(k as int));
            assert(t.last() == token_field_view(p.fields@[k as int]));
            let sep = if t.len() > 1 { tp(',') } else { Seq::<TokV>::empty() };
            assert(toks_view(out@) =~= before + sep + field_decl(toks@, t.last(), rt));
            assert(toks_view(out@) =~= head + field_decls(toks@, t, rt));
        }
        k = k + 1;
    }
    assert(fs.take(k as int) =~= fs);
    emit_close(&mut out, Delim::Brace);
    emit_word(&mut out, "impl");
    emit_string(&mut out, &p.rt);
    emit_joint(&mut out, ':', ':');
    emit_word(&mut out, "RegTokens");
    emit_word(&mut out, "for");
    emit_span(toks, name, &mut out);
    emit_open(&mut out, Delim::Brace);
    emit_word(&mut out, "unsafe");
    emit_word(&mut out, "fn");
    emit_word(&mut out, "new");
    emit_open(&mut out, Delim::Paren);
    emit_close(&mut out, Delim::Paren);
    emit_joint(&mut out, '-', '>');
    emit_word(&mut out, "Self");
    emit_open(&mut out, Delim::Brace);
    emit_word(&mut out, "Self");
    emit_open(&mut out, Delim::Brace);
    let ghost mid = toks_view(out@);
    let mut m: usize = 0;
    assert(mid + field_ctors(fs.take(0), rt) =~= mid);
    while m < p.fields.len()
        invariant
            m <= p.fields@.len(),
            fs == p.fields@.map_values(|f: TokenField| token_field_view(f)),
            rt == p.rt@,
            toks_view(out@) == mid + field_ctors(fs.take(m as int), rt),
        decreases p.fields@.len() - m,
    {
        let ghost before = toks_view(out@);
        emit_field_ctor(&p.fields[m], &p.rt, &mut out);
        proof {
            let t = fs.take(m + 1);
            assert(t.drop_last() =~= fs.take(m as int));
            assert(t.last() == token_field_view(p.fields@[m as int]));
            assert(toks_view(out@) =~= mid + field_ctors(t, rt));
        }
        m = m + 1;
    }
    assert(fs.take(m as int) =~= fs);
    emit_close(&mut out, Delim::Brace);
    emit_close(&mut out, Delim::Brace);
    emit_close(&mut out, Delim::Brace);
    assert(toks_view(out@) =~= expansion(toks@, inp));
    Ok(out)
}

} // verus!
