//! `res!`: a generic resource, declared as a trait with one sub-trait for
//! each register and field, and a structure that holds the registers.
//!
//! The input is `attrs pub trait Name { items }`, then the blocks
//! `Block { regs }`. A register reads `features Reg { size Trait..; fields }`
//! with its size in bits (kept modulo 256), and a field
//! `features Field { Trait.. }`. Each register is planned as a variant
//! without a name of `periph!`.

use crate::periph::{PReg, PVariant, Parts, PeriphParts, VariantPlan, VariantPlanV, block_plans_exec, no_parts, parse_fields, parse_trait_list, parts_wf, plans_view, reg_wf, spec_block_plans, spec_fields, spec_trait_list, variant_wf};
use crate::token::{Delim, ErrorKind, IntLit, MacroError, Span, Tok, err, expect_group, expect_ident, expect_word, ident_string, ident_text, int_lit_at, int_lit_value, is_literal_tok, literal_text, outer_attrs, spec_expect_group, spec_expect_ident, spec_expect_word, spec_outer_attrs};
use vstd::prelude::*;

verus! {

/// The size at `p`: an integer literal, its value kept modulo 256.
pub open spec fn spec_res_size(toks: Seq<Tok>, p: int, end: int) -> Result<u8, MacroError> {
    if !is_literal_tok(toks, p, end) {
        err(p, ErrorKind::ExpectedIntLit)
    } else {
        match int_lit_value(literal_text(toks, p)) {
            Some(v) => if v <= u64::MAX {
                Ok((v % 256) as u8)
            } else {
                err(p, ErrorKind::IntOverflow)
            },
            None => err(p, ErrorKind::ExpectedIntLit),
        }
    }
}

/// A register at `i`, added to `st` as a register of one variant without a
/// name, and the position after it.
pub open spec fn spec_res_reg(toks: Seq<Tok>, i: int, end: int, st: Parts) -> Result<(Parts, usize), MacroError> {
    match spec_outer_attrs(toks, i, end) {
        Err(e) => Err(e),
        Ok(a) => match spec_expect_ident(toks, a as int, end) {
            Err(e) => Err(e),
            Ok(_) => match spec_expect_group(toks, a + 1, end, Delim::Brace) {
                Err(e) => Err(e),
                Ok(c) => match spec_res_size(toks, a + 2, c as int) {
                    Err(e) => Err(e),
                    Ok(size) => match spec_trait_list(toks, a + 3, c as int) {
                        Err(e) => Err(e),
                        Ok(semi) => match spec_fields(toks, semi + 1, c as int, false, st.fields) {
                            Err(e) => Err(e),
                            Ok((fields, _)) => Ok(
                                (
                                    Parts {
                                        regs: st.regs.push(
                                            PReg {
                                                features: Span { start: i as usize, end: a },
                                                ident: a,
                                                variants: Span {
                                                    start: st.variants.len() as usize,
                                                    end: (st.variants.len() + 1) as usize,
                                                },
                                            },
                                        ),
                                        variants: st.variants.push(
                                            PVariant {
                                                ident: None,
                                                size,
                                                traits: Span { start: (a + 3) as usize, end: semi },
                                                fields: Span {
                                                    start: st.fields.len() as usize,
                                                    end: fields.len() as usize,
                                                },
                                            },
                                        ),
                                        fields,
                                        ..st
                                    },
                                    (c + 1) as usize,
                                ),
                            ),
                        },
                    },
                },
            },
        },
    }
}

pub open spec fn spec_res_regs(toks: Seq<Tok>, i: int, end: int, st: Parts) -> Result<Parts, MacroError>
    decreases end - i,
{
    if i >= end {
        Ok(st)
    } else {
        match spec_res_reg(toks, i, end, st) {
            Err(e) => Err(e),
            Ok((st2, n)) => if n > i && n <= end {
                spec_res_regs(toks, n as int, end, st2)
            } else {
                Ok(st2)
            },
        }
    }
}

pub open spec fn spec_res_blocks(toks: Seq<Tok>, i: int, end: int, st: Parts) -> Result<Parts, MacroError>
    decreases end - i,
{
    if i >= end {
        Ok(st)
    } else {
        match spec_expect_ident(toks, i, end) {
            Err(e) => Err(e),
            Ok(_) => match spec_expect_group(toks, i + 1, end, Delim::Brace) {
                Err(e) => Err(e),
                Ok(c) => match spec_res_regs(toks, i + 2, c as int, st) {
                    Err(e) => Err(e),
                    Ok(st2) => if c + 1 > i && c + 1 <= end {
                        spec_res_blocks(
                            toks,
                            c + 1,
                            end,
                            Parts {
                                blocks: st2.blocks.push(
                                    crate::periph::PBlock {
                                        ident: i as usize,
                                        regs: Span {
                                            start: st.regs.len() as usize,
                                            end: st2.regs.len() as usize,
                                        },
                                    },
                                ),
                                ..st2
                            },
                        )
                    } else {
                        Ok(st2)
                    },
                },
            },
        }
    }
}

/// The input of `res!`, as read.
pub struct ResInputV {
    pub attrs: Span,
    pub trait_ident: usize,
    pub items: Span,
    pub parts: Parts,
}

pub open spec fn spec_res_input(toks: Seq<Tok>) -> Result<ResInputV, MacroError> {
    let end = toks.len() as int;
    match spec_outer_attrs(toks, 0, end) {
        Err(e) => Err(e),
        Ok(a) => match spec_expect_word(toks, a as int, end, "pub") {
            Err(e) => Err(e),
            Ok(_) => match spec_expect_word(toks, a + 1, end, "trait") {
                Err(e) => Err(e),
                Ok(_) => match spec_expect_ident(toks, a + 2, end) {
                    Err(e) => Err(e),
                    Ok(_) => match spec_expect_group(toks, a + 3, end, Delim::Brace) {
                        Err(e) => Err(e),
                        Ok(c) => match spec_res_blocks(toks, c + 1, end, no_parts()) {
                            Err(e) => Err(e),
                            Ok(parts) => Ok(
                                ResInputV {
                                    attrs: Span { start: 0, end: a },
                                    trait_ident: (a + 2) as usize,
                                    items: Span { start: (a + 4) as usize, end: c },
                                    parts,
                                },
                            ),
                        },
                    },
                },
            },
        },
    }
}

/// The outcome of `res!` on `toks`: the input, the plans of its registers
/// (as variants of `periph!`), and the name of the resource structure (the
/// trait's name followed by `Res`).
pub open spec fn spec_res(toks: Seq<Tok>) -> Result<(ResInputV, Seq<VariantPlanV>, Seq<char>), MacroError> {
    match spec_res_input(toks) {
        Err(e) => Err(e),
        Ok(inp) => match spec_block_plans(toks, inp.parts, 0, Seq::empty()) {
            Err(e) => Err(e),
            Ok(plans) => Ok((inp, plans, ident_text(toks, inp.trait_ident as int) + "Res"@)),
        },
    }
}


fn parse_res_size(toks: &Vec<Tok>, p: usize, end: usize) -> (r: Result<u8, MacroError>)
    requires
        end <= toks@.len(),
    ensures
        r == spec_res_size(toks@, p as int, end as int),
{
    match int_lit_at(toks, p, end) {
        IntLit::Value(v) => Ok((v % 256) as u8),
        IntLit::Huge => Err(MacroError { at: p, kind: ErrorKind::IntOverflow }),
        IntLit::NotInt => Err(MacroError { at: p, kind: ErrorKind::ExpectedIntLit }),
    }
}

#[verifier::loop_isolation(false)]
#[verifier::spinoff_prover]
#[verifier::rlimit(50)]
fn parse_res_reg(toks: &Vec<Tok>, i: usize, end: usize, st: &mut PeriphParts) -> (r: Result<usize, MacroError>)
    requires
        end <= toks@.len(),
        parts_wf(old(st)@, toks@.len() as int),
    ensures
        r matches Ok(n) ==> spec_res_reg(toks@, i as int, end as int, old(st)@) == Ok::<
            (Parts, usize),
            MacroError,
        >((final(st)@, n)) && i < n <= end && final(st)@.blocks == old(st)@.blocks && old(
            st,
        )@.regs.is_prefix_of(final(st)@.regs) && old(st)@.variants.is_prefix_of(final(st)@.variants)
            && old(st)@.fields.is_prefix_of(final(st)@.fields) && parts_wf(
            final(st)@,
            toks@.len() as int,
        ),
        r matches Err(e) ==> spec_res_reg(toks@, i as int, end as int, old(st)@) == Err::<
            (Parts, usize),
            MacroError,
        >(e),
{
    let ghost n_toks = toks@.len() as int;
    let a = outer_attrs(toks, i, end)?;
    expect_ident(toks, a, end)?;
    let c = expect_group(toks, a + 1, end, Delim::Brace)?;
    let size = parse_res_size(toks, a + 2, c)?;
    let semi = parse_trait_list(toks, a + 3, c)?;
    let fstart = st.fields.len();
    parse_fields(toks, semi + 1, c, false, st)?;
    let vstart = st.variants.len();
    let ghost before = st@;
    st.variants.push(
        PVariant {
            ident: None,
            size,
            traits: Span { start: a + 3, end: semi },
            fields: Span { start: fstart, end: st.fields.len() },
        },
    );
    let ghost mid = st@;
    st.regs.push(
        PReg { features: Span { start: i, end: a }, ident: a, variants: Span { start: vstart, end: st.variants.len() } },
    );
    proof {
        assert forall|k: int| 0 <= k < st@.variants.len() implies variant_wf(
            st@,
            #[trigger] st@.variants[k],
            n_toks,
        ) by {
            if k < before.variants.len() {
                assert(st@.variants[k] == before.variants[k]);
                assert(variant_wf(before, before.variants[k], n_toks));
            }
        }
        assert forall|g: int| 0 <= g < st@.regs.len() implies reg_wf(st@, #[trigger] st@.regs[g], n_toks) by {
            if g < before.regs.len() {
                let x = before.regs[g];
                assert(st@.regs[g] == x);
                assert(reg_wf(before, x, n_toks));
                if x.variants.end - x.variants.start > 1 {
                    assert forall|k: int| x.variants.start <= k < x.variants.end implies (
                    #[trigger] st@.variants[k]).ident is Some by {
                        assert(st@.variants[k] == before.variants[k]);
                    }
                }
            }
        }
        assert forall|b: int| 0 <= b < st@.blocks.len() implies (#[trigger] st@.blocks[b]).regs.start
            <= st@.blocks[b].regs.end <= st@.regs.len() && st@.blocks[b].ident < n_toks by {
            assert(st@.blocks[b] == before.blocks[b]);
        }
        assert(forall|k: int| 0 <= k < old(st)@.variants.len() ==> st@.variants[k] == old(st)@.variants[k]);
        assert(forall|k: int| 0 <= k < old(st)@.regs.len() ==> st@.regs[k] == old(st)@.regs[k]);
    }
    Ok(c + 1)
}

#[verifier::loop_isolation(false)]
#[verifier::spinoff_prover]
#[verifier::rlimit(50)]
fn parse_res_blocks(toks: &Vec<Tok>, i: usize, st: &mut PeriphParts) -> (r: Result<(), MacroError>)
    requires
        old(st)@ == no_parts(),
    ensures
        r matches Ok(_) ==> spec_res_blocks(toks@, i as int, toks@.len() as int, no_parts()) == Ok::<
            Parts,
            MacroError,
        >(final(st)@) && parts_wf(final(st)@, toks@.len() as int),
        r matches Err(e) ==> spec_res_blocks(toks@, i as int, toks@.len() as int, no_parts()) == Err::<
            Parts,
            MacroError,
        >(e),
{
    let end = toks.len();
    let mut j = i;
    while j < end
        invariant
            end == toks@.len(),
            spec_res_blocks(toks@, i as int, end as int, no_parts()) == spec_res_blocks(
                toks@,
                j as int,
                end as int,
                st@,
            ),
            parts_wf(st@, end as int),
        decreases end - j,
    {
        expect_ident(toks, j, end)?;
        let c = expect_group(toks, j + 1, end, Delim::Brace)?;
        let start = st.regs.len();
        let ghost st0 = st@;
        let mut k = j + 2;
        while k < c
            invariant
                c < end,
                spec_res_regs(toks@, j + 2, c as int, st0) == spec_res_regs(toks@, k as int, c as int, st@),
                st@.blocks == st0.blocks,
                st0.regs.is_prefix_of(st@.regs),
                st0.variants.is_prefix_of(st@.variants),
                st0.fields.is_prefix_of(st@.fields),
                parts_wf(st@, end as int),
            decreases c - k,
        {
            let ghost before = st@;
            let n = parse_res_reg(toks, k, c, st)?;
            proof {
                assert(forall|x: int| 0 <= x < before.regs.len() ==> st@.regs[x] == before.regs[x]);
                assert(forall|x: int| 0 <= x < before.variants.len() ==> st@.variants[x] == before.variants[x]);
                assert(forall|x: int| 0 <= x < before.fields.len() ==> st@.fields[x] == before.fields[x]);
            }
            k = n;
        }
        let ghost mid = st@;
        st.blocks.push(crate::periph::PBlock { ident: j, regs: Span { start, end: st.regs.len() } });
        proof {
            assert forall|b: int| 0 <= b < st@.blocks.len() implies (#[trigger] st@.blocks[b]).regs.start
                <= st@.blocks[b].regs.end <= st@.regs.len() && st@.blocks[b].ident < end by {
                if b < mid.blocks.len() {
                    assert(st@.blocks[b] == mid.blocks[b]);
                }
            }
            assert forall|g: int| 0 <= g < st@.regs.len() implies reg_wf(st@, #[trigger] st@.regs[g], end as int) by {
                assert(reg_wf(mid, mid.regs[g], end as int));
            }
            assert forall|x: int| 0 <= x < st@.variants.len() implies variant_wf(
                st@,
                #[trigger] st@.variants[x],
                end as int,
            ) by {
                assert(variant_wf(mid, mid.variants[x], end as int));
            }
        }
        j = c + 1;
    }
    Ok(())
}

/// What `res!` expands to: the input, the plans of its registers (as
/// variants of `periph!`) in the order of the input, and the name of the
/// resource structure.
#[derive(Debug)]
pub struct ResPlan {
    pub attrs: Span,
    pub trait_ident: usize,
    pub items: Span,
    pub parts: PeriphParts,
    pub regs: Vec<VariantPlan>,
    pub struct_name: String,
}

/// `res!` on the input `toks`.
pub fn res(toks: &Vec<Tok>) -> (r: Result<ResPlan, MacroError>)
    ensures
        r matches Err(e) ==> spec_res(toks@) == Err::<(ResInputV, Seq<VariantPlanV>, Seq<char>), MacroError>(e),
        r matches Ok(p) ==> spec_res(toks@) == Ok::<(ResInputV, Seq<VariantPlanV>, Seq<char>), MacroError>(
            (
                ResInputV { attrs: p.attrs, trait_ident: p.trait_ident, items: p.items, parts: p.parts@ },
                plans_view(p.regs@),
                p.struct_name@,
            ),
        ),
{
    let end = toks.len();
    let a = outer_attrs(toks, 0, end)?;
    expect_word(toks, a, end, "pub")?;
    expect_word(toks, a + 1, end, "trait")?;
    expect_ident(toks, a + 2, end)?;
    let c = expect_group(toks, a + 3, end, Delim::Brace)?;
    let mut parts = PeriphParts { blocks: Vec::new(), regs: Vec::new(), variants: Vec::new(), fields: Vec::new() };
    assert(parts@ == no_parts());
    parse_res_blocks(toks, c + 1, &mut parts)?;
    let mut regs: Vec<VariantPlan> = Vec::new();
    block_plans_exec(toks, &parts, &mut regs)?;
    let struct_name = ident_string(toks, a + 2).concat("Res");
    Ok(ResPlan { attrs: Span { start: 0, end: a }, trait_ident: a + 2, items: Span { start: a + 4, end: c }, parts, regs, struct_name })
}


/// What `res!` accepts keeps the rules of `periph!`: no register is both
/// `Shared` and `Option`.
pub proof fn law_res_keeps_rules(toks: Seq<Tok>)
    ensures
        spec_res(toks) matches Ok((inp, plans, _)) ==> crate::periph::all_keep_rules(
            toks,
            inp.parts,
            plans,
        ),
{
    if let Ok(inp) = spec_res_input(toks) {
        crate::periph::lemma_block_plans_keep_rules(toks, inp.parts, 0, Seq::empty());
    }
}

} // verus!
