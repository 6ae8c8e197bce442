//! `periph!`: a generic peripheral, declared as a trait with one sub-trait
//! for each register variant and field, and a structure that holds the
//! registers.
//!
//! The input is `attrs pub trait Name { items }`, then `attrs pub struct
//! Name;`, then the blocks `Block { .. }`. A block holds registers
//! `features Reg { variants }`, where `features` is a run of outer
//! attributes; a variant reads `@Name` (optional), its size in bits, its
//! traits up to `;`, then its fields `features Field { Trait.. }`. A variant
//! without a name takes the rest of its register.

use crate::case::{cat, inflector_pascal, inflector_snake, to_pascal_inflector, to_snake_inflector,
    unkeywordize, unkeywordize_exec};
use crate::reg::{parse_size, spec_size};
use crate::token::{
    Delim, ErrorKind, MacroError, Span, Tok, eq_lit, err, expect_group, expect_ident,
    expect_punct, expect_word, ident_string, ident_text, is_plain_ident, is_punct, outer_attrs,
    peek_plain_ident, peek_punct, spec_expect_group, spec_expect_ident, spec_expect_punct,
    spec_expect_word, spec_outer_attrs,
};
use vstd::prelude::*;

verus! {

/// A field: its features (attributes), name, and the span of its traits.
#[derive(PartialEq, Eq, Structural, Clone, Copy, Debug)]
pub struct PField {
    pub features: Span,
    pub ident: usize,
    pub traits: Span,
}

/// A register variant: its name, size, traits, and the range of its fields
/// among all fields.
#[derive(PartialEq, Eq, Structural, Clone, Copy, Debug)]
pub struct PVariant {
    pub ident: Option<usize>,
    pub size: u8,
    pub traits: Span,
    pub fields: Span,
}

/// A register: its features, name, and the range of its variants among all
/// variants.
#[derive(PartialEq, Eq, Structural, Clone, Copy, Debug)]
pub struct PReg {
    pub features: Span,
    pub ident: usize,
    pub variants: Span,
}

/// A block: its name and the range of its registers among all registers.
#[derive(PartialEq, Eq, Structural, Clone, Copy, Debug)]
pub struct PBlock {
    pub ident: usize,
    pub regs: Span,
}

/// The blocks, registers, variants and fields read so far, each in the
/// order of the input.
pub struct Parts {
    pub blocks: Seq<PBlock>,
    pub regs: Seq<PReg>,
    pub variants: Seq<PVariant>,
    pub fields: Seq<PField>,
}

pub open spec fn no_parts() -> Parts {
    Parts { blocks: Seq::empty(), regs: Seq::empty(), variants: Seq::empty(), fields: Seq::empty() }
}

/// Plain identifiers from `i` up to `end`.
pub open spec fn spec_idents(toks: Seq<Tok>, i: int, end: int) -> Result<(), MacroError>
    decreases end - i,
{
    if i >= end {
        Ok(())
    } else if is_plain_ident(toks, i, end) {
        spec_idents(toks, i + 1, end)
    } else {
        err(i, ErrorKind::ExpectedIdent)
    }
}

/// A field at `i`: the field and the position after it.
pub open spec fn spec_field(toks: Seq<Tok>, i: int, end: int) -> Result<(PField, usize), MacroError> {
    match spec_outer_attrs(toks, i, end) {
        Err(e) => Err(e),
        Ok(a) => match spec_expect_ident(toks, a as int, end) {
            Err(e) => Err(e),
            Ok(_) => match spec_expect_group(toks, a + 1, end, Delim::Brace) {
                Err(e) => Err(e),
                Ok(c) => match spec_idents(toks, a + 2, c as int) {
                    Err(e) => Err(e),
                    Ok(_) => Ok(
                        (
                            PField {
                                features: Span { start: i as usize, end: a },
                                ident: a,
                                traits: Span { start: (a + 2) as usize, end: c },
                            },
                            (c + 1) as usize,
                        ),
                    ),
                },
            },
        },
    }
}

/// The fields of a variant from `i` on, added to `acc`: they run to `end`,
/// or, in a named variant, to the next `@`.
pub open spec fn spec_fields(toks: Seq<Tok>, i: int, end: int, named: bool, acc: Seq<PField>) -> Result<
    (Seq<PField>, usize),
    MacroError,
>
    decreases end - i,
{
    if i >= end || (named && is_punct(toks, i, end, '@')) {
        Ok((acc, i as usize))
    } else {
        match spec_field(toks, i, end) {
            Err(e) => Err(e),
            Ok((f, n)) => if n > i && n <= end {
                spec_fields(toks, n as int, end, named, acc.push(f))
            } else {
                Ok((acc.push(f), n))
            },
        }
    }
}

/// The traits of a variant from `i`: identifiers up to `;`, whose position
/// is the result.
pub open spec fn spec_trait_list(toks: Seq<Tok>, i: int, end: int) -> Result<usize, MacroError>
    decreases end - i,
{
    if is_punct(toks, i, end, ';') {
        Ok(i as usize)
    } else if is_plain_ident(toks, i, end) {
        spec_trait_list(toks, i + 1, end)
    } else {
        err(i, ErrorKind::ExpectedIdent)
    }
}


/// A variant at `i`, added to `st` with its fields, and the position after
/// it.
pub open spec fn spec_variant(toks: Seq<Tok>, i: int, end: int, st: Parts) -> Result<
    (Parts, usize),
    MacroError,
> {
    let named = is_punct(toks, i, end, '@');
    let s = if named { i + 2 } else { i };
    let name: Result<usize, MacroError> = if named {
        spec_expect_ident(toks, i + 1, end)
    } else {
        Ok(i as usize)
    };
    match name {
        Err(e) => Err(e),
        Ok(_) => match spec_size(toks, s, end) {
            Err(e) => Err(e),
            Ok(size) => match spec_trait_list(toks, s + 1, end) {
                Err(e) => Err(e),
                Ok(semi) => match spec_fields(toks, semi + 1, end, named, st.fields) {
                    Err(e) => Err(e),
                    Ok((fields, n)) => Ok(
                        (
                            Parts {
                                variants: st.variants.push(
                                    PVariant {
                                        ident: if named {
                                            Some((i + 1) as usize)
                                        } else {
                                            None
                                        },
                                        size,
                                        traits: Span { start: (s + 1) as usize, end: semi },
                                        fields: Span {
                                            start: st.fields.len() as usize,
                                            end: fields.len() as usize,
                                        },
                                    },
                                ),
                                fields,
                                ..st
                            },
                            n,
                        ),
                    ),
                },
            },
        },
    }
}

/// The variants of a register from `i` to `end`: at least one.
pub open spec fn spec_variants(toks: Seq<Tok>, i: int, end: int, st: Parts) -> Result<
    Parts,
    MacroError,
>
    decreases end - i,
{
    match spec_variant(toks, i, end, st) {
        Err(e) => Err(e),
        Ok((st2, n)) => if n >= end || n <= i {
            Ok(st2)
        } else {
            spec_variants(toks, n as int, end, st2)
        },
    }
}

/// A register at `i`, added to `st` with its variants and fields, and the
/// position after it.
pub open spec fn spec_reg(toks: Seq<Tok>, i: int, end: int, st: Parts) -> Result<
    (Parts, usize),
    MacroError,
> {
    match spec_outer_attrs(toks, i, end) {
        Err(e) => Err(e),
        Ok(a) => match spec_expect_ident(toks, a as int, end) {
            Err(e) => Err(e),
            Ok(_) => match spec_expect_group(toks, a + 1, end, Delim::Brace) {
                Err(e) => Err(e),
                Ok(c) => match spec_variants(toks, a + 2, c as int, st) {
                    Err(e) => Err(e),
                    Ok(st2) => Ok(
                        (
                            Parts {
                                regs: st2.regs.push(
                                    PReg {
                                        features: Span { start: i as usize, end: a },
                                        ident: a,
                                        variants: Span {
                                            start: st.variants.len() as usize,
                                            end: st2.variants.len() as usize,
                                        },
                                    },
                                ),
                                ..st2
                            },
                            (c + 1) as usize,
                        ),
                    ),
                },
            },
        },
    }
}

/// The registers of a block from `i` to `end`.
pub open spec fn spec_regs(toks: Seq<Tok>, i: int, end: int, st: Parts) -> Result<Parts, MacroError>
    decreases end - i,
{
    if i >= end {
        Ok(st)
    } else {
        match spec_reg(toks, i, end, st) {
            Err(e) => Err(e),
            Ok((st2, n)) => if n > i && n <= end {
                spec_regs(toks, n as int, end, st2)
            } else {
                Ok(st2)
            },
        }
    }
}

/// A block at `i`, added to `st` with its registers, and the position after
/// it.
pub open spec fn spec_block(toks: Seq<Tok>, i: int, end: int, st: Parts) -> Result<
    (Parts, usize),
    MacroError,
> {
    match spec_expect_ident(toks, i, end) {
        Err(e) => Err(e),
        Ok(_) => match spec_expect_group(toks, i + 1, end, Delim::Brace) {
            Err(e) => Err(e),
            Ok(c) => match spec_regs(toks, i + 2, c as int, st) {
                Err(e) => Err(e),
                Ok(st2) => Ok(
                    (
                        Parts {
                            blocks: st2.blocks.push(
                                PBlock {
                                    ident: i as usize,
                                    regs: Span {
                                        start: st.regs.len() as usize,
                                        end: st2.regs.len() as usize,
                                    },
                                },
                            ),
                            ..st2
                        },
                        (c + 1) as usize,
                    ),
                ),
            },
        },
    }
}

/// The blocks from `i` to `end`.
pub open spec fn spec_blocks(toks: Seq<Tok>, i: int, end: int, st: Parts) -> Result<Parts, MacroError>
    decreases end - i,
{
    if i >= end {
        Ok(st)
    } else {
        match spec_block(toks, i, end, st) {
            Err(e) => Err(e),
            Ok((st2, n)) => if n > i && n <= end {
                spec_blocks(toks, n as int, end, st2)
            } else {
                Ok(st2)
            },
        }
    }
}

/// The input of `periph!`, as read.
pub struct PeriphInputV {
    pub trait_attrs: Span,
    pub trait_ident: usize,
    pub trait_items: Span,
    pub struct_attrs: Span,
    pub struct_ident: usize,
    pub parts: Parts,
}

pub open spec fn spec_periph_input(toks: Seq<Tok>) -> Result<PeriphInputV, MacroError> {
    let end = toks.len() as int;
    match spec_outer_attrs(toks, 0, end) {
        Err(e) => Err(e),
        Ok(a) => match spec_expect_word(toks, a as int, end, "pub") {
            Err(e) => Err(e),
            Ok(_) => match spec_expect_word(toks, a + 1, end, "trait") {
                Err(e) => Err(e),
                Ok(_) => match spec_expect_ident(toks, a + 2, end) {
                    Err(e) => Err(e),
                    Ok(_) => match spec_expect_group(toks, a + 3, end, Delim::Brace) {
                        Err(e) => Err(e),
                        Ok(c) => match spec_outer_attrs(toks, c + 1, end) {
                            Err(e) => Err(e),
                            Ok(b) => match spec_expect_word(toks, b as int, end, "pub") {
                                Err(e) => Err(e),
                                Ok(_) => match spec_expect_word(toks, b + 1, end, "struct") {
                                    Err(e) => Err(e),
                                    Ok(_) => match spec_expect_ident(toks, b + 2, end) {
                                        Err(e) => Err(e),
                                        Ok(_) => match spec_expect_punct(toks, b + 3, end, ';') {
                                            Err(e) => Err(e),
                                            Ok(_) => match spec_blocks(
                                                toks,
                                                b + 4,
                                                end,
                                                no_parts(),
                                            ) {
                                                Err(e) => Err(e),
                                                Ok(parts) => Ok(
                                                    PeriphInputV {
                                                        trait_attrs: Span { start: 0, end: a },
                                                        trait_ident: (a + 2) as usize,
                                                        trait_items: Span {
                                                            start: (a + 4) as usize,
                                                            end: c,
                                                        },
                                                        struct_attrs: Span {
                                                            start: (c + 1) as usize,
                                                            end: b,
                                                        },
                                                        struct_ident: (b + 2) as usize,
                                                        parts,
                                                    },
                                                ),
                                            },
                                        },
                                    },
                                },
                            },
                        },
                    },
                },
            },
        },
    }
}


// ---------------------------------------------------------------------------
// Reading the input

/// The blocks, registers, variants and fields of the input.
#[derive(Debug)]
pub struct PeriphParts {
    pub blocks: Vec<PBlock>,
    pub regs: Vec<PReg>,
    pub variants: Vec<PVariant>,
    pub fields: Vec<PField>,
}

impl View for PeriphParts {
    type V = Parts;

    open spec fn view(&self) -> Parts {
        Parts {
            blocks: self.blocks@,
            regs: self.regs@,
            variants: self.variants@,
            fields: self.fields@,
        }
    }
}

pub open spec fn field_wf(f: PField, n: int) -> bool {
    f.traits.start <= f.traits.end <= n && f.ident < n
}

pub open spec fn variant_wf(st: Parts, v: PVariant, n: int) -> bool {
    &&& v.fields.start <= v.fields.end <= st.fields.len()
    &&& v.traits.start <= v.traits.end <= n
    &&& v.ident matches Some(x) ==> x < n
}

pub open spec fn reg_wf(st: Parts, r: PReg, n: int) -> bool {
    &&& r.variants.start < r.variants.end <= st.variants.len()
    &&& r.ident < n
    &&& r.variants.end - r.variants.start > 1 ==> forall|k: int|
        r.variants.start <= k < r.variants.end ==> (#[trigger] st.variants[k]).ident is Some
}

/// Each range and position of `st` lies within what it points into; the
/// variants of a register with more than one are all named.
pub open spec fn parts_wf(st: Parts, n: int) -> bool {
    &&& forall|b: int|
        0 <= b < st.blocks.len() ==> (#[trigger] st.blocks[b]).regs.start <= st.blocks[b].regs.end
            <= st.regs.len() && st.blocks[b].ident < n
    &&& forall|r: int| 0 <= r < st.regs.len() ==> reg_wf(st, #[trigger] st.regs[r], n)
    &&& forall|k: int| 0 <= k < st.variants.len() ==> variant_wf(st, #[trigger] st.variants[k], n)
    &&& forall|f: int| 0 <= f < st.fields.len() ==> field_wf(#[trigger] st.fields[f], n)
}

/// The registers take the variants in turn: each register's range starts
/// where the one before ends, the first at zero.
pub open spec fn tiled_regs(st: Parts) -> bool {
    forall|r: int|
        0 <= r < st.regs.len() ==> (#[trigger] st.regs[r]).variants.start == (if r == 0 {
            0
        } else {
            st.regs[r - 1].variants.end as int
        })
}

/// Where the variants of the registers end.
pub open spec fn regs_end(st: Parts) -> int {
    if st.regs.len() == 0 {
        0
    } else {
        st.regs.last().variants.end as int
    }
}

/// The blocks take the registers in turn, as the registers take the
/// variants.
pub open spec fn tiled_blocks(st: Parts) -> bool {
    forall|b: int|
        0 <= b < st.blocks.len() ==> (#[trigger] st.blocks[b]).regs.start == (if b == 0 {
            0
        } else {
            st.blocks[b - 1].regs.end as int
        })
}

/// Where the registers of the blocks end.
pub open spec fn blocks_end(st: Parts) -> int {
    if st.blocks.len() == 0 {
        0
    } else {
        st.blocks.last().regs.end as int
    }
}

/// Every variant belongs to a register and every register to a block, in
/// the order of the input.
pub open spec fn parts_tiled(st: Parts) -> bool {
    &&& tiled_regs(st)
    &&& regs_end(st) == st.variants.len()
    &&& tiled_blocks(st)
    &&& blocks_end(st) == st.regs.len()
}

pub fn parse_idents(toks: &Vec<Tok>, i: usize, end: usize) -> (r: Result<(), MacroError>)
    ensures
        r == spec_idents(toks@, i as int, end as int),
{
    let mut j = i;
    while j < end
        invariant
            i <= j,
            spec_idents(toks@, i as int, end as int) == spec_idents(toks@, j as int, end as int),
        decreases end - j,
    {
        if !peek_plain_ident(toks, j, end) {
            return Err(MacroError { at: j, kind: ErrorKind::ExpectedIdent });
        }
        j = j + 1;
    }
    Ok(())
}

fn parse_field(toks: &Vec<Tok>, i: usize, end: usize) -> (r: Result<(PField, usize), MacroError>)
    requires
        end <= toks@.len(),
    ensures
        r == spec_field(toks@, i as int, end as int),
        r matches Ok((f, n)) ==> i < n <= end && field_wf(f, toks@.len() as int),
{
    let a = outer_attrs(toks, i, end)?;
    expect_ident(toks, a, end)?;
    let c = expect_group(toks, a + 1, end, Delim::Brace)?;
    parse_idents(toks, a + 2, c)?;
    Ok(
        (
            PField {
                features: Span { start: i, end: a },
                ident: a,
                traits: Span { start: a + 2, end: c },
            },
            c + 1,
        ),
    )
}

#[verifier::loop_isolation(false)]
pub fn parse_fields(toks: &Vec<Tok>, i: usize, end: usize, named: bool, st: &mut PeriphParts) -> (r: Result<
    usize,
    MacroError,
>)
    requires
        i <= end <= toks@.len(),
        parts_wf(old(st)@, toks@.len() as int),
    ensures
        r matches Ok(n) ==> {
            &&& spec_fields(toks@, i as int, end as int, named, old(st)@.fields) == Ok::<
                (Seq<PField>, usize),
                MacroError,
            >((final(st)@.fields, n))
            &&& i <= n <= end
            &&& !named ==> n == end
            &&& n < end ==> is_punct(toks@, n as int, end as int, '@')
            &&& final(st)@.blocks == old(st)@.blocks
            &&& final(st)@.regs == old(st)@.regs
            &&& final(st)@.variants == old(st)@.variants
            &&& old(st)@.fields.is_prefix_of(final(st)@.fields)
            &&& parts_wf(final(st)@, toks@.len() as int)
        },
        r matches Err(e) ==> spec_fields(toks@, i as int, end as int, named, old(st)@.fields)
            == Err::<(Seq<PField>, usize), MacroError>(e),
{
    let ghost n_toks = toks@.len() as int;
    let mut j = i;
    while j < end && !(named && peek_punct(toks, j, end, '@'))
        invariant
            i <= j <= end,
            spec_fields(toks@, i as int, end as int, named, old(st)@.fields) == spec_fields(
                toks@,
                j as int,
                end as int,
                named,
                st@.fields,
            ),
            st@.blocks == old(st)@.blocks,
            st@.regs == old(st)@.regs,
            st@.variants == old(st)@.variants,
            old(st)@.fields.is_prefix_of(st@.fields),
            parts_wf(st@, n_toks),
        decreases end - j,
    {
        let (f, n) = parse_field(toks, j, end)?;
        let ghost before = st@;
        st.fields.push(f);
        proof {
            assert forall|k: int| 0 <= k < st@.variants.len() implies variant_wf(
                st@,
                #[trigger] st@.variants[k],
                n_toks,
            ) by {
                assert(variant_wf(before, before.variants[k], n_toks));
            }
            assert forall|x: int| 0 <= x < st@.fields.len() implies field_wf(
                #[trigger] st@.fields[x],
                n_toks,
            ) by {
                if x < before.fields.len() {
                    assert(st@.fields[x] == before.fields[x]);
                }
            }
            assert forall|r: int| 0 <= r < st@.regs.len() implies reg_wf(
                st@,
                #[trigger] st@.regs[r],
                n_toks,
            ) by {
                assert(reg_wf(before, before.regs[r], n_toks));
            }
        }
        j = n;
    }
    Ok(j)
}


pub fn parse_trait_list(toks: &Vec<Tok>, i: usize, end: usize) -> (r: Result<usize, MacroError>)
    ensures
        r == spec_trait_list(toks@, i as int, end as int),
        r matches Ok(semi) ==> i <= semi < end,
{
    let mut j = i;
    while !peek_punct(toks, j, end, ';')
        invariant
            i <= j,
            spec_trait_list(toks@, i as int, end as int) == spec_trait_list(
                toks@,
                j as int,
                end as int,
            ),
        decreases end - j,
    {
        if !peek_plain_ident(toks, j, end) {
            return Err(MacroError { at: j, kind: ErrorKind::ExpectedIdent });
        }
        j = j + 1;
    }
    Ok(j)
}

#[verifier::loop_isolation(false)]
fn parse_variant(toks: &Vec<Tok>, i: usize, end: usize, st: &mut PeriphParts) -> (r: Result<
    usize,
    MacroError,
>)
    requires
        end <= toks@.len(),
        parts_wf(old(st)@, toks@.len() as int),
    ensures
        r matches Ok(n) ==> {
            &&& spec_variant(toks@, i as int, end as int, old(st)@) == Ok::<(Parts, usize), MacroError>(
                (final(st)@, n),
            )
            &&& i < n <= end
            &&& final(st)@.variants.len() == old(st)@.variants.len() + 1
            &&& (final(st)@.variants.last().ident is Some) == is_punct(toks@, i as int, end as int, '@')
            &&& final(st)@.variants.last().ident is None ==> n == end
            &&& n < end ==> is_punct(toks@, n as int, end as int, '@')
            &&& final(st)@.blocks == old(st)@.blocks
            &&& final(st)@.regs == old(st)@.regs
            &&& old(st)@.variants.is_prefix_of(final(st)@.variants)
            &&& old(st)@.fields.is_prefix_of(final(st)@.fields)
            &&& parts_wf(final(st)@, toks@.len() as int)
        },
        r matches Err(e) ==> spec_variant(toks@, i as int, end as int, old(st)@) == Err::<
            (Parts, usize),
            MacroError,
        >(e),
{
    let ghost n_toks = toks@.len() as int;
    let named = peek_punct(toks, i, end, '@');
    let s = if named {
        expect_ident(toks, i + 1, end)?;
        i + 2
    } else {
        i
    };
    let size = parse_size(toks, s, end)?;
    let semi = parse_trait_list(toks, s + 1, end)?;
    let start = st.fields.len();
    let n = parse_fields(toks, semi + 1, end, named, st)?;
    let v = PVariant {
        ident: if named {
            Some(i + 1)
        } else {
            None
        },
        size,
        traits: Span { start: s + 1, end: semi },
        fields: Span { start, end: st.fields.len() },
    };
    let ghost before = st@;
    st.variants.push(v);
    proof {
        assert forall|k: int| 0 <= k < st@.variants.len() implies variant_wf(
            st@,
            #[trigger] st@.variants[k],
            n_toks,
        ) by {
            if k < before.variants.len() {
                assert(st@.variants[k] == before.variants[k]);
                assert(variant_wf(before, before.variants[k], n_toks));
            }
        }
        assert forall|r: int| 0 <= r < st@.regs.len() implies reg_wf(
            st@,
            #[trigger] st@.regs[r],
            n_toks,
        ) by {
            let g = before.regs[r];
            assert(reg_wf(before, g, n_toks));
            if g.variants.end - g.variants.start > 1 {
                assert forall|k: int| g.variants.start <= k < g.variants.end implies (
                #[trigger] st@.variants[k]).ident is Some by {
                    assert(st@.variants[k] == before.variants[k]);
                }
            }
        }
    }
    Ok(n)
}

#[verifier::loop_isolation(false)]
fn parse_variants(toks: &Vec<Tok>, i: usize, end: usize, st: &mut PeriphParts) -> (r: Result<
    (),
    MacroError,
>)
    requires
        end <= toks@.len(),
        parts_wf(old(st)@, toks@.len() as int),
    ensures
        r matches Ok(_) ==> {
            &&& spec_variants(toks@, i as int, end as int, old(st)@) == Ok::<Parts, MacroError>(
                final(st)@,
            )
            &&& final(st)@.variants.len() > old(st)@.variants.len()
            &&& final(st)@.variants.len() - old(st)@.variants.len() > 1 ==> forall|k: int|
                old(st)@.variants.len() <= k < final(st)@.variants.len() ==> (
                #[trigger] final(st)@.variants[k]).ident is Some
            &&& final(st)@.blocks == old(st)@.blocks
            &&& final(st)@.regs == old(st)@.regs
            &&& old(st)@.variants.is_prefix_of(final(st)@.variants)
            &&& old(st)@.fields.is_prefix_of(final(st)@.fields)
            &&& parts_wf(final(st)@, toks@.len() as int)
        },
        r matches Err(e) ==> spec_variants(toks@, i as int, end as int, old(st)@) == Err::<
            Parts,
            MacroError,
        >(e),
{
    let ghost n_toks = toks@.len() as int;
    let ghost first = old(st)@.variants.len();
    let mut j = i;
    let mut done = false;
    while !done
        invariant
            end <= n_toks,
            n_toks == toks@.len(),
            first == old(st)@.variants.len(),
            first <= st@.variants.len(),
            !done ==> spec_variants(toks@, i as int, end as int, old(st)@) == spec_variants(
                toks@,
                j as int,
                end as int,
                st@,
            ),
            done ==> spec_variants(toks@, i as int, end as int, old(st)@) == Ok::<Parts, MacroError>(
                st@,
            ),
            done ==> st@.variants.len() > first,
            !done ==> forall|k: int|
                first <= k < st@.variants.len() ==> (#[trigger] st@.variants[k]).ident is Some,
            done && st@.variants.len() - first > 1 ==> forall|k: int|
                first <= k < st@.variants.len() ==> (#[trigger] st@.variants[k]).ident is Some,
            !done && st@.variants.len() > first ==> is_punct(toks@, j as int, end as int, '@'),
            st@.blocks == old(st)@.blocks,
            st@.regs == old(st)@.regs,
            old(st)@.variants.is_prefix_of(st@.variants),
            old(st)@.fields.is_prefix_of(st@.fields),
            parts_wf(st@, n_toks),
        decreases end - j + (if done { 0int } else { 1int }),
    {
        let ghost before = st@;
        let n = parse_variant(toks, j, end, st)?;
        proof {
            assert(before.variants.is_prefix_of(st@.variants));
            assert(forall|k: int| 0 <= k < before.variants.len() ==> st@.variants[k] == before.variants[k]);
        }
        if n >= end || n <= j {
            done = true;
        } else {
            j = n;
        }
    }
    Ok(())
}


/// Adding a register whose range starts where the variants of the others
/// end keeps the registers in turn.
proof fn lemma_push_reg_tiled(st: Parts, st2: Parts, g: PReg)
    requires
        tiled_regs(st),
        regs_end(st) == g.variants.start,
        st2.regs == st.regs.push(g),
    ensures
        tiled_regs(st2),
        regs_end(st2) == g.variants.end,
{
    assert forall|r: int| 0 <= r < st2.regs.len() implies (#[trigger] st2.regs[r]).variants.start == (
    if r == 0 {
        0
    } else {
        st2.regs[r - 1].variants.end as int
    }) by {
        if r < st.regs.len() {
            assert(st2.regs[r] == st.regs[r]);
            assert(st.regs[r].variants.start == (if r == 0 {
                0
            } else {
                st.regs[r - 1].variants.end as int
            }));
        }
    }
}

/// Adding a block whose range starts where the registers of the others
/// end keeps the blocks in turn.
proof fn lemma_push_block_tiled(st: Parts, st2: Parts, b: PBlock)
    requires
        tiled_blocks(st),
        blocks_end(st) == b.regs.start,
        st2.blocks == st.blocks.push(b),
    ensures
        tiled_blocks(st2),
        blocks_end(st2) == b.regs.end,
{
    assert forall|x: int| 0 <= x < st2.blocks.len() implies (#[trigger] st2.blocks[x]).regs.start == (
    if x == 0 {
        0
    } else {
        st2.blocks[x - 1].regs.end as int
    }) by {
        if x < st.blocks.len() {
            assert(st2.blocks[x] == st.blocks[x]);
            assert(st.blocks[x].regs.start == (if x == 0 {
                0
            } else {
                st.blocks[x - 1].regs.end as int
            }));
        }
    }
}

#[verifier::loop_isolation(false)]
#[verifier::spinoff_prover]
#[verifier::rlimit(50)]
fn parse_reg(toks: &Vec<Tok>, i: usize, end: usize, st: &mut PeriphParts) -> (r: Result<
    usize,
    MacroError,
>)
    requires
        end <= toks@.len(),
        parts_wf(old(st)@, toks@.len() as int),
        tiled_regs(old(st)@),
        regs_end(old(st)@) == old(st)@.variants.len(),
    ensures
        r matches Ok(n) ==> {
            &&& spec_reg(toks@, i as int, end as int, old(st)@) == Ok::<(Parts, usize), MacroError>(
                (final(st)@, n),
            )
            &&& i < n <= end
            &&& final(st)@.blocks == old(st)@.blocks
            &&& old(st)@.regs.is_prefix_of(final(st)@.regs)
            &&& old(st)@.variants.is_prefix_of(final(st)@.variants)
            &&& old(st)@.fields.is_prefix_of(final(st)@.fields)
            &&& parts_wf(final(st)@, toks@.len() as int)
            &&& tiled_regs(final(st)@)
            &&& regs_end(final(st)@) == final(st)@.variants.len()
        },
        r matches Err(e) ==> spec_reg(toks@, i as int, end as int, old(st)@) == Err::<
            (Parts, usize),
            MacroError,
        >(e),
{
    let ghost n_toks = toks@.len() as int;
    let a = outer_attrs(toks, i, end)?;
    expect_ident(toks, a, end)?;
    let c = expect_group(toks, a + 1, end, Delim::Brace)?;
    let start = st.variants.len();
    parse_variants(toks, a + 2, c, st)?;
    let g = PReg {
        features: Span { start: i, end: a },
        ident: a,
        variants: Span { start, end: st.variants.len() },
    };
    let ghost before = st@;
    st.regs.push(g);
    proof {
        assert forall|r: int| 0 <= r < st@.regs.len() implies reg_wf(
            st@,
            #[trigger] st@.regs[r],
            n_toks,
        ) by {
            if r < before.regs.len() {
                assert(st@.regs[r] == before.regs[r]);
                assert(reg_wf(before, before.regs[r], n_toks));
            }
        }
        assert forall|k: int| 0 <= k < st@.variants.len() implies variant_wf(
            st@,
            #[trigger] st@.variants[k],
            n_toks,
        ) by {
            assert(variant_wf(before, before.variants[k], n_toks));
        }
        assert forall|b: int| 0 <= b < st@.blocks.len() implies (#[trigger] st@.blocks[b]).regs.start
            <= st@.blocks[b].regs.end <= st@.regs.len() && st@.blocks[b].ident < n_toks by {
            assert(st@.blocks[b] == before.blocks[b]);
        }
        lemma_push_reg_tiled(before, st@, g);
    }
    Ok(c + 1)
}

#[verifier::loop_isolation(false)]
#[verifier::spinoff_prover]
#[verifier::rlimit(60)]
fn parse_regs(toks: &Vec<Tok>, i: usize, end: usize, st: &mut PeriphParts) -> (r: Result<
    (),
    MacroError,
>)
    requires
        end <= toks@.len(),
        parts_wf(old(st)@, toks@.len() as int),
        tiled_regs(old(st)@),
        regs_end(old(st)@) == old(st)@.variants.len(),
    ensures
        r matches Ok(_) ==> {
            &&& spec_regs(toks@, i as int, end as int, old(st)@) == Ok::<Parts, MacroError>(final(st)@)
            &&& final(st)@.blocks == old(st)@.blocks
            &&& old(st)@.regs.is_prefix_of(final(st)@.regs)
            &&& old(st)@.variants.is_prefix_of(final(st)@.variants)
            &&& old(st)@.fields.is_prefix_of(final(st)@.fields)
            &&& parts_wf(final(st)@, toks@.len() as int)
            &&& tiled_regs(final(st)@)
            &&& regs_end(final(st)@) == final(st)@.variants.len()
        },
        r matches Err(e) ==> spec_regs(toks@, i as int, end as int, old(st)@) == Err::<Parts, MacroError>(
            e,
        ),
{
    let mut j = i;
    while j < end
        invariant
            end <= toks@.len(),
            i <= j || j == i,
            spec_regs(toks@, i as int, end as int, old(st)@) == spec_regs(
                toks@,
                j as int,
                end as int,
                st@,
            ),
            st@.blocks == old(st)@.blocks,
            old(st)@.regs.is_prefix_of(st@.regs),
            old(st)@.variants.is_prefix_of(st@.variants),
            old(st)@.fields.is_prefix_of(st@.fields),
            parts_wf(st@, toks@.len() as int),
            tiled_regs(st@),
            regs_end(st@) == st@.variants.len(),
        decreases end - j,
    {
        let ghost before = st@;
        let n = parse_reg(toks, j, end, st)?;
        proof {
            assert(forall|k: int| 0 <= k < before.regs.len() ==> st@.regs[k] == before.regs[k]);
            assert(forall|k: int| 0 <= k < before.variants.len() ==> st@.variants[k] == before.variants[k]);
            assert(forall|k: int| 0 <= k < before.fields.len() ==> st@.fields[k] == before.fields[k]);
        }
        j = n;
    }
    Ok(())
}

#[verifier::loop_isolation(false)]
#[verifier::spinoff_prover]
#[verifier::rlimit(50)]
fn parse_block(toks: &Vec<Tok>, i: usize, end: usize, st: &mut PeriphParts) -> (r: Result<
    usize,
    MacroError,
>)
    requires
        end <= toks@.len(),
        parts_wf(old(st)@, toks@.len() as int),
        parts_tiled(old(st)@),
    ensures
        r matches Ok(n) ==> {
            &&& spec_block(toks@, i as int, end as int, old(st)@) == Ok::<(Parts, usize), MacroError>(
                (final(st)@, n),
            )
            &&& i < n <= end
            &&& parts_wf(final(st)@, toks@.len() as int)
            &&& parts_tiled(final(st)@)
        },
        r matches Err(e) ==> spec_block(toks@, i as int, end as int, old(st)@) == Err::<
            (Parts, usize),
            MacroError,
        >(e),
{
    let ghost n_toks = toks@.len() as int;
    expect_ident(toks, i, end)?;
    let c = expect_group(toks, i + 1, end, Delim::Brace)?;
    let start = st.regs.len();
    parse_regs(toks, i + 2, c, st)?;
    let b = PBlock { ident: i, regs: Span { start, end: st.regs.len() } };
    let ghost before = st@;
    st.blocks.push(b);
    proof {
        assert forall|x: int| 0 <= x < st@.blocks.len() implies (#[trigger] st@.blocks[x]).regs.start
            <= st@.blocks[x].regs.end <= st@.regs.len() && st@.blocks[x].ident < n_toks by {
            if x < before.blocks.len() {
                assert(st@.blocks[x] == before.blocks[x]);
            }
        }
        assert forall|r: int| 0 <= r < st@.regs.len() implies reg_wf(
            st@,
            #[trigger] st@.regs[r],
            n_toks,
        ) by {
            assert(reg_wf(before, before.regs[r], n_toks));
        }
        assert forall|k: int| 0 <= k < st@.variants.len() implies variant_wf(
            st@,
            #[trigger] st@.variants[k],
            n_toks,
        ) by {
            assert(variant_wf(before, before.variants[k], n_toks));
        }
        lemma_push_block_tiled(before, st@, b);
    }
    Ok(c + 1)
}

/// The input of `periph!`.
#[derive(Debug)]
pub struct PeriphInput {
    pub trait_attrs: Span,
    pub trait_ident: usize,
    /// The items of the trait, kept as written.
    pub trait_items: Span,
    pub struct_attrs: Span,
    pub struct_ident: usize,
    pub parts: PeriphParts,
}

pub open spec fn periph_input_view(p: &PeriphInput) -> PeriphInputV {
    PeriphInputV {
        trait_attrs: p.trait_attrs,
        trait_ident: p.trait_ident,
        trait_items: p.trait_items,
        struct_attrs: p.struct_attrs,
        struct_ident: p.struct_ident,
        parts: p.parts@,
    }
}

/// Reads the input of `periph!`.
#[verifier::loop_isolation(false)]
pub fn parse_periph_input(toks: &Vec<Tok>) -> (r: Result<PeriphInput, MacroError>)
    ensures
        r matches Ok(p) ==> spec_periph_input(toks@) == Ok::<PeriphInputV, MacroError>(
            periph_input_view(&p),
        ) && parts_wf(p.parts@, toks@.len() as int) && parts_tiled(p.parts@),
        r matches Err(e) ==> spec_periph_input(toks@) == Err::<PeriphInputV, MacroError>(e),
{
    let end = toks.len();
    let a = outer_attrs(toks, 0, end)?;
    expect_word(toks, a, end, "pub")?;
    expect_word(toks, a + 1, end, "trait")?;
    expect_ident(toks, a + 2, end)?;
    let c = expect_group(toks, a + 3, end, Delim::Brace)?;
    let b = outer_attrs(toks, c + 1, end)?;
    expect_word(toks, b, end, "pub")?;
    expect_word(toks, b + 1, end, "struct")?;
    expect_ident(toks, b + 2, end)?;
    expect_punct(toks, b + 3, end, ';')?;
    let mut st = PeriphParts {
        blocks: Vec::new(),
        regs: Vec::new(),
        variants: Vec::new(),
        fields: Vec::new(),
    };
    assert(st@ == no_parts());
    let mut j = b + 4;
    while j < end
        invariant
            end == toks@.len(),
            spec_blocks(toks@, (b + 4) as int, end as int, no_parts()) == spec_blocks(
                toks@,
                j as int,
                end as int,
                st@,
            ),
            parts_wf(st@, end as int),
            parts_tiled(st@),
        decreases end - j,
    {
        let n = parse_block(toks, j, end, &mut st)?;
        j = n;
    }
    Ok(
        PeriphInput {
            trait_attrs: Span { start: 0, end: a },
            trait_ident: a + 2,
            trait_items: Span { start: a + 4, end: c },
            struct_attrs: Span { start: c + 1, end: b },
            struct_ident: b + 2,
            parts: st,
        },
    )
}


// ---------------------------------------------------------------------------
// What each register variant expands to

pub const OPTION_AND_SHARED: &'static str = "`Option` and `Shared` can't be used simultaneously";

pub const SHARED_WITH_VARIANTS: &'static str = "`Shared` can't be used with multiple variants";

pub const OPTION_IN_ALL: &'static str = "`Option` should be defined for all variants";

/// One of the identifiers in `span` is `name`.
pub open spec fn has_trait(toks: Seq<Tok>, span: Span, name: Seq<char>) -> bool {
    exists|t: int| span.start <= t < span.end && ident_text(toks, t) == name
}

pub open spec fn is_shared(toks: Seq<Tok>, v: PVariant) -> bool {
    has_trait(toks, v.traits, "Shared"@)
}

pub open spec fn is_option(toks: Seq<Tok>, v: PVariant) -> bool {
    has_trait(toks, v.traits, "Option"@)
}

/// Every variant of register `r` has `Option`.
pub open spec fn all_option(toks: Seq<Tok>, st: Parts, r: int) -> bool {
    forall|k: int|
        st.regs[r].variants.start <= k < st.regs[r].variants.end ==> is_option(
            toks,
            #[trigger] st.variants[k],
        )
}

/// The rule that variant `k` of register `r` breaks, if any.
pub open spec fn variant_error(toks: Seq<Tok>, st: Parts, r: int, k: int) -> Option<&'static str> {
    let g = st.regs[r];
    let v = st.variants[k];
    if is_shared(toks, v) && is_option(toks, v) {
        Some(OPTION_AND_SHARED)
    } else if g.variants.end - g.variants.start > 1 && is_shared(toks, v) {
        Some(SHARED_WITH_VARIANTS)
    } else if is_option(toks, v) && !all_option(toks, st, r) {
        Some(OPTION_IN_ALL)
    } else {
        None
    }
}

/// The traits in `[s, e)` that are passed on: all but `Option`, and, for a
/// register, `Shared`.
pub open spec fn kept_traits(toks: Seq<Tok>, s: int, e: int, drop_shared: bool) -> Seq<usize>
    decreases e - s,
{
    if e <= s {
        Seq::empty()
    } else {
        let rest = kept_traits(toks, s, e - 1, drop_shared);
        let t = ident_text(toks, e - 1);
        if t == "Option"@ || (drop_shared && t == "Shared"@) {
            rest
        } else {
            rest.push((e - 1) as usize)
        }
    }
}

pub open spec fn name_snake(toks: Seq<Tok>, i: usize) -> Seq<char> {
    inflector_snake(ident_text(toks, i as int))
}

pub open spec fn name_pascal(toks: Seq<Tok>, i: usize) -> Seq<char> {
    inflector_pascal(ident_text(toks, i as int))
}

/// The name of a variant; none (`-1`) for an unnamed one.
pub open spec fn variant_name(v: PVariant) -> int {
    match v.ident {
        Some(x) => x as int,
        None => -1,
    }
}

/// The register's name in snake case, followed by `_` and the variant's
/// where it has one.
pub open spec fn var_snake(toks: Seq<Tok>, st: Parts, r: int, k: int) -> Seq<char> {
    match st.variants[k].ident {
        Some(x) => name_snake(toks, st.regs[r].ident) + "_"@ + name_snake(toks, x),
        None => name_snake(toks, st.regs[r].ident),
    }
}

/// The register's name in Pascal case, followed by the variant's where it
/// has one.
pub open spec fn var_pascal(toks: Seq<Tok>, st: Parts, r: int, k: int) -> Seq<char> {
    match st.variants[k].ident {
        Some(x) => name_pascal(toks, st.regs[r].ident) + name_pascal(toks, x),
        None => name_pascal(toks, st.regs[r].ident),
    }
}

/// A field of a variant: its index among all fields, its name as a
/// structure field (snake case, kept clear of keywords), the base of its
/// trait names (block, variant and field in Pascal case), its name in the
/// peripheral structure (block, variant and field in snake case, joined by
/// `_`), whether it has `Option`, and its other traits.
#[derive(Debug)]
pub struct FieldPlan {
    pub field: usize,
    pub ident: String,
    pub name: String,
    pub snake: String,
    pub option: bool,
    pub traits: Vec<usize>,
}

pub struct FieldPlanV {
    pub field: usize,
    pub ident: Seq<char>,
    pub name: Seq<char>,
    pub snake: Seq<char>,
    pub option: bool,
    pub traits: Seq<usize>,
}

pub open spec fn field_plan_view(f: FieldPlan) -> FieldPlanV {
    FieldPlanV {
        field: f.field,
        ident: f.ident@,
        name: f.name@,
        snake: f.snake@,
        option: f.option,
        traits: f.traits@,
    }
}

pub open spec fn spec_field_plan(toks: Seq<Tok>, st: Parts, b: int, r: int, k: int, x: int) -> FieldPlanV {
    let f = st.fields[x];
    let snk = name_snake(toks, f.ident);
    FieldPlanV {
        field: x as usize,
        ident: unkeywordize(snk),
        name: name_pascal(toks, st.blocks[b].ident) + var_pascal(toks, st, r, k) + name_pascal(
            toks,
            f.ident,
        ),
        snake: name_snake(toks, st.blocks[b].ident) + "_"@ + var_snake(toks, st, r, k) + "_"@
            + snk,
        option: has_trait(toks, f.traits, "Option"@),
        traits: kept_traits(toks, f.traits.start as int, f.traits.end as int, false),
    }
}


/// A field's names in the peripheral: its name in the structure is the
/// block's name, the register's, the variant's where it has one, and the
/// field's, each in snake case and joined by `_`, so fields of the same name
/// in two variants of a register get different names; its trait name joins
/// the same names in Pascal case. Both extend the names of the field's
/// variant by the field's own.
pub proof fn law_field_names_join_block_register_variant_field(
    toks: Seq<Tok>,
    st: Parts,
    b: int,
    r: int,
    k: int,
    x: int,
)
    ensures
        ({
            let fp = spec_field_plan(toks, st, b, r, k, x);
            let vp = spec_variant_plan(toks, st, b, r, k);
            let blk = inflector_snake(ident_text(toks, st.blocks[b].ident as int));
            let reg = inflector_snake(ident_text(toks, st.regs[r].ident as int));
            let fld = inflector_snake(ident_text(toks, st.fields[x].ident as int));
            &&& st.variants[k].ident matches Some(v) ==> fp.snake == blk + "_"@ + reg + "_"@
                + inflector_snake(ident_text(toks, v as int)) + "_"@ + fld
            &&& st.variants[k].ident is None ==> fp.snake == blk + "_"@ + reg + "_"@ + fld
            &&& st.variants[k].ident matches Some(v) ==> fp.name == inflector_pascal(
                ident_text(toks, st.blocks[b].ident as int),
            ) + inflector_pascal(ident_text(toks, st.regs[r].ident as int)) + inflector_pascal(
                ident_text(toks, v as int),
            ) + inflector_pascal(ident_text(toks, st.fields[x].ident as int))
            &&& fp.snake == vp.snake + "_"@ + fld
            &&& fp.name == vp.name + inflector_pascal(ident_text(toks, st.fields[x].ident as int))
        }),
{
    let fp = spec_field_plan(toks, st, b, r, k, x);
    let vp = spec_variant_plan(toks, st, b, r, k);
    let blk = inflector_snake(ident_text(toks, st.blocks[b].ident as int));
    let reg = inflector_snake(ident_text(toks, st.regs[r].ident as int));
    let fld = inflector_snake(ident_text(toks, st.fields[x].ident as int));
    match st.variants[k].ident {
        Some(v) => {
            let vs = inflector_snake(ident_text(toks, v as int));
            assert(fp.snake =~= blk + "_"@ + reg + "_"@ + vs + "_"@ + fld);
            assert(fp.snake =~= vp.snake + "_"@ + fld);
            assert(fp.name =~= vp.name + inflector_pascal(ident_text(toks, st.fields[x].ident as int)));
        },
        None => {
            assert(fp.snake =~= blk + "_"@ + reg + "_"@ + fld);
            assert(fp.snake =~= vp.snake + "_"@ + fld);
            assert(fp.name =~= vp.name + inflector_pascal(ident_text(toks, st.fields[x].ident as int)));
        },
    }
}

pub fn has_trait_exec(toks: &Vec<Tok>, span: Span, name: &str) -> (r: bool)
    ensures
        r == has_trait(toks@, span, name@),
{
    let mut t = span.start;
    while t < span.end
        invariant
            span.start <= t,
            forall|u: int| span.start <= u < t ==> ident_text(toks@, u) != name@,
        decreases span.end - t,
    {
        if eq_lit(&ident_string(toks, t), name) {
            return true;
        }
        t = t + 1;
    }
    false
}

fn kept_traits_exec(toks: &Vec<Tok>, s: usize, e: usize, drop_shared: bool) -> (r: Vec<usize>)
    requires
        s <= e,
    ensures
        r@ == kept_traits(toks@, s as int, e as int, drop_shared),
{
    let mut out: Vec<usize> = Vec::new();
    let mut j = s;
    while j < e
        invariant
            s <= j <= e,
            out@ == kept_traits(toks@, s as int, j as int, drop_shared),
        decreases e - j,
    {
        let t = ident_string(toks, j);
        if !(eq_lit(&t, "Option") || (drop_shared && eq_lit(&t, "Shared"))) {
            out.push(j);
        }
        j = j + 1;
    }
    out
}

fn all_option_exec(toks: &Vec<Tok>, parts: &PeriphParts, r: usize) -> (res: bool)
    requires
        r < parts@.regs.len(),
        parts_wf(parts@, toks@.len() as int),
    ensures
        res == all_option(toks@, parts@, r as int),
{
    let g = parts.regs[r];
    assert(reg_wf(parts@, g, toks@.len() as int));
    let mut k = g.variants.start;
    while k < g.variants.end
        invariant
            g == parts@.regs[r as int],
            g.variants.start <= k <= g.variants.end <= parts@.variants.len(),
            forall|m: int| g.variants.start <= m < k ==> is_option(toks@, #[trigger] parts@.variants[m]),
        decreases g.variants.end - k,
    {
        if !has_trait_exec(toks, parts.variants[k].traits, "Option") {
            return false;
        }
        k = k + 1;
    }
    true
}

fn variant_error_exec(toks: &Vec<Tok>, parts: &PeriphParts, r: usize, k: usize) -> (res: Option<&'static str>)
    requires
        r < parts@.regs.len(),
        k < parts@.variants.len(),
        parts_wf(parts@, toks@.len() as int),
    ensures
        res == variant_error(toks@, parts@, r as int, k as int),
{
    let g = parts.regs[r];
    let v = parts.variants[k];
    assert(reg_wf(parts@, g, toks@.len() as int));
    let shared = has_trait_exec(toks, v.traits, "Shared");
    let option = has_trait_exec(toks, v.traits, "Option");
    if shared && option {
        Some(OPTION_AND_SHARED)
    } else if g.variants.end - g.variants.start > 1 && shared {
        Some(SHARED_WITH_VARIANTS)
    } else if option && !all_option_exec(toks, parts, r) {
        Some(OPTION_IN_ALL)
    } else {
        None
    }
}

fn snake_of(toks: &Vec<Tok>, i: usize) -> (r: String)
    ensures
        r@ == name_snake(toks@, i),
{
    to_snake_inflector(ident_string(toks, i).as_str())
}

fn pascal_of(toks: &Vec<Tok>, i: usize) -> (r: String)
    ensures
        r@ == name_pascal(toks@, i),
{
    to_pascal_inflector(ident_string(toks, i).as_str())
}

fn join(a: &String, sep: &str, b: &String) -> (r: String)
    ensures
        r@ == a@ + sep@ + b@,
{
    let r = a.clone();
    let r = r.concat(sep);
    r.concat(b.as_str())
}

fn var_names(toks: &Vec<Tok>, parts: &PeriphParts, r: usize, k: usize) -> (res: (String, String))
    requires
        r < parts@.regs.len(),
        k < parts@.variants.len(),
    ensures
        res.0@ == var_snake(toks@, parts@, r as int, k as int),
        res.1@ == var_pascal(toks@, parts@, r as int, k as int),
{
    let g = parts.regs[r];
    let reg_snk = snake_of(toks, g.ident);
    let reg_psc = pascal_of(toks, g.ident);
    match parts.variants[k].ident {
        Some(x) => {
            let snk = join(&reg_snk, "_", &snake_of(toks, x));
            let psc = join(&reg_psc, "", &pascal_of(toks, x));
            proof {
                reveal_strlit("");
                assert(reg_psc@ + ""@ =~= reg_psc@);
            }
            (snk, psc)
        },
        None => (reg_snk, reg_psc),
    }
}

fn field_plan(toks: &Vec<Tok>, parts: &PeriphParts, b: usize, r: usize, k: usize, x: usize) -> (res: FieldPlan)
    requires
        b < parts@.blocks.len(),
        r < parts@.regs.len(),
        k < parts@.variants.len(),
        x < parts@.fields.len(),
        parts_wf(parts@, toks@.len() as int),
    ensures
        field_plan_view(res) == spec_field_plan(toks@, parts@, b as int, r as int, k as int, x as int),
{
    let f = parts.fields[x];
    assert(field_wf(f, toks@.len() as int));
    let blk = parts.blocks[b].ident;
    let (var_snk, var_psc) = var_names(toks, parts, r, k);
    let snk = snake_of(toks, f.ident);
    let ident = unkeywordize_exec(&snk);
    let name = join(&join(&pascal_of(toks, blk), "", &var_psc), "", &pascal_of(toks, f.ident));
    let snake = join(&join(&snake_of(toks, blk), "_", &var_snk), "_", &snk);
    let option = has_trait_exec(toks, f.traits, "Option");
    let traits = kept_traits_exec(toks, f.traits.start, f.traits.end, false);
    proof {
        reveal_strlit("");
        assert(name@ =~= name_pascal(toks@, blk) + var_psc@ + name_pascal(toks@, f.ident));
    }
    FieldPlan { field: x, ident, name, snake, option, traits }
}


/// Another variant of the same register: its index, the name of the method
/// that turns a register into it (`into_` and its name in snake case), and
/// the name of its trait (block, register and variant in Pascal case).
#[derive(Debug)]
pub struct OtherVariant {
    pub variant: usize,
    pub into_fn: String,
    pub name: String,
}

pub open spec fn other_view(o: OtherVariant) -> (usize, Seq<char>, Seq<char>) {
    (o.variant, o.into_fn@, o.name@)
}

pub open spec fn spec_other(toks: Seq<Tok>, st: Parts, b: int, r: int, j: int) -> (
    usize,
    Seq<char>,
    Seq<char>,
) {
    let name = ident_text(toks, variant_name(st.variants[j]));
    (
        j as usize,
        "into_"@ + inflector_snake(name),
        name_pascal(toks, st.blocks[b].ident) + name_pascal(toks, st.regs[r].ident) + inflector_pascal(
            name,
        ),
    )
}

/// The variants of register `r` from `j` on but `k`, added to `acc`.
pub open spec fn spec_others(
    toks: Seq<Tok>,
    st: Parts,
    b: int,
    r: int,
    k: int,
    j: int,
    acc: Seq<(usize, Seq<char>, Seq<char>)>,
) -> Seq<(usize, Seq<char>, Seq<char>)>
    decreases st.regs[r].variants.end - j,
{
    if j >= st.regs[r].variants.end {
        acc
    } else if j == k {
        spec_others(toks, st, b, r, k, j + 1, acc)
    } else {
        spec_others(toks, st, b, r, k, j + 1, acc.push(spec_other(toks, st, b, r, j)))
    }
}

/// The fields of variant `k` from `x` on, added to `acc`.
pub open spec fn spec_field_plans(
    toks: Seq<Tok>,
    st: Parts,
    b: int,
    r: int,
    k: int,
    x: int,
    acc: Seq<FieldPlanV>,
) -> Seq<FieldPlanV>
    decreases st.variants[k].fields.end - x,
{
    if x >= st.variants[k].fields.end {
        acc
    } else {
        spec_field_plans(toks, st, b, r, k, x + 1, acc.push(spec_field_plan(toks, st, b, r, k, x)))
    }
}

/// What variant `k` of register `r` in block `b` expands to: the indices
/// of the three, whether it is the register's first variant, its name in
/// the peripheral structure (block and variant in snake case, joined by
/// `_`), the base of its trait names (block and variant in Pascal case),
/// its size, whether it is `Shared` or has `Option`, its other traits, the
/// register's other variants, and its fields.
#[derive(Debug)]
pub struct VariantPlan {
    pub block: usize,
    pub reg: usize,
    pub variant: usize,
    pub first: bool,
    pub snake: String,
    pub name: String,
    pub size: u8,
    pub shared: bool,
    pub option: bool,
    pub traits: Vec<usize>,
    pub others: Vec<OtherVariant>,
    pub fields: Vec<FieldPlan>,
}

pub struct VariantPlanV {
    pub block: usize,
    pub reg: usize,
    pub variant: usize,
    pub first: bool,
    pub snake: Seq<char>,
    pub name: Seq<char>,
    pub size: u8,
    pub shared: bool,
    pub option: bool,
    pub traits: Seq<usize>,
    pub others: Seq<(usize, Seq<char>, Seq<char>)>,
    pub fields: Seq<FieldPlanV>,
}

pub open spec fn variant_plan_view(p: VariantPlan) -> VariantPlanV {
    VariantPlanV {
        block: p.block,
        reg: p.reg,
        variant: p.variant,
        first: p.first,
        snake: p.snake@,
        name: p.name@,
        size: p.size,
        shared: p.shared,
        option: p.option,
        traits: p.traits@,
        others: p.others@.map_values(|o: OtherVariant| other_view(o)),
        fields: p.fields@.map_values(|f: FieldPlan| field_plan_view(f)),
    }
}

pub open spec fn spec_variant_plan(toks: Seq<Tok>, st: Parts, b: int, r: int, k: int) -> VariantPlanV {
    let v = st.variants[k];
    let g = st.regs[r];
    VariantPlanV {
        block: b as usize,
        reg: r as usize,
        variant: k as usize,
        first: k == g.variants.start,
        snake: name_snake(toks, st.blocks[b].ident) + "_"@ + var_snake(toks, st, r, k),
        name: name_pascal(toks, st.blocks[b].ident) + var_pascal(toks, st, r, k),
        size: v.size,
        shared: is_shared(toks, v),
        option: is_option(toks, v),
        traits: kept_traits(toks, v.traits.start as int, v.traits.end as int, true),
        others: spec_others(toks, st, b, r, k, g.variants.start as int, Seq::empty()),
        fields: spec_field_plans(toks, st, b, r, k, v.fields.start as int, Seq::empty()),
    }
}


#[verifier::loop_isolation(false)]
fn others_exec(toks: &Vec<Tok>, parts: &PeriphParts, b: usize, r: usize, k: usize) -> (res: Vec<
    OtherVariant,
>)
    requires
        b < parts@.blocks.len(),
        r < parts@.regs.len(),
        parts_wf(parts@, toks@.len() as int),
        parts@.regs[r as int].variants.start <= k < parts@.regs[r as int].variants.end,
    ensures
        res@.map_values(|o: OtherVariant| other_view(o)) == spec_others(
            toks@,
            parts@,
            b as int,
            r as int,
            k as int,
            parts@.regs[r as int].variants.start as int,
            Seq::empty(),
        ),
{
    let ghost st = parts@;
    let g = parts.regs[r];
    assert(reg_wf(st, g, toks@.len() as int));
    let blk_psc = pascal_of(toks, parts.blocks[b].ident);
    let reg_psc = pascal_of(toks, g.ident);
    let mut out: Vec<OtherVariant> = Vec::new();
    assert(out@.map_values(|o: OtherVariant| other_view(o)) =~= Seq::empty());
    let mut j = g.variants.start;
    while j < g.variants.end
        invariant
            st == parts@,
            g == st.regs[r as int],
            reg_wf(st, g, toks@.len() as int),
            g.variants.start <= j <= g.variants.end,
            g.variants.start <= k < g.variants.end,
            blk_psc@ == name_pascal(toks@, st.blocks[b as int].ident),
            reg_psc@ == name_pascal(toks@, g.ident),
            spec_others(toks@, st, b as int, r as int, k as int, g.variants.start as int, Seq::empty())
                == spec_others(
                toks@,
                st,
                b as int,
                r as int,
                k as int,
                j as int,
                out@.map_values(|o: OtherVariant| other_view(o)),
            ),
        decreases g.variants.end - j,
    {
        if j != k {
            let v = parts.variants[j];
            assert(v.ident is Some);
            let x = match v.ident {
                Some(x) => x,
                None => 0,
            };
            let name = ident_string(toks, x);
            let into_fn = cat("into_", to_snake_inflector(name.as_str()).as_str());
            let vname = join(&join(&blk_psc, "", &reg_psc), "", &to_pascal_inflector(name.as_str()));
            let o = OtherVariant { variant: j, into_fn, name: vname };
            let ghost before = out@.map_values(|o: OtherVariant| other_view(o));
            proof {
                reveal_strlit("");
                assert(o.name@ =~= spec_other(toks@, st, b as int, r as int, j as int).2);
                assert(other_view(o) == spec_other(toks@, st, b as int, r as int, j as int));
            }
            out.push(o);
            assert(out@.map_values(|o: OtherVariant| other_view(o)) =~= before.push(
                spec_other(toks@, st, b as int, r as int, j as int),
            ));
        }
        j = j + 1;
    }
    out
}

#[verifier::loop_isolation(false)]
fn field_plans_exec(toks: &Vec<Tok>, parts: &PeriphParts, b: usize, r: usize, k: usize) -> (res: Vec<
    FieldPlan,
>)
    requires
        b < parts@.blocks.len(),
        r < parts@.regs.len(),
        k < parts@.variants.len(),
        parts_wf(parts@, toks@.len() as int),
    ensures
        res@.map_values(|f: FieldPlan| field_plan_view(f)) == spec_field_plans(
            toks@,
            parts@,
            b as int,
            r as int,
            k as int,
            parts@.variants[k as int].fields.start as int,
            Seq::empty(),
        ),
{
    let ghost st = parts@;
    let v = parts.variants[k];
    assert(variant_wf(st, v, toks@.len() as int));
    let mut out: Vec<FieldPlan> = Vec::new();
    assert(out@.map_values(|f: FieldPlan| field_plan_view(f)) =~= Seq::empty());
    let mut x = v.fields.start;
    while x < v.fields.end
        invariant
            st == parts@,
            v == st.variants[k as int],
            v.fields.start <= x <= v.fields.end <= st.fields.len(),
            spec_field_plans(
                toks@,
                st,
                b as int,
                r as int,
                k as int,
                v.fields.start as int,
                Seq::empty(),
            ) == spec_field_plans(
                toks@,
                st,
                b as int,
                r as int,
                k as int,
                x as int,
                out@.map_values(|f: FieldPlan| field_plan_view(f)),
            ),
        decreases v.fields.end - x,
    {
        let f = field_plan(toks, parts, b, r, k, x);
        let ghost before = out@.map_values(|f: FieldPlan| field_plan_view(f));
        let ghost fv = field_plan_view(f);
        out.push(f);
        assert(out@.map_values(|f: FieldPlan| field_plan_view(f)) =~= before.push(fv));
        x = x + 1;
    }
    out
}

fn variant_plan(toks: &Vec<Tok>, parts: &PeriphParts, b: usize, r: usize, k: usize) -> (res: VariantPlan)
    requires
        b < parts@.blocks.len(),
        r < parts@.regs.len(),
        parts_wf(parts@, toks@.len() as int),
        parts@.regs[r as int].variants.start <= k < parts@.regs[r as int].variants.end,
    ensures
        variant_plan_view(res) == spec_variant_plan(toks@, parts@, b as int, r as int, k as int),
{
    let ghost st = parts@;
    let g = parts.regs[r];
    assert(reg_wf(st, g, toks@.len() as int));
    let v = parts.variants[k];
    assert(variant_wf(st, v, toks@.len() as int));
    let blk = parts.blocks[b].ident;
    let (var_snk, var_psc) = var_names(toks, parts, r, k);
    let snake = join(&snake_of(toks, blk), "_", &var_snk);
    let name = join(&pascal_of(toks, blk), "", &var_psc);
    proof {
        reveal_strlit("");
        assert(name@ =~= name_pascal(toks@, blk) + var_psc@);
    }
    VariantPlan {
        block: b,
        reg: r,
        variant: k,
        first: k == g.variants.start,
        snake,
        name,
        size: v.size,
        shared: has_trait_exec(toks, v.traits, "Shared"),
        option: has_trait_exec(toks, v.traits, "Option"),
        traits: kept_traits_exec(toks, v.traits.start, v.traits.end, true),
        others: others_exec(toks, parts, b, r, k),
        fields: field_plans_exec(toks, parts, b, r, k),
    }
}


/// The plans of the variants of register `r` in block `b` from `k` on,
/// added to `acc`; the first rule broken, reported at the register's name.
pub open spec fn spec_variant_plans(
    toks: Seq<Tok>,
    st: Parts,
    b: int,
    r: int,
    k: int,
    acc: Seq<VariantPlanV>,
) -> Result<Seq<VariantPlanV>, MacroError>
    decreases st.regs[r].variants.end - k,
{
    if k >= st.regs[r].variants.end {
        Ok(acc)
    } else {
        match variant_error(toks, st, r, k) {
            Some(m) => err(st.regs[r].ident as int, ErrorKind::Invalid(m)),
            None => spec_variant_plans(toks, st, b, r, k + 1, acc.push(spec_variant_plan(toks, st, b, r, k))),
        }
    }
}

/// The plans of the registers of block `b` from `r` on, added to `acc`.
pub open spec fn spec_reg_plans(toks: Seq<Tok>, st: Parts, b: int, r: int, acc: Seq<VariantPlanV>) -> Result<
    Seq<VariantPlanV>,
    MacroError,
>
    decreases st.blocks[b].regs.end - r,
{
    if r >= st.blocks[b].regs.end {
        Ok(acc)
    } else {
        match spec_variant_plans(toks, st, b, r, st.regs[r].variants.start as int, acc) {
            Err(e) => Err(e),
            Ok(acc2) => spec_reg_plans(toks, st, b, r + 1, acc2),
        }
    }
}

/// The plans of the blocks from `b` on, added to `acc`.
pub open spec fn spec_block_plans(toks: Seq<Tok>, st: Parts, b: int, acc: Seq<VariantPlanV>) -> Result<
    Seq<VariantPlanV>,
    MacroError,
>
    decreases st.blocks.len() - b,
{
    if b >= st.blocks.len() {
        Ok(acc)
    } else {
        match spec_reg_plans(toks, st, b, st.blocks[b].regs.start as int, acc) {
            Err(e) => Err(e),
            Ok(acc2) => spec_block_plans(toks, st, b + 1, acc2),
        }
    }
}


/// Where the plans of register `r` begin: the first of its variants, or,
/// past the last register, the number of variants.
pub open spec fn vpos(st: Parts, r: int) -> int {
    if 0 <= r < st.regs.len() {
        st.regs[r].variants.start as int
    } else {
        st.variants.len() as int
    }
}

/// Where the plans of block `b` begin.
pub open spec fn bpos(st: Parts, b: int) -> int {
    if 0 <= b < st.blocks.len() {
        vpos(st, st.blocks[b].regs.start as int)
    } else {
        st.variants.len() as int
    }
}

/// The plans in `acc` are those of the variants numbered `0`, `1`, ... in
/// turn.
pub open spec fn numbered(acc: Seq<VariantPlanV>) -> bool {
    forall|i: int| 0 <= i < acc.len() ==> (#[trigger] acc[i]).variant == i
}

proof fn lemma_variant_plans_numbered(
    toks: Seq<Tok>,
    st: Parts,
    b: int,
    r: int,
    k: int,
    acc: Seq<VariantPlanV>,
)
    requires
        0 <= k <= st.regs[r].variants.end,
        acc.len() == k,
        numbered(acc),
    ensures
        spec_variant_plans(toks, st, b, r, k, acc) matches Ok(res) ==> res.len()
            == st.regs[r].variants.end && numbered(res),
    decreases st.regs[r].variants.end - k,
{
    if k < st.regs[r].variants.end && variant_error(toks, st, r, k) is None {
        let acc2 = acc.push(spec_variant_plan(toks, st, b, r, k));
        assert forall|i: int| 0 <= i < acc2.len() implies (#[trigger] acc2[i]).variant == i by {
            if i < acc.len() {
                assert(acc2[i] == acc[i]);
            }
        }
        lemma_variant_plans_numbered(toks, st, b, r, k + 1, acc2);
    }
}

/// Each register's range of variants runs forwards, and each block's range
/// of registers runs forwards within the registers.
pub open spec fn ranges_forward(st: Parts) -> bool {
    &&& forall|r: int|
        0 <= r < st.regs.len() ==> (#[trigger] st.regs[r]).variants.start <= st.regs[r].variants.end
    &&& forall|b: int|
        0 <= b < st.blocks.len() ==> (#[trigger] st.blocks[b]).regs.start <= st.blocks[b].regs.end
            <= st.regs.len()
}

#[verifier::spinoff_prover]
#[verifier::rlimit(60)]
proof fn lemma_reg_plans_numbered(toks: Seq<Tok>, st: Parts, b: int, r: int, acc: Seq<VariantPlanV>)
    requires
        ranges_forward(st),
        parts_tiled(st),
        0 <= b < st.blocks.len(),
        st.blocks[b].regs.start <= r <= st.blocks[b].regs.end,
        acc.len() == vpos(st, r),
        numbered(acc),
    ensures
        spec_reg_plans(toks, st, b, r, acc) matches Ok(res) ==> res.len() == vpos(
            st,
            st.blocks[b].regs.end as int,
        ) && numbered(res),
    decreases st.blocks[b].regs.end - r,
{
    if r < st.blocks[b].regs.end {
        let g = st.regs[r];
        lemma_variant_plans_numbered(toks, st, b, r, g.variants.start as int, acc);
        if let Ok(acc2) = spec_variant_plans(toks, st, b, r, g.variants.start as int, acc) {
            if r + 1 < st.regs.len() {
                assert(st.regs[r + 1].variants.start == g.variants.end);
            } else {
                assert(st.regs.last() == g);
            }
            lemma_reg_plans_numbered(toks, st, b, r + 1, acc2);
        }
    }
}

#[verifier::spinoff_prover]
#[verifier::rlimit(60)]
proof fn lemma_block_plans_numbered(toks: Seq<Tok>, st: Parts, b: int, acc: Seq<VariantPlanV>)
    requires
        ranges_forward(st),
        parts_tiled(st),
        0 <= b <= st.blocks.len(),
        acc.len() == bpos(st, b),
        numbered(acc),
    ensures
        spec_block_plans(toks, st, b, acc) matches Ok(res) ==> res.len() == st.variants.len()
            && numbered(res),
    decreases st.blocks.len() - b,
{
    if b < st.blocks.len() {
        let blk = st.blocks[b];
        lemma_reg_plans_numbered(toks, st, b, blk.regs.start as int, acc);
        if let Ok(acc2) = spec_reg_plans(toks, st, b, blk.regs.start as int, acc) {
            if b + 1 < st.blocks.len() {
                assert(st.blocks[b + 1].regs.start == blk.regs.end);
            } else {
                assert(st.blocks.last() == blk);
                if st.regs.len() > 0 {
                    assert(vpos(st, blk.regs.end as int) == st.variants.len());
                }
            }
            lemma_block_plans_numbered(toks, st, b + 1, acc2);
        }
    }
}

/// Every register variant of well-read parts gets one plan, in the order of
/// the input: the plans number the variants `0`, `1`, ... in turn.
pub proof fn law_plans_number_the_variants(toks: Seq<Tok>, st: Parts, n: int)
    requires
        parts_wf(st, n),
        parts_tiled(st),
    ensures
        spec_block_plans(toks, st, 0, Seq::empty()) matches Ok(res) ==> res.len() == st.variants.len()
            && numbered(res),
{
    if st.blocks.len() > 0 {
        assert(st.blocks[0].regs.start == 0);
        if st.regs.len() > 0 {
            assert(st.regs[0].variants.start == 0);
        } else {
            assert(regs_end(st) == 0);
        }
    } else {
        assert(blocks_end(st) == 0);
        assert(st.regs.len() == 0);
        assert(regs_end(st) == 0);
    }
    assert forall|r: int| 0 <= r < st.regs.len() implies (#[trigger] st.regs[r]).variants.start
        <= st.regs[r].variants.end by {
        assert(reg_wf(st, st.regs[r], n));
    }
    lemma_block_plans_numbered(toks, st, 0, Seq::empty());
}

/// The outcome of `periph!` on `toks`: the input, and a plan for each
/// register variant in the order of the input.
pub open spec fn spec_periph(toks: Seq<Tok>) -> Result<(PeriphInputV, Seq<VariantPlanV>), MacroError> {
    match spec_periph_input(toks) {
        Err(e) => Err(e),
        Ok(inp) => match spec_block_plans(toks, inp.parts, 0, Seq::empty()) {
            Err(e) => Err(e),
            Ok(plans) => Ok((inp, plans)),
        },
    }
}

pub open spec fn plans_view(v: Seq<VariantPlan>) -> Seq<VariantPlanV> {
    v.map_values(|p: VariantPlan| variant_plan_view(p))
}

/// The peripheral structure has no register to hold, so it holds a marker
/// of its type parameter: no variant is the first of a register that is
/// not `Shared`, and no `Shared` register has a field.
pub open spec fn needs_marker(plans: Seq<VariantPlanV>) -> bool {
    !exists|i: int|
        0 <= i < plans.len() && ((#[trigger] plans[i]).first && !plans[i].shared || plans[i].shared
            && plans[i].fields.len() > 0)
}

/// What `periph!` expands to.
#[derive(Debug)]
pub struct PeriphPlan {
    pub input: PeriphInput,
    pub variants: Vec<VariantPlan>,
    pub marker: bool,
}

#[verifier::loop_isolation(false)]
fn variant_plans_exec(
    toks: &Vec<Tok>,
    parts: &PeriphParts,
    b: usize,
    r: usize,
    out: &mut Vec<VariantPlan>,
) -> (res: Result<(), MacroError>)
    requires
        b < parts@.blocks.len(),
        r < parts@.regs.len(),
        parts_wf(parts@, toks@.len() as int),
    ensures
        res matches Ok(_) ==> spec_variant_plans(
            toks@,
            parts@,
            b as int,
            r as int,
            parts@.regs[r as int].variants.start as int,
            plans_view(old(out)@),
        ) == Ok::<Seq<VariantPlanV>, MacroError>(plans_view(final(out)@)),
        res matches Err(e) ==> spec_variant_plans(
            toks@,
            parts@,
            b as int,
            r as int,
            parts@.regs[r as int].variants.start as int,
            plans_view(old(out)@),
        ) == Err::<Seq<VariantPlanV>, MacroError>(e),
{
    let ghost st = parts@;
    let g = parts.regs[r];
    assert(reg_wf(st, g, toks@.len() as int));
    let mut k = g.variants.start;
    while k < g.variants.end
        invariant
            g.variants.start <= k <= g.variants.end,
            spec_variant_plans(
                toks@,
                st,
                b as int,
                r as int,
                g.variants.start as int,
                plans_view(old(out)@),
            ) == spec_variant_plans(toks@, st, b as int, r as int, k as int, plans_view(out@)),
        decreases g.variants.end - k,
    {
        match variant_error_exec(toks, parts, r, k) {
            Some(m) => {
                return Err(MacroError { at: g.ident, kind: ErrorKind::Invalid(m) });
            },
            None => {},
        }
        let p = variant_plan(toks, parts, b, r, k);
        let ghost before = plans_view(out@);
        let ghost pv = variant_plan_view(p);
        out.push(p);
        assert(plans_view(out@) =~= before.push(pv));
        k = k + 1;
    }
    Ok(())
}

#[verifier::loop_isolation(false)]
pub fn block_plans_exec(toks: &Vec<Tok>, parts: &PeriphParts, out: &mut Vec<VariantPlan>) -> (res: Result<
    (),
    MacroError,
>)
    requires
        old(out)@.len() == 0,
        parts_wf(parts@, toks@.len() as int),
    ensures
        res matches Ok(_) ==> spec_block_plans(toks@, parts@, 0, Seq::empty()) == Ok::<
            Seq<VariantPlanV>,
            MacroError,
        >(plans_view(final(out)@)),
        res matches Err(e) ==> spec_block_plans(toks@, parts@, 0, Seq::empty()) == Err::<
            Seq<VariantPlanV>,
            MacroError,
        >(e),
{
    let ghost st = parts@;
    assert(plans_view(out@) =~= Seq::<VariantPlanV>::empty());
    let mut b: usize = 0;
    while b < parts.blocks.len()
        invariant
            b <= st.blocks.len(),
            spec_block_plans(toks@, st, 0, Seq::empty()) == spec_block_plans(
                toks@,
                st,
                b as int,
                plans_view(out@),
            ),
        decreases st.blocks.len() - b,
    {
        let blk = parts.blocks[b];
        let mut r = blk.regs.start;
        while r < blk.regs.end
            invariant
                blk == st.blocks[b as int],
                blk.regs.start <= r <= blk.regs.end <= st.regs.len(),
                spec_block_plans(toks@, st, 0, Seq::empty()) == match spec_reg_plans(
                    toks@,
                    st,
                    b as int,
                    r as int,
                    plans_view(out@),
                ) {
                    Err(e) => Err(e),
                    Ok(acc2) => spec_block_plans(toks@, st, b + 1, acc2),
                },
            decreases blk.regs.end - r,
        {
            variant_plans_exec(toks, parts, b, r, out)?;
            r = r + 1;
        }
        b = b + 1;
    }
    Ok(())
}

fn needs_marker_exec(plans: &Vec<VariantPlan>) -> (r: bool)
    ensures
        r == needs_marker(plans_view(plans@)),
{
    let ghost pv = plans_view(plans@);
    let mut i: usize = 0;
    while i < plans.len()
        invariant
            i <= plans@.len(),
            pv == plans_view(plans@),
            forall|m: int|
                0 <= m < i ==> !((#[trigger] pv[m]).first && !pv[m].shared || pv[m].shared
                    && pv[m].fields.len() > 0),
        decreases plans@.len() - i,
    {
        let p = &plans[i];
        assert(pv[i as int] == variant_plan_view(plans@[i as int]));
        if p.first && !p.shared || p.shared && p.fields.len() > 0 {
            return false;
        }
        i = i + 1;
    }
    true
}

/// `periph!` on the input `toks`.
pub fn periph(toks: &Vec<Tok>) -> (r: Result<PeriphPlan, MacroError>)
    ensures
        r matches Err(e) ==> spec_periph(toks@) == Err::<(PeriphInputV, Seq<VariantPlanV>), MacroError>(e),
        r matches Ok(p) ==> {
            &&& spec_periph(toks@) == Ok::<(PeriphInputV, Seq<VariantPlanV>), MacroError>(
                (periph_input_view(&p.input), plans_view(p.variants@)),
            )
            &&& p.marker == needs_marker(plans_view(p.variants@))
            &&& p.variants@.len() == p.input.parts@.variants.len()
            &&& forall|i: int| 0 <= i < p.variants@.len() ==> (#[trigger] p.variants@[i]).variant == i
        },
{
    let input = parse_periph_input(toks)?;
    let mut variants: Vec<VariantPlan> = Vec::new();
    block_plans_exec(toks, &input.parts, &mut variants)?;
    proof {
        law_plans_number_the_variants(toks@, input.parts@, toks@.len() as int);
        assert forall|i: int| 0 <= i < variants@.len() implies (#[trigger] variants@[i]).variant == i by {
            assert(plans_view(variants@)[i] == variant_plan_view(variants@[i]));
        }
    }
    let marker = needs_marker_exec(&variants);
    Ok(PeriphPlan { input, variants, marker })
}


// ---------------------------------------------------------------------------
// Laws

/// The plan `p` keeps the rules of `periph!`: a `Shared` register has no
/// `Option` and no more than one variant; where a variant has `Option`,
/// every variant of its register has it.
pub open spec fn keeps_rules(toks: Seq<Tok>, st: Parts, p: VariantPlanV) -> bool {
    &&& p.shared ==> !p.option && st.regs[p.reg as int].variants.end
        - st.regs[p.reg as int].variants.start <= 1
    &&& p.option ==> all_option(toks, st, p.reg as int)
}

pub open spec fn all_keep_rules(toks: Seq<Tok>, st: Parts, plans: Seq<VariantPlanV>) -> bool {
    forall|i: int| 0 <= i < plans.len() ==> keeps_rules(toks, st, #[trigger] plans[i])
}

proof fn lemma_variant_plans_keep_rules(
    toks: Seq<Tok>,
    st: Parts,
    b: int,
    r: int,
    k: int,
    acc: Seq<VariantPlanV>,
)
    requires
        all_keep_rules(toks, st, acc),
        0 <= r <= usize::MAX,
    ensures
        spec_variant_plans(toks, st, b, r, k, acc) matches Ok(res) ==> all_keep_rules(toks, st, res),
    decreases st.regs[r].variants.end - k,
{
    if k < st.regs[r].variants.end && variant_error(toks, st, r, k) is None {
        let p = spec_variant_plan(toks, st, b, r, k);
        assert(keeps_rules(toks, st, p));
        let acc2 = acc.push(p);
        assert forall|i: int| 0 <= i < acc2.len() implies keeps_rules(toks, st, #[trigger] acc2[i]) by {
            if i < acc.len() {
                assert(acc2[i] == acc[i]);
            }
        }
        lemma_variant_plans_keep_rules(toks, st, b, r, k + 1, acc2);
    }
}

proof fn lemma_reg_plans_keep_rules(toks: Seq<Tok>, st: Parts, b: int, r: int, acc: Seq<VariantPlanV>)
    requires
        all_keep_rules(toks, st, acc),
        0 <= r <= usize::MAX,
    ensures
        spec_reg_plans(toks, st, b, r, acc) matches Ok(res) ==> all_keep_rules(toks, st, res),
    decreases st.blocks[b].regs.end - r,
{
    if r < st.blocks[b].regs.end {
        lemma_variant_plans_keep_rules(toks, st, b, r, st.regs[r].variants.start as int, acc);
        if let Ok(acc2) = spec_variant_plans(toks, st, b, r, st.regs[r].variants.start as int, acc) {
            lemma_reg_plans_keep_rules(toks, st, b, r + 1, acc2);
        }
    }
}

pub proof fn lemma_block_plans_keep_rules(toks: Seq<Tok>, st: Parts, b: int, acc: Seq<VariantPlanV>)
    requires
        all_keep_rules(toks, st, acc),
        0 <= b,
    ensures
        spec_block_plans(toks, st, b, acc) matches Ok(res) ==> all_keep_rules(toks, st, res),
    decreases st.blocks.len() - b,
{
    if b < st.blocks.len() {
        lemma_reg_plans_keep_rules(toks, st, b, st.blocks[b].regs.start as int, acc);
        if let Ok(acc2) = spec_reg_plans(toks, st, b, st.blocks[b].regs.start as int, acc) {
            lemma_block_plans_keep_rules(toks, st, b + 1, acc2);
        }
    }
}

/// What `periph!` accepts keeps its rules: no variant is both `Shared` and
/// `Option`, a `Shared` register has no more than one variant, and where a
/// variant has `Option`, every variant of its register has it.
pub proof fn law_periph_keeps_rules(toks: Seq<Tok>)
    ensures
        spec_periph(toks) matches Ok((inp, plans)) ==> all_keep_rules(toks, inp.parts, plans),
{
    if let Ok(inp) = spec_periph_input(toks) {
        lemma_block_plans_keep_rules(toks, inp.parts, 0, Seq::empty());
    }
}

} // verus!
