//! `periph_map!`: maps a generic peripheral onto the registers of a
//! concrete one, and defines a macro that takes the peripheral from the
//! register tokens.
//!
//! The input is `attrs pub macro periph_name;`, `attrs pub struct Name;`,
//! `impl Trait for Name { items }`, the root path of the registers and `;`,
//! `crate` with an optional path and `;`, then the blocks. A block reads
//! `Block { Path; regs }` (the path is optional); a register
//! `features Reg { variants }`, with a default variant where it has none; a
//! variant `@Name` (optional), then, unless it ends there, its path,
//! optionally `(Block Variant)` to take it from another variant, its options
//! up to `;`, and its fields `features Field { Path Option.. }`.

use crate::case::{heck_snake, heck_upper_camel, to_snake_heck, to_upper_camel_heck, unkeywordize,
    unkeywordize_exec};
use crate::periph::{has_trait, has_trait_exec, parse_idents, parse_trait_list, spec_idents,
    spec_trait_list};
use crate::token::{
    Delim, ErrorKind, MacroError, Span, Tok, eq_lit, err, expect_end, expect_group, expect_ident,
    expect_punct, expect_word, ident_string, ident_text, is_open, is_punct, outer_attrs,
    parse_path, peek_open, peek_punct, spec_expect_end, spec_expect_group, spec_expect_ident,
    spec_expect_punct, spec_expect_word, spec_outer_attrs, spec_path,
};
use vstd::prelude::*;

verus! {

pub const MACRO_PREFIX: &'static str = "periph_";

pub const NOT_A_PERIPH_MACRO: &'static str = "Expected an ident which starts with `periph_`";

pub const NOT_THE_STRUCT: &'static str = "Expected the name of the peripheral structure";

/// A field: its features, name, the path of the register field it maps
/// to (none: the field is absent), and its options.
#[derive(PartialEq, Eq, Structural, Clone, Copy, Debug)]
pub struct MField {
    pub features: Span,
    pub ident: usize,
    pub path: Option<usize>,
    pub traits: Span,
}

/// The names of the block and variant that a variant is taken from.
#[derive(PartialEq, Eq, Structural, Clone, Copy, Debug)]
pub struct Source {
    pub block: usize,
    pub variant: usize,
}

/// A variant: its name, the path of the register it maps to (none: absent),
/// the block and variant it is taken from, its options, and the range of its
/// fields.
#[derive(PartialEq, Eq, Structural, Clone, Copy, Debug)]
pub struct MVariant {
    pub ident: Option<usize>,
    pub path: Option<usize>,
    pub from: Option<Source>,
    pub traits: Span,
    pub fields: Span,
}

#[derive(PartialEq, Eq, Structural, Clone, Copy, Debug)]
pub struct MReg {
    pub features: Span,
    pub ident: usize,
    pub variants: Span,
}

#[derive(PartialEq, Eq, Structural, Clone, Copy, Debug)]
pub struct MBlock {
    pub ident: usize,
    pub path: Option<usize>,
    pub regs: Span,
}

pub struct MParts {
    pub blocks: Seq<MBlock>,
    pub regs: Seq<MReg>,
    pub variants: Seq<MVariant>,
    pub fields: Seq<MField>,
}

pub open spec fn no_mparts() -> MParts {
    MParts { blocks: Seq::empty(), regs: Seq::empty(), variants: Seq::empty(), fields: Seq::empty() }
}

/// A field at `i` and the position after it.
pub open spec fn spec_mfield(toks: Seq<Tok>, i: int, end: int) -> Result<(MField, usize), MacroError> {
    match spec_outer_attrs(toks, i, end) {
        Err(e) => Err(e),
        Ok(a) => match spec_expect_ident(toks, a as int, end) {
            Err(e) => Err(e),
            Ok(_) => match spec_expect_group(toks, a + 1, end, Delim::Brace) {
                Err(e) => Err(e),
                Ok(c) => if a + 2 >= c {
                    Ok(
                        (
                            MField {
                                features: Span { start: i as usize, end: a },
                                ident: a,
                                path: None,
                                traits: Span { start: c, end: c },
                            },
                            (c + 1) as usize,
                        ),
                    )
                } else {
                    match spec_expect_ident(toks, a + 2, c as int) {
                        Err(e) => Err(e),
                        Ok(_) => match spec_idents(toks, a + 3, c as int) {
                            Err(e) => Err(e),
                            Ok(_) => Ok(
                                (
                                    MField {
                                        features: Span { start: i as usize, end: a },
                                        ident: a,
                                        path: Some((a + 2) as usize),
                                        traits: Span { start: (a + 3) as usize, end: c },
                                    },
                                    (c + 1) as usize,
                                ),
                            ),
                        },
                    }
                },
            },
        },
    }
}

/// A variant goes on at `i`: the input has not ended, and, in a named
/// variant, the next variant has not begun.
pub open spec fn goes_on(toks: Seq<Tok>, i: int, end: int, named: bool) -> bool {
    !(i >= end || (named && is_punct(toks, i, end, '@')))
}

/// The fields of a variant from `i` on, added to `acc`.
pub open spec fn spec_mfields(toks: Seq<Tok>, i: int, end: int, named: bool, acc: Seq<MField>) -> Result<
    (Seq<MField>, usize),
    MacroError,
>
    decreases end - i,
{
    if !goes_on(toks, i, end, named) {
        Ok((acc, i as usize))
    } else {
        match spec_mfield(toks, i, end) {
            Err(e) => Err(e),
            Ok((f, n)) => if n > i && n <= end {
                spec_mfields(toks, n as int, end, named, acc.push(f))
            } else {
                Ok((acc.push(f), n))
            },
        }
    }
}

/// The `(Block Variant)` a variant is taken from, at `i`: the two names and
/// the position after the group; none where no group stands at `i`.
pub open spec fn spec_from(toks: Seq<Tok>, i: int, end: int) -> Result<
    (Option<Source>, usize),
    MacroError,
> {
    if is_open(toks, i, end, Delim::Paren) {
        match spec_expect_group(toks, i, end, Delim::Paren) {
            Err(e) => Err(e),
            Ok(c) => match spec_expect_ident(toks, i + 1, c as int) {
                Err(e) => Err(e),
                Ok(_) => match spec_expect_ident(toks, i + 2, c as int) {
                    Err(e) => Err(e),
                    Ok(_) => match spec_expect_end(i + 3, c as int) {
                        Err(e) => Err(e),
                        Ok(_) => Ok(
                            (
                                Some(Source { block: (i + 1) as usize, variant: (i + 2) as usize }),
                                (c + 1) as usize,
                            ),
                        ),
                    },
                },
            },
        }
    } else {
        Ok((None, i as usize))
    }
}


/// A variant at `i`, added to `st` with its fields, and the position after
/// it.
pub open spec fn spec_mvariant(toks: Seq<Tok>, i: int, end: int, st: MParts) -> Result<
    (MParts, usize),
    MacroError,
> {
    let named = is_punct(toks, i, end, '@');
    let s = if named { i + 2 } else { i };
    let ident = if named { Some((i + 1) as usize) } else { None };
    let name: Result<usize, MacroError> = if named {
        spec_expect_ident(toks, i + 1, end)
    } else {
        Ok(i as usize)
    };
    match name {
        Err(e) => Err(e),
        Ok(_) => if !goes_on(toks, s, end, named) {
            Ok(
                (
                    MParts {
                        variants: st.variants.push(
                            MVariant {
                                ident,
                                path: None,
                                from: None,
                                traits: Span { start: s as usize, end: s as usize },
                                fields: Span {
                                    start: st.fields.len() as usize,
                                    end: st.fields.len() as usize,
                                },
                            },
                        ),
                        ..st
                    },
                    s as usize,
                ),
            )
        } else {
            match spec_expect_ident(toks, s, end) {
                Err(e) => Err(e),
                Ok(_) => match spec_from(toks, s + 1, end) {
                    Err(e) => Err(e),
                    Ok((from, t)) => match spec_trait_list(toks, t as int, end) {
                        Err(e) => Err(e),
                        Ok(semi) => match spec_mfields(toks, semi + 1, end, named, st.fields) {
                            Err(e) => Err(e),
                            Ok((fields, n)) => Ok(
                                (
                                    MParts {
                                        variants: st.variants.push(
                                            MVariant {
                                                ident,
                                                path: Some(s as usize),
                                                from,
                                                traits: Span { start: t, end: semi },
                                                fields: Span {
                                                    start: st.fields.len() as usize,
                                                    end: fields.len() as usize,
                                                },
                                            },
                                        ),
                                        fields,
                                        ..st
                                    },
                                    n,
                                ),
                            ),
                        },
                    },
                },
            }
        },
    }
}

/// The variants of a register from `i` to `end`.
pub open spec fn spec_mvariants(toks: Seq<Tok>, i: int, end: int, st: MParts) -> Result<
    MParts,
    MacroError,
>
    decreases end - i,
{
    if i >= end {
        Ok(st)
    } else {
        match spec_mvariant(toks, i, end, st) {
            Err(e) => Err(e),
            Ok((st2, n)) => if n > i && n <= end {
                spec_mvariants(toks, n as int, end, st2)
            } else {
                Ok(st2)
            },
        }
    }
}

/// The variant a register without any has: no name, path, options or
/// fields.
pub open spec fn default_variant(at: int, nfields: int) -> MVariant {
    MVariant {
        ident: None,
        path: None,
        from: None,
        traits: Span { start: at as usize, end: at as usize },
        fields: Span { start: nfields as usize, end: nfields as usize },
    }
}

/// A register at `i`, added to `st`, and the position after it.
pub open spec fn spec_mreg(toks: Seq<Tok>, i: int, end: int, st: MParts) -> Result<
    (MParts, usize),
    MacroError,
> {
    match spec_outer_attrs(toks, i, end) {
        Err(e) => Err(e),
        Ok(a) => match spec_expect_ident(toks, a as int, end) {
            Err(e) => Err(e),
            Ok(_) => match spec_expect_group(toks, a + 1, end, Delim::Brace) {
                Err(e) => Err(e),
                Ok(c) => match spec_mvariants(toks, a + 2, c as int, st) {
                    Err(e) => Err(e),
                    Ok(st2) => {
                        let st3 = if st2.variants.len() == st.variants.len() {
                            MParts {
                                variants: st2.variants.push(
                                    default_variant(a + 2, st2.fields.len() as int),
                                ),
                                ..st2
                            }
                        } else {
                            st2
                        };
                        Ok(
                            (
                                MParts {
                                    regs: st3.regs.push(
                                        MReg {
                                            features: Span { start: i as usize, end: a },
                                            ident: a,
                                            variants: Span {
                                                start: st.variants.len() as usize,
                                                end: st3.variants.len() as usize,
                                            },
                                        },
                                    ),
                                    ..st3
                                },
                                (c + 1) as usize,
                            ),
                        )
                    },
                },
            },
        },
    }
}

/// The registers of a block from `i` to `end`.
pub open spec fn spec_mregs(toks: Seq<Tok>, i: int, end: int, st: MParts) -> Result<MParts, MacroError>
    decreases end - i,
{
    if i >= end {
        Ok(st)
    } else {
        match spec_mreg(toks, i, end, st) {
            Err(e) => Err(e),
            Ok((st2, n)) => if n > i && n <= end {
                spec_mregs(toks, n as int, end, st2)
            } else {
                Ok(st2)
            },
        }
    }
}

/// A block at `i`, added to `st`, and the position after it.
pub open spec fn spec_mblock(toks: Seq<Tok>, i: int, end: int, st: MParts) -> Result<
    (MParts, usize),
    MacroError,
> {
    match spec_expect_ident(toks, i, end) {
        Err(e) => Err(e),
        Ok(_) => match spec_expect_group(toks, i + 1, end, Delim::Brace) {
            Err(e) => Err(e),
            Ok(c) => {
                let has_path = is_punct(toks, i + 3, c as int, ';');
                let head: Result<usize, MacroError> = if has_path {
                    match spec_expect_ident(toks, i + 2, c as int) {
                        Err(e) => Err(e),
                        Ok(_) => Ok((i + 4) as usize),
                    }
                } else {
                    Ok((i + 2) as usize)
                };
                match head {
                    Err(e) => Err(e),
                    Ok(r) => match spec_mregs(toks, r as int, c as int, st) {
                        Err(e) => Err(e),
                        Ok(st2) => Ok(
                            (
                                MParts {
                                    blocks: st2.blocks.push(
                                        MBlock {
                                            ident: i as usize,
                                            path: if has_path {
                                                Some((i + 2) as usize)
                                            } else {
                                                None
                                            },
                                            regs: Span {
                                                start: st.regs.len() as usize,
                                                end: st2.regs.len() as usize,
                                            },
                                        },
                                    ),
                                    ..st2
                                },
                                (c + 1) as usize,
                            ),
                        ),
                    },
                }
            },
        },
    }
}

/// The blocks from `i` to `end`.
pub open spec fn spec_mblocks(toks: Seq<Tok>, i: int, end: int, st: MParts) -> Result<MParts, MacroError>
    decreases end - i,
{
    if i >= end {
        Ok(st)
    } else {
        match spec_mblock(toks, i, end, st) {
            Err(e) => Err(e),
            Ok((st2, n)) => if n > i && n <= end {
                spec_mblocks(toks, n as int, end, st2)
            } else {
                Ok(st2)
            },
        }
    }
}

/// The name starts with `periph_`.
pub open spec fn is_periph_macro_name(s: Seq<char>) -> bool {
    s.len() >= 7 && s.subrange(0, 7) == MACRO_PREFIX@
}

/// The input of `periph_map!`, as read.
pub struct MapInputV {
    pub macro_attrs: Span,
    pub macro_ident: usize,
    pub struct_attrs: Span,
    pub struct_ident: usize,
    pub trait_ident: usize,
    pub items: Span,
    pub root_path: Span,
    pub macro_root_path: Option<Span>,
    pub parts: MParts,
}

/// What follows the items: the root path, `crate` and the optional macro
/// root path; the position where the blocks begin.
pub open spec fn spec_paths(toks: Seq<Tok>, i: int, end: int) -> Result<
    (Span, Option<Span>, usize),
    MacroError,
> {
    match spec_path(toks, i, end) {
        Err(e) => Err(e),
        Ok(p) => match spec_expect_punct(toks, p as int, end, ';') {
            Err(e) => Err(e),
            Ok(_) => match spec_expect_word(toks, p + 1, end, "crate") {
                Err(e) => Err(e),
                Ok(_) => if is_punct(toks, p + 2, end, ';') {
                    Ok((Span { start: i as usize, end: p }, None, (p + 3) as usize))
                } else {
                    match spec_path(toks, p + 2, end) {
                        Err(e) => Err(e),
                        Ok(q) => match spec_expect_punct(toks, q as int, end, ';') {
                            Err(e) => Err(e),
                            Ok(_) => Ok(
                                (
                                    Span { start: i as usize, end: p },
                                    Some(Span { start: (p + 2) as usize, end: q }),
                                    (q + 1) as usize,
                                ),
                            ),
                        },
                    }
                },
            },
        },
    }
}

pub open spec fn spec_map_input(toks: Seq<Tok>) -> Result<MapInputV, MacroError> {
    let end = toks.len() as int;
    match spec_outer_attrs(toks, 0, end) {
        Err(e) => Err(e),
        Ok(a) => match spec_expect_word(toks, a as int, end, "pub") {
            Err(e) => Err(e),
            Ok(_) => match spec_expect_word(toks, a + 1, end, "macro") {
                Err(e) => Err(e),
                Ok(_) => match spec_expect_ident(toks, a + 2, end) {
                    Err(e) => Err(e),
                    Ok(_) => if !is_periph_macro_name(ident_text(toks, a + 2)) {
                        err(a + 3, ErrorKind::Invalid(NOT_A_PERIPH_MACRO))
                    } else {
                        match spec_expect_punct(toks, a + 3, end, ';') {
                            Err(e) => Err(e),
                            Ok(_) => spec_map_rest(toks, a as int, end),
                        }
                    },
                },
            },
        },
    }
}

/// The input from the structure on, the macro's attributes ending at `a`.
pub open spec fn spec_map_rest(toks: Seq<Tok>, a: int, end: int) -> Result<MapInputV, MacroError> {
    match spec_outer_attrs(toks, a + 4, end) {
        Err(e) => Err(e),
        Ok(b) => match spec_expect_word(toks, b as int, end, "pub") {
            Err(e) => Err(e),
            Ok(_) => match spec_expect_word(toks, b + 1, end, "struct") {
                Err(e) => Err(e),
                Ok(_) => match spec_expect_ident(toks, b + 2, end) {
                    Err(e) => Err(e),
                    Ok(_) => match spec_expect_punct(toks, b + 3, end, ';') {
                        Err(e) => Err(e),
                        Ok(_) => match spec_expect_word(toks, b + 4, end, "impl") {
                            Err(e) => Err(e),
                            Ok(_) => match spec_expect_ident(toks, b + 5, end) {
                                Err(e) => Err(e),
                                Ok(_) => match spec_expect_word(toks, b + 6, end, "for") {
                                    Err(e) => Err(e),
                                    Ok(_) => match spec_expect_ident(toks, b + 7, end) {
                                        Err(e) => Err(e),
                                        Ok(_) => if ident_text(toks, b + 7) != ident_text(toks, b + 2) {
                                            err(b + 7, ErrorKind::Invalid(NOT_THE_STRUCT))
                                        } else {
                                            match spec_expect_group(toks, b + 8, end, Delim::Brace) {
                                                Err(e) => Err(e),
                                                Ok(c) => match spec_paths(toks, c + 1, end) {
                                                    Err(e) => Err(e),
                                                    Ok((root, mroot, n)) => match spec_mblocks(
                                                        toks,
                                                        n as int,
                                                        end,
                                                        no_mparts(),
                                                    ) {
                                                        Err(e) => Err(e),
                                                        Ok(parts) => Ok(
                                                            MapInputV {
                                                                macro_attrs: Span { start: 0, end: a as usize },
                                                                macro_ident: (a + 2) as usize,
                                                                struct_attrs: Span {
                                                                    start: (a + 4) as usize,
                                                                    end: b,
                                                                },
                                                                struct_ident: (b + 2) as usize,
                                                                trait_ident: (b + 5) as usize,
                                                                items: Span { start: (b + 9) as usize, end: c },
                                                                root_path: root,
                                                                macro_root_path: mroot,
                                                                parts,
                                                            },
                                                        ),
                                                    },
                                                },
                                            }
                                        },
                                    },
                                },
                            },
                        },
                    },
                },
            },
        },
    }
}


// ---------------------------------------------------------------------------
// Reading the input

/// The blocks, registers, variants and fields of the input.
#[derive(Debug)]
pub struct MapParts {
    pub blocks: Vec<MBlock>,
    pub regs: Vec<MReg>,
    pub variants: Vec<MVariant>,
    pub fields: Vec<MField>,
}

impl View for MapParts {
    type V = MParts;

    open spec fn view(&self) -> MParts {
        MParts {
            blocks: self.blocks@,
            regs: self.regs@,
            variants: self.variants@,
            fields: self.fields@,
        }
    }
}

pub open spec fn opt_below(o: Option<usize>, n: int) -> bool {
    o matches Some(x) ==> x < n
}

pub open spec fn mfield_wf(f: MField, n: int) -> bool {
    f.traits.start <= f.traits.end <= n && f.ident < n && opt_below(f.path, n)
}

pub open spec fn mvariant_wf(st: MParts, v: MVariant, n: int) -> bool {
    &&& v.fields.start <= v.fields.end <= st.fields.len()
    &&& v.traits.start <= v.traits.end <= n
    &&& opt_below(v.ident, n)
    &&& opt_below(v.path, n)
    &&& v.from matches Some(src) ==> src.block < n && src.variant < n
}

pub open spec fn mreg_wf(st: MParts, r: MReg, n: int) -> bool {
    r.variants.start < r.variants.end <= st.variants.len() && r.ident < n
}

pub open spec fn mblock_wf(st: MParts, b: MBlock, n: int) -> bool {
    b.regs.start <= b.regs.end <= st.regs.len() && b.ident < n && opt_below(b.path, n)
}

/// Each range and position of `st` lies within what it points into.
pub open spec fn mparts_wf(st: MParts, n: int) -> bool {
    &&& forall|b: int| 0 <= b < st.blocks.len() ==> mblock_wf(st, #[trigger] st.blocks[b], n)
    &&& forall|r: int| 0 <= r < st.regs.len() ==> mreg_wf(st, #[trigger] st.regs[r], n)
    &&& forall|k: int| 0 <= k < st.variants.len() ==> mvariant_wf(st, #[trigger] st.variants[k], n)
    &&& forall|f: int| 0 <= f < st.fields.len() ==> mfield_wf(#[trigger] st.fields[f], n)
}

/// Whatever `st` grows into keeps its entries, so the ranges and
/// positions of `st` still lie within.
proof fn lemma_mparts_grow(st: MParts, st2: MParts, n: int)
    requires
        mparts_wf(st, n),
        st.blocks.is_prefix_of(st2.blocks),
        st.regs.is_prefix_of(st2.regs),
        st.variants.is_prefix_of(st2.variants),
        st.fields.is_prefix_of(st2.fields),
        forall|b: int| st.blocks.len() <= b < st2.blocks.len() ==> mblock_wf(st2, #[trigger] st2.blocks[b], n),
        forall|r: int| st.regs.len() <= r < st2.regs.len() ==> mreg_wf(st2, #[trigger] st2.regs[r], n),
        forall|k: int|
            st.variants.len() <= k < st2.variants.len() ==> mvariant_wf(st2, #[trigger] st2.variants[k], n),
        forall|f: int| st.fields.len() <= f < st2.fields.len() ==> mfield_wf(#[trigger] st2.fields[f], n),
    ensures
        mparts_wf(st2, n),
{
    assert forall|b: int| 0 <= b < st2.blocks.len() implies mblock_wf(st2, #[trigger] st2.blocks[b], n) by {
        if b < st.blocks.len() {
            assert(st2.blocks[b] == st.blocks[b]);
            assert(mblock_wf(st, st.blocks[b], n));
        }
    }
    assert forall|r: int| 0 <= r < st2.regs.len() implies mreg_wf(st2, #[trigger] st2.regs[r], n) by {
        if r < st.regs.len() {
            assert(st2.regs[r] == st.regs[r]);
            assert(mreg_wf(st, st.regs[r], n));
        }
    }
    assert forall|k: int| 0 <= k < st2.variants.len() implies mvariant_wf(
        st2,
        #[trigger] st2.variants[k],
        n,
    ) by {
        if k < st.variants.len() {
            assert(st2.variants[k] == st.variants[k]);
            assert(mvariant_wf(st, st.variants[k], n));
        }
    }
    assert forall|f: int| 0 <= f < st2.fields.len() implies mfield_wf(#[trigger] st2.fields[f], n) by {
        if f < st.fields.len() {
            assert(st2.fields[f] == st.fields[f]);
        }
    }
}

fn parse_mfield(toks: &Vec<Tok>, i: usize, end: usize) -> (r: Result<(MField, usize), MacroError>)
    requires
        end <= toks@.len(),
    ensures
        r == spec_mfield(toks@, i as int, end as int),
        r matches Ok((f, n)) ==> i < n <= end && mfield_wf(f, toks@.len() as int),
{
    let a = outer_attrs(toks, i, end)?;
    expect_ident(toks, a, end)?;
    let c = expect_group(toks, a + 1, end, Delim::Brace)?;
    if a + 2 >= c {
        return Ok(
            (
                MField {
                    features: Span { start: i, end: a },
                    ident: a,
                    path: None,
                    traits: Span { start: c, end: c },
                },
                c + 1,
            ),
        );
    }
    expect_ident(toks, a + 2, c)?;
    parse_idents(toks, a + 3, c)?;
    Ok(
        (
            MField {
                features: Span { start: i, end: a },
                ident: a,
                path: Some(a + 2),
                traits: Span { start: a + 3, end: c },
            },
            c + 1,
        ),
    )
}

#[verifier::loop_isolation(false)]
#[verifier::spinoff_prover]
#[verifier::rlimit(50)]
fn parse_mfields(toks: &Vec<Tok>, i: usize, end: usize, named: bool, st: &mut MapParts) -> (r: Result<
    usize,
    MacroError,
>)
    requires
        i <= end <= toks@.len(),
        mparts_wf(old(st)@, toks@.len() as int),
    ensures
        r matches Ok(n) ==> {
            &&& spec_mfields(toks@, i as int, end as int, named, old(st)@.fields) == Ok::<
                (Seq<MField>, usize),
                MacroError,
            >((final(st)@.fields, n))
            &&& i <= n <= end
            &&& final(st)@.blocks == old(st)@.blocks
            &&& final(st)@.regs == old(st)@.regs
            &&& final(st)@.variants == old(st)@.variants
            &&& old(st)@.fields.is_prefix_of(final(st)@.fields)
            &&& mparts_wf(final(st)@, toks@.len() as int)
        },
        r matches Err(e) ==> spec_mfields(toks@, i as int, end as int, named, old(st)@.fields)
            == Err::<(Seq<MField>, usize), MacroError>(e),
{
    let ghost n_toks = toks@.len() as int;
    let mut j = i;
    while j < end && !(named && peek_punct(toks, j, end, '@'))
        invariant
            i <= j <= end,
            spec_mfields(toks@, i as int, end as int, named, old(st)@.fields) == spec_mfields(
                toks@,
                j as int,
                end as int,
                named,
                st@.fields,
            ),
            st@.blocks == old(st)@.blocks,
            st@.regs == old(st)@.regs,
            st@.variants == old(st)@.variants,
            old(st)@.fields.is_prefix_of(st@.fields),
            mparts_wf(st@, n_toks),
        decreases end - j,
    {
        let (f, n) = parse_mfield(toks, j, end)?;
        let ghost before = st@;
        st.fields.push(f);
        proof {
            lemma_mparts_grow(before, st@, n_toks);
        }
        j = n;
    }
    Ok(j)
}

fn parse_from(toks: &Vec<Tok>, i: usize, end: usize) -> (r: Result<(Option<Source>, usize), MacroError>)
    requires
        i <= end <= toks@.len(),
    ensures
        r == spec_from(toks@, i as int, end as int),
        r matches Ok((from, t)) ==> i <= t <= end && (from matches Some(src) ==> src.block < end
            && src.variant < end),
{
    if !peek_open(toks, i, end, Delim::Paren) {
        return Ok((None, i));
    }
    let c = expect_group(toks, i, end, Delim::Paren)?;
    expect_ident(toks, i + 1, c)?;
    expect_ident(toks, i + 2, c)?;
    expect_end(i + 3, c)?;
    Ok((Some(Source { block: i + 1, variant: i + 2 }), c + 1))
}

#[verifier::loop_isolation(false)]
#[verifier::spinoff_prover]
#[verifier::rlimit(50)]
fn parse_mvariant(toks: &Vec<Tok>, i: usize, end: usize, st: &mut MapParts) -> (r: Result<
    usize,
    MacroError,
>)
    requires
        i < end <= toks@.len(),
        mparts_wf(old(st)@, toks@.len() as int),
    ensures
        r matches Ok(n) ==> {
            &&& spec_mvariant(toks@, i as int, end as int, old(st)@) == Ok::<(MParts, usize), MacroError>(
                (final(st)@, n),
            )
            &&& i < n <= end
            &&& final(st)@.blocks == old(st)@.blocks
            &&& final(st)@.regs == old(st)@.regs
            &&& old(st)@.variants.is_prefix_of(final(st)@.variants)
            &&& old(st)@.fields.is_prefix_of(final(st)@.fields)
            &&& mparts_wf(final(st)@, toks@.len() as int)
        },
        r matches Err(e) ==> spec_mvariant(toks@, i as int, end as int, old(st)@) == Err::<
            (MParts, usize),
            MacroError,
        >(e),
{
    let ghost n_toks = toks@.len() as int;
    let named = peek_punct(toks, i, end, '@');
    let ident = if named {
        Some(i + 1)
    } else {
        None
    };
    let s = if named {
        expect_ident(toks, i + 1, end)?;
        i + 2
    } else {
        i
    };
    let start = st.fields.len();
    let ghost before = st@;
    if s >= end || (named && peek_punct(toks, s, end, '@')) {
        st.variants.push(
            MVariant {
                ident,
                path: None,
                from: None,
                traits: Span { start: s, end: s },
                fields: Span { start, end: start },
            },
        );
        proof {
            lemma_mparts_grow(before, st@, n_toks);
        }
        return Ok(s);
    }
    expect_ident(toks, s, end)?;
    let (from, t) = parse_from(toks, s + 1, end)?;
    let semi = parse_trait_list(toks, t, end)?;
    let n = parse_mfields(toks, semi + 1, end, named, st)?;
    let ghost mid = st@;
    st.variants.push(
        MVariant {
            ident,
            path: Some(s),
            from,
            traits: Span { start: t, end: semi },
            fields: Span { start, end: st.fields.len() },
        },
    );
    proof {
        lemma_mparts_grow(mid, st@, n_toks);
    }
    Ok(n)
}

#[verifier::loop_isolation(false)]
#[verifier::spinoff_prover]
#[verifier::rlimit(50)]
fn parse_mreg(toks: &Vec<Tok>, i: usize, end: usize, st: &mut MapParts) -> (r: Result<
    usize,
    MacroError,
>)
    requires
        end <= toks@.len(),
        mparts_wf(old(st)@, toks@.len() as int),
    ensures
        r matches Ok(n) ==> {
            &&& spec_mreg(toks@, i as int, end as int, old(st)@) == Ok::<(MParts, usize), MacroError>(
                (final(st)@, n),
            )
            &&& i < n <= end
            &&& final(st)@.blocks == old(st)@.blocks
            &&& old(st)@.regs.is_prefix_of(final(st)@.regs)
            &&& old(st)@.variants.is_prefix_of(final(st)@.variants)
            &&& old(st)@.fields.is_prefix_of(final(st)@.fields)
            &&& mparts_wf(final(st)@, toks@.len() as int)
        },
        r matches Err(e) ==> spec_mreg(toks@, i as int, end as int, old(st)@) == Err::<
            (MParts, usize),
            MacroError,
        >(e),
{
    let ghost n_toks = toks@.len() as int;
    let a = outer_attrs(toks, i, end)?;
    expect_ident(toks, a, end)?;
    let c = expect_group(toks, a + 1, end, Delim::Brace)?;
    let start = st.variants.len();
    let ghost st0 = st@;
    let mut j = a + 2;
    while j < c
        invariant
            a + 2 <= j <= c < end,
            spec_mvariants(toks@, a + 2, c as int, st0) == spec_mvariants(toks@, j as int, c as int, st@),
            st@.blocks == st0.blocks,
            st@.regs == st0.regs,
            st0.variants.is_prefix_of(st@.variants),
            st0.fields.is_prefix_of(st@.fields),
            mparts_wf(st@, n_toks),
        decreases c - j,
    {
        let ghost before = st@;
        let n = parse_mvariant(toks, j, c, st)?;
        proof {
            assert(forall|k: int| 0 <= k < before.variants.len() ==> st@.variants[k] == before.variants[k]);
            assert(forall|k: int| 0 <= k < before.fields.len() ==> st@.fields[k] == before.fields[k]);
        }
        j = n;
    }
    if st.variants.len() == start {
        let ghost before = st@;
        let nf = st.fields.len();
        st.variants.push(
            MVariant {
                ident: None,
                path: None,
                from: None,
                traits: Span { start: a + 2, end: a + 2 },
                fields: Span { start: nf, end: nf },
            },
        );
        proof {
            lemma_mparts_grow(before, st@, n_toks);
        }
    }
    let ghost mid = st@;
    st.regs.push(
        MReg { features: Span { start: i, end: a }, ident: a, variants: Span { start, end: st.variants.len() } },
    );
    proof {
        lemma_mparts_grow(mid, st@, n_toks);
        assert(forall|k: int| 0 <= k < st0.variants.len() ==> st@.variants[k] == st0.variants[k]);
        assert(forall|k: int| 0 <= k < st0.fields.len() ==> st@.fields[k] == st0.fields[k]);
        assert(forall|k: int| 0 <= k < st0.regs.len() ==> st@.regs[k] == st0.regs[k]);
    }
    Ok(c + 1)
}


#[verifier::loop_isolation(false)]
#[verifier::spinoff_prover]
#[verifier::rlimit(50)]
fn parse_mblock(toks: &Vec<Tok>, i: usize, end: usize, st: &mut MapParts) -> (r: Result<
    usize,
    MacroError,
>)
    requires
        end <= toks@.len(),
        mparts_wf(old(st)@, toks@.len() as int),
    ensures
        r matches Ok(n) ==> {
            &&& spec_mblock(toks@, i as int, end as int, old(st)@) == Ok::<(MParts, usize), MacroError>(
                (final(st)@, n),
            )
            &&& i < n <= end
            &&& mparts_wf(final(st)@, toks@.len() as int)
        },
        r matches Err(e) ==> spec_mblock(toks@, i as int, end as int, old(st)@) == Err::<
            (MParts, usize),
            MacroError,
        >(e),
{
    let ghost n_toks = toks@.len() as int;
    expect_ident(toks, i, end)?;
    let c = expect_group(toks, i + 1, end, Delim::Brace)?;
    let has_path = peek_punct(toks, i + 3, c, ';');
    let mut j = if has_path {
        expect_ident(toks, i + 2, c)?;
        i + 4
    } else {
        i + 2
    };
    let start = st.regs.len();
    let ghost st0 = st@;
    while j < c
        invariant
            j <= c || j == i + 2 || j == i + 4,
            c < end,
            spec_mregs(toks@, (if has_path { i + 4 } else { i + 2 }) as int, c as int, st0)
                == spec_mregs(toks@, j as int, c as int, st@),
            st@.blocks == st0.blocks,
            st0.regs.is_prefix_of(st@.regs),
            st0.variants.is_prefix_of(st@.variants),
            st0.fields.is_prefix_of(st@.fields),
            mparts_wf(st@, n_toks),
        decreases c - j,
    {
        let ghost before = st@;
        let n = parse_mreg(toks, j, c, st)?;
        proof {
            assert(forall|k: int| 0 <= k < before.regs.len() ==> st@.regs[k] == before.regs[k]);
            assert(forall|k: int| 0 <= k < before.variants.len() ==> st@.variants[k] == before.variants[k]);
            assert(forall|k: int| 0 <= k < before.fields.len() ==> st@.fields[k] == before.fields[k]);
        }
        j = n;
    }
    let ghost mid = st@;
    st.blocks.push(
        MBlock {
            ident: i,
            path: if has_path {
                Some(i + 2)
            } else {
                None
            },
            regs: Span { start, end: st.regs.len() },
        },
    );
    proof {
        lemma_mparts_grow(mid, st@, n_toks);
    }
    Ok(c + 1)
}

pub fn is_periph_macro_name_exec(s: &String) -> (r: bool)
    ensures
        r == is_periph_macro_name(s@),
{
    let t = s.as_str();
    let n = t.unicode_len();
    proof {
        reveal_strlit("periph_");
    }
    if n < 7 {
        return false;
    }
    let head = String::from_str(t.substring_char(0, 7));
    eq_lit(&head, MACRO_PREFIX)
}

pub fn parse_paths(toks: &Vec<Tok>, i: usize, end: usize) -> (r: Result<(Span, Option<Span>, usize), MacroError>)
    ensures
        r == spec_paths(toks@, i as int, end as int),
        r matches Ok((_, _, n)) ==> n <= end,
{
    let p = parse_path(toks, i, end)?;
    expect_punct(toks, p, end, ';')?;
    expect_word(toks, p + 1, end, "crate")?;
    if peek_punct(toks, p + 2, end, ';') {
        return Ok((Span { start: i, end: p }, None, p + 3));
    }
    let q = parse_path(toks, p + 2, end)?;
    expect_punct(toks, q, end, ';')?;
    Ok((Span { start: i, end: p }, Some(Span { start: p + 2, end: q }), q + 1))
}

/// The input of `periph_map!`.
#[derive(Debug)]
pub struct MapInput {
    pub macro_attrs: Span,
    pub macro_ident: usize,
    pub struct_attrs: Span,
    pub struct_ident: usize,
    pub trait_ident: usize,
    /// The items of the implementation, kept as written.
    pub items: Span,
    pub root_path: Span,
    pub macro_root_path: Option<Span>,
    pub parts: MapParts,
}

pub open spec fn map_input_view(p: &MapInput) -> MapInputV {
    MapInputV {
        macro_attrs: p.macro_attrs,
        macro_ident: p.macro_ident,
        struct_attrs: p.struct_attrs,
        struct_ident: p.struct_ident,
        trait_ident: p.trait_ident,
        items: p.items,
        root_path: p.root_path,
        macro_root_path: p.macro_root_path,
        parts: p.parts@,
    }
}

/// Reads the input of `periph_map!`.
#[verifier::loop_isolation(false)]
#[verifier::spinoff_prover]
#[verifier::rlimit(50)]
pub fn parse_map_input(toks: &Vec<Tok>) -> (r: Result<MapInput, MacroError>)
    ensures
        r matches Ok(p) ==> spec_map_input(toks@) == Ok::<MapInputV, MacroError>(map_input_view(&p))
            && mparts_wf(p.parts@, toks@.len() as int) && p.trait_ident < toks@.len(),
        r matches Err(e) ==> spec_map_input(toks@) == Err::<MapInputV, MacroError>(e),
{
    let end = toks.len();
    let a = outer_attrs(toks, 0, end)?;
    expect_word(toks, a, end, "pub")?;
    expect_word(toks, a + 1, end, "macro")?;
    expect_ident(toks, a + 2, end)?;
    if !is_periph_macro_name_exec(&ident_string(toks, a + 2)) {
        return Err(MacroError { at: a + 3, kind: ErrorKind::Invalid(NOT_A_PERIPH_MACRO) });
    }
    expect_punct(toks, a + 3, end, ';')?;
    let b = outer_attrs(toks, a + 4, end)?;
    expect_word(toks, b, end, "pub")?;
    expect_word(toks, b + 1, end, "struct")?;
    expect_ident(toks, b + 2, end)?;
    expect_punct(toks, b + 3, end, ';')?;
    expect_word(toks, b + 4, end, "impl")?;
    expect_ident(toks, b + 5, end)?;
    expect_word(toks, b + 6, end, "for")?;
    expect_ident(toks, b + 7, end)?;
    if ident_string(toks, b + 7) != ident_string(toks, b + 2) {
        return Err(MacroError { at: b + 7, kind: ErrorKind::Invalid(NOT_THE_STRUCT) });
    }
    let c = expect_group(toks, b + 8, end, Delim::Brace)?;
    let (root, mroot, n) = parse_paths(toks, c + 1, end)?;
    let mut st = MapParts { blocks: Vec::new(), regs: Vec::new(), variants: Vec::new(), fields: Vec::new() };
    assert(st@ == no_mparts());
    let mut j = n;
    while j < end
        invariant
            end == toks@.len(),
            spec_mblocks(toks@, n as int, end as int, no_mparts()) == spec_mblocks(
                toks@,
                j as int,
                end as int,
                st@,
            ),
            mparts_wf(st@, end as int),
        decreases end - j,
    {
        let k = parse_mblock(toks, j, end, &mut st)?;
        j = k;
    }
    Ok(
        MapInput {
            macro_attrs: Span { start: 0, end: a },
            macro_ident: a + 2,
            struct_attrs: Span { start: a + 4, end: b },
            struct_ident: b + 2,
            trait_ident: b + 5,
            items: Span { start: b + 9, end: c },
            root_path: root,
            macro_root_path: mroot,
            parts: st,
        },
    )
}


// ---------------------------------------------------------------------------
// What each register variant maps to

pub const UNKNOWN_OPTION: &'static str = "Unknown option";

pub use crate::periph::{OPTION_AND_SHARED, OPTION_IN_ALL, SHARED_WITH_VARIANTS};

/// An option of a register (`Shared`, `Option`) or, where `register` is
/// false, of a field (`Option`).
pub open spec fn known_option(s: Seq<char>, register: bool) -> bool {
    s == "Option"@ || (register && s == "Shared"@)
}

/// The first option in `[s, e)` that is not known.
pub open spec fn first_unknown(toks: Seq<Tok>, s: int, e: int, register: bool) -> Option<int>
    decreases e - s,
{
    if s >= e {
        None
    } else if !known_option(ident_text(toks, s), register) {
        Some(s)
    } else {
        first_unknown(toks, s + 1, e, register)
    }
}

/// The first unknown option among the fields from `x` to `e`.
pub open spec fn fields_unknown(toks: Seq<Tok>, st: MParts, x: int, e: int) -> Option<int>
    decreases e - x,
{
    if x >= e {
        None
    } else {
        match first_unknown(
            toks,
            st.fields[x].traits.start as int,
            st.fields[x].traits.end as int,
            false,
        ) {
            Some(t) => Some(t),
            None => fields_unknown(toks, st, x + 1, e),
        }
    }
}

pub open spec fn m_shared(toks: Seq<Tok>, v: MVariant) -> bool {
    has_trait(toks, v.traits, "Shared"@)
}

pub open spec fn m_option(toks: Seq<Tok>, v: MVariant) -> bool {
    has_trait(toks, v.traits, "Option"@)
}

/// Every variant of register `r` that maps to a register has `Option`.
pub open spec fn m_all_option(toks: Seq<Tok>, st: MParts, r: int) -> bool {
    forall|k: int|
        st.regs[r].variants.start <= k < st.regs[r].variants.end ==> (#[trigger] st.variants[k]).path
            is None || m_option(toks, st.variants[k])
}

/// Variant `k` maps to a register and is not `Shared`, so each other
/// variant of the register is turned into by its name and path; one of them
/// has none.
pub open spec fn unwrap_fails(toks: Seq<Tok>, st: MParts, r: int, k: int) -> bool {
    &&& st.variants[k].path is Some
    &&& !m_shared(toks, st.variants[k])
    &&& exists|j: int|
        st.regs[r].variants.start <= j < st.regs[r].variants.end && j != k && ((
        #[trigger] st.variants[j]).ident is None || st.variants[j].path is None)
}

/// How the expansion of variant `k` of register `r` fails, if it does.
pub enum MapStop {
    Fails(MacroError),
    Panics,
}

pub open spec fn map_variant_stop(toks: Seq<Tok>, st: MParts, r: int, k: int) -> Option<MapStop> {
    let g = st.regs[r];
    let v = st.variants[k];
    match first_unknown(toks, v.traits.start as int, v.traits.end as int, true) {
        Some(t) => Some(MapStop::Fails(MacroError { at: t as usize, kind: ErrorKind::Named(UNKNOWN_OPTION) })),
        None => if m_shared(toks, v) && m_option(toks, v) {
            Some(MapStop::Fails(MacroError { at: g.ident, kind: ErrorKind::Invalid(OPTION_AND_SHARED) }))
        } else if g.variants.end - g.variants.start > 1 && m_shared(toks, v) {
            Some(MapStop::Fails(MacroError { at: g.ident, kind: ErrorKind::Invalid(SHARED_WITH_VARIANTS) }))
        } else if m_option(toks, v) && !m_all_option(toks, st, r) {
            Some(MapStop::Fails(MacroError { at: g.ident, kind: ErrorKind::Invalid(OPTION_IN_ALL) }))
        } else {
            match fields_unknown(toks, st, v.fields.start as int, v.fields.end as int) {
                Some(t) => Some(
                    MapStop::Fails(MacroError { at: t as usize, kind: ErrorKind::Named(UNKNOWN_OPTION) }),
                ),
                None => if unwrap_fails(toks, st, r, k) {
                    Some(MapStop::Panics)
                } else {
                    None
                },
            }
        }
    }
}

pub open spec fn hs(toks: Seq<Tok>, i: usize) -> Seq<char> {
    heck_snake(ident_text(toks, i as int))
}

pub open spec fn hc(toks: Seq<Tok>, i: usize) -> Seq<char> {
    heck_upper_camel(ident_text(toks, i as int))
}

/// The identifier a block's registers are found under: its path, or its
/// name.
pub open spec fn block_path_tok(b: MBlock) -> usize {
    match b.path {
        Some(p) => p,
        None => b.ident,
    }
}

pub open spec fn m_var_snake(toks: Seq<Tok>, st: MParts, r: int, k: int) -> Seq<char> {
    match st.variants[k].ident {
        Some(x) => hs(toks, st.regs[r].ident) + "_"@ + hs(toks, x),
        None => hs(toks, st.regs[r].ident),
    }
}

pub open spec fn m_var_camel(toks: Seq<Tok>, st: MParts, r: int, k: int) -> Seq<char> {
    match st.variants[k].ident {
        Some(x) => hc(toks, st.regs[r].ident) + hc(toks, x),
        None => hc(toks, st.regs[r].ident),
    }
}

/// The module of a block: its path (or name) in snake case, kept clear of
/// keywords.
pub open spec fn block_module(toks: Seq<Tok>, b: MBlock) -> Seq<char> {
    unkeywordize(hs(toks, block_path_tok(b)))
}


/// A field: its index, its name (snake case, clear of keywords), the base
/// of its trait names, its name in the peripheral structure, whether it has
/// `Option`, and, where it maps to a register field, that field's type (the
/// path in upper camel case) and name (snake case, clear of keywords).
#[derive(Debug)]
pub struct MapFieldPlan {
    pub field: usize,
    pub ident: String,
    pub name: String,
    pub snake: String,
    pub option: bool,
    pub path: Option<(String, String)>,
}

pub struct MapFieldPlanV {
    pub field: usize,
    pub ident: Seq<char>,
    pub name: Seq<char>,
    pub snake: Seq<char>,
    pub option: bool,
    pub path: Option<(Seq<char>, Seq<char>)>,
}

pub open spec fn map_field_view(f: MapFieldPlan) -> MapFieldPlanV {
    MapFieldPlanV {
        field: f.field,
        ident: f.ident@,
        name: f.name@,
        snake: f.snake@,
        option: f.option,
        path: match f.path {
            Some((a, b)) => Some((a@, b@)),
            None => None,
        },
    }
}

pub open spec fn spec_map_field(toks: Seq<Tok>, st: MParts, b: int, r: int, k: int, x: int) -> MapFieldPlanV {
    let f = st.fields[x];
    let blk = st.blocks[b];
    MapFieldPlanV {
        field: x as usize,
        ident: unkeywordize(hs(toks, f.ident)),
        name: hc(toks, blk.ident) + m_var_camel(toks, st, r, k) + hc(toks, f.ident),
        snake: hs(toks, blk.ident) + "_"@ + m_var_snake(toks, st, r, k) + "_"@ + hs(toks, f.ident),
        option: has_trait(toks, f.traits, "Option"@),
        path: match f.path {
            Some(p) => Some((hc(toks, p), unkeywordize(hs(toks, p)))),
            None => None,
        },
    }
}

pub open spec fn spec_map_fields(
    toks: Seq<Tok>,
    st: MParts,
    b: int,
    r: int,
    k: int,
    x: int,
    acc: Seq<MapFieldPlanV>,
) -> Seq<MapFieldPlanV>
    decreases st.variants[k].fields.end - x,
{
    if x >= st.variants[k].fields.end {
        acc
    } else {
        spec_map_fields(toks, st, b, r, k, x + 1, acc.push(spec_map_field(toks, st, b, r, k, x)))
    }
}

/// Another variant of the register: its index, the method that turns into
/// it (`into_` and its name in snake case), its module, and the method of
/// the register that does it (`into_`, the block's module, `_`, the
/// variant's module).
#[derive(Debug)]
pub struct MapOther {
    pub variant: usize,
    pub into_fn: String,
    pub module: String,
    pub reg_into: String,
}

pub open spec fn map_other_view(o: MapOther) -> (usize, Seq<char>, Seq<char>, Seq<char>) {
    (o.variant, o.into_fn@, o.module@, o.reg_into@)
}

pub open spec fn opt_tok(o: Option<usize>) -> int {
    match o {
        Some(x) => x as int,
        None => -1,
    }
}

pub open spec fn spec_map_other(toks: Seq<Tok>, st: MParts, b: int, j: int) -> (
    usize,
    Seq<char>,
    Seq<char>,
    Seq<char>,
) {
    let v = st.variants[j];
    let module = unkeywordize(heck_snake(ident_text(toks, opt_tok(v.path))));
    (
        j as usize,
        "into_"@ + heck_snake(ident_text(toks, opt_tok(v.ident))),
        module,
        "into_"@ + block_module(toks, st.blocks[b]) + "_"@ + module,
    )
}

pub open spec fn spec_map_others(
    toks: Seq<Tok>,
    st: MParts,
    b: int,
    r: int,
    k: int,
    j: int,
    acc: Seq<(usize, Seq<char>, Seq<char>, Seq<char>)>,
) -> Seq<(usize, Seq<char>, Seq<char>, Seq<char>)>
    decreases st.regs[r].variants.end - j,
{
    if j >= st.regs[r].variants.end {
        acc
    } else if j == k {
        spec_map_others(toks, st, b, r, k, j + 1, acc)
    } else {
        spec_map_others(toks, st, b, r, k, j + 1, acc.push(spec_map_other(toks, st, b, j)))
    }
}

/// What variant `k` of register `r` in block `b` maps to: the indices of
/// the three, whether it is the first variant of the register, its name in
/// the peripheral structure, the base of its trait names, whether it is
/// `Shared` or has `Option`, the block's module, and, where it maps to a
/// register, the register's module and its name among the register tokens
/// (the block's path and the variant's path in snake case, joined by `_`);
/// the names of the block and variant it is taken from (snake case, joined
/// by `_`); the register's other variants, where this one maps to a
/// register and is not `Shared`; and its fields.
#[derive(Debug)]
pub struct MapVariantPlan {
    pub block: usize,
    pub reg: usize,
    pub variant: usize,
    pub first: bool,
    pub snake: String,
    pub name: String,
    pub shared: bool,
    pub option: bool,
    pub block_module: String,
    pub module: Option<String>,
    pub path_snake: Option<String>,
    pub from: Option<String>,
    pub others: Vec<MapOther>,
    pub fields: Vec<MapFieldPlan>,
}

pub struct MapVariantPlanV {
    pub block: usize,
    pub reg: usize,
    pub variant: usize,
    pub first: bool,
    pub snake: Seq<char>,
    pub name: Seq<char>,
    pub shared: bool,
    pub option: bool,
    pub block_module: Seq<char>,
    pub module: Option<Seq<char>>,
    pub path_snake: Option<Seq<char>>,
    pub from: Option<Seq<char>>,
    pub others: Seq<(usize, Seq<char>, Seq<char>, Seq<char>)>,
    pub fields: Seq<MapFieldPlanV>,
}

pub open spec fn opt_view(o: Option<String>) -> Option<Seq<char>> {
    match o {
        Some(s) => Some(s@),
        None => None,
    }
}

pub open spec fn map_variant_view(p: MapVariantPlan) -> MapVariantPlanV {
    MapVariantPlanV {
        block: p.block,
        reg: p.reg,
        variant: p.variant,
        first: p.first,
        snake: p.snake@,
        name: p.name@,
        shared: p.shared,
        option: p.option,
        block_module: p.block_module@,
        module: opt_view(p.module),
        path_snake: opt_view(p.path_snake),
        from: opt_view(p.from),
        others: p.others@.map_values(|o: MapOther| map_other_view(o)),
        fields: p.fields@.map_values(|f: MapFieldPlan| map_field_view(f)),
    }
}

pub open spec fn spec_map_variant(toks: Seq<Tok>, st: MParts, b: int, r: int, k: int) -> MapVariantPlanV {
    let v = st.variants[k];
    let g = st.regs[r];
    let blk = st.blocks[b];
    MapVariantPlanV {
        block: b as usize,
        reg: r as usize,
        variant: k as usize,
        first: k == g.variants.start,
        snake: hs(toks, blk.ident) + "_"@ + m_var_snake(toks, st, r, k),
        name: hc(toks, blk.ident) + m_var_camel(toks, st, r, k),
        shared: m_shared(toks, v),
        option: m_option(toks, v),
        block_module: block_module(toks, blk),
        module: match v.path {
            Some(p) => Some(unkeywordize(hs(toks, p))),
            None => None,
        },
        path_snake: match v.path {
            Some(p) => Some(hs(toks, block_path_tok(blk)) + "_"@ + hs(toks, p)),
            None => None,
        },
        from: match v.from {
            Some(src) => Some(hs(toks, src.block) + "_"@ + hs(toks, src.variant)),
            None => None,
        },
        others: if v.path is Some && !m_shared(toks, v) {
            spec_map_others(toks, st, b, r, k, g.variants.start as int, Seq::empty())
        } else {
            Seq::empty()
        },
        fields: spec_map_fields(toks, st, b, r, k, v.fields.start as int, Seq::empty()),
    }
}


/// Where the expansion goes: the plans of all register variants, an
/// error, or a panic of the expansion.
pub enum MapOutcome {
    Planned(Seq<MapVariantPlanV>),
    Failed(MacroError),
    Panics,
}

/// The variants of register `r` in block `b` from `k` on, their plans
/// added to `acc`.
pub open spec fn spec_map_variants(
    toks: Seq<Tok>,
    st: MParts,
    b: int,
    r: int,
    k: int,
    acc: Seq<MapVariantPlanV>,
) -> MapOutcome
    decreases st.regs[r].variants.end - k,
{
    if k >= st.regs[r].variants.end {
        MapOutcome::Planned(acc)
    } else {
        match map_variant_stop(toks, st, r, k) {
            Some(MapStop::Fails(e)) => MapOutcome::Failed(e),
            Some(MapStop::Panics) => MapOutcome::Panics,
            None => spec_map_variants(toks, st, b, r, k + 1, acc.push(spec_map_variant(toks, st, b, r, k))),
        }
    }
}

pub open spec fn spec_map_regs(toks: Seq<Tok>, st: MParts, b: int, r: int, acc: Seq<MapVariantPlanV>) -> MapOutcome
    decreases st.blocks[b].regs.end - r,
{
    if r >= st.blocks[b].regs.end {
        MapOutcome::Planned(acc)
    } else {
        match spec_map_variants(toks, st, b, r, st.regs[r].variants.start as int, acc) {
            MapOutcome::Planned(acc2) => spec_map_regs(toks, st, b, r + 1, acc2),
            other => other,
        }
    }
}

pub open spec fn spec_map_blocks(toks: Seq<Tok>, st: MParts, b: int, acc: Seq<MapVariantPlanV>) -> MapOutcome
    decreases st.blocks.len() - b,
{
    if b >= st.blocks.len() {
        MapOutcome::Planned(acc)
    } else {
        match spec_map_regs(toks, st, b, st.blocks[b].regs.start as int, acc) {
            MapOutcome::Planned(acc2) => spec_map_blocks(toks, st, b + 1, acc2),
            other => other,
        }
    }
}

/// The number of bytes that encode `c` in UTF-8.
pub open spec fn utf8_len(c: char) -> int {
    if (c as u32) < 0x80 {
        1
    } else if (c as u32) < 0x800 {
        2
    } else if (c as u32) < 0x10000 {
        3
    } else {
        4
    }
}

/// `s` without its last `n` bytes; none where they do not end a character
/// or `s` is shorter.
pub open spec fn drop_bytes(s: Seq<char>, n: int) -> Option<Seq<char>>
    decreases s.len(),
{
    if n <= 0 {
        Some(s)
    } else if s.len() == 0 || utf8_len(s.last()) > n {
        None
    } else {
        drop_bytes(s.drop_last(), n - utf8_len(s.last()))
    }
}

/// The name of the peripheral structure: the trait's name without its last
/// three bytes (the `Map` it ends with), then `Periph`.
pub open spec fn periph_struct_name(toks: Seq<Tok>, trait_ident: usize) -> Option<Seq<char>> {
    match drop_bytes(ident_text(toks, trait_ident as int), 3) {
        Some(base) => Some(base + "Periph"@),
        None => None,
    }
}

/// The expansion of `periph_map!` on `toks` panics.
pub open spec fn map_panics(toks: Seq<Tok>) -> bool {
    match spec_map_input(toks) {
        Err(_) => false,
        Ok(inp) => match spec_map_blocks(toks, inp.parts, 0, Seq::empty()) {
            MapOutcome::Panics => true,
            MapOutcome::Failed(_) => false,
            MapOutcome::Planned(_) => periph_struct_name(toks, inp.trait_ident) is None,
        },
    }
}

/// The outcome of `periph_map!` on `toks`, where it does not panic: the
/// input, the plans of the register variants, and the name of the
/// peripheral structure.
pub open spec fn spec_periph_map(toks: Seq<Tok>) -> Result<
    (MapInputV, Seq<MapVariantPlanV>, Seq<char>),
    MacroError,
> {
    match spec_map_input(toks) {
        Err(e) => Err(e),
        Ok(inp) => match spec_map_blocks(toks, inp.parts, 0, Seq::empty()) {
            MapOutcome::Failed(e) => Err(e),
            MapOutcome::Planned(plans) => match periph_struct_name(toks, inp.trait_ident) {
                Some(name) => Ok((inp, plans, name)),
                None => Ok((inp, plans, Seq::empty())),
            },
            MapOutcome::Panics => Ok((inp, Seq::empty(), Seq::empty())),
        },
    }
}


fn first_unknown_exec(toks: &Vec<Tok>, s: usize, e: usize, register: bool) -> (r: Option<usize>)
    ensures
        match r {
            Some(t) => first_unknown(toks@, s as int, e as int, register) == Some(t as int),
            None => first_unknown(toks@, s as int, e as int, register) is None,
        },
{
    let mut j = s;
    while j < e
        invariant
            s <= j,
            first_unknown(toks@, s as int, e as int, register) == first_unknown(
                toks@,
                j as int,
                e as int,
                register,
            ),
        decreases e - j,
    {
        let t = ident_string(toks, j);
        if !(eq_lit(&t, "Option") || (register && eq_lit(&t, "Shared"))) {
            return Some(j);
        }
        j = j + 1;
    }
    None
}

fn fields_unknown_exec(toks: &Vec<Tok>, inp: &MapInput, x: usize, e: usize) -> (r: Option<usize>)
    requires
        x <= e <= inp.parts@.fields.len(),
    ensures
        match r {
            Some(t) => fields_unknown(toks@, inp.parts@, x as int, e as int) == Some(t as int),
            None => fields_unknown(toks@, inp.parts@, x as int, e as int) is None,
        },
{
    let mut j = x;
    while j < e
        invariant
            x <= j <= e <= inp.parts@.fields.len(),
            fields_unknown(toks@, inp.parts@, x as int, e as int) == fields_unknown(
                toks@,
                inp.parts@,
                j as int,
                e as int,
            ),
        decreases e - j,
    {
        let f = inp.parts.fields[j];
        match first_unknown_exec(toks, f.traits.start, f.traits.end, false) {
            Some(t) => {
                return Some(t);
            },
            None => {},
        }
        j = j + 1;
    }
    None
}

fn m_all_option_exec(toks: &Vec<Tok>, inp: &MapInput, r: usize) -> (res: bool)
    requires
        r < inp.parts@.regs.len(),
        mparts_wf(inp.parts@, toks@.len() as int),
    ensures
        res == m_all_option(toks@, inp.parts@, r as int),
{
    let g = inp.parts.regs[r];
    assert(mreg_wf(inp.parts@, g, toks@.len() as int));
    let mut k = g.variants.start;
    while k < g.variants.end
        invariant
            g == inp.parts@.regs[r as int],
            g.variants.start <= k <= g.variants.end <= inp.parts@.variants.len(),
            forall|m: int|
                g.variants.start <= m < k ==> (#[trigger] inp.parts@.variants[m]).path is None
                    || m_option(toks@, inp.parts@.variants[m]),
        decreases g.variants.end - k,
    {
        let v = inp.parts.variants[k];
        if v.path.is_some() && !has_trait_exec(toks, v.traits, "Option") {
            return false;
        }
        k = k + 1;
    }
    true
}

#[verifier::loop_isolation(false)]
fn unwrap_fails_exec(toks: &Vec<Tok>, inp: &MapInput, r: usize, k: usize) -> (res: bool)
    requires
        r < inp.parts@.regs.len(),
        k < inp.parts@.variants.len(),
        mparts_wf(inp.parts@, toks@.len() as int),
    ensures
        res == unwrap_fails(toks@, inp.parts@, r as int, k as int),
{
    let g = inp.parts.regs[r];
    assert(mreg_wf(inp.parts@, g, toks@.len() as int));
    let v = inp.parts.variants[k];
    if v.path.is_none() || has_trait_exec(toks, v.traits, "Shared") {
        return false;
    }
    let mut j = g.variants.start;
    while j < g.variants.end
        invariant
            g == inp.parts@.regs[r as int],
            g.variants.start <= j <= g.variants.end <= inp.parts@.variants.len(),
            forall|m: int|
                g.variants.start <= m < j && m != k ==> (#[trigger] inp.parts@.variants[m]).ident
                    is Some && inp.parts@.variants[m].path is Some,
        decreases g.variants.end - j,
    {
        let w = inp.parts.variants[j];
        if j != k && (w.ident.is_none() || w.path.is_none()) {
            assert(inp.parts@.variants[j as int] == w);
            return true;
        }
        j = j + 1;
    }
    false
}

fn map_variant_stop_exec(toks: &Vec<Tok>, inp: &MapInput, r: usize, k: usize) -> (res: Option<MapStop>)
    requires
        r < inp.parts@.regs.len(),
        k < inp.parts@.variants.len(),
        mparts_wf(inp.parts@, toks@.len() as int),
    ensures
        res == map_variant_stop(toks@, inp.parts@, r as int, k as int),
{
    let g = inp.parts.regs[r];
    let v = inp.parts.variants[k];
    assert(mvariant_wf(inp.parts@, v, toks@.len() as int));
    match first_unknown_exec(toks, v.traits.start, v.traits.end, true) {
        Some(t) => {
            return Some(MapStop::Fails(MacroError { at: t, kind: ErrorKind::Named(UNKNOWN_OPTION) }));
        },
        None => {},
    }
    let shared = has_trait_exec(toks, v.traits, "Shared");
    let option = has_trait_exec(toks, v.traits, "Option");
    if shared && option {
        return Some(MapStop::Fails(MacroError { at: g.ident, kind: ErrorKind::Invalid(OPTION_AND_SHARED) }));
    }
    if g.variants.end - g.variants.start > 1 && shared {
        return Some(
            MapStop::Fails(MacroError { at: g.ident, kind: ErrorKind::Invalid(SHARED_WITH_VARIANTS) }),
        );
    }
    if option && !m_all_option_exec(toks, inp, r) {
        return Some(MapStop::Fails(MacroError { at: g.ident, kind: ErrorKind::Invalid(OPTION_IN_ALL) }));
    }
    match fields_unknown_exec(toks, inp, v.fields.start, v.fields.end) {
        Some(t) => {
            return Some(MapStop::Fails(MacroError { at: t, kind: ErrorKind::Named(UNKNOWN_OPTION) }));
        },
        None => {},
    }
    if unwrap_fails_exec(toks, inp, r, k) {
        Some(MapStop::Panics)
    } else {
        None
    }
}

fn hs_exec(toks: &Vec<Tok>, i: usize) -> (r: String)
    ensures
        r@ == hs(toks@, i),
{
    to_snake_heck(ident_string(toks, i).as_str())
}

fn hc_exec(toks: &Vec<Tok>, i: usize) -> (r: String)
    ensures
        r@ == hc(toks@, i),
{
    to_upper_camel_heck(ident_string(toks, i).as_str())
}

fn join(a: &String, sep: &str, b: &String) -> (r: String)
    ensures
        r@ == a@ + sep@ + b@,
{
    let r = a.clone();
    let r = r.concat(sep);
    r.concat(b.as_str())
}

fn join2(a: &String, b: &String) -> (r: String)
    ensures
        r@ == a@ + b@,
{
    let r = a.clone();
    r.concat(b.as_str())
}

fn m_var_names(toks: &Vec<Tok>, inp: &MapInput, r: usize, k: usize) -> (res: (String, String))
    requires
        r < inp.parts@.regs.len(),
        k < inp.parts@.variants.len(),
    ensures
        res.0@ == m_var_snake(toks@, inp.parts@, r as int, k as int),
        res.1@ == m_var_camel(toks@, inp.parts@, r as int, k as int),
{
    let g = inp.parts.regs[r];
    let reg_snk = hs_exec(toks, g.ident);
    let reg_cml = hc_exec(toks, g.ident);
    match inp.parts.variants[k].ident {
        Some(x) => (join(&reg_snk, "_", &hs_exec(toks, x)), join2(&reg_cml, &hc_exec(toks, x))),
        None => (reg_snk, reg_cml),
    }
}


fn map_field_exec(toks: &Vec<Tok>, inp: &MapInput, b: usize, r: usize, k: usize, x: usize) -> (res: MapFieldPlan)
    requires
        b < inp.parts@.blocks.len(),
        r < inp.parts@.regs.len(),
        k < inp.parts@.variants.len(),
        x < inp.parts@.fields.len(),
        mparts_wf(inp.parts@, toks@.len() as int),
    ensures
        map_field_view(res) == spec_map_field(toks@, inp.parts@, b as int, r as int, k as int, x as int),
{
    let f = inp.parts.fields[x];
    assert(mfield_wf(f, toks@.len() as int));
    let blk = inp.parts.blocks[b].ident;
    let (var_snk, var_cml) = m_var_names(toks, inp, r, k);
    let snk = hs_exec(toks, f.ident);
    let ident = unkeywordize_exec(&snk);
    let name = join2(&join2(&hc_exec(toks, blk), &var_cml), &hc_exec(toks, f.ident));
    let snake = join(&join(&hs_exec(toks, blk), "_", &var_snk), "_", &snk);
    let option = has_trait_exec(toks, f.traits, "Option");
    let path = match f.path {
        Some(p) => Some((hc_exec(toks, p), unkeywordize_exec(&hs_exec(toks, p)))),
        None => None,
    };
    MapFieldPlan { field: x, ident, name, snake, option, path }
}

#[verifier::loop_isolation(false)]
fn map_fields_exec(toks: &Vec<Tok>, inp: &MapInput, b: usize, r: usize, k: usize) -> (res: Vec<MapFieldPlan>)
    requires
        b < inp.parts@.blocks.len(),
        r < inp.parts@.regs.len(),
        k < inp.parts@.variants.len(),
        mparts_wf(inp.parts@, toks@.len() as int),
    ensures
        res@.map_values(|f: MapFieldPlan| map_field_view(f)) == spec_map_fields(
            toks@,
            inp.parts@,
            b as int,
            r as int,
            k as int,
            inp.parts@.variants[k as int].fields.start as int,
            Seq::empty(),
        ),
{
    let ghost st = inp.parts@;
    let v = inp.parts.variants[k];
    assert(mvariant_wf(st, v, toks@.len() as int));
    let mut out: Vec<MapFieldPlan> = Vec::new();
    assert(out@.map_values(|f: MapFieldPlan| map_field_view(f)) =~= Seq::empty());
    let mut x = v.fields.start;
    while x < v.fields.end
        invariant
            v.fields.start <= x <= v.fields.end <= st.fields.len(),
            spec_map_fields(toks@, st, b as int, r as int, k as int, v.fields.start as int, Seq::empty())
                == spec_map_fields(
                toks@,
                st,
                b as int,
                r as int,
                k as int,
                x as int,
                out@.map_values(|f: MapFieldPlan| map_field_view(f)),
            ),
        decreases v.fields.end - x,
    {
        let f = map_field_exec(toks, inp, b, r, k, x);
        let ghost before = out@.map_values(|f: MapFieldPlan| map_field_view(f));
        let ghost fv = map_field_view(f);
        out.push(f);
        assert(out@.map_values(|f: MapFieldPlan| map_field_view(f)) =~= before.push(fv));
        x = x + 1;
    }
    out
}

#[verifier::loop_isolation(false)]
fn map_others_exec(toks: &Vec<Tok>, inp: &MapInput, b: usize, r: usize, k: usize) -> (res: Vec<MapOther>)
    requires
        b < inp.parts@.blocks.len(),
        r < inp.parts@.regs.len(),
        mparts_wf(inp.parts@, toks@.len() as int),
    ensures
        res@.map_values(|o: MapOther| map_other_view(o)) == spec_map_others(
            toks@,
            inp.parts@,
            b as int,
            r as int,
            k as int,
            inp.parts@.regs[r as int].variants.start as int,
            Seq::empty(),
        ),
{
    let ghost st = inp.parts@;
    let g = inp.parts.regs[r];
    assert(mreg_wf(st, g, toks@.len() as int));
    let blk = inp.parts.blocks[b];
    let bmod = unkeywordize_exec(&hs_exec(toks, match blk.path {
        Some(p) => p,
        None => blk.ident,
    }));
    let mut out: Vec<MapOther> = Vec::new();
    assert(out@.map_values(|o: MapOther| map_other_view(o)) =~= Seq::empty());
    let mut j = g.variants.start;
    while j < g.variants.end
        invariant
            g.variants.start <= j <= g.variants.end <= st.variants.len(),
            bmod@ == block_module(toks@, st.blocks[b as int]),
            spec_map_others(toks@, st, b as int, r as int, k as int, g.variants.start as int, Seq::empty())
                == spec_map_others(
                toks@,
                st,
                b as int,
                r as int,
                k as int,
                j as int,
                out@.map_values(|o: MapOther| map_other_view(o)),
            ),
        decreases g.variants.end - j,
    {
        if j != k {
            let v = inp.parts.variants[j];
            let name = match v.ident {
                Some(x) => ident_string(toks, x),
                None => String::new(),
            };
            let path = match v.path {
                Some(x) => ident_string(toks, x),
                None => String::new(),
            };
            assert(name@ == ident_text(toks@, opt_tok(v.ident)));
            assert(path@ == ident_text(toks@, opt_tok(v.path)));
            let module = unkeywordize_exec(&to_snake_heck(path.as_str()));
            let into_fn = join2(&String::from_str("into_"), &to_snake_heck(name.as_str()));
            let reg_into = join(&join2(&String::from_str("into_"), &bmod), "_", &module);
            let o = MapOther { variant: j, into_fn, module, reg_into };
            let ghost before = out@.map_values(|o: MapOther| map_other_view(o));
            assert(map_other_view(o) == spec_map_other(toks@, st, b as int, j as int));
            out.push(o);
            assert(out@.map_values(|o: MapOther| map_other_view(o)) =~= before.push(
                spec_map_other(toks@, st, b as int, j as int),
            ));
        }
        j = j + 1;
    }
    out
}

fn map_variant_exec(toks: &Vec<Tok>, inp: &MapInput, b: usize, r: usize, k: usize) -> (res: MapVariantPlan)
    requires
        b < inp.parts@.blocks.len(),
        r < inp.parts@.regs.len(),
        mparts_wf(inp.parts@, toks@.len() as int),
        inp.parts@.regs[r as int].variants.start <= k < inp.parts@.regs[r as int].variants.end,
    ensures
        map_variant_view(res) == spec_map_variant(toks@, inp.parts@, b as int, r as int, k as int),
{
    let ghost st = inp.parts@;
    let g = inp.parts.regs[r];
    assert(mreg_wf(st, g, toks@.len() as int));
    let v = inp.parts.variants[k];
    assert(mvariant_wf(st, v, toks@.len() as int));
    let blk = inp.parts.blocks[b];
    assert(mblock_wf(st, blk, toks@.len() as int));
    let (var_snk, var_cml) = m_var_names(toks, inp, r, k);
    let snake = join(&hs_exec(toks, blk.ident), "_", &var_snk);
    let name = join2(&hc_exec(toks, blk.ident), &var_cml);
    let shared = has_trait_exec(toks, v.traits, "Shared");
    let option = has_trait_exec(toks, v.traits, "Option");
    let bpath = match blk.path {
        Some(p) => p,
        None => blk.ident,
    };
    let bsnk = hs_exec(toks, bpath);
    let block_module = unkeywordize_exec(&bsnk);
    let module = match v.path {
        Some(p) => Some(unkeywordize_exec(&hs_exec(toks, p))),
        None => None,
    };
    let path_snake = match v.path {
        Some(p) => Some(join(&bsnk, "_", &hs_exec(toks, p))),
        None => None,
    };
    let from = match v.from {
        Some(src) => Some(join(&hs_exec(toks, src.block), "_", &hs_exec(toks, src.variant))),
        None => None,
    };
    let others = if v.path.is_some() && !shared {
        map_others_exec(toks, inp, b, r, k)
    } else {
        let e: Vec<MapOther> = Vec::new();
        assert(e@.map_values(|o: MapOther| map_other_view(o)) =~= Seq::empty());
        e
    };
    let fields = map_fields_exec(toks, inp, b, r, k);
    MapVariantPlan {
        block: b,
        reg: r,
        variant: k,
        first: k == g.variants.start,
        snake,
        name,
        shared,
        option,
        block_module,
        module,
        path_snake,
        from,
        others,
        fields,
    }
}


pub open spec fn map_plans_view(v: Seq<MapVariantPlan>) -> Seq<MapVariantPlanV> {
    v.map_values(|p: MapVariantPlan| map_variant_view(p))
}

/// The outcome `o` is what a traversal that stopped with `stop`, or went
/// through (`None`) with the plans `plans`, gives.
pub open spec fn outcome_is(o: MapOutcome, stop: Option<MapStop>, plans: Seq<MapVariantPlanV>) -> bool {
    match stop {
        None => o == MapOutcome::Planned(plans),
        Some(MapStop::Fails(e)) => o == MapOutcome::Failed(e),
        Some(MapStop::Panics) => o == MapOutcome::Panics,
    }
}

#[verifier::loop_isolation(false)]
#[verifier::spinoff_prover]
#[verifier::rlimit(50)]
fn map_variants_exec(toks: &Vec<Tok>, inp: &MapInput, b: usize, r: usize, out: &mut Vec<MapVariantPlan>) -> (res:
    Option<MapStop>)
    requires
        b < inp.parts@.blocks.len(),
        r < inp.parts@.regs.len(),
        mparts_wf(inp.parts@, toks@.len() as int),
    ensures
        outcome_is(
            spec_map_variants(
                toks@,
                inp.parts@,
                b as int,
                r as int,
                inp.parts@.regs[r as int].variants.start as int,
                map_plans_view(old(out)@),
            ),
            res,
            map_plans_view(final(out)@),
        ),
{
    let ghost st = inp.parts@;
    let g = inp.parts.regs[r];
    assert(mreg_wf(st, g, toks@.len() as int));
    let mut k = g.variants.start;
    while k < g.variants.end
        invariant
            g.variants.start <= k <= g.variants.end,
            spec_map_variants(toks@, st, b as int, r as int, g.variants.start as int, map_plans_view(old(out)@))
                == spec_map_variants(toks@, st, b as int, r as int, k as int, map_plans_view(out@)),
        decreases g.variants.end - k,
    {
        match map_variant_stop_exec(toks, inp, r, k) {
            Some(stop) => {
                return Some(stop);
            },
            None => {},
        }
        let p = map_variant_exec(toks, inp, b, r, k);
        let ghost before = map_plans_view(out@);
        let ghost pv = map_variant_view(p);
        out.push(p);
        assert(map_plans_view(out@) =~= before.push(pv));
        k = k + 1;
    }
    None
}

#[verifier::loop_isolation(false)]
#[verifier::spinoff_prover]
#[verifier::rlimit(50)]
fn map_blocks_exec(toks: &Vec<Tok>, inp: &MapInput, out: &mut Vec<MapVariantPlan>) -> (res: Option<MapStop>)
    requires
        old(out)@.len() == 0,
        mparts_wf(inp.parts@, toks@.len() as int),
    ensures
        outcome_is(
            spec_map_blocks(toks@, inp.parts@, 0, Seq::empty()),
            res,
            map_plans_view(final(out)@),
        ),
{
    let ghost st = inp.parts@;
    assert(map_plans_view(out@) =~= Seq::<MapVariantPlanV>::empty());
    let mut b: usize = 0;
    while b < inp.parts.blocks.len()
        invariant
            b <= st.blocks.len(),
            spec_map_blocks(toks@, st, 0, Seq::empty()) == spec_map_blocks(
                toks@,
                st,
                b as int,
                map_plans_view(out@),
            ),
        decreases st.blocks.len() - b,
    {
        let blk = inp.parts.blocks[b];
        assert(mblock_wf(st, blk, toks@.len() as int));
        let mut r = blk.regs.start;
        while r < blk.regs.end
            invariant
                blk == st.blocks[b as int],
                blk.regs.start <= r <= blk.regs.end <= st.regs.len(),
                spec_map_blocks(toks@, st, 0, Seq::empty()) == match spec_map_regs(
                    toks@,
                    st,
                    b as int,
                    r as int,
                    map_plans_view(out@),
                ) {
                    MapOutcome::Planned(acc2) => spec_map_blocks(toks@, st, b + 1, acc2),
                    other => other,
                },
            decreases blk.regs.end - r,
        {
            match map_variants_exec(toks, inp, b, r, out) {
                Some(stop) => {
                    return Some(stop);
                },
                None => {},
            }
            r = r + 1;
        }
        b = b + 1;
    }
    None
}

fn utf8_len_exec(c: char) -> (r: usize)
    ensures
        r == utf8_len(c),
{
    let u = c as u32;
    if u < 0x80 {
        1
    } else if u < 0x800 {
        2
    } else if u < 0x10000 {
        3
    } else {
        4
    }
}

fn drop_bytes_exec(s: &String, n: usize) -> (r: Option<String>)
    ensures
        opt_view(r) == drop_bytes(s@, n as int),
{
    let t = s.as_str();
    let mut j = t.unicode_len();
    let mut rem = n;
    assert(s@.subrange(0, j as int) =~= s@);
    while rem > 0
        invariant
            t@ == s@,
            j <= s@.len(),
            drop_bytes(s@, n as int) == drop_bytes(s@.subrange(0, j as int), rem as int),
        decreases rem,
    {
        if j == 0 {
            return None;
        }
        let c = t.get_char(j - 1);
        let l = utf8_len_exec(c);
        assert(s@.subrange(0, j as int).last() == c);
        if l > rem {
            return None;
        }
        assert(s@.subrange(0, j as int).drop_last() =~= s@.subrange(0, j - 1));
        rem = rem - l;
        j = j - 1;
    }
    Some(String::from_str(t.substring_char(0, j)))
}

/// What `periph_map!` expands to: the input, the plans of the register
/// variants in the order of the input, and the name of the peripheral
/// structure.
#[derive(Debug)]
pub struct PeriphMapPlan {
    pub input: MapInput,
    pub variants: Vec<MapVariantPlan>,
    pub periph_struct: String,
}

/// Whether the expansion of `periph_map!` on `toks` panics: a variant
/// that maps to a register and is not `Shared` has another variant without
/// a name or path, or the trait's name is shorter than its `Map`.
pub fn periph_map_panics(toks: &Vec<Tok>) -> (r: bool)
    ensures
        r == map_panics(toks@),
{
    let input = match parse_map_input(toks) {
        Ok(i) => i,
        Err(_) => {
            return false;
        },
    };
    let mut variants: Vec<MapVariantPlan> = Vec::new();
    match map_blocks_exec(toks, &input, &mut variants) {
        Some(MapStop::Panics) => true,
        Some(MapStop::Fails(_)) => false,
        None => drop_bytes_exec(&ident_string(toks, input.trait_ident), 3).is_none(),
    }
}

/// `periph_map!` on the input `toks`, where its expansion does not panic.
pub fn periph_map(toks: &Vec<Tok>) -> (r: Result<PeriphMapPlan, MacroError>)
    requires
        !map_panics(toks@),
    ensures
        r matches Err(e) ==> spec_periph_map(toks@) == Err::<
            (MapInputV, Seq<MapVariantPlanV>, Seq<char>),
            MacroError,
        >(e),
        r matches Ok(p) ==> spec_periph_map(toks@) == Ok::<
            (MapInputV, Seq<MapVariantPlanV>, Seq<char>),
            MacroError,
        >((map_input_view(&p.input), map_plans_view(p.variants@), p.periph_struct@)),
{
    let input = parse_map_input(toks)?;
    let mut variants: Vec<MapVariantPlan> = Vec::new();
    match map_blocks_exec(toks, &input, &mut variants) {
        Some(MapStop::Fails(e)) => {
            return Err(e);
        },
        Some(MapStop::Panics) => {
            return Ok(PeriphMapPlan { input, variants: Vec::new(), periph_struct: String::new() });
        },
        None => {},
    }
    let periph_struct = match drop_bytes_exec(&ident_string(toks, input.trait_ident), 3) {
        Some(base) => base.concat("Periph"),
        None => String::new(),
    };
    Ok(PeriphMapPlan { input, variants, periph_struct })
}


// ---------------------------------------------------------------------------
// Laws

/// The plan `p` keeps the rules of `periph_map!`: a `Shared` register has no
/// `Option` and no more than one variant; where a variant has `Option`,
/// every variant of its register that maps to a register has it.
pub open spec fn map_keeps_rules(toks: Seq<Tok>, st: MParts, p: MapVariantPlanV) -> bool {
    &&& p.shared ==> !p.option && st.regs[p.reg as int].variants.end
        - st.regs[p.reg as int].variants.start <= 1
    &&& p.option ==> m_all_option(toks, st, p.reg as int)
}

pub open spec fn map_all_keep_rules(toks: Seq<Tok>, st: MParts, plans: Seq<MapVariantPlanV>) -> bool {
    forall|i: int| 0 <= i < plans.len() ==> map_keeps_rules(toks, st, #[trigger] plans[i])
}

proof fn lemma_map_variants_keep_rules(
    toks: Seq<Tok>,
    st: MParts,
    b: int,
    r: int,
    k: int,
    acc: Seq<MapVariantPlanV>,
)
    requires
        map_all_keep_rules(toks, st, acc),
        0 <= r <= usize::MAX,
    ensures
        spec_map_variants(toks, st, b, r, k, acc) matches MapOutcome::Planned(res) ==> map_all_keep_rules(
            toks,
            st,
            res,
        ),
    decreases st.regs[r].variants.end - k,
{
    if k < st.regs[r].variants.end && map_variant_stop(toks, st, r, k) is None {
        let p = spec_map_variant(toks, st, b, r, k);
        assert(map_keeps_rules(toks, st, p));
        let acc2 = acc.push(p);
        assert forall|i: int| 0 <= i < acc2.len() implies map_keeps_rules(toks, st, #[trigger] acc2[i]) by {
            if i < acc.len() {
                assert(acc2[i] == acc[i]);
            }
        }
        lemma_map_variants_keep_rules(toks, st, b, r, k + 1, acc2);
    }
}

proof fn lemma_map_regs_keep_rules(toks: Seq<Tok>, st: MParts, b: int, r: int, acc: Seq<MapVariantPlanV>)
    requires
        map_all_keep_rules(toks, st, acc),
        0 <= r <= usize::MAX,
    ensures
        spec_map_regs(toks, st, b, r, acc) matches MapOutcome::Planned(res) ==> map_all_keep_rules(
            toks,
            st,
            res,
        ),
    decreases st.blocks[b].regs.end - r,
{
    if r < st.blocks[b].regs.end {
        lemma_map_variants_keep_rules(toks, st, b, r, st.regs[r].variants.start as int, acc);
        if let MapOutcome::Planned(acc2) = spec_map_variants(
            toks,
            st,
            b,
            r,
            st.regs[r].variants.start as int,
            acc,
        ) {
            lemma_map_regs_keep_rules(toks, st, b, r + 1, acc2);
        }
    }
}

proof fn lemma_map_blocks_keep_rules(toks: Seq<Tok>, st: MParts, b: int, acc: Seq<MapVariantPlanV>)
    requires
        map_all_keep_rules(toks, st, acc),
        0 <= b,
    ensures
        spec_map_blocks(toks, st, b, acc) matches MapOutcome::Planned(res) ==> map_all_keep_rules(
            toks,
            st,
            res,
        ),
    decreases st.blocks.len() - b,
{
    if b < st.blocks.len() {
        lemma_map_regs_keep_rules(toks, st, b, st.blocks[b].regs.start as int, acc);
        if let MapOutcome::Planned(acc2) = spec_map_regs(toks, st, b, st.blocks[b].regs.start as int, acc) {
            lemma_map_blocks_keep_rules(toks, st, b + 1, acc2);
        }
    }
}

/// What `periph_map!` accepts keeps its rules: no variant is both `Shared`
/// and `Option`, a `Shared` register has no more than one variant, and where
/// a variant has `Option`, every variant of its register that maps to a
/// register has it.
pub proof fn law_periph_map_keeps_rules(toks: Seq<Tok>)
    ensures
        !map_panics(toks) ==> (spec_periph_map(toks) matches Ok((inp, plans, _)) ==> map_all_keep_rules(
            toks,
            inp.parts,
            plans,
        )),
{
    if let Ok(inp) = spec_map_input(toks) {
        lemma_map_blocks_keep_rules(toks, inp.parts, 0, Seq::empty());
    }
}

} // verus!
