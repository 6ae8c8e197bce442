//! `periph_singular!`: the structure of a peripheral that is not generic,
//! holding its registers (or their fields) by their paths under a root,
//! and a macro that takes it from the register tokens.
//!
//! The input is `attrs pub macro periph_name;`, `attrs pub struct
//! NamePeriph;`, the root path and `;`, `crate` with an optional path and
//! `;`, then the blocks `Block { regs }`. A register reads `features Reg;`
//! or `features Reg { fields }`, a field `features Field;`.

use crate::case::{inflector_pascal, inflector_snake, to_pascal_inflector, to_snake_inflector,
    unkeywordize, unkeywordize_exec};
use crate::periph_map::{is_periph_macro_name, is_periph_macro_name_exec, parse_paths, spec_paths};
use crate::token::{
    Delim, ErrorKind, MacroError, Span, Tok, err, expect_group, expect_ident, expect_punct,
    expect_word, ident_string, ident_text, outer_attrs, peek_punct, is_punct, spec_expect_group,
    spec_expect_ident, spec_expect_punct, spec_expect_word, spec_outer_attrs,
};
use vstd::prelude::*;

verus! {

pub const STRUCT_SUFFIX: &'static str = "Periph";

pub const NOT_A_PERIPH_MACRO: &'static str = "Expected an ident which starts with `periph_`";

pub const NOT_A_PERIPH_STRUCT: &'static str = "Expected an ident which ends with `Periph`";

#[derive(PartialEq, Eq, Structural, Clone, Copy, Debug)]
pub struct SField {
    pub features: Span,
    pub ident: usize,
}

#[derive(PartialEq, Eq, Structural, Clone, Copy, Debug)]
pub struct SReg {
    pub features: Span,
    pub ident: usize,
    pub fields: Span,
}

#[derive(PartialEq, Eq, Structural, Clone, Copy, Debug)]
pub struct SBlock {
    pub ident: usize,
    pub regs: Span,
}

pub struct SParts {
    pub blocks: Seq<SBlock>,
    pub regs: Seq<SReg>,
    pub fields: Seq<SField>,
}

pub open spec fn no_sparts() -> SParts {
    SParts { blocks: Seq::empty(), regs: Seq::empty(), fields: Seq::empty() }
}

/// The fields of a register from `i` to `end`, added to `acc`.
pub open spec fn spec_sfields(toks: Seq<Tok>, i: int, end: int, acc: Seq<SField>) -> Result<
    Seq<SField>,
    MacroError,
>
    decreases end - i,
{
    if i >= end {
        Ok(acc)
    } else {
        match spec_outer_attrs(toks, i, end) {
            Err(e) => Err(e),
            Ok(a) => match spec_expect_ident(toks, a as int, end) {
                Err(e) => Err(e),
                Ok(_) => match spec_expect_punct(toks, a + 1, end, ';') {
                    Err(e) => Err(e),
                    Ok(n) => if n > i && n <= end {
                        spec_sfields(
                            toks,
                            n as int,
                            end,
                            acc.push(SField { features: Span { start: i as usize, end: a }, ident: a }),
                        )
                    } else {
                        Ok(acc)
                    },
                },
            },
        }
    }
}

/// A register at `i`, added to `st`, and the position after it.
pub open spec fn spec_sreg(toks: Seq<Tok>, i: int, end: int, st: SParts) -> Result<(SParts, usize), MacroError> {
    match spec_outer_attrs(toks, i, end) {
        Err(e) => Err(e),
        Ok(a) => match spec_expect_ident(toks, a as int, end) {
            Err(e) => Err(e),
            Ok(_) => {
                let reg = |fields: Seq<SField>|
                    SReg {
                        features: Span { start: i as usize, end: a },
                        ident: a,
                        fields: Span { start: st.fields.len() as usize, end: fields.len() as usize },
                    };
                if is_punct(toks, a + 1, end, ';') {
                    Ok((SParts { regs: st.regs.push(reg(st.fields)), ..st }, (a + 2) as usize))
                } else {
                    match spec_expect_group(toks, a + 1, end, Delim::Brace) {
                        Err(e) => Err(e),
                        Ok(c) => match spec_sfields(toks, a + 2, c as int, st.fields) {
                            Err(e) => Err(e),
                            Ok(fields) => Ok(
                                (
                                    SParts { regs: st.regs.push(reg(fields)), fields, ..st },
                                    (c + 1) as usize,
                                ),
                            ),
                        },
                    }
                }
            },
        },
    }
}

/// The registers of a block from `i` to `end`.
pub open spec fn spec_sregs(toks: Seq<Tok>, i: int, end: int, st: SParts) -> Result<SParts, MacroError>
    decreases end - i,
{
    if i >= end {
        Ok(st)
    } else {
        match spec_sreg(toks, i, end, st) {
            Err(e) => Err(e),
            Ok((st2, n)) => if n > i && n <= end {
                spec_sregs(toks, n as int, end, st2)
            } else {
                Ok(st2)
            },
        }
    }
}

/// The blocks from `i` to `end`.
pub open spec fn spec_sblocks(toks: Seq<Tok>, i: int, end: int, st: SParts) -> Result<SParts, MacroError>
    decreases end - i,
{
    if i >= end {
        Ok(st)
    } else {
        match spec_expect_ident(toks, i, end) {
            Err(e) => Err(e),
            Ok(_) => match spec_expect_group(toks, i + 1, end, Delim::Brace) {
                Err(e) => Err(e),
                Ok(c) => match spec_sregs(toks, i + 2, c as int, st) {
                    Err(e) => Err(e),
                    Ok(st2) => if c + 1 > i && c + 1 <= end {
                        spec_sblocks(
                            toks,
                            c + 1,
                            end,
                            SParts {
                                blocks: st2.blocks.push(
                                    SBlock {
                                        ident: i as usize,
                                        regs: Span {
                                            start: st.regs.len() as usize,
                                            end: st2.regs.len() as usize,
                                        },
                                    },
                                ),
                                ..st2
                            },
                        )
                    } else {
                        Ok(st2)
                    },
                },
            },
        }
    }
}

/// The name ends with `Periph`.
pub open spec fn is_periph_struct_name(s: Seq<char>) -> bool {
    s.len() >= 6 && s.subrange(s.len() - 6, s.len() as int) == STRUCT_SUFFIX@
}

/// The input of `periph_singular!`, as read.
pub struct SingularInputV {
    pub macro_attrs: Span,
    pub macro_ident: usize,
    pub struct_attrs: Span,
    pub struct_ident: usize,
    pub root_path: Span,
    pub macro_root_path: Option<Span>,
    pub parts: SParts,
}

pub open spec fn spec_singular_input(toks: Seq<Tok>) -> Result<SingularInputV, MacroError> {
    let end = toks.len() as int;
    match spec_outer_attrs(toks, 0, end) {
        Err(e) => Err(e),
        Ok(a) => match spec_expect_word(toks, a as int, end, "pub") {
            Err(e) => Err(e),
            Ok(_) => match spec_expect_word(toks, a + 1, end, "macro") {
                Err(e) => Err(e),
                Ok(_) => match spec_expect_ident(toks, a + 2, end) {
                    Err(e) => Err(e),
                    Ok(_) => if !is_periph_macro_name(ident_text(toks, a + 2)) {
                        err(a + 3, ErrorKind::Invalid(NOT_A_PERIPH_MACRO))
                    } else {
                        match spec_expect_punct(toks, a + 3, end, ';') {
                            Err(e) => Err(e),
                            Ok(_) => match spec_outer_attrs(toks, a + 4, end) {
                                Err(e) => Err(e),
                                Ok(b) => match spec_expect_word(toks, b as int, end, "pub") {
                                    Err(e) => Err(e),
                                    Ok(_) => match spec_expect_word(toks, b + 1, end, "struct") {
                                        Err(e) => Err(e),
                                        Ok(_) => match spec_expect_ident(toks, b + 2, end) {
                                            Err(e) => Err(e),
                                            Ok(_) => if !is_periph_struct_name(ident_text(toks, b + 2)) {
                                                err(b + 3, ErrorKind::Invalid(NOT_A_PERIPH_STRUCT))
                                            } else {
                                                match spec_expect_punct(toks, b + 3, end, ';') {
                                                    Err(e) => Err(e),
                                                    Ok(_) => match spec_paths(toks, b + 4, end) {
                                                        Err(e) => Err(e),
                                                        Ok((root, mroot, n)) => match spec_sblocks(
                                                            toks,
                                                            n as int,
                                                            end,
                                                            no_sparts(),
                                                        ) {
                                                            Err(e) => Err(e),
                                                            Ok(parts) => Ok(
                                                                SingularInputV {
                                                                    macro_attrs: Span { start: 0, end: a },
                                                                    macro_ident: (a + 2) as usize,
                                                                    struct_attrs: Span {
                                                                        start: (a + 4) as usize,
                                                                        end: b,
                                                                    },
                                                                    struct_ident: (b + 2) as usize,
                                                                    root_path: root,
                                                                    macro_root_path: mroot,
                                                                    parts,
                                                                },
                                                            ),
                                                        },
                                                    },
                                                }
                                            },
                                        },
                                    },
                                },
                            },
                        }
                    },
                },
            },
        },
    }
}


// ---------------------------------------------------------------------------
// Reading the input

/// The blocks, registers and fields of the input.
#[derive(Debug)]
pub struct SingularParts {
    pub blocks: Vec<SBlock>,
    pub regs: Vec<SReg>,
    pub fields: Vec<SField>,
}

impl View for SingularParts {
    type V = SParts;

    open spec fn view(&self) -> SParts {
        SParts { blocks: self.blocks@, regs: self.regs@, fields: self.fields@ }
    }
}

/// Each range and position of `st` lies within what it points into.
pub open spec fn sparts_wf(st: SParts, n: int) -> bool {
    &&& forall|b: int|
        0 <= b < st.blocks.len() ==> (#[trigger] st.blocks[b]).regs.start <= st.blocks[b].regs.end
            <= st.regs.len() && st.blocks[b].ident < n
    &&& forall|r: int|
        0 <= r < st.regs.len() ==> (#[trigger] st.regs[r]).fields.start <= st.regs[r].fields.end
            <= st.fields.len() && st.regs[r].ident < n
    &&& forall|f: int| 0 <= f < st.fields.len() ==> (#[trigger] st.fields[f]).ident < n
}

#[verifier::loop_isolation(false)]
fn parse_sfields(toks: &Vec<Tok>, i: usize, end: usize, st: &mut SingularParts) -> (r: Result<(), MacroError>)
    requires
        end <= toks@.len(),
        sparts_wf(old(st)@, toks@.len() as int),
    ensures
        r matches Ok(_) ==> spec_sfields(toks@, i as int, end as int, old(st)@.fields) == Ok::<
            Seq<SField>,
            MacroError,
        >(final(st)@.fields) && final(st)@.blocks == old(st)@.blocks && final(st)@.regs == old(
            st,
        )@.regs && old(st)@.fields.is_prefix_of(final(st)@.fields) && sparts_wf(
            final(st)@,
            toks@.len() as int,
        ),
        r matches Err(e) ==> spec_sfields(toks@, i as int, end as int, old(st)@.fields) == Err::<
            Seq<SField>,
            MacroError,
        >(e),
{
    let mut j = i;
    while j < end
        invariant
            spec_sfields(toks@, i as int, end as int, old(st)@.fields) == spec_sfields(
                toks@,
                j as int,
                end as int,
                st@.fields,
            ),
            st@.blocks == old(st)@.blocks,
            st@.regs == old(st)@.regs,
            old(st)@.fields.is_prefix_of(st@.fields),
            sparts_wf(st@, toks@.len() as int),
        decreases end - j,
    {
        let a = outer_attrs(toks, j, end)?;
        expect_ident(toks, a, end)?;
        let n = expect_punct(toks, a + 1, end, ';')?;
        let ghost before = st@;
        st.fields.push(SField { features: Span { start: j, end: a }, ident: a });
        proof {
            assert forall|r: int| 0 <= r < st@.regs.len() implies (#[trigger] st@.regs[r]).fields.start
                <= st@.regs[r].fields.end <= st@.fields.len() && st@.regs[r].ident < toks@.len() by {
                assert(st@.regs[r] == before.regs[r]);
            }
            assert forall|f: int| 0 <= f < st@.fields.len() implies (#[trigger] st@.fields[f]).ident
                < toks@.len() by {
                if f < before.fields.len() {
                    assert(st@.fields[f] == before.fields[f]);
                }
            }
        }
        j = n;
    }
    Ok(())
}

#[verifier::loop_isolation(false)]
#[verifier::spinoff_prover]
#[verifier::rlimit(50)]
fn parse_sreg(toks: &Vec<Tok>, i: usize, end: usize, st: &mut SingularParts) -> (r: Result<usize, MacroError>)
    requires
        end <= toks@.len(),
        sparts_wf(old(st)@, toks@.len() as int),
    ensures
        r matches Ok(n) ==> spec_sreg(toks@, i as int, end as int, old(st)@) == Ok::<
            (SParts, usize),
            MacroError,
        >((final(st)@, n)) && i < n <= end && final(st)@.blocks == old(st)@.blocks && old(
            st,
        )@.regs.is_prefix_of(final(st)@.regs) && old(st)@.fields.is_prefix_of(final(st)@.fields)
            && sparts_wf(final(st)@, toks@.len() as int),
        r matches Err(e) ==> spec_sreg(toks@, i as int, end as int, old(st)@) == Err::<
            (SParts, usize),
            MacroError,
        >(e),
{
    let a = outer_attrs(toks, i, end)?;
    expect_ident(toks, a, end)?;
    let start = st.fields.len();
    let n = if peek_punct(toks, a + 1, end, ';') {
        a + 2
    } else {
        let c = expect_group(toks, a + 1, end, Delim::Brace)?;
        parse_sfields(toks, a + 2, c, st)?;
        c + 1
    };
    let ghost before = st@;
    st.regs.push(
        SReg { features: Span { start: i, end: a }, ident: a, fields: Span { start, end: st.fields.len() } },
    );
    proof {
        assert forall|b: int| 0 <= b < st@.blocks.len() implies (#[trigger] st@.blocks[b]).regs.start
            <= st@.blocks[b].regs.end <= st@.regs.len() && st@.blocks[b].ident < toks@.len() by {
            assert(st@.blocks[b] == before.blocks[b]);
        }
        assert forall|r: int| 0 <= r < st@.regs.len() implies (#[trigger] st@.regs[r]).fields.start
            <= st@.regs[r].fields.end <= st@.fields.len() && st@.regs[r].ident < toks@.len() by {
            if r < before.regs.len() {
                assert(st@.regs[r] == before.regs[r]);
            }
        }
        assert(forall|k: int| 0 <= k < old(st)@.fields.len() ==> st@.fields[k] == old(st)@.fields[k]);
    }
    Ok(n)
}

#[verifier::loop_isolation(false)]
#[verifier::spinoff_prover]
#[verifier::rlimit(50)]
pub fn parse_sblocks(toks: &Vec<Tok>, i: usize, st: &mut SingularParts) -> (r: Result<(), MacroError>)
    requires
        old(st)@ == no_sparts(),
    ensures
        r matches Ok(_) ==> spec_sblocks(toks@, i as int, toks@.len() as int, no_sparts()) == Ok::<
            SParts,
            MacroError,
        >(final(st)@) && sparts_wf(final(st)@, toks@.len() as int),
        r matches Err(e) ==> spec_sblocks(toks@, i as int, toks@.len() as int, no_sparts()) == Err::<
            SParts,
            MacroError,
        >(e),
{
    let end = toks.len();
    let mut j = i;
    while j < end
        invariant
            end == toks@.len(),
            spec_sblocks(toks@, i as int, end as int, no_sparts()) == spec_sblocks(
                toks@,
                j as int,
                end as int,
                st@,
            ),
            sparts_wf(st@, end as int),
        decreases end - j,
    {
        expect_ident(toks, j, end)?;
        let c = expect_group(toks, j + 1, end, Delim::Brace)?;
        let start = st.regs.len();
        let ghost st0 = st@;
        let mut k = j + 2;
        while k < c
            invariant
                j + 2 <= k || k == j + 2,
                c < end,
                spec_sregs(toks@, j + 2, c as int, st0) == spec_sregs(toks@, k as int, c as int, st@),
                st@.blocks == st0.blocks,
                st0.regs.is_prefix_of(st@.regs),
                st0.fields.is_prefix_of(st@.fields),
                sparts_wf(st@, end as int),
            decreases c - k,
        {
            let ghost before = st@;
            let n = parse_sreg(toks, k, c, st)?;
            proof {
                assert(forall|x: int| 0 <= x < before.regs.len() ==> st@.regs[x] == before.regs[x]);
                assert(forall|x: int| 0 <= x < before.fields.len() ==> st@.fields[x] == before.fields[x]);
            }
            k = n;
        }
        let ghost mid = st@;
        st.blocks.push(SBlock { ident: j, regs: Span { start, end: st.regs.len() } });
        proof {
            assert forall|b: int| 0 <= b < st@.blocks.len() implies (#[trigger] st@.blocks[b]).regs.start
                <= st@.blocks[b].regs.end <= st@.regs.len() && st@.blocks[b].ident < end by {
                if b < mid.blocks.len() {
                    assert(st@.blocks[b] == mid.blocks[b]);
                }
            }
        }
        j = c + 1;
    }
    Ok(())
}

fn is_periph_struct_name_exec(s: &String) -> (r: bool)
    ensures
        r == is_periph_struct_name(s@),
{
    let t = s.as_str();
    let n = t.unicode_len();
    proof {
        reveal_strlit("Periph");
    }
    if n < 6 {
        return false;
    }
    let tail = String::from_str(t.substring_char(n - 6, n));
    crate::token::eq_lit(&tail, STRUCT_SUFFIX)
}

/// The input of `periph_singular!`.
#[derive(Debug)]
pub struct SingularInput {
    pub macro_attrs: Span,
    pub macro_ident: usize,
    pub struct_attrs: Span,
    pub struct_ident: usize,
    pub root_path: Span,
    pub macro_root_path: Option<Span>,
    pub parts: SingularParts,
}

pub open spec fn singular_input_view(p: &SingularInput) -> SingularInputV {
    SingularInputV {
        macro_attrs: p.macro_attrs,
        macro_ident: p.macro_ident,
        struct_attrs: p.struct_attrs,
        struct_ident: p.struct_ident,
        root_path: p.root_path,
        macro_root_path: p.macro_root_path,
        parts: p.parts@,
    }
}

/// Reads the input of `periph_singular!`.
pub fn parse_singular_input(toks: &Vec<Tok>) -> (r: Result<SingularInput, MacroError>)
    ensures
        r matches Ok(p) ==> spec_singular_input(toks@) == Ok::<SingularInputV, MacroError>(
            singular_input_view(&p),
        ) && sparts_wf(p.parts@, toks@.len() as int),
        r matches Err(e) ==> spec_singular_input(toks@) == Err::<SingularInputV, MacroError>(e),
{
    let end = toks.len();
    let a = outer_attrs(toks, 0, end)?;
    expect_word(toks, a, end, "pub")?;
    expect_word(toks, a + 1, end, "macro")?;
    expect_ident(toks, a + 2, end)?;
    if !is_periph_macro_name_exec(&ident_string(toks, a + 2)) {
        return Err(MacroError { at: a + 3, kind: ErrorKind::Invalid(NOT_A_PERIPH_MACRO) });
    }
    expect_punct(toks, a + 3, end, ';')?;
    let b = outer_attrs(toks, a + 4, end)?;
    expect_word(toks, b, end, "pub")?;
    expect_word(toks, b + 1, end, "struct")?;
    expect_ident(toks, b + 2, end)?;
    if !is_periph_struct_name_exec(&ident_string(toks, b + 2)) {
        return Err(MacroError { at: b + 3, kind: ErrorKind::Invalid(NOT_A_PERIPH_STRUCT) });
    }
    expect_punct(toks, b + 3, end, ';')?;
    let (root, mroot, n) = parse_paths(toks, b + 4, end)?;
    let mut st = SingularParts { blocks: Vec::new(), regs: Vec::new(), fields: Vec::new() };
    assert(st@ == no_sparts());
    parse_sblocks(toks, n, &mut st)?;
    Ok(
        SingularInput {
            macro_attrs: Span { start: 0, end: a },
            macro_ident: a + 2,
            struct_attrs: Span { start: a + 4, end: b },
            struct_ident: b + 2,
            root_path: root,
            macro_root_path: mroot,
            parts: st,
        },
    )
}


// ---------------------------------------------------------------------------
// The fields of the peripheral structure

/// A field of the peripheral structure: the block, register and (for a
/// register with fields) field it holds; its name (block, register and
/// field in snake case, joined by `_`); the name of the register among the
/// register tokens (block and register); the modules of the block and the
/// register (snake case, clear of keywords); and, for a field, its type
/// (Pascal case) and its name among the register's fields (snake case,
/// clear of keywords).
#[derive(Debug)]
pub struct SingularEntry {
    pub block: usize,
    pub reg: usize,
    pub field: Option<usize>,
    pub snake: String,
    pub reg_snake: String,
    pub block_module: String,
    pub reg_module: String,
    pub field_type: Option<String>,
    pub field_ident: Option<String>,
}

pub struct SingularEntryV {
    pub block: usize,
    pub reg: usize,
    pub field: Option<usize>,
    pub snake: Seq<char>,
    pub reg_snake: Seq<char>,
    pub block_module: Seq<char>,
    pub reg_module: Seq<char>,
    pub field_type: Option<Seq<char>>,
    pub field_ident: Option<Seq<char>>,
}

pub open spec fn opt_view(o: Option<String>) -> Option<Seq<char>> {
    match o {
        Some(s) => Some(s@),
        None => None,
    }
}

pub open spec fn entry_view(e: SingularEntry) -> SingularEntryV {
    SingularEntryV {
        block: e.block,
        reg: e.reg,
        field: e.field,
        snake: e.snake@,
        reg_snake: e.reg_snake@,
        block_module: e.block_module@,
        reg_module: e.reg_module@,
        field_type: opt_view(e.field_type),
        field_ident: opt_view(e.field_ident),
    }
}

pub open spec fn snk(toks: Seq<Tok>, i: usize) -> Seq<char> {
    inflector_snake(ident_text(toks, i as int))
}

pub open spec fn spec_entry(toks: Seq<Tok>, st: SParts, b: int, r: int, field: Option<int>) -> SingularEntryV {
    let block_snk = snk(toks, st.blocks[b].ident);
    let reg_snk = snk(toks, st.regs[r].ident);
    let reg_snake = block_snk + "_"@ + reg_snk;
    SingularEntryV {
        block: b as usize,
        reg: r as usize,
        field: match field {
            Some(x) => Some(x as usize),
            None => None,
        },
        snake: match field {
            Some(x) => reg_snake + "_"@ + snk(toks, st.fields[x].ident),
            None => reg_snake,
        },
        reg_snake,
        block_module: unkeywordize(block_snk),
        reg_module: unkeywordize(reg_snk),
        field_type: match field {
            Some(x) => Some(inflector_pascal(ident_text(toks, st.fields[x].ident as int))),
            None => None,
        },
        field_ident: match field {
            Some(x) => Some(unkeywordize(snk(toks, st.fields[x].ident))),
            None => None,
        },
    }
}

pub open spec fn spec_field_entries(
    toks: Seq<Tok>,
    st: SParts,
    b: int,
    r: int,
    x: int,
    acc: Seq<SingularEntryV>,
) -> Seq<SingularEntryV>
    decreases st.regs[r].fields.end - x,
{
    if x >= st.regs[r].fields.end {
        acc
    } else {
        spec_field_entries(toks, st, b, r, x + 1, acc.push(spec_entry(toks, st, b, r, Some(x))))
    }
}

pub open spec fn spec_reg_entries(toks: Seq<Tok>, st: SParts, b: int, r: int, acc: Seq<SingularEntryV>) -> Seq<
    SingularEntryV,
>
    decreases st.blocks[b].regs.end - r,
{
    if r >= st.blocks[b].regs.end {
        acc
    } else {
        let g = st.regs[r];
        let acc2 = if g.fields.start >= g.fields.end {
            acc.push(spec_entry(toks, st, b, r, None))
        } else {
            spec_field_entries(toks, st, b, r, g.fields.start as int, acc)
        };
        spec_reg_entries(toks, st, b, r + 1, acc2)
    }
}

pub open spec fn spec_block_entries(toks: Seq<Tok>, st: SParts, b: int, acc: Seq<SingularEntryV>) -> Seq<
    SingularEntryV,
>
    decreases st.blocks.len() - b,
{
    if b >= st.blocks.len() {
        acc
    } else {
        spec_block_entries(
            toks,
            st,
            b + 1,
            spec_reg_entries(toks, st, b, st.blocks[b].regs.start as int, acc),
        )
    }
}

pub open spec fn entries_view(v: Seq<SingularEntry>) -> Seq<SingularEntryV> {
    v.map_values(|e: SingularEntry| entry_view(e))
}

fn join(a: &String, sep: &str, b: &String) -> (r: String)
    ensures
        r@ == a@ + sep@ + b@,
{
    let r = a.clone();
    let r = r.concat(sep);
    r.concat(b.as_str())
}

fn entry_exec(toks: &Vec<Tok>, parts: &SingularParts, b: usize, r: usize, field: Option<usize>) -> (res: SingularEntry)
    requires
        b < parts@.blocks.len(),
        r < parts@.regs.len(),
        field matches Some(x) ==> x < parts@.fields.len(),
    ensures
        entry_view(res) == spec_entry(
            toks@,
            parts@,
            b as int,
            r as int,
            match field {
                Some(x) => Some(x as int),
                None => None,
            },
        ),
{
    let block_snk = to_snake_inflector(ident_string(toks, parts.blocks[b].ident).as_str());
    let reg_snk = to_snake_inflector(ident_string(toks, parts.regs[r].ident).as_str());
    let reg_snake = join(&block_snk, "_", &reg_snk);
    let (snake, field_type, field_ident) = match field {
        Some(x) => {
            let name = ident_string(toks, parts.fields[x].ident);
            let fsnk = to_snake_inflector(name.as_str());
            (
                join(&reg_snake, "_", &fsnk),
                Some(to_pascal_inflector(name.as_str())),
                Some(unkeywordize_exec(&fsnk)),
            )
        },
        None => (reg_snake.clone(), None, None),
    };
    SingularEntry {
        block: b,
        reg: r,
        field,
        snake,
        reg_snake,
        block_module: unkeywordize_exec(&block_snk),
        reg_module: unkeywordize_exec(&reg_snk),
        field_type,
        field_ident,
    }
}

fn push_entry(out: &mut Vec<SingularEntry>, e: SingularEntry)
    ensures
        entries_view(final(out)@) == entries_view(old(out)@).push(entry_view(e)),
{
    let ghost before = entries_view(out@);
    let ghost ev = entry_view(e);
    out.push(e);
    assert(entries_view(out@) =~= before.push(ev));
}

/// What `periph_singular!` expands to: the input, and the fields of the
/// peripheral structure in the order of the input.
#[derive(Debug)]
pub struct SingularPlan {
    pub input: SingularInput,
    pub entries: Vec<SingularEntry>,
}

pub open spec fn spec_periph_singular(toks: Seq<Tok>) -> Result<(SingularInputV, Seq<SingularEntryV>), MacroError> {
    match spec_singular_input(toks) {
        Err(e) => Err(e),
        Ok(inp) => Ok((inp, spec_block_entries(toks, inp.parts, 0, Seq::empty()))),
    }
}

/// The fields of the peripheral structure for the blocks of `parts`, in
/// their order.
#[verifier::loop_isolation(false)]
pub fn singular_entries(toks: &Vec<Tok>, parts: &SingularParts) -> (r: Vec<SingularEntry>)
    requires
        sparts_wf(parts@, toks@.len() as int),
    ensures
        entries_view(r@) == spec_block_entries(toks@, parts@, 0, Seq::empty()),
{
    let ghost st = parts@;
    let mut out: Vec<SingularEntry> = Vec::new();
    assert(entries_view(out@) =~= Seq::<SingularEntryV>::empty());
    let mut b: usize = 0;
    while b < parts.blocks.len()
        invariant
            st == parts@,
            b <= st.blocks.len(),
            spec_block_entries(toks@, st, 0, Seq::empty()) == spec_block_entries(
                toks@,
                st,
                b as int,
                entries_view(out@),
            ),
        decreases st.blocks.len() - b,
    {
        let blk = parts.blocks[b];
        let mut r = blk.regs.start;
        while r < blk.regs.end
            invariant
                blk == st.blocks[b as int],
                blk.regs.start <= r <= blk.regs.end <= st.regs.len(),
                spec_block_entries(toks@, st, 0, Seq::empty()) == spec_block_entries(
                    toks@,
                    st,
                    b + 1,
                    spec_reg_entries(toks@, st, b as int, r as int, entries_view(out@)),
                ),
            decreases blk.regs.end - r,
        {
            let g = parts.regs[r];
            if g.fields.start >= g.fields.end {
                push_entry(&mut out, entry_exec(toks, parts, b, r, None));
            } else {
                let ghost acc0 = entries_view(out@);
                let mut x = g.fields.start;
                while x < g.fields.end
                    invariant
                        g == st.regs[r as int],
                        g.fields.start <= x <= g.fields.end <= st.fields.len(),
                        spec_field_entries(toks@, st, b as int, r as int, g.fields.start as int, acc0)
                            == spec_field_entries(
                            toks@,
                            st,
                            b as int,
                            r as int,
                            x as int,
                            entries_view(out@),
                        ),
                    decreases g.fields.end - x,
                {
                    push_entry(&mut out, entry_exec(toks, parts, b, r, Some(x)));
                    x = x + 1;
                }
            }
            r = r + 1;
        }
        b = b + 1;
    }
    out
}

/// `periph_singular!` on the input `toks`.
pub fn periph_singular(toks: &Vec<Tok>) -> (r: Result<SingularPlan, MacroError>)
    ensures
        r matches Err(e) ==> spec_periph_singular(toks@) == Err::<
            (SingularInputV, Seq<SingularEntryV>),
            MacroError,
        >(e),
        r matches Ok(p) ==> spec_periph_singular(toks@) == Ok::<
            (SingularInputV, Seq<SingularEntryV>),
            MacroError,
        >((singular_input_view(&p.input), entries_view(p.entries@))),
{
    let input = parse_singular_input(toks)?;
    let entries = singular_entries(toks, &input.parts);
    Ok(SingularPlan { input, entries })
}

} // verus!
