//! `reg_map!`: a block of registers, one module for each register with its
//! value type, its token, its field tokens and the accessors of its hold.
//!
//! The input is the block `attrs vis mod Name;`, then the registers, each
//! `attrs Name { address size reset Trait.. ; fields }`, each field
//! `attrs Name { offset width Trait.. }`.

use crate::case::{cat, decimal, decimal_u8, inflector_pascal, inflector_snake, to_pascal_inflector, to_snake_inflector, unkeywordize, unkeywordize_exec};
use crate::idents::{add_names, add_names_exec, distinct_names, has_name, has_name_exec, lemma_add_names};
use crate::token::{Delim, ErrorKind, IntLit, MacroError, Span, Tok, Vis, err, expect_group, expect_ident, expect_punct, expect_word, ident_string, ident_text, int_lit_at, int_lit_value, is_literal_tok, is_punct, literal_text, outer_attrs, parse_vis, peek_punct, spec_expect_group, spec_expect_ident, spec_expect_punct, spec_expect_word, spec_outer_attrs, spec_vis};
use vstd::prelude::*;

verus! {

/// The integer literal at `i`, whose value must fit a `u64`.
pub open spec fn spec_u64_lit(toks: Seq<Tok>, i: int, end: int) -> Result<u64, MacroError> {
    if is_literal_tok(toks, i, end) {
        match int_lit_value(literal_text(toks, i)) {
            Some(v) => if v <= u64::MAX {
                Ok(v as u64)
            } else {
                err(i, ErrorKind::ExpectedIntLit)
            },
            None => err(i, ErrorKind::ExpectedIntLit),
        }
    } else {
        err(i, ErrorKind::ExpectedIntLit)
    }
}

fn u64_lit(toks: &Vec<Tok>, i: usize, end: usize) -> (r: Result<u64, MacroError>)
    ensures
        r == spec_u64_lit(toks@, i as int, end as int),
{
    let lit = i < end && i < toks.len() && matches!(toks[i], Tok::Literal(_));
    if !lit {
        return Err(MacroError { at: i, kind: ErrorKind::ExpectedIntLit });
    }
    match int_lit_at(toks, i, end) {
        IntLit::Value(v) => Ok(v),
        _ => Err(MacroError { at: i, kind: ErrorKind::ExpectedIntLit }),
    }
}

/// The identifiers from `i` up to the next `;`, and the position after it.
pub open spec fn spec_idents_to_semi(toks: Seq<Tok>, i: int, end: int) -> Result<
    (Seq<usize>, usize),
    MacroError,
>
    decreases end - i,
{
    if is_punct(toks, i, end, ';') {
        Ok((Seq::empty(), (i + 1) as usize))
    } else {
        match spec_expect_ident(toks, i, end) {
            Err(e) => Err(e),
            Ok(_) => if i + 1 <= end {
                match spec_idents_to_semi(toks, i + 1, end) {
                    Err(e) => Err(e),
                    Ok((rest, q)) => Ok((seq![i as usize] + rest, q)),
                }
            } else {
                err(i + 1, ErrorKind::ExpectedIdent)
            },
        }
    }
}

/// The identifiers from `i` up to `end`.
pub open spec fn spec_idents_to_end(toks: Seq<Tok>, i: int, end: int) -> Result<
    Seq<usize>,
    MacroError,
>
    decreases end - i,
{
    if i >= end {
        Ok(Seq::empty())
    } else {
        match spec_expect_ident(toks, i, end) {
            Err(e) => Err(e),
            Ok(_) => match spec_idents_to_end(toks, i + 1, end) {
                Err(e) => Err(e),
                Ok(rest) => Ok(seq![i as usize] + rest),
            },
        }
    }
}

fn idents_to(toks: &Vec<Tok>, i: usize, end: usize, semi: bool) -> (r: Result<
    (Vec<usize>, usize),
    MacroError,
>)
    ensures
        semi ==> (r matches Ok((v, q)) ==> spec_idents_to_semi(toks@, i as int, end as int)
            == Ok::<(Seq<usize>, usize), MacroError>((v@, q))),
        semi ==> (r matches Err(e) ==> spec_idents_to_semi(toks@, i as int, end as int) == Err::<
            (Seq<usize>, usize),
            MacroError,
        >(e)),
        !semi ==> (r matches Ok((v, _)) ==> spec_idents_to_end(toks@, i as int, end as int)
            == Ok::<Seq<usize>, MacroError>(v@)),
        !semi ==> (r matches Err(e) ==> spec_idents_to_end(toks@, i as int, end as int) == Err::<
            Seq<usize>,
            MacroError,
        >(e)),
        r matches Ok((_, q)) ==> i < q <= end || (!semi && q == i),
{
    let mut out: Vec<usize> = Vec::new();
    let mut j = i;
    loop
        invariant
            i <= j,
            j <= end || j == i,
            semi ==> spec_idents_to_semi(toks@, i as int, end as int) == (match spec_idents_to_semi(
                toks@,
                j as int,
                end as int,
            ) {
                Ok((rest, q)) => Ok((out@ + rest, q)),
                Err(e) => Err(e),
            }),
            !semi ==> spec_idents_to_end(toks@, i as int, end as int) == (match spec_idents_to_end(
                toks@,
                j as int,
                end as int,
            ) {
                Ok(rest) => Ok(out@ + rest),
                Err(e) => Err(e),
            }),
        decreases end - j,
    {
        if semi && peek_punct(toks, j, end, ';') {
            assert(out@ + Seq::<usize>::empty() =~= out@);
            return Ok((out, j + 1));
        }
        if !semi && j >= end {
            assert(out@ + Seq::<usize>::empty() =~= out@);
            return Ok((out, j));
        }
        expect_ident(toks, j, end)?;
        let ghost before = out@;
        out.push(j);
        proof {
            if semi {
                match spec_idents_to_semi(toks@, j + 1, end as int) {
                    Ok((rest, q)) => {
                        assert(before + (seq![j as usize] + rest) =~= out@ + rest);
                    },
                    Err(_) => {},
                }
            } else {
                match spec_idents_to_end(toks@, j + 1, end as int) {
                    Ok(rest) => {
                        assert(before + (seq![j as usize] + rest) =~= out@ + rest);
                    },
                    Err(_) => {},
                }
            }
        }
        j = j + 1;
    }
}

/// A field: `attrs Name { offset width Trait.. }`.
#[derive(Debug)]
pub struct MapField {
    pub attrs: Span,
    pub ident: usize,
    /// The positions of the offset's and the width's literals.
    pub offset: usize,
    pub width: usize,
    /// The width's value.
    pub width_value: u64,
    pub traits: Vec<usize>,
}

pub struct MapFieldV {
    pub attrs: Span,
    pub ident: usize,
    pub offset: usize,
    pub width: usize,
    pub width_value: u64,
    pub traits: Seq<usize>,
}

pub open spec fn map_field_view(f: MapField) -> MapFieldV {
    MapFieldV {
        attrs: f.attrs,
        ident: f.ident,
        offset: f.offset,
        width: f.width,
        width_value: f.width_value,
        traits: f.traits@,
    }
}

pub open spec fn spec_map_field(toks: Seq<Tok>, i: int, end: int) -> Result<
    (MapFieldV, usize),
    MacroError,
> {
    match spec_outer_attrs(toks, i, end) {
        Err(e) => Err(e),
        Ok(a) => match spec_expect_ident(toks, a as int, end) {
            Err(e) => Err(e),
            Ok(_) => match spec_expect_group(toks, a + 1, end, Delim::Brace) {
                Err(e) => Err(e),
                Ok(c) => match spec_u64_lit(toks, a + 2, c as int) {
                    Err(e) => Err(e),
                    Ok(_) => match spec_u64_lit(toks, a + 3, c as int) {
                        Err(e) => Err(e),
                        Ok(w) => match spec_idents_to_end(toks, a + 4, c as int) {
                            Err(e) => Err(e),
                            Ok(traits) => Ok(
                                (
                                    MapFieldV {
                                        attrs: Span { start: i as usize, end: a },
                                        ident: a,
                                        offset: (a + 2) as usize,
                                        width: (a + 3) as usize,
                                        width_value: w,
                                        traits,
                                    },
                                    (c + 1) as usize,
                                ),
                            ),
                        },
                    },
                },
            },
        },
    }
}

fn parse_map_field(toks: &Vec<Tok>, i: usize, end: usize) -> (r: Result<(MapField, usize), MacroError>)
    ensures
        r matches Ok((f, n)) ==> spec_map_field(toks@, i as int, end as int) == Ok::<
            (MapFieldV, usize),
            MacroError,
        >((map_field_view(f), n)) && i < n <= end,
        r matches Err(e) ==> spec_map_field(toks@, i as int, end as int) == Err::<
            (MapFieldV, usize),
            MacroError,
        >(e),
{
    let a = outer_attrs(toks, i, end)?;
    expect_ident(toks, a, end)?;
    let c = expect_group(toks, a + 1, end, Delim::Brace)?;
    u64_lit(toks, a + 2, c)?;
    let w = u64_lit(toks, a + 3, c)?;
    let (traits, _) = idents_to(toks, a + 4, c, false)?;
    Ok(
        (
            MapField {
                attrs: Span { start: i, end: a },
                ident: a,
                offset: a + 2,
                width: a + 3,
                width_value: w,
                traits,
            },
            c + 1,
        ),
    )
}

/// The fields in `[i, end)`.
pub open spec fn spec_map_fields(toks: Seq<Tok>, i: int, end: int) -> Result<
    Seq<MapFieldV>,
    MacroError,
>
    decreases end - i,
{
    if i >= end {
        Ok(Seq::empty())
    } else {
        match spec_map_field(toks, i, end) {
            Err(e) => Err(e),
            Ok((f, q)) => if q > i && q <= end {
                match spec_map_fields(toks, q as int, end) {
                    Err(e) => Err(e),
                    Ok(rest) => Ok(seq![f] + rest),
                }
            } else {
                Ok(seq![f])
            },
        }
    }
}

pub open spec fn map_fields_view(fs: Seq<MapField>) -> Seq<MapFieldV> {
    fs.map_values(|f: MapField| map_field_view(f))
}

fn parse_map_fields(toks: &Vec<Tok>, i: usize, end: usize) -> (r: Result<Vec<MapField>, MacroError>)
    ensures
        r matches Ok(v) ==> spec_map_fields(toks@, i as int, end as int) == Ok::<
            Seq<MapFieldV>,
            MacroError,
        >(map_fields_view(v@)),
        r matches Err(e) ==> spec_map_fields(toks@, i as int, end as int) == Err::<
            Seq<MapFieldV>,
            MacroError,
        >(e),
{
    let mut out: Vec<MapField> = Vec::new();
    let mut j = i;
    while j < end
        invariant
            i <= j,
            spec_map_fields(toks@, i as int, end as int) == (match spec_map_fields(
                toks@,
                j as int,
                end as int,
            ) {
                Ok(rest) => Ok(map_fields_view(out@) + rest),
                Err(e) => Err(e),
            }),
        decreases end - j,
    {
        let ghost before = map_fields_view(out@);
        let (f, n) = parse_map_field(toks, j, end)?;
        let ghost fv = map_field_view(f);
        out.push(f);
        proof {
            assert(map_fields_view(out@) =~= before.push(fv));
            match spec_map_fields(toks@, n as int, end as int) {
                Ok(rest) => {
                    assert(before + (seq![fv] + rest) =~= map_fields_view(out@) + rest);
                },
                Err(_) => {},
            }
        }
        j = n;
    }
    assert(map_fields_view(out@) + Seq::<MapFieldV>::empty() =~= map_fields_view(out@));
    Ok(out)
}

/// A register: `attrs Name { address size reset Trait.. ; fields }`.
#[derive(Debug)]
pub struct MapReg {
    pub attrs: Span,
    pub ident: usize,
    /// The positions of the address's and the reset value's literals.
    pub address: usize,
    pub reset: usize,
    /// The size in bits, the literal's value taken modulo 256.
    pub size: u8,
    pub traits: Vec<usize>,
    pub fields: Vec<MapField>,
}

pub struct MapRegV {
    pub attrs: Span,
    pub ident: usize,
    pub address: usize,
    pub reset: usize,
    pub size: u8,
    pub traits: Seq<usize>,
    pub fields: Seq<MapFieldV>,
}

pub open spec fn map_reg_view(r: MapReg) -> MapRegV {
    MapRegV {
        attrs: r.attrs,
        ident: r.ident,
        address: r.address,
        reset: r.reset,
        size: r.size,
        traits: r.traits@,
        fields: map_fields_view(r.fields@),
    }
}

pub open spec fn spec_map_reg(toks: Seq<Tok>, i: int, end: int) -> Result<
    (MapRegV, usize),
    MacroError,
> {
    match spec_outer_attrs(toks, i, end) {
        Err(e) => Err(e),
        Ok(a) => match spec_expect_ident(toks, a as int, end) {
            Err(e) => Err(e),
            Ok(_) => match spec_expect_group(toks, a + 1, end, Delim::Brace) {
                Err(e) => Err(e),
                Ok(c) => match spec_u64_lit(toks, a + 2, c as int) {
                    Err(e) => Err(e),
                    Ok(_) => match spec_u64_lit(toks, a + 3, c as int) {
                        Err(e) => Err(e),
                        Ok(size) => match spec_u64_lit(toks, a + 4, c as int) {
                            Err(e) => Err(e),
                            Ok(_) => match spec_idents_to_semi(toks, a + 5, c as int) {
                                Err(e) => Err(e),
                                Ok((traits, q)) => match spec_map_fields(toks, q as int, c as int) {
                                    Err(e) => Err(e),
                                    Ok(fields) => Ok(
                                        (
                                            MapRegV {
                                                attrs: Span { start: i as usize, end: a },
                                                ident: a,
                                                address: (a + 2) as usize,
                                                reset: (a + 4) as usize,
                                                size: (size % 256) as u8,
                                                traits,
                                                fields,
                                            },
                                            (c + 1) as usize,
                                        ),
                                    ),
                                },
                            },
                        },
                    },
                },
            },
        },
    }
}

fn parse_map_reg(toks: &Vec<Tok>, i: usize, end: usize) -> (r: Result<(MapReg, usize), MacroError>)
    ensures
        r matches Ok((g, n)) ==> spec_map_reg(toks@, i as int, end as int) == Ok::<
            (MapRegV, usize),
            MacroError,
        >((map_reg_view(g), n)) && i < n <= end,
        r matches Err(e) ==> spec_map_reg(toks@, i as int, end as int) == Err::<
            (MapRegV, usize),
            MacroError,
        >(e),
{
    let a = outer_attrs(toks, i, end)?;
    expect_ident(toks, a, end)?;
    let c = expect_group(toks, a + 1, end, Delim::Brace)?;
    u64_lit(toks, a + 2, c)?;
    let size = u64_lit(toks, a + 3, c)?;
    u64_lit(toks, a + 4, c)?;
    let (traits, q) = idents_to(toks, a + 5, c, true)?;
    let fields = parse_map_fields(toks, q, c)?;
    Ok(
        (
            MapReg {
                attrs: Span { start: i, end: a },
                ident: a,
                address: a + 2,
                reset: a + 4,
                size: (size % 256) as u8,
                traits,
                fields,
            },
            c + 1,
        ),
    )
}

/// The input of `reg_map!`.
#[derive(Debug)]
pub struct RegMapInput {
    /// The block: `attrs vis mod Name;`.
    pub attrs: Span,
    pub vis: Vis,
    pub ident: usize,
    pub regs: Vec<MapReg>,
}

pub struct RegMapInputV {
    pub attrs: Span,
    pub vis: Vis,
    pub ident: usize,
    pub regs: Seq<MapRegV>,
}

pub open spec fn map_input_view(i: RegMapInput) -> RegMapInputV {
    RegMapInputV {
        attrs: i.attrs,
        vis: i.vis,
        ident: i.ident,
        regs: i.regs@.map_values(|r: MapReg| map_reg_view(r)),
    }
}

/// The registers in `[i, end)`.
pub open spec fn spec_map_regs(toks: Seq<Tok>, i: int, end: int) -> Result<
    Seq<MapRegV>,
    MacroError,
>
    decreases end - i,
{
    if i >= end {
        Ok(Seq::empty())
    } else {
        match spec_map_reg(toks, i, end) {
            Err(e) => Err(e),
            Ok((g, q)) => if q > i && q <= end {
                match spec_map_regs(toks, q as int, end) {
                    Err(e) => Err(e),
                    Ok(rest) => Ok(seq![g] + rest),
                }
            } else {
                Ok(seq![g])
            },
        }
    }
}

pub open spec fn spec_reg_map_input(toks: Seq<Tok>) -> Result<RegMapInputV, MacroError> {
    let end = toks.len() as int;
    match spec_outer_attrs(toks, 0, end) {
        Err(e) => Err(e),
        Ok(a) => {
            let v = spec_vis(toks, a as int, end);
            match spec_expect_word(toks, v.span.end as int, end, "mod") {
                Err(e) => Err(e),
                Ok(m) => match spec_expect_ident(toks, m as int, end) {
                    Err(e) => Err(e),
                    Ok(_) => match spec_expect_punct(toks, m + 1, end, ';') {
                        Err(e) => Err(e),
                        Ok(q) => match spec_map_regs(toks, q as int, end) {
                            Err(e) => Err(e),
                            Ok(regs) => Ok(
                                RegMapInputV { attrs: Span { start: 0, end: a }, vis: v, ident: m, regs },
                            ),
                        },
                    },
                },
            }
        },
    }
}

#[verifier::loop_isolation(false)]
pub fn parse_reg_map_input(toks: &Vec<Tok>) -> (r: Result<RegMapInput, MacroError>)
    ensures
        r matches Ok(v) ==> spec_reg_map_input(toks@) == Ok::<RegMapInputV, MacroError>(
            map_input_view(v),
        ),
        r matches Err(e) ==> spec_reg_map_input(toks@) == Err::<RegMapInputV, MacroError>(e),
{
    let end = toks.len();
    let a = outer_attrs(toks, 0, end)?;
    let v = parse_vis(toks, a, end);
    let m = expect_word(toks, v.span.end, end, "mod")?;
    expect_ident(toks, m, end)?;
    let q = expect_punct(toks, m + 1, end, ';')?;
    let mut regs: Vec<MapReg> = Vec::new();
    let mut j = q;
    while j < end
        invariant
            end == toks@.len(),
            q <= j,
            spec_map_regs(toks@, q as int, end as int) == (match spec_map_regs(
                toks@,
                j as int,
                end as int,
            ) {
                Ok(rest) => Ok(regs@.map_values(|r: MapReg| map_reg_view(r)) + rest),
                Err(e) => Err(e),
            }),
        decreases end - j,
    {
        let ghost before = regs@.map_values(|r: MapReg| map_reg_view(r));
        let (g, n) = parse_map_reg(toks, j, end)?;
        let ghost gv = map_reg_view(g);
        regs.push(g);
        proof {
            assert(regs@.map_values(|r: MapReg| map_reg_view(r)) =~= before.push(gv));
            match spec_map_regs(toks@, n as int, end as int) {
                Ok(rest) => {
                    assert(before + (seq![gv] + rest) =~= regs@.map_values(
                        |r: MapReg| map_reg_view(r),
                    ) + rest);
                },
                Err(_) => {},
            }
        }
        j = n;
    }
    assert(regs@.map_values(|r: MapReg| map_reg_view(r)) + Seq::<MapRegV>::empty() =~= regs@.map_values(
        |r: MapReg| map_reg_view(r),
    ));
    Ok(RegMapInput { attrs: Span { start: 0, end: a }, vis: v, ident: m, regs })
}

// ---------------------------------------------------------------------------
// The expansion

/// What a field expands to.
#[derive(Debug)]
pub struct MapFieldPlan {
    /// The field's token type: its name in Pascal case.
    pub ty: String,
    /// The field in the register's token: its name in snake case, made a
    /// valid identifier.
    pub ident: String,
    /// The field is one bit wide.
    pub bit: bool,
    /// The hold reads the field (the field implements `RRRegField`).
    pub read: bool,
    /// The hold writes the field (the field implements `WWRegField`).
    pub write: bool,
    /// The writers' names: `set_`, `clear_`, `toggle_` for a bit, `write_`
    /// for wider fields, followed by the name in snake case.
    pub set_name: String,
    pub clear_name: String,
    pub toggle_name: String,
    pub write_name: String,
}

pub struct MapFieldPlanV {
    pub ty: Seq<char>,
    pub ident: Seq<char>,
    pub bit: bool,
    pub read: bool,
    pub write: bool,
    pub set_name: Seq<char>,
    pub clear_name: Seq<char>,
    pub toggle_name: Seq<char>,
    pub write_name: Seq<char>,
}

pub open spec fn map_field_plan_view(p: MapFieldPlan) -> MapFieldPlanV {
    MapFieldPlanV {
        ty: p.ty@,
        ident: p.ident@,
        bit: p.bit,
        read: p.read,
        write: p.write,
        set_name: p.set_name@,
        clear_name: p.clear_name@,
        toggle_name: p.toggle_name@,
        write_name: p.write_name@,
    }
}

pub open spec fn map_field_plan(toks: Seq<Tok>, f: MapFieldV) -> MapFieldPlanV {
    let name = ident_text(toks, f.ident as int);
    let snk = inflector_snake(name);
    MapFieldPlanV {
        ty: inflector_pascal(name),
        ident: unkeywordize(snk),
        bit: f.width_value == 1,
        read: has_name(toks, f.traits, "RRRegField"@),
        write: has_name(toks, f.traits, "WWRegField"@),
        set_name: "set_"@ + snk,
        clear_name: "clear_"@ + snk,
        toggle_name: "toggle_"@ + snk,
        write_name: "write_"@ + snk,
    }
}

/// The accessors of a field are named after it: the reader is the field's
/// name in snake case (kept clear of keywords), and each writer is its
/// operation, `_`, and that name: `set_`, `clear_`, `toggle_` for a one-bit
/// field, `write_` for a wider one; a field is one bit wide exactly when
/// its width is one.
pub proof fn law_map_field_accessor_names(toks: Seq<Tok>, f: MapFieldV)
    ensures
        ({
            let p = map_field_plan(toks, f);
            let snk = inflector_snake(ident_text(toks, f.ident as int));
            &&& p.ident == unkeywordize(snk)
            &&& p.set_name == "set_"@ + snk
            &&& p.clear_name == "clear_"@ + snk
            &&& p.toggle_name == "toggle_"@ + snk
            &&& p.write_name == "write_"@ + snk
            &&& p.bit == (f.width_value == 1)
        }),
{
}

/// The traits a register's module imports: the register's and its fields',
/// each name once.
pub open spec fn map_imports(toks: Seq<Tok>, acc: Seq<usize>, fs: Seq<MapFieldV>) -> Seq<usize>
    decreases fs.len(),
{
    if fs.len() == 0 {
        acc
    } else {
        map_imports(toks, add_names(toks, acc, fs[0].traits), fs.drop_first())
    }
}

pub open spec fn reg_imports(toks: Seq<Tok>, g: MapRegV) -> Seq<usize> {
    map_imports(toks, add_names(toks, Seq::empty(), g.traits), g.fields)
}

proof fn lemma_has_name_carries(toks: Seq<Tok>, a: Seq<usize>, b: Seq<usize>, name: Seq<char>)
    requires
        has_name(toks, a, name),
        forall|k: int| 0 <= k < a.len() ==> has_name(toks, b, ident_text(toks, #[trigger] a[k] as int)),
    ensures
        has_name(toks, b, name),
{
    let k = choose|k: int| 0 <= k < a.len() && #[trigger] ident_text(toks, a[k] as int) == name;
    assert(has_name(toks, b, ident_text(toks, a[k] as int)));
}

proof fn lemma_map_imports(toks: Seq<Tok>, acc: Seq<usize>, fs: Seq<MapFieldV>)
    requires
        distinct_names(toks, acc),
    ensures
        distinct_names(toks, map_imports(toks, acc, fs)),
        forall|k: int|
            0 <= k < acc.len() ==> has_name(
                toks,
                map_imports(toks, acc, fs),
                ident_text(toks, #[trigger] acc[k] as int),
            ),
        forall|m: int, t: int|
            0 <= m < fs.len() && 0 <= t < fs[m].traits.len() ==> has_name(
                toks,
                map_imports(toks, acc, fs),
                ident_text(toks, #[trigger] fs[m].traits[t] as int),
            ),
    decreases fs.len(),
{
    let res = map_imports(toks, acc, fs);
    if fs.len() == 0 {
        assert forall|k: int| 0 <= k < acc.len() implies has_name(
            toks,
            res,
            ident_text(toks, #[trigger] acc[k] as int),
        ) by {
            assert(ident_text(toks, res[k] as int) == ident_text(toks, acc[k] as int));
        }
    } else {
        let ps = fs[0].traits;
        let acc2 = add_names(toks, acc, ps);
        lemma_add_names(toks, acc, ps);
        lemma_map_imports(toks, acc2, fs.drop_first());
        assert(res == map_imports(toks, acc2, fs.drop_first()));
        assert forall|k: int| 0 <= k < acc.len() implies has_name(
            toks,
            res,
            ident_text(toks, #[trigger] acc[k] as int),
        ) by {
            assert((acc + ps)[k] == acc[k]);
            lemma_has_name_carries(toks, acc2, res, ident_text(toks, acc[k] as int));
        }
        assert forall|m: int, t: int| 0 <= m < fs.len() && 0 <= t < fs[m].traits.len() implies has_name(
            toks,
            res,
            ident_text(toks, #[trigger] fs[m].traits[t] as int),
        ) by {
            if m == 0 {
                assert((acc + ps)[acc.len() + t] == ps[t]);
                lemma_has_name_carries(toks, acc2, res, ident_text(toks, ps[t] as int));
            } else {
                assert(fs.drop_first()[m - 1] == fs[m]);
            }
        }
    }
}

/// The traits that a register's module imports are named once each, and
/// every trait that the register or one of its fields names is among them.
pub proof fn law_map_imports_distinct_and_complete(toks: Seq<Tok>, g: MapRegV)
    ensures
        distinct_names(toks, reg_imports(toks, g)),
        forall|t: int|
            0 <= t < g.traits.len() ==> has_name(
                toks,
                reg_imports(toks, g),
                ident_text(toks, #[trigger] g.traits[t] as int),
            ),
        forall|m: int, t: int|
            0 <= m < g.fields.len() && 0 <= t < g.fields[m].traits.len() ==> has_name(
                toks,
                reg_imports(toks, g),
                ident_text(toks, #[trigger] g.fields[m].traits[t] as int),
            ),
{
    let e = Seq::<usize>::empty();
    let acc = add_names(toks, e, g.traits);
    lemma_add_names(toks, e, g.traits);
    lemma_map_imports(toks, acc, g.fields);
    assert forall|t: int| 0 <= t < g.traits.len() implies has_name(
        toks,
        reg_imports(toks, g),
        ident_text(toks, #[trigger] g.traits[t] as int),
    ) by {
        assert((e + g.traits)[t] == g.traits[t]);
        lemma_has_name_carries(toks, acc, reg_imports(toks, g), ident_text(toks, g.traits[t] as int));
    }
}

/// What a register expands to.
#[derive(Debug)]
pub struct MapRegPlan {
    /// The register's module: its name in snake case, made a valid
    /// identifier.
    pub module: String,
    /// The register's token type: its name in Pascal case.
    pub ty: String,
    /// The alias outside the block: the block's name in Pascal case, then
    /// the register's.
    pub alias: String,
    /// The value type: `u` and the size.
    pub val_ty: String,
    pub imports: Vec<usize>,
    pub fields: Vec<MapFieldPlan>,
}

pub struct MapRegPlanV {
    pub module: Seq<char>,
    pub ty: Seq<char>,
    pub alias: Seq<char>,
    pub val_ty: Seq<char>,
    pub imports: Seq<usize>,
    pub fields: Seq<MapFieldPlanV>,
}

pub open spec fn map_reg_plan_view(p: MapRegPlan) -> MapRegPlanV {
    MapRegPlanV {
        module: p.module@,
        ty: p.ty@,
        alias: p.alias@,
        val_ty: p.val_ty@,
        imports: p.imports@,
        fields: p.fields@.map_values(|f: MapFieldPlan| map_field_plan_view(f)),
    }
}

pub open spec fn map_reg_plan(toks: Seq<Tok>, block: usize, g: MapRegV) -> MapRegPlanV {
    let name = ident_text(toks, g.ident as int);
    MapRegPlanV {
        module: unkeywordize(inflector_snake(name)),
        ty: inflector_pascal(name),
        alias: inflector_pascal(ident_text(toks, block as int)) + inflector_pascal(name),
        val_ty: "u"@ + decimal(g.size as nat),
        imports: reg_imports(toks, g),
        fields: g.fields.map_values(|f: MapFieldV| map_field_plan(toks, f)),
    }
}

fn plan_map_field(toks: &Vec<Tok>, f: &MapField) -> (r: MapFieldPlan)
    ensures
        map_field_plan_view(r) == map_field_plan(toks@, map_field_view(*f)),
{
    let name = ident_string(toks, f.ident);
    let snk = to_snake_inflector(name.as_str());
    MapFieldPlan {
        ty: to_pascal_inflector(name.as_str()),
        ident: unkeywordize_exec(&snk),
        bit: f.width_value == 1,
        read: has_name_exec(toks, &f.traits, "RRRegField"),
        write: has_name_exec(toks, &f.traits, "WWRegField"),
        set_name: cat("set_", snk.as_str()),
        clear_name: cat("clear_", snk.as_str()),
        toggle_name: cat("toggle_", snk.as_str()),
        write_name: cat("write_", snk.as_str()),
    }
}

fn plan_map_reg(toks: &Vec<Tok>, block: usize, g: &MapReg) -> (r: MapRegPlan)
    ensures
        map_reg_plan_view(r) == map_reg_plan(toks@, block, map_reg_view(*g)),
{
    let name = ident_string(toks, g.ident);
    let ty = to_pascal_inflector(name.as_str());
    let prefix = to_pascal_inflector(ident_string(toks, block).as_str());
    let module = unkeywordize_exec(&to_snake_inflector(name.as_str()));
    let alias = cat(prefix.as_str(), ty.as_str());
    let val_ty = cat("u", decimal_u8(g.size).as_str());
    let mut imports: Vec<usize> = Vec::new();
    add_names_exec(toks, &mut imports, &g.traits);
    let ghost fs = map_fields_view(g.fields@);
    let mut fields: Vec<MapFieldPlan> = Vec::new();
    let mut k: usize = 0;
    assert(fs.skip(0) =~= fs);
    while k < g.fields.len()
        invariant
            k <= g.fields@.len(),
            fs == map_fields_view(g.fields@),
            reg_imports(toks@, map_reg_view(*g)) == map_imports(toks@, imports@, fs.skip(k as int)),
            fields@.map_values(|f: MapFieldPlan| map_field_plan_view(f)) == fs.take(
                k as int,
            ).map_values(|f: MapFieldV| map_field_plan(toks@, f)),
        decreases g.fields@.len() - k,
    {
        let f = &g.fields[k];
        add_names_exec(toks, &mut imports, &f.traits);
        let ghost before = fields@.map_values(|f: MapFieldPlan| map_field_plan_view(f));
        let fp = plan_map_field(toks, f);
        let ghost pv = map_field_plan_view(fp);
        fields.push(fp);
        proof {
            assert(fields@.map_values(|f: MapFieldPlan| map_field_plan_view(f)) =~= before.push(pv));
            assert(fs[k as int] == map_field_view(*f));
            assert(fs.skip(k as int)[0] == map_field_view(*f));
            assert(fs.skip(k as int).drop_first() =~= fs.skip(k + 1));
            assert(fs.take(k + 1) =~= fs.take(k as int).push(map_field_view(*f)));
            assert(fs.take(k + 1).map_values(|f: MapFieldV| map_field_plan(toks@, f)) =~= fs.take(
                k as int,
            ).map_values(|f: MapFieldV| map_field_plan(toks@, f)).push(
                map_field_plan(toks@, map_field_view(*f)),
            ));
        }
        k = k + 1;
    }
    assert(fs.take(k as int) =~= fs);
    assert(fs.skip(k as int).len() == 0);
    MapRegPlan { module, ty, alias, val_ty, imports, fields }
}

/// What `reg_map!` expands to: the block's module (its name in snake case,
/// made a valid identifier) and a module for each register.
#[derive(Debug)]
pub struct RegMapPlan {
    pub input: RegMapInput,
    pub module: String,
    pub regs: Vec<MapRegPlan>,
}

/// `reg_map!` on the input `toks`.
pub fn reg_map(toks: &Vec<Tok>) -> (r: Result<RegMapPlan, MacroError>)
    ensures
        r matches Err(e) ==> spec_reg_map_input(toks@) == Err::<RegMapInputV, MacroError>(e),
        r matches Ok(p) ==> {
            &&& spec_reg_map_input(toks@) == Ok::<RegMapInputV, MacroError>(map_input_view(p.input))
            &&& p.module@ == unkeywordize(inflector_snake(ident_text(toks@, p.input.ident as int)))
            &&& p.regs@.map_values(|g: MapRegPlan| map_reg_plan_view(g)) == map_input_view(
                p.input,
            ).regs.map_values(|g: MapRegV| map_reg_plan(toks@, p.input.ident, g))
        },
{
    let input = parse_reg_map_input(toks)?;
    let module = unkeywordize_exec(&to_snake_inflector(ident_string(toks, input.ident).as_str()));
    let ghost gs = map_input_view(input).regs;
    let mut regs: Vec<MapRegPlan> = Vec::new();
    let mut k: usize = 0;
    while k < input.regs.len()
        invariant
            k <= input.regs@.len(),
            gs == map_input_view(input).regs,
            regs@.map_values(|g: MapRegPlan| map_reg_plan_view(g)) == gs.take(k as int).map_values(
                |g: MapRegV| map_reg_plan(toks@, input.ident, g),
            ),
        decreases input.regs@.len() - k,
    {
        let gp = plan_map_reg(toks, input.ident, &input.regs[k]);
        let ghost before = regs@.map_values(|g: MapRegPlan| map_reg_plan_view(g));
        let ghost pv = map_reg_plan_view(gp);
        regs.push(gp);
        proof {
            assert(regs@.map_values(|g: MapRegPlan| map_reg_plan_view(g)) =~= before.push(pv));
            assert(gs[k as int] == map_reg_view(input.regs@[k as int]));
            assert(gs.take(k + 1) =~= gs.take(k as int).push(gs[k as int]));
            assert(gs.take(k + 1).map_values(|g: MapRegV| map_reg_plan(toks@, input.ident, g))
                =~= gs.take(k as int).map_values(|g: MapRegV| map_reg_plan(toks@, input.ident, g)).push(
                map_reg_plan(toks@, input.ident, gs[k as int]),
            ));
        }
        k = k + 1;
    }
    assert(gs.take(k as int) =~= gs);
    Ok(RegMapPlan { input, module, regs })
}

} // verus!
