//! `reg_mappings!`: a block module of register mappings, in the form where
//! the block names itself first and each register lists its traits before
//! a `;`.
//!
//! The input is the block's inner attributes `#![..]`, its name and `;`,
//! then the registers: `#[..] Name { address bits reset Trait.. ; Field {
//! offset width Trait.. } .. }`. All numbers are unsuffixed integer
//! literals; a register needs at least one field. A field's hold reads it
//! where it implements `RRRegField` and writes it where it implements
//! `WWRegField`.

use crate::case::{inflector_pascal, inflector_snake, to_pascal_inflector, to_snake_inflector};
use crate::mappings::{
    AFTER_FIELD_NAME, AFTER_POUND, AFTER_POUND_BANG, AFTER_REG_NAME, INVALID_TOKEN, MField,
    MFieldV, MReg, MRegPlan, MRegPlanV, MRegV, NO_FIELDS, REG_NUMBER, TraitRef, UNEXPECTED_END,
    find_group, group_at, mfield_view, mfields_view, mreg_plan_view, mreg_view, parse_mfield,
    plan_mreg, reg_plan_by, spec_mfield, traits_view, unsuffixed_u64, unsuffixed_u64_exec,
};
use crate::token::{
    Delim, ErrorKind, MacroError, Span, Tok, close_of, err, find_close, ident_string, ident_text,
    is_ident_tok, is_open, is_punct, peek_ident, peek_open, peek_punct,
};
use vstd::prelude::*;

verus! {

/// The message of a token after the block's name other than `;`, which
/// the message quotes.
pub const AFTER_OWN_NAME: &'static str = "Invalid token after";

/// The message of a token among a register's traits that is neither a name
/// nor `;`.
pub const AFTER_REG_TRAITS: &'static str = "Invalid tokens after the register's traits";

/// The block's attributes and name, from `i` on: the name must be followed
/// by `;`.
pub open spec fn spec_own_name(toks: Seq<Tok>, i: int, end: int, attrs: Seq<Span>) -> Result<
    (Seq<Span>, usize),
    MacroError,
>
    decreases end - i,
{
    if i >= end || i < 0 {
        err(end, ErrorKind::Invalid(UNEXPECTED_END))
    } else if is_punct(toks, i, end, '#') {
        if is_punct(toks, i + 1, end, '!') {
            match group_at(toks, i + 2, end) {
                Some(c) => if c + 1 > i && c + 1 <= end {
                    spec_own_name(
                        toks,
                        c + 1,
                        end,
                        attrs.push(Span { start: (i + 2) as usize, end: (c + 1) as usize }),
                    )
                } else {
                    err(i + 2, ErrorKind::Invalid(AFTER_POUND_BANG))
                },
                None => err(i + 2, ErrorKind::Invalid(AFTER_POUND_BANG)),
            }
        } else {
            err(i + 1, ErrorKind::Invalid(AFTER_POUND))
        }
    } else if is_ident_tok(toks, i, end) {
        if is_punct(toks, i + 1, end, ';') {
            Ok((attrs, i as usize))
        } else {
            err(i + 1, ErrorKind::InvalidAfter(AFTER_OWN_NAME, Span { start: i as usize, end: (i + 1) as usize }))
        }
    } else {
        err(i, ErrorKind::Invalid(INVALID_TOKEN))
    }
}

/// The traits of a register from `i` up to `;`, added to `acc`, and the
/// position after the `;`.
pub open spec fn spec_rm_traits(
    toks: Seq<Tok>,
    i: int,
    end: int,
    acc: Seq<(Seq<Span>, usize)>,
) -> Result<(Seq<(Seq<Span>, usize)>, usize), MacroError>
    decreases end - i,
{
    if i >= end || i < 0 {
        err(end, ErrorKind::Invalid(AFTER_REG_TRAITS))
    } else if is_ident_tok(toks, i, end) {
        spec_rm_traits(toks, i + 1, end, acc.push((Seq::empty(), i as usize)))
    } else if is_punct(toks, i, end, ';') {
        Ok((acc, (i + 1) as usize))
    } else {
        err(i, ErrorKind::Invalid(AFTER_REG_TRAITS))
    }
}

/// The fields of a register from `i` on, given the attributes read before
/// `i` and the fields read before.
pub open spec fn spec_rm_fields(
    toks: Seq<Tok>,
    i: int,
    end: int,
    pending: Seq<Span>,
    acc: Seq<MFieldV>,
) -> Result<Seq<MFieldV>, MacroError>
    decreases end - i,
{
    if i >= end || i < 0 {
        if acc.len() == 0 {
            err(end, ErrorKind::Invalid(NO_FIELDS))
        } else {
            Ok(acc)
        }
    } else if is_punct(toks, i, end, '#') {
        match group_at(toks, i + 1, end) {
            Some(c) => if c + 1 > i && c + 1 <= end {
                spec_rm_fields(
                    toks,
                    c + 1,
                    end,
                    pending.push(Span { start: (i + 1) as usize, end: (c + 1) as usize }),
                    acc,
                )
            } else {
                err(i + 1, ErrorKind::Invalid(AFTER_POUND))
            },
            None => err(i + 1, ErrorKind::Invalid(AFTER_POUND)),
        }
    } else if is_ident_tok(toks, i, end) {
        if is_open(toks, i + 1, end, Delim::Brace) {
            match close_of(toks, i + 1, end) {
                Some(c) => if c + 1 > i && c + 1 <= end {
                    match spec_mfield(toks, pending, i as usize, i + 2, c) {
                        Err(e) => Err(e),
                        Ok(f) => spec_rm_fields(toks, c + 1, end, Seq::empty(), acc.push(f)),
                    }
                } else {
                    err(i + 1, ErrorKind::InvalidAfter(AFTER_FIELD_NAME, Span { start: i as usize, end: (i + 1) as usize }))
                },
                None => err(i + 1, ErrorKind::InvalidAfter(AFTER_FIELD_NAME, Span { start: i as usize, end: (i + 1) as usize })),
            }
        } else {
            err(i + 1, ErrorKind::InvalidAfter(AFTER_FIELD_NAME, Span { start: i as usize, end: (i + 1) as usize }))
        }
    } else {
        err(i, ErrorKind::Invalid(INVALID_TOKEN))
    }
}

/// The register `name` with the attributes `attrs`, whose block holds
/// `[s, e)`: its address, bit size and reset value, its traits, its fields.
pub open spec fn spec_rm_reg(toks: Seq<Tok>, attrs: Seq<Span>, name: usize, s: int, e: int) -> Result<
    MRegV,
    MacroError,
> {
    match unsuffixed_u64(toks, s, e) {
        None => err(s, ErrorKind::Invalid(REG_NUMBER)),
        Some(address) => match unsuffixed_u64(toks, s + 1, e) {
            None => err(s + 1, ErrorKind::Invalid(REG_NUMBER)),
            Some(raw) => match unsuffixed_u64(toks, s + 2, e) {
                None => err(s + 2, ErrorKind::Invalid(REG_NUMBER)),
                Some(reset) => match spec_rm_traits(toks, s + 3, e, Seq::empty()) {
                    Err(er) => Err(er),
                    Ok((traits, n)) => match spec_rm_fields(
                        toks,
                        n as int,
                        e,
                        Seq::empty(),
                        Seq::empty(),
                    ) {
                        Err(er) => Err(er),
                        Ok(fields) => Ok(
                            MRegV { attrs, ident: name, address, raw, reset, traits, fields },
                        ),
                    },
                },
            },
        },
    }
}

#[verifier::loop_isolation(false)]
fn parse_rm_reg(toks: &Vec<Tok>, attrs: Vec<Span>, name: usize, s: usize, e: usize) -> (r: Result<
    MReg,
    MacroError,
>)
    requires
        e <= toks@.len(),
        s <= e,
    ensures
        r matches Ok(g) ==> spec_rm_reg(toks@, attrs@, name, s as int, e as int) == Ok::<
            MRegV,
            MacroError,
        >(mreg_view(g)),
        r matches Err(er) ==> spec_rm_reg(toks@, attrs@, name, s as int, e as int) == Err::<
            MRegV,
            MacroError,
        >(er),
{
    let address = match unsuffixed_u64_exec(toks, s, e) {
        Some(v) => v,
        None => {
            return Err(MacroError { at: s, kind: ErrorKind::Invalid(REG_NUMBER) });
        },
    };
    let raw = match unsuffixed_u64_exec(toks, s + 1, e) {
        Some(v) => v,
        None => {
            return Err(MacroError { at: s + 1, kind: ErrorKind::Invalid(REG_NUMBER) });
        },
    };
    let reset = match unsuffixed_u64_exec(toks, s + 2, e) {
        Some(v) => v,
        None => {
            return Err(MacroError { at: s + 2, kind: ErrorKind::Invalid(REG_NUMBER) });
        },
    };
    let mut traits: Vec<TraitRef> = Vec::new();
    let mut i = s + 3;
    assert(traits_view(traits@) =~= Seq::<(Seq<Span>, usize)>::empty());
    loop
        invariant
            s + 3 <= i <= e,
            spec_rm_traits(toks@, s + 3, e as int, Seq::empty()) == spec_rm_traits(
                toks@,
                i as int,
                e as int,
                traits_view(traits@),
            ),
        decreases e - i,
    {
        if i >= e {
            return Err(MacroError { at: e, kind: ErrorKind::Invalid(AFTER_REG_TRAITS) });
        }
        if peek_ident(toks, i, e) {
            let ghost before = traits_view(traits@);
            let t = TraitRef { attrs: Vec::new(), ident: i };
            proof {
                assert(t.attrs@ =~= Seq::<Span>::empty());
            }
            traits.push(t);
            assert(traits_view(traits@) =~= before.push((Seq::<Span>::empty(), i)));
            i = i + 1;
        } else if peek_punct(toks, i, e, ';') {
            i = i + 1;
            break ;
        } else {
            return Err(MacroError { at: i, kind: ErrorKind::Invalid(AFTER_REG_TRAITS) });
        }
    }
    let n = i;
    let mut fields: Vec<MField> = Vec::new();
    let mut pending: Vec<Span> = Vec::new();
    assert(mfields_view(fields@) =~= Seq::<MFieldV>::empty());
    assert(pending@ =~= Seq::<Span>::empty());
    while i < e
        invariant
            spec_rm_fields(toks@, n as int, e as int, Seq::empty(), Seq::empty()) == spec_rm_fields(
                toks@,
                i as int,
                e as int,
                pending@,
                mfields_view(fields@),
            ),
        decreases e - i,
    {
        if peek_punct(toks, i, e, '#') {
            match find_group(toks, i + 1, e) {
                Some(c) => {
                    pending.push(Span { start: i + 1, end: c + 1 });
                    i = c + 1;
                },
                None => {
                    return Err(MacroError { at: i + 1, kind: ErrorKind::Invalid(AFTER_POUND) });
                },
            }
        } else if peek_ident(toks, i, e) {
            if !peek_open(toks, i + 1, e, Delim::Brace) {
                return Err(MacroError { at: i + 1, kind: ErrorKind::InvalidAfter(AFTER_FIELD_NAME, Span { start: i, end: i + 1 }) });
            }
            match find_close(toks, i + 1, e) {
                Some(c) => {
                    let f = parse_mfield(toks, pending, i, i + 2, c)?;
                    let ghost before = mfields_view(fields@);
                    let ghost fv = mfield_view(f);
                    fields.push(f);
                    assert(mfields_view(fields@) =~= before.push(fv));
                    pending = Vec::new();
                    assert(pending@ =~= Seq::<Span>::empty());
                    i = c + 1;
                },
                None => {
                    return Err(MacroError { at: i + 1, kind: ErrorKind::InvalidAfter(AFTER_FIELD_NAME, Span { start: i, end: i + 1 }) });
                },
            }
        } else {
            return Err(MacroError { at: i, kind: ErrorKind::Invalid(INVALID_TOKEN) });
        }
    }
    if fields.len() == 0 {
        return Err(MacroError { at: e, kind: ErrorKind::Invalid(NO_FIELDS) });
    }
    Ok(MReg { attrs, ident: name, address, raw, reset, traits, fields })
}

/// The registers from `i` on, given the attributes read before `i`.
pub open spec fn spec_rm_regs(
    toks: Seq<Tok>,
    i: int,
    end: int,
    pending: Seq<Span>,
    acc: Seq<MRegV>,
) -> Result<Seq<MRegV>, MacroError>
    decreases end - i,
{
    if i >= end || i < 0 {
        Ok(acc)
    } else if is_punct(toks, i, end, '#') {
        match group_at(toks, i + 1, end) {
            Some(c) => if c + 1 > i && c + 1 <= end {
                spec_rm_regs(
                    toks,
                    c + 1,
                    end,
                    pending.push(Span { start: (i + 1) as usize, end: (c + 1) as usize }),
                    acc,
                )
            } else {
                err(i + 1, ErrorKind::Invalid(AFTER_POUND))
            },
            None => err(i + 1, ErrorKind::Invalid(AFTER_POUND)),
        }
    } else if is_ident_tok(toks, i, end) {
        if is_open(toks, i + 1, end, Delim::Brace) {
            match close_of(toks, i + 1, end) {
                Some(c) => if c + 1 > i && c + 1 <= end {
                    match spec_rm_reg(toks, pending, i as usize, i + 2, c) {
                        Err(e) => Err(e),
                        Ok(g) => spec_rm_regs(toks, c + 1, end, Seq::empty(), acc.push(g)),
                    }
                } else {
                    err(i + 1, ErrorKind::InvalidAfter(AFTER_REG_NAME, Span { start: i as usize, end: (i + 1) as usize }))
                },
                None => err(i + 1, ErrorKind::InvalidAfter(AFTER_REG_NAME, Span { start: i as usize, end: (i + 1) as usize })),
            }
        } else {
            err(i + 1, ErrorKind::InvalidAfter(AFTER_REG_NAME, Span { start: i as usize, end: (i + 1) as usize }))
        }
    } else {
        err(i, ErrorKind::Invalid(INVALID_TOKEN))
    }
}

/// The input as read: the block's attributes, the position of its name,
/// its registers.
pub struct RegMappingsInputV {
    pub attrs: Seq<Span>,
    pub block: usize,
    pub regs: Seq<MRegV>,
}

pub open spec fn spec_reg_mappings_input(toks: Seq<Tok>) -> Result<RegMappingsInputV, MacroError> {
    let end = toks.len() as int;
    match spec_own_name(toks, 0, end, Seq::empty()) {
        Err(e) => Err(e),
        Ok((attrs, block)) => match spec_rm_regs(toks, block + 2, end, Seq::empty(), Seq::empty()) {
            Err(e) => Err(e),
            Ok(regs) => Ok(RegMappingsInputV { attrs, block, regs }),
        },
    }
}

/// What `reg_mappings!` expands to: the block's attributes and name, its
/// module (snake case) and the prefix of the aliases (Pascal case), the
/// registers as read and a plan for each.
#[derive(Debug)]
pub struct RegMappingsPlan {
    pub attrs: Vec<Span>,
    pub block: usize,
    pub regs: Vec<MReg>,
    pub module: String,
    pub prefix: String,
    pub plans: Vec<MRegPlan>,
}

#[verifier::loop_isolation(false)]
fn parse_own_name(toks: &Vec<Tok>) -> (r: Result<(Vec<Span>, usize), MacroError>)
    ensures
        r matches Ok((a, b)) ==> spec_own_name(toks@, 0, toks@.len() as int, Seq::empty()) == Ok::<
            (Seq<Span>, usize),
            MacroError,
        >((a@, b)) && b + 2 <= toks@.len(),
        r matches Err(e) ==> spec_own_name(toks@, 0, toks@.len() as int, Seq::empty()) == Err::<
            (Seq<Span>, usize),
            MacroError,
        >(e),
{
    let end = toks.len();
    let mut attrs: Vec<Span> = Vec::new();
    let mut i: usize = 0;
    assert(attrs@ =~= Seq::<Span>::empty());
    loop
        invariant
            end == toks@.len(),
            spec_own_name(toks@, 0, end as int, Seq::empty()) == spec_own_name(
                toks@,
                i as int,
                end as int,
                attrs@,
            ),
        decreases end - i,
    {
        if i >= end {
            return Err(MacroError { at: end, kind: ErrorKind::Invalid(UNEXPECTED_END) });
        }
        if peek_punct(toks, i, end, '#') {
            if !peek_punct(toks, i + 1, end, '!') {
                return Err(MacroError { at: i + 1, kind: ErrorKind::Invalid(AFTER_POUND) });
            }
            match find_group(toks, i + 2, end) {
                Some(c) => {
                    attrs.push(Span { start: i + 2, end: c + 1 });
                    i = c + 1;
                },
                None => {
                    return Err(MacroError { at: i + 2, kind: ErrorKind::Invalid(AFTER_POUND_BANG) });
                },
            }
        } else if peek_ident(toks, i, end) {
            if peek_punct(toks, i + 1, end, ';') {
                return Ok((attrs, i));
            }
            return Err(MacroError { at: i + 1, kind: ErrorKind::InvalidAfter(AFTER_OWN_NAME, Span { start: i, end: i + 1 }) });
        } else {
            return Err(MacroError { at: i, kind: ErrorKind::Invalid(INVALID_TOKEN) });
        }
    }
}

/// `reg_mappings!` on the input `toks`.
#[verifier::loop_isolation(false)]
pub fn reg_mappings(toks: &Vec<Tok>) -> (r: Result<RegMappingsPlan, MacroError>)
    ensures
        r matches Err(e) ==> spec_reg_mappings_input(toks@) == Err::<RegMappingsInputV, MacroError>(
            e,
        ),
        r matches Ok(p) ==> {
            &&& spec_reg_mappings_input(toks@) == Ok::<RegMappingsInputV, MacroError>(
                RegMappingsInputV {
                    attrs: p.attrs@,
                    block: p.block,
                    regs: p.regs@.map_values(|g: MReg| mreg_view(g)),
                },
            )
            &&& p.module@ == inflector_snake(ident_text(toks@, p.block as int))
            &&& p.prefix@ == inflector_pascal(ident_text(toks@, p.block as int))
            &&& p.plans@.map_values(|g: MRegPlan| mreg_plan_view(g)) == p.regs@.map_values(
                |g: MReg| mreg_view(g),
            ).map_values(
                |g: MRegV| reg_plan_by(toks@, p.block, g, "RRRegField"@, "WWRegField"@),
            )
        },
{
    let end = toks.len();
    let (attrs, block) = parse_own_name(toks)?;
    let mut regs: Vec<MReg> = Vec::new();
    let mut pending: Vec<Span> = Vec::new();
    let mut j = block + 2;
    assert(regs@.map_values(|g: MReg| mreg_view(g)) =~= Seq::<MRegV>::empty());
    assert(pending@ =~= Seq::<Span>::empty());
    while j < end
        invariant
            end == toks@.len(),
            spec_rm_regs(toks@, block + 2, end as int, Seq::empty(), Seq::empty()) == spec_rm_regs(
                toks@,
                j as int,
                end as int,
                pending@,
                regs@.map_values(|g: MReg| mreg_view(g)),
            ),
        decreases end - j,
    {
        if peek_punct(toks, j, end, '#') {
            match find_group(toks, j + 1, end) {
                Some(c) => {
                    pending.push(Span { start: j + 1, end: c + 1 });
                    j = c + 1;
                },
                None => {
                    return Err(MacroError { at: j + 1, kind: ErrorKind::Invalid(AFTER_POUND) });
                },
            }
        } else if peek_ident(toks, j, end) {
            if !peek_open(toks, j + 1, end, Delim::Brace) {
                return Err(MacroError { at: j + 1, kind: ErrorKind::InvalidAfter(AFTER_REG_NAME, Span { start: j, end: j + 1 }) });
            }
            match find_close(toks, j + 1, end) {
                Some(c) => {
                    let g = parse_rm_reg(toks, pending, j, j + 2, c)?;
                    let ghost before = regs@.map_values(|g: MReg| mreg_view(g));
                    let ghost gv = mreg_view(g);
                    regs.push(g);
                    assert(regs@.map_values(|g: MReg| mreg_view(g)) =~= before.push(gv));
                    pending = Vec::new();
                    assert(pending@ =~= Seq::<Span>::empty());
                    j = c + 1;
                },
                None => {
                    return Err(MacroError { at: j + 1, kind: ErrorKind::InvalidAfter(AFTER_REG_NAME, Span { start: j, end: j + 1 }) });
                },
            }
        } else {
            return Err(MacroError { at: j, kind: ErrorKind::Invalid(INVALID_TOKEN) });
        }
    }
    let block_name = ident_string(toks, block);
    let module = to_snake_inflector(block_name.as_str());
    let prefix = to_pascal_inflector(block_name.as_str());
    let ghost gs = regs@.map_values(|g: MReg| mreg_view(g));
    let mut plans: Vec<MRegPlan> = Vec::new();
    let mut k: usize = 0;
    while k < regs.len()
        invariant
            k <= regs@.len(),
            gs == regs@.map_values(|g: MReg| mreg_view(g)),
            plans@.map_values(|g: MRegPlan| mreg_plan_view(g)) == gs.take(k as int).map_values(
                |g: MRegV| reg_plan_by(toks@, block, g, "RRRegField"@, "WWRegField"@),
            ),
        decreases regs@.len() - k,
    {
        let gp = plan_mreg(toks, block, &regs[k], "RRRegField", "WWRegField");
        let ghost before = plans@.map_values(|g: MRegPlan| mreg_plan_view(g));
        let ghost pv = mreg_plan_view(gp);
        plans.push(gp);
        proof {
            assert(plans@.map_values(|g: MRegPlan| mreg_plan_view(g)) =~= before.push(pv));
            assert(gs[k as int] == mreg_view(regs@[k as int]));
            assert(gs.take(k + 1) =~= gs.take(k as int).push(gs[k as int]));
            assert(gs.take(k + 1).map_values(
                |g: MRegV| reg_plan_by(toks@, block, g, "RRRegField"@, "WWRegField"@),
            ) =~= gs.take(k as int).map_values(
                |g: MRegV| reg_plan_by(toks@, block, g, "RRRegField"@, "WWRegField"@),
            ).push(reg_plan_by(toks@, block, gs[k as int], "RRRegField"@, "WWRegField"@)));
        }
        k = k + 1;
    }
    assert(gs.take(k as int) =~= gs);
    Ok(RegMappingsPlan { attrs, block, regs, module, prefix, plans })
}

} // verus!
