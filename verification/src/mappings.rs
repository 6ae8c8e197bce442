//! `mappings!`: a block module of register mappings, with a module for each
//! register (its value, its token and its hold) and aliases outside the
//! block.
//!
//! The input is the block's inner attributes `#![..]`, its name, then the
//! registers: `#[..] Name { address bits reset Trait.. Field { .. } .. }`.
//! The first identifiers of a register name its traits, up to the first
//! field; the last of them followed by a block is the first field. A field
//! reads `offset width Trait..`. All numbers are unsuffixed integer
//! literals.

use crate::case::{cat, decimal, decimal_u64, inflector_pascal, inflector_snake, to_pascal_inflector,
    to_snake_inflector, unkeywordize, unkeywordize_exec};
use crate::token::{
    Delim, ErrorKind, IntLit, MacroError, Span, Tok, close_of, err, find_close, ident_string,
    ident_text, int_lit_end, int_lit_value, is_ident_tok, is_literal_tok, is_open, is_punct,
    literal_text, peek_ident, peek_open, peek_punct, scan_int_lit,
};
use vstd::prelude::*;

verus! {

/// The unsuffixed integer literal at `i`, whose value must fit a `u64`.
pub open spec fn unsuffixed_u64(toks: Seq<Tok>, i: int, end: int) -> Option<u64> {
    if is_literal_tok(toks, i, end) && int_lit_end(literal_text(toks, i)) == Some(
        literal_text(toks, i).len() as int,
    ) {
        match int_lit_value(literal_text(toks, i)) {
            Some(v) => if v <= u64::MAX {
                Some(v as u64)
            } else {
                None
            },
            None => None,
        }
    } else {
        None
    }
}

pub fn unsuffixed_u64_exec(toks: &Vec<Tok>, i: usize, end: usize) -> (r: Option<u64>)
    ensures
        r == unsuffixed_u64(toks@, i as int, end as int),
{
    if i < end && i < toks.len() {
        match &toks[i] {
            Tok::Literal(text) => {
                let (v, e) = scan_int_lit(text);
                match v {
                    IntLit::Value(v) => if e == text.as_str().unicode_len() {
                        Some(v)
                    } else {
                        None
                    },
                    _ => None,
                }
            },
            _ => None,
        }
    } else {
        None
    }
}

/// A group (of any delimiter) opens at `i`: the position of its close.
pub open spec fn group_at(toks: Seq<Tok>, i: int, end: int) -> Option<int> {
    if 0 <= i < end && i < toks.len() && toks[i] is Open {
        close_of(toks, i, end)
    } else {
        None
    }
}

pub fn find_group(toks: &Vec<Tok>, i: usize, end: usize) -> (r: Option<usize>)
    ensures
        r matches Some(c) ==> group_at(toks@, i as int, end as int) == Some(c as int) && i < c < end,
        r is None ==> group_at(toks@, i as int, end as int) is None,
{
    if i < end && i < toks.len() && matches!(toks[i], Tok::Open(_)) {
        find_close(toks, i, end)
    } else {
        None
    }
}

pub const AFTER_POUND_BANG: &'static str = "Invalid tokens after `#!`";

pub const AFTER_POUND: &'static str = "Invalid tokens after `#`";

pub const INVALID_TOKEN: &'static str = "Invalid token";

pub const UNEXPECTED_END: &'static str = "Unexpected end of macro invokation";

/// The message of a token after a register's name other than its block,
/// which the message quotes.
pub const AFTER_REG_NAME: &'static str = "Invalid tokens after";

pub const REG_NUMBER: &'static str = "Invalid tokens in the register's numbers";

pub const FIELD_NUMBER: &'static str = "Invalid tokens in the field's numbers";

/// The message of a token after a field's name other than its block, which
/// the message quotes.
pub const AFTER_FIELD_NAME: &'static str = "Unexpected token after";

pub const UNEXPECTED_BLOCK: &'static str = "Unexpected block: `{ ... }`";

pub const NO_FIELDS: &'static str = "No fields defined";

/// A trait that a register or a field implements, with its attributes.
#[derive(Debug)]
pub struct TraitRef {
    pub attrs: Vec<Span>,
    pub ident: usize,
}

pub open spec fn trait_view(t: TraitRef) -> (Seq<Span>, usize) {
    (t.attrs@, t.ident)
}

pub open spec fn traits_view(ts: Seq<TraitRef>) -> Seq<(Seq<Span>, usize)> {
    ts.map_values(|t: TraitRef| trait_view(t))
}

/// The traits of a field, from `i` to the end of its block, given the
/// attributes read before `i` and the traits read before.
pub open spec fn spec_field_traits(
    toks: Seq<Tok>,
    i: int,
    end: int,
    pending: Seq<Span>,
    acc: Seq<(Seq<Span>, usize)>,
) -> Result<Seq<(Seq<Span>, usize)>, MacroError>
    decreases end - i,
{
    if i >= end || i < 0 {
        Ok(acc)
    } else if is_punct(toks, i, end, '#') {
        match group_at(toks, i + 1, end) {
            Some(c) => if c + 1 > i && c + 1 <= end {
                spec_field_traits(
                    toks,
                    c + 1,
                    end,
                    pending.push(Span { start: (i + 1) as usize, end: (c + 1) as usize }),
                    acc,
                )
            } else {
                err(i + 1, ErrorKind::Invalid(AFTER_POUND))
            },
            None => err(i + 1, ErrorKind::Invalid(AFTER_POUND)),
        }
    } else if is_ident_tok(toks, i, end) {
        spec_field_traits(toks, i + 1, end, Seq::empty(), acc.push((pending, i as usize)))
    } else {
        err(i, ErrorKind::Invalid(INVALID_TOKEN))
    }
}

/// A field: its attributes, name, offset, width and traits.
#[derive(Debug)]
pub struct MField {
    pub attrs: Vec<Span>,
    pub ident: usize,
    pub offset: u64,
    pub width: u64,
    pub traits: Vec<TraitRef>,
}

pub struct MFieldV {
    pub attrs: Seq<Span>,
    pub ident: usize,
    pub offset: u64,
    pub width: u64,
    pub traits: Seq<(Seq<Span>, usize)>,
}

pub open spec fn mfield_view(f: MField) -> MFieldV {
    MFieldV {
        attrs: f.attrs@,
        ident: f.ident,
        offset: f.offset,
        width: f.width,
        traits: traits_view(f.traits@),
    }
}

/// The field `name` with the attributes `attrs`, whose block holds `[s, e)`.
pub open spec fn spec_mfield(toks: Seq<Tok>, attrs: Seq<Span>, name: usize, s: int, e: int) -> Result<
    MFieldV,
    MacroError,
> {
    match unsuffixed_u64(toks, s, e) {
        None => err(s, ErrorKind::Invalid(FIELD_NUMBER)),
        Some(offset) => match unsuffixed_u64(toks, s + 1, e) {
            None => err(s + 1, ErrorKind::Invalid(FIELD_NUMBER)),
            Some(width) => match spec_field_traits(toks, s + 2, e, Seq::empty(), Seq::empty()) {
                Err(er) => Err(er),
                Ok(traits) => Ok(MFieldV { attrs, ident: name, offset, width, traits }),
            },
        },
    }
}

#[verifier::loop_isolation(false)]
pub fn parse_mfield(toks: &Vec<Tok>, attrs: Vec<Span>, name: usize, s: usize, e: usize) -> (r: Result<
    MField,
    MacroError,
>)
    ensures
        r matches Ok(f) ==> spec_mfield(toks@, attrs@, name, s as int, e as int) == Ok::<
            MFieldV,
            MacroError,
        >(mfield_view(f)),
        r matches Err(er) ==> spec_mfield(toks@, attrs@, name, s as int, e as int) == Err::<
            MFieldV,
            MacroError,
        >(er),
{
    let offset = match unsuffixed_u64_exec(toks, s, e) {
        Some(v) => v,
        None => {
            return Err(MacroError { at: s, kind: ErrorKind::Invalid(FIELD_NUMBER) });
        },
    };
    if s + 1 > e {
        return Err(MacroError { at: s + 1, kind: ErrorKind::Invalid(FIELD_NUMBER) });
    }
    let width = match unsuffixed_u64_exec(toks, s + 1, e) {
        Some(v) => v,
        None => {
            return Err(MacroError { at: s + 1, kind: ErrorKind::Invalid(FIELD_NUMBER) });
        },
    };
    let mut pending: Vec<Span> = Vec::new();
    let mut traits: Vec<TraitRef> = Vec::new();
    let mut i = s + 2;
    assert(traits_view(traits@) =~= Seq::<(Seq<Span>, usize)>::empty());
    assert(pending@ =~= Seq::<Span>::empty());
    while i < e
        invariant
            spec_field_traits(toks@, s + 2, e as int, Seq::empty(), Seq::empty())
                == spec_field_traits(toks@, i as int, e as int, pending@, traits_view(traits@)),
        decreases e - i,
    {
        if peek_punct(toks, i, e, '#') {
            match find_group(toks, i + 1, e) {
                Some(c) => {
                    pending.push(Span { start: i + 1, end: c + 1 });
                    i = c + 1;
                },
                None => {
                    return Err(MacroError { at: i + 1, kind: ErrorKind::Invalid(AFTER_POUND) });
                },
            }
        } else if peek_ident(toks, i, e) {
            let ghost before = traits_view(traits@);
            let t = TraitRef { attrs: pending, ident: i };
            let ghost tv = trait_view(t);
            traits.push(t);
            assert(traits_view(traits@) =~= before.push(tv));
            pending = Vec::new();
            assert(pending@ =~= Seq::<Span>::empty());
            i = i + 1;
        } else {
            return Err(MacroError { at: i, kind: ErrorKind::Invalid(INVALID_TOKEN) });
        }
    }
    Ok(MField { attrs, ident: name, offset, width, traits })
}

/// What the body of a register has given so far.
pub struct RegBodyV {
    pub traits: Seq<(Seq<Span>, usize)>,
    pub fields: Seq<MFieldV>,
    pub pending: Seq<Span>,
}

/// The body of a register from `i` on, after its numbers.
pub open spec fn spec_reg_body(toks: Seq<Tok>, i: int, end: int, st: RegBodyV) -> Result<
    RegBodyV,
    MacroError,
>
    decreases end - i,
{
    if i >= end || i < 0 {
        if st.fields.len() == 0 {
            err(end, ErrorKind::Invalid(NO_FIELDS))
        } else {
            Ok(st)
        }
    } else if is_punct(toks, i, end, '#') {
        match group_at(toks, i + 1, end) {
            Some(c) => if c + 1 > i && c + 1 <= end {
                spec_reg_body(
                    toks,
                    c + 1,
                    end,
                    RegBodyV {
                        pending: st.pending.push(Span { start: (i + 1) as usize, end: (c + 1) as usize }),
                        ..st
                    },
                )
            } else {
                err(i + 1, ErrorKind::Invalid(AFTER_POUND))
            },
            None => err(i + 1, ErrorKind::Invalid(AFTER_POUND)),
        }
    } else if is_ident_tok(toks, i, end) {
        if st.fields.len() == 0 {
            spec_reg_body(
                toks,
                i + 1,
                end,
                RegBodyV {
                    traits: st.traits.push((st.pending, i as usize)),
                    fields: st.fields,
                    pending: Seq::empty(),
                },
            )
        } else if is_open(toks, i + 1, end, Delim::Brace) {
            match close_of(toks, i + 1, end) {
                Some(c) => if c + 1 > i && c + 1 <= end {
                    match spec_mfield(toks, st.pending, i as usize, i + 2, c) {
                        Err(e) => Err(e),
                        Ok(f) => spec_reg_body(
                            toks,
                            c + 1,
                            end,
                            RegBodyV { traits: st.traits, fields: st.fields.push(f), pending: Seq::empty() },
                        ),
                    }
                } else {
                    err(i + 1, ErrorKind::InvalidAfter(AFTER_FIELD_NAME, Span { start: i as usize, end: (i + 1) as usize }))
                },
                None => err(i + 1, ErrorKind::InvalidAfter(AFTER_FIELD_NAME, Span { start: i as usize, end: (i + 1) as usize })),
            }
        } else {
            err(i + 1, ErrorKind::InvalidAfter(AFTER_FIELD_NAME, Span { start: i as usize, end: (i + 1) as usize }))
        }
    } else if is_open(toks, i, end, Delim::Brace) {
        if st.traits.len() > 0 {
            match close_of(toks, i, end) {
                Some(c) => if c + 1 > i && c + 1 <= end {
                    let last = st.traits.last();
                    match spec_mfield(toks, last.0, last.1, i + 1, c) {
                        Err(e) => Err(e),
                        Ok(f) => spec_reg_body(
                            toks,
                            c + 1,
                            end,
                            RegBodyV {
                                traits: st.traits.drop_last(),
                                fields: st.fields.push(f),
                                pending: Seq::empty(),
                            },
                        ),
                    }
                } else {
                    err(i, ErrorKind::Invalid(INVALID_TOKEN))
                },
                None => err(i, ErrorKind::Invalid(INVALID_TOKEN)),
            }
        } else {
            err(i, ErrorKind::Invalid(UNEXPECTED_BLOCK))
        }
    } else {
        err(i, ErrorKind::Invalid(INVALID_TOKEN))
    }
}

/// A register: its attributes, name, address, bit size, reset value,
/// traits and fields.
#[derive(Debug)]
pub struct MReg {
    pub attrs: Vec<Span>,
    pub ident: usize,
    pub address: u64,
    pub raw: u64,
    pub reset: u64,
    pub traits: Vec<TraitRef>,
    pub fields: Vec<MField>,
}

pub struct MRegV {
    pub attrs: Seq<Span>,
    pub ident: usize,
    pub address: u64,
    pub raw: u64,
    pub reset: u64,
    pub traits: Seq<(Seq<Span>, usize)>,
    pub fields: Seq<MFieldV>,
}

pub open spec fn mfields_view(fs: Seq<MField>) -> Seq<MFieldV> {
    fs.map_values(|f: MField| mfield_view(f))
}

pub open spec fn mreg_view(g: MReg) -> MRegV {
    MRegV {
        attrs: g.attrs@,
        ident: g.ident,
        address: g.address,
        raw: g.raw,
        reset: g.reset,
        traits: traits_view(g.traits@),
        fields: mfields_view(g.fields@),
    }
}

pub open spec fn body_start() -> RegBodyV {
    RegBodyV { traits: Seq::empty(), fields: Seq::empty(), pending: Seq::empty() }
}

/// The register `name` with the attributes `attrs`, whose block holds
/// `[s, e)`.
pub open spec fn spec_mreg(toks: Seq<Tok>, attrs: Seq<Span>, name: usize, s: int, e: int) -> Result<
    MRegV,
    MacroError,
> {
    match unsuffixed_u64(toks, s, e) {
        None => err(s, ErrorKind::Invalid(REG_NUMBER)),
        Some(address) => match unsuffixed_u64(toks, s + 1, e) {
            None => err(s + 1, ErrorKind::Invalid(REG_NUMBER)),
            Some(raw) => match unsuffixed_u64(toks, s + 2, e) {
                None => err(s + 2, ErrorKind::Invalid(REG_NUMBER)),
                Some(reset) => match spec_reg_body(toks, s + 3, e, body_start()) {
                    Err(er) => Err(er),
                    Ok(b) => Ok(
                        MRegV {
                            attrs,
                            ident: name,
                            address,
                            raw,
                            reset,
                            traits: b.traits,
                            fields: b.fields,
                        },
                    ),
                },
            },
        },
    }
}

fn pop_trait(traits: &mut Vec<TraitRef>) -> (r: TraitRef)
    requires
        old(traits)@.len() > 0,
    ensures
        trait_view(r) == traits_view(old(traits)@).last(),
        traits_view(final(traits)@) == traits_view(old(traits)@).drop_last(),
{
    let ghost v = traits_view(traits@);
    let r = traits.pop().unwrap();
    assert(traits_view(traits@) =~= v.drop_last());
    r
}

#[verifier::loop_isolation(false)]
fn parse_mreg(toks: &Vec<Tok>, attrs: Vec<Span>, name: usize, s: usize, e: usize) -> (r: Result<
    MReg,
    MacroError,
>)
    requires
        e <= toks@.len(),
        s <= e,
    ensures
        r matches Ok(g) ==> spec_mreg(toks@, attrs@, name, s as int, e as int) == Ok::<
            MRegV,
            MacroError,
        >(mreg_view(g)),
        r matches Err(er) ==> spec_mreg(toks@, attrs@, name, s as int, e as int) == Err::<
            MRegV,
            MacroError,
        >(er),
{
    let address = match unsuffixed_u64_exec(toks, s, e) {
        Some(v) => v,
        None => {
            return Err(MacroError { at: s, kind: ErrorKind::Invalid(REG_NUMBER) });
        },
    };
    let raw = match unsuffixed_u64_exec(toks, s + 1, e) {
        Some(v) => v,
        None => {
            return Err(MacroError { at: s + 1, kind: ErrorKind::Invalid(REG_NUMBER) });
        },
    };
    let reset = match unsuffixed_u64_exec(toks, s + 2, e) {
        Some(v) => v,
        None => {
            return Err(MacroError { at: s + 2, kind: ErrorKind::Invalid(REG_NUMBER) });
        },
    };
    let mut traits: Vec<TraitRef> = Vec::new();
    let mut fields: Vec<MField> = Vec::new();
    let mut pending: Vec<Span> = Vec::new();
    let mut i = s + 3;
    assert(traits_view(traits@) =~= Seq::<(Seq<Span>, usize)>::empty());
    assert(mfields_view(fields@) =~= Seq::<MFieldV>::empty());
    assert(pending@ =~= Seq::<Span>::empty());
    while i < e
        invariant
            spec_reg_body(toks@, s + 3, e as int, body_start()) == spec_reg_body(
                toks@,
                i as int,
                e as int,
                RegBodyV {
                    traits: traits_view(traits@),
                    fields: mfields_view(fields@),
                    pending: pending@,
                },
            ),
        decreases e - i,
    {
        if peek_punct(toks, i, e, '#') {
            match find_group(toks, i + 1, e) {
                Some(c) => {
                    pending.push(Span { start: i + 1, end: c + 1 });
                    i = c + 1;
                },
                None => {
                    return Err(MacroError { at: i + 1, kind: ErrorKind::Invalid(AFTER_POUND) });
                },
            }
        } else if peek_ident(toks, i, e) {
            if fields.len() == 0 {
                let ghost before = traits_view(traits@);
                let t = TraitRef { attrs: pending, ident: i };
                let ghost tv = trait_view(t);
                traits.push(t);
                assert(traits_view(traits@) =~= before.push(tv));
                pending = Vec::new();
                assert(pending@ =~= Seq::<Span>::empty());
                i = i + 1;
            } else {
                if !peek_open(toks, i + 1, e, Delim::Brace) {
                    return Err(MacroError { at: i + 1, kind: ErrorKind::InvalidAfter(AFTER_FIELD_NAME, Span { start: i, end: i + 1 }) });
                }
                match find_close(toks, i + 1, e) {
                    Some(c) => {
                        let f = parse_mfield(toks, pending, i, i + 2, c)?;
                        let ghost before = mfields_view(fields@);
                        let ghost fv = mfield_view(f);
                        fields.push(f);
                        assert(mfields_view(fields@) =~= before.push(fv));
                        pending = Vec::new();
                        assert(pending@ =~= Seq::<Span>::empty());
                        i = c + 1;
                    },
                    None => {
                        return Err(MacroError { at: i + 1, kind: ErrorKind::InvalidAfter(AFTER_FIELD_NAME, Span { start: i, end: i + 1 }) });
                    },
                }
            }
        } else if peek_open(toks, i, e, Delim::Brace) {
            if traits.len() == 0 {
                return Err(MacroError { at: i, kind: ErrorKind::Invalid(UNEXPECTED_BLOCK) });
            }
            match find_close(toks, i, e) {
                Some(c) => {
                    let ghost tv = traits_view(traits@);
                    let last = pop_trait(&mut traits);
                    let f = parse_mfield(toks, last.attrs, last.ident, i + 1, c)?;
                    let ghost before = mfields_view(fields@);
                    let ghost fv = mfield_view(f);
                    fields.push(f);
                    assert(mfields_view(fields@) =~= before.push(fv));
                    pending = Vec::new();
                    assert(pending@ =~= Seq::<Span>::empty());
                    i = c + 1;
                },
                None => {
                    return Err(MacroError { at: i, kind: ErrorKind::Invalid(INVALID_TOKEN) });
                },
            }
        } else {
            return Err(MacroError { at: i, kind: ErrorKind::Invalid(INVALID_TOKEN) });
        }
    }
    if fields.len() == 0 {
        return Err(MacroError { at: e, kind: ErrorKind::Invalid(NO_FIELDS) });
    }
    Ok(MReg { attrs, ident: name, address, raw, reset, traits, fields })
}

/// The input of `mappings!`.
#[derive(Debug)]
pub struct MappingsInput {
    /// The block's attributes: each a `#` followed by the group at this span.
    pub attrs: Vec<Span>,
    pub block: usize,
    pub regs: Vec<MReg>,
}

pub struct MappingsInputV {
    pub attrs: Seq<Span>,
    pub block: usize,
    pub regs: Seq<MRegV>,
}

pub open spec fn mappings_view(m: MappingsInput) -> MappingsInputV {
    MappingsInputV {
        attrs: m.attrs@,
        block: m.block,
        regs: m.regs@.map_values(|g: MReg| mreg_view(g)),
    }
}

/// The block's attributes and name, from `i` on.
pub open spec fn spec_head(toks: Seq<Tok>, i: int, end: int, attrs: Seq<Span>) -> Result<
    (Seq<Span>, usize),
    MacroError,
>
    decreases end - i,
{
    if i >= end || i < 0 {
        err(end, ErrorKind::Invalid(UNEXPECTED_END))
    } else if is_punct(toks, i, end, '#') {
        if is_punct(toks, i + 1, end, '!') {
            match group_at(toks, i + 2, end) {
                Some(c) => if c + 1 > i && c + 1 <= end {
                    spec_head(
                        toks,
                        c + 1,
                        end,
                        attrs.push(Span { start: (i + 2) as usize, end: (c + 1) as usize }),
                    )
                } else {
                    err(i + 2, ErrorKind::Invalid(AFTER_POUND_BANG))
                },
                None => err(i + 2, ErrorKind::Invalid(AFTER_POUND_BANG)),
            }
        } else {
            err(i + 1, ErrorKind::Invalid(AFTER_POUND))
        }
    } else if is_ident_tok(toks, i, end) {
        Ok((attrs, i as usize))
    } else {
        err(i, ErrorKind::Invalid(INVALID_TOKEN))
    }
}

/// The registers from `i` on, given the attributes read before `i`.
pub open spec fn spec_mregs(
    toks: Seq<Tok>,
    i: int,
    end: int,
    pending: Seq<Span>,
    acc: Seq<MRegV>,
) -> Result<Seq<MRegV>, MacroError>
    decreases end - i,
{
    if i >= end || i < 0 {
        Ok(acc)
    } else if is_punct(toks, i, end, '#') {
        match group_at(toks, i + 1, end) {
            Some(c) => if c + 1 > i && c + 1 <= end {
                spec_mregs(
                    toks,
                    c + 1,
                    end,
                    pending.push(Span { start: (i + 1) as usize, end: (c + 1) as usize }),
                    acc,
                )
            } else {
                err(i + 1, ErrorKind::Invalid(AFTER_POUND))
            },
            None => err(i + 1, ErrorKind::Invalid(AFTER_POUND)),
        }
    } else if is_ident_tok(toks, i, end) {
        if is_open(toks, i + 1, end, Delim::Brace) {
            match close_of(toks, i + 1, end) {
                Some(c) => if c + 1 > i && c + 1 <= end {
                    match spec_mreg(toks, pending, i as usize, i + 2, c) {
                        Err(e) => Err(e),
                        Ok(g) => spec_mregs(toks, c + 1, end, Seq::empty(), acc.push(g)),
                    }
                } else {
                    err(i + 1, ErrorKind::InvalidAfter(AFTER_REG_NAME, Span { start: i as usize, end: (i + 1) as usize }))
                },
                None => err(i + 1, ErrorKind::InvalidAfter(AFTER_REG_NAME, Span { start: i as usize, end: (i + 1) as usize })),
            }
        } else {
            err(i + 1, ErrorKind::InvalidAfter(AFTER_REG_NAME, Span { start: i as usize, end: (i + 1) as usize }))
        }
    } else {
        err(i, ErrorKind::Invalid(INVALID_TOKEN))
    }
}

pub open spec fn spec_mappings_input(toks: Seq<Tok>) -> Result<MappingsInputV, MacroError> {
    let end = toks.len() as int;
    match spec_head(toks, 0, end, Seq::empty()) {
        Err(e) => Err(e),
        Ok((attrs, block)) => match spec_mregs(toks, block + 1, end, Seq::empty(), Seq::empty()) {
            Err(e) => Err(e),
            Ok(regs) => Ok(MappingsInputV { attrs, block, regs }),
        },
    }
}

/// Reads the input of `mappings!`.
#[verifier::loop_isolation(false)]
pub fn parse_mappings_input(toks: &Vec<Tok>) -> (r: Result<MappingsInput, MacroError>)
    ensures
        r matches Ok(m) ==> spec_mappings_input(toks@) == Ok::<MappingsInputV, MacroError>(
            mappings_view(m),
        ),
        r matches Err(e) ==> spec_mappings_input(toks@) == Err::<MappingsInputV, MacroError>(e),
{
    let end = toks.len();
    let mut attrs: Vec<Span> = Vec::new();
    let mut i: usize = 0;
    assert(attrs@ =~= Seq::<Span>::empty());
    let mut found = false;
    while !found
        invariant
            end == toks@.len(),
            spec_head(toks@, 0, end as int, Seq::empty()) == spec_head(
                toks@,
                i as int,
                end as int,
                attrs@,
            ),
            found ==> i < end && is_ident_tok(toks@, i as int, end as int),
        decreases end - i + (if found { 0int } else { 1int }),
    {
        if i >= end {
            return Err(MacroError { at: end, kind: ErrorKind::Invalid(UNEXPECTED_END) });
        }
        if peek_punct(toks, i, end, '#') {
            if !peek_punct(toks, i + 1, end, '!') {
                return Err(MacroError { at: i + 1, kind: ErrorKind::Invalid(AFTER_POUND) });
            }
            match find_group(toks, i + 2, end) {
                Some(c) => {
                    attrs.push(Span { start: i + 2, end: c + 1 });
                    i = c + 1;
                },
                None => {
                    return Err(MacroError { at: i + 2, kind: ErrorKind::Invalid(AFTER_POUND_BANG) });
                },
            }
        } else if peek_ident(toks, i, end) {
            found = true;
        } else {
            return Err(MacroError { at: i, kind: ErrorKind::Invalid(INVALID_TOKEN) });
        }
    }
    let block = i;
    let mut regs: Vec<MReg> = Vec::new();
    let mut pending: Vec<Span> = Vec::new();
    let mut j = block + 1;
    assert(regs@.map_values(|g: MReg| mreg_view(g)) =~= Seq::<MRegV>::empty());
    assert(pending@ =~= Seq::<Span>::empty());
    while j < end
        invariant
            end == toks@.len(),
            spec_mregs(toks@, block + 1, end as int, Seq::empty(), Seq::empty()) == spec_mregs(
                toks@,
                j as int,
                end as int,
                pending@,
                regs@.map_values(|g: MReg| mreg_view(g)),
            ),
        decreases end - j,
    {
        if peek_punct(toks, j, end, '#') {
            match find_group(toks, j + 1, end) {
                Some(c) => {
                    pending.push(Span { start: j + 1, end: c + 1 });
                    j = c + 1;
                },
                None => {
                    return Err(MacroError { at: j + 1, kind: ErrorKind::Invalid(AFTER_POUND) });
                },
            }
        } else if peek_ident(toks, j, end) {
            if !peek_open(toks, j + 1, end, Delim::Brace) {
                return Err(MacroError { at: j + 1, kind: ErrorKind::InvalidAfter(AFTER_REG_NAME, Span { start: j, end: j + 1 }) });
            }
            match find_close(toks, j + 1, end) {
                Some(c) => {
                    let g = parse_mreg(toks, pending, j, j + 2, c)?;
                    let ghost before = regs@.map_values(|g: MReg| mreg_view(g));
                    let ghost gv = mreg_view(g);
                    regs.push(g);
                    assert(regs@.map_values(|g: MReg| mreg_view(g)) =~= before.push(gv));
                    pending = Vec::new();
                    assert(pending@ =~= Seq::<Span>::empty());
                    j = c + 1;
                },
                None => {
                    return Err(MacroError { at: j + 1, kind: ErrorKind::InvalidAfter(AFTER_REG_NAME, Span { start: j, end: j + 1 }) });
                },
            }
        } else {
            return Err(MacroError { at: j, kind: ErrorKind::Invalid(INVALID_TOKEN) });
        }
    }
    Ok(MappingsInput { attrs, block, regs })
}

// ---------------------------------------------------------------------------
// The expansion

/// One of the traits `ts` is named `name`.
pub open spec fn trait_named(toks: Seq<Tok>, ts: Seq<(Seq<Span>, usize)>, name: Seq<char>) -> bool {
    exists|k: int| 0 <= k < ts.len() && #[trigger] ident_text(toks, ts[k].1 as int) == name
}

fn trait_named_exec(toks: &Vec<Tok>, ts: &Vec<TraitRef>, name: &str) -> (r: bool)
    ensures
        r == trait_named(toks@, traits_view(ts@), name@),
{
    let n = String::from_str(name);
    let ghost tv = traits_view(ts@);
    let mut k: usize = 0;
    while k < ts.len()
        invariant
            k <= ts@.len(),
            n@ == name@,
            tv == traits_view(ts@),
            forall|m: int| 0 <= m < k ==> #[trigger] ident_text(toks@, tv[m].1 as int) != name@,
        decreases ts@.len() - k,
    {
        assert(tv[k as int].1 == ts@[k as int].ident);
        if ident_string(toks, ts[k].ident) == n {
            assert(ident_text(toks@, tv[k as int].1 as int) == name@);
            return true;
        }
        k = k + 1;
    }
    false
}

/// What a field expands to: its type (Pascal case), its name in the
/// register (snake case, made a valid identifier), whether it is one bit,
/// whether the hold reads it (`RRegField`) and writes it (`WRegField`), and
/// the writers' names.
#[derive(Debug)]
pub struct MFieldPlan {
    pub ty: String,
    pub ident: String,
    pub bit: bool,
    pub read: bool,
    pub write: bool,
    pub set_name: String,
    pub clear_name: String,
    pub toggle_name: String,
    pub write_name: String,
}

pub struct MFieldPlanV {
    pub ty: Seq<char>,
    pub ident: Seq<char>,
    pub bit: bool,
    pub read: bool,
    pub write: bool,
    pub set_name: Seq<char>,
    pub clear_name: Seq<char>,
    pub toggle_name: Seq<char>,
    pub write_name: Seq<char>,
}

pub open spec fn mfield_plan_view(p: MFieldPlan) -> MFieldPlanV {
    MFieldPlanV {
        ty: p.ty@,
        ident: p.ident@,
        bit: p.bit,
        read: p.read,
        write: p.write,
        set_name: p.set_name@,
        clear_name: p.clear_name@,
        toggle_name: p.toggle_name@,
        write_name: p.write_name@,
    }
}

pub open spec fn mfield_plan(toks: Seq<Tok>, f: MFieldV) -> MFieldPlanV {
    field_plan_by(toks, f, "RRegField"@, "WRegField"@)
}

/// The plan of a field whose traits `read` and `write` make the hold read
/// and write it.
pub open spec fn field_plan_by(toks: Seq<Tok>, f: MFieldV, read: Seq<char>, write: Seq<char>) -> MFieldPlanV {
    let name = ident_text(toks, f.ident as int);
    let affix = inflector_snake(name);
    MFieldPlanV {
        ty: inflector_pascal(name),
        ident: unkeywordize(affix),
        bit: f.width == 1,
        read: trait_named(toks, f.traits, read),
        write: trait_named(toks, f.traits, write),
        set_name: "set_"@ + affix,
        clear_name: "clear_"@ + affix,
        toggle_name: "toggle_"@ + affix,
        write_name: "write_"@ + affix,
    }
}

/// What a register expands to: its token type (Pascal case), its module
/// (snake case, made a valid identifier), its raw type (`u` and the bit
/// size), its alias outside the block, and its fields.
/// The accessors of a field are named after it: the reader is the field's
/// name in snake case (kept clear of keywords), and each writer is its
/// operation, `_`, and that name: `set_`, `clear_`, `toggle_` for a one-bit
/// field, `write_` for a wider one; a field is one bit wide exactly when
/// its width is one.
pub proof fn law_mapped_field_accessor_names(toks: Seq<Tok>, f: MFieldV, read: Seq<char>, write: Seq<char>)
    ensures
        ({
            let p = field_plan_by(toks, f, read, write);
            let snk = inflector_snake(ident_text(toks, f.ident as int));
            &&& p.ident == unkeywordize(snk)
            &&& p.set_name == "set_"@ + snk
            &&& p.clear_name == "clear_"@ + snk
            &&& p.toggle_name == "toggle_"@ + snk
            &&& p.write_name == "write_"@ + snk
            &&& p.bit == (f.width == 1)
        }),
{
}

#[derive(Debug)]
pub struct MRegPlan {
    pub ty: String,
    pub module: String,
    pub raw_ty: String,
    pub alias: String,
    pub fields: Vec<MFieldPlan>,
}

pub struct MRegPlanV {
    pub ty: Seq<char>,
    pub module: Seq<char>,
    pub raw_ty: Seq<char>,
    pub alias: Seq<char>,
    pub fields: Seq<MFieldPlanV>,
}

pub open spec fn mreg_plan_view(p: MRegPlan) -> MRegPlanV {
    MRegPlanV {
        ty: p.ty@,
        module: p.module@,
        raw_ty: p.raw_ty@,
        alias: p.alias@,
        fields: p.fields@.map_values(|f: MFieldPlan| mfield_plan_view(f)),
    }
}

pub open spec fn mreg_plan(toks: Seq<Tok>, block: usize, g: MRegV) -> MRegPlanV {
    reg_plan_by(toks, block, g, "RRegField"@, "WRegField"@)
}

/// The plan of a register whose fields' traits `read` and `write` make the
/// hold read and write them.
pub open spec fn reg_plan_by(toks: Seq<Tok>, block: usize, g: MRegV, read: Seq<char>, write: Seq<char>) -> MRegPlanV {
    let name = ident_text(toks, g.ident as int);
    MRegPlanV {
        ty: inflector_pascal(name),
        module: unkeywordize(inflector_snake(name)),
        raw_ty: "u"@ + decimal(g.raw as nat),
        alias: inflector_pascal(ident_text(toks, block as int)) + inflector_pascal(name),
        fields: g.fields.map_values(|f: MFieldV| field_plan_by(toks, f, read, write)),
    }
}

fn plan_mfield(toks: &Vec<Tok>, f: &MField, read: &str, write: &str) -> (r: MFieldPlan)
    ensures
        mfield_plan_view(r) == field_plan_by(toks@, mfield_view(*f), read@, write@),
{
    let name = ident_string(toks, f.ident);
    let affix = to_snake_inflector(name.as_str());
    MFieldPlan {
        ty: to_pascal_inflector(name.as_str()),
        ident: unkeywordize_exec(&affix),
        bit: f.width == 1,
        read: trait_named_exec(toks, &f.traits, read),
        write: trait_named_exec(toks, &f.traits, write),
        set_name: cat("set_", affix.as_str()),
        clear_name: cat("clear_", affix.as_str()),
        toggle_name: cat("toggle_", affix.as_str()),
        write_name: cat("write_", affix.as_str()),
    }
}

/// The plan of the register `g` of the block named at `block`, whose
/// fields' traits `read` and `write` make the hold read and write them.
pub fn plan_mreg(toks: &Vec<Tok>, block: usize, g: &MReg, read: &str, write: &str) -> (r: MRegPlan)
    ensures
        mreg_plan_view(r) == reg_plan_by(toks@, block, mreg_view(*g), read@, write@),
{
    let name = ident_string(toks, g.ident);
    let ty = to_pascal_inflector(name.as_str());
    let prefix = to_pascal_inflector(ident_string(toks, block).as_str());
    let ghost fs = mfields_view(g.fields@);
    let mut fields: Vec<MFieldPlan> = Vec::new();
    let mut k: usize = 0;
    while k < g.fields.len()
        invariant
            k <= g.fields@.len(),
            fs == mfields_view(g.fields@),
            fields@.map_values(|f: MFieldPlan| mfield_plan_view(f)) == fs.take(k as int).map_values(
                |f: MFieldV| field_plan_by(toks@, f, read@, write@),
            ),
        decreases g.fields@.len() - k,
    {
        let fp = plan_mfield(toks, &g.fields[k], read, write);
        let ghost before = fields@.map_values(|f: MFieldPlan| mfield_plan_view(f));
        let ghost pv = mfield_plan_view(fp);
        fields.push(fp);
        proof {
            assert(fields@.map_values(|f: MFieldPlan| mfield_plan_view(f)) =~= before.push(pv));
            assert(fs.take(k + 1) =~= fs.take(k as int).push(fs[k as int]));
            assert(fs.take(k + 1).map_values(|f: MFieldV| field_plan_by(toks@, f, read@, write@))
                =~= fs.take(k as int).map_values(
                |f: MFieldV| field_plan_by(toks@, f, read@, write@),
            ).push(field_plan_by(toks@, fs[k as int], read@, write@)));
        }
        k = k + 1;
    }
    assert(fs.take(k as int) =~= fs);
    MRegPlan {
        module: unkeywordize_exec(&to_snake_inflector(name.as_str())),
        raw_ty: cat("u", decimal_u64(g.raw).as_str()),
        alias: cat(prefix.as_str(), ty.as_str()),
        ty,
        fields,
    }
}

/// What `mappings!` expands to: the block's module (snake case) and the
/// prefix of the aliases (Pascal case), and a plan for each register.
#[derive(Debug)]
pub struct MappingsPlan {
    pub input: MappingsInput,
    pub module: String,
    pub prefix: String,
    pub regs: Vec<MRegPlan>,
}

/// `mappings!` on the input `toks`.
pub fn mappings(toks: &Vec<Tok>) -> (r: Result<MappingsPlan, MacroError>)
    ensures
        r matches Err(e) ==> spec_mappings_input(toks@) == Err::<MappingsInputV, MacroError>(e),
        r matches Ok(p) ==> {
            &&& spec_mappings_input(toks@) == Ok::<MappingsInputV, MacroError>(mappings_view(p.input))
            &&& p.module@ == inflector_snake(ident_text(toks@, p.input.block as int))
            &&& p.prefix@ == inflector_pascal(ident_text(toks@, p.input.block as int))
            &&& p.regs@.map_values(|g: MRegPlan| mreg_plan_view(g)) == mappings_view(
                p.input,
            ).regs.map_values(|g: MRegV| mreg_plan(toks@, p.input.block, g))
        },
{
    let input = parse_mappings_input(toks)?;
    let block_name = ident_string(toks, input.block);
    let module = to_snake_inflector(block_name.as_str());
    let prefix = to_pascal_inflector(block_name.as_str());
    let ghost gs = mappings_view(input).regs;
    let mut regs: Vec<MRegPlan> = Vec::new();
    let mut k: usize = 0;
    while k < input.regs.len()
        invariant
            k <= input.regs@.len(),
            gs == mappings_view(input).regs,
            regs@.map_values(|g: MRegPlan| mreg_plan_view(g)) == gs.take(k as int).map_values(
                |g: MRegV| mreg_plan(toks@, input.block, g),
            ),
        decreases input.regs@.len() - k,
    {
        let gp = plan_mreg(toks, input.block, &input.regs[k], "RRegField", "WRegField");
        let ghost before = regs@.map_values(|g: MRegPlan| mreg_plan_view(g));
        let ghost pv = mreg_plan_view(gp);
        regs.push(gp);
        proof {
            assert(regs@.map_values(|g: MRegPlan| mreg_plan_view(g)) =~= before.push(pv));
            assert(gs[k as int] == mreg_view(input.regs@[k as int]));
            assert(gs.take(k + 1) =~= gs.take(k as int).push(gs[k as int]));
            assert(gs.take(k + 1).map_values(|g: MRegV| mreg_plan(toks@, input.block, g)) =~= gs.take(
                k as int,
            ).map_values(|g: MRegV| mreg_plan(toks@, input.block, g)).push(
                mreg_plan(toks@, input.block, gs[k as int]),
            ));
        }
        k = k + 1;
    }
    assert(gs.take(k as int) =~= gs);
    Ok(MappingsPlan { input, module, prefix, regs })
}

} // verus!
