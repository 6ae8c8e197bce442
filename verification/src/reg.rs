//! `reg!`: one register, in one or more variants, each a module with the
//! register's value type, its token, its field tokens and its accessors.
//!
//! Each variant reads `attrs vis Block Name => { key => value; .. }` with
//! the keys `address`, `size` and `reset` (each once, all required),
//! `traits => { .. }` and `fields => { .. }` (as often as wanted). A field
//! reads `attrs name => { offset => n; width => n; traits => { .. } }`.

use crate::case::{cat, cat3, decimal, decimal_u8, inflector_pascal, inflector_snake, to_pascal_inflector, to_snake_inflector, unkeywordize, unkeywordize_exec};
use crate::idents::{add_names, add_names_exec, distinct_names, has_name, has_name_exec, lemma_add_names};
use crate::token::{Delim, ErrorKind, IntLit, MacroError, Span, Tok, Vis, err, expect_group, expect_ident, expect_int_lit, expect_punct, expect_punct2, ident_string, ident_text, int_lit_at, int_lit_value, is_word, literal_text, outer_attrs, parse_vis, peek_word, spec_expect_group, spec_expect_ident, spec_expect_int_lit, spec_expect_punct, spec_expect_punct2, spec_outer_attrs, spec_vis, eq_lit, find_named_attrs, named_attrs, read_int_lit};
use vstd::prelude::*;

verus! {

// ---------------------------------------------------------------------------
// Reading the input

/// The identifiers in `[i, end)`, up to its end.
pub open spec fn spec_idents(toks: Seq<Tok>, i: int, end: int) -> Result<Seq<usize>, MacroError>
    decreases end - i,
{
    if i >= end {
        Ok(Seq::empty())
    } else {
        match spec_expect_ident(toks, i, end) {
            Err(e) => Err(e),
            Ok(_) => match spec_idents(toks, i + 1, end) {
                Err(e) => Err(e),
                Ok(rest) => Ok(seq![i as usize] + rest),
            },
        }
    }
}

fn parse_idents(toks: &Vec<Tok>, i: usize, end: usize, out: &mut Vec<usize>) -> (r: Result<
    (),
    MacroError,
>)
    requires
        end <= toks@.len(),
    ensures
        r matches Err(e) ==> spec_idents(toks@, i as int, end as int) == Err::<
            Seq<usize>,
            MacroError,
        >(e),
        r is Ok ==> (spec_idents(toks@, i as int, end as int) matches Ok(s) && final(out)@ == old(
            out,
        )@ + s),
{
    let mut j = i;
    let ghost start = out@;
    while j < end
        invariant
            end <= toks@.len(),
            i <= j,
            spec_idents(toks@, i as int, end as int) == (match spec_idents(
                toks@,
                j as int,
                end as int,
            ) {
                Ok(rest) => Ok(out@.subrange(start.len() as int, out@.len() as int) + rest),
                Err(e) => Err(e),
            }),
            out@.len() >= start.len(),
            out@.subrange(0, start.len() as int) == start,
        decreases end - j,
    {
        expect_ident(toks, j, end)?;
        let ghost before = out@;
        out.push(j);
        proof {
            assert(out@.subrange(0, start.len() as int) =~= start);
            match spec_idents(toks@, j + 1, end as int) {
                Ok(rest) => {
                    assert(before.subrange(start.len() as int, before.len() as int) + (seq![
                        j as usize,
                    ] + rest) =~= out@.subrange(start.len() as int, out@.len() as int) + rest);
                },
                Err(_) => {},
            }
        }
        j = j + 1;
    }
    proof {
        assert(out@ =~= start + out@.subrange(start.len() as int, out@.len() as int));
        assert(out@.subrange(start.len() as int, out@.len() as int) + Seq::<usize>::empty()
            =~= out@.subrange(start.len() as int, out@.len() as int));
    }
    Ok(())
}

/// A field of a variant, by the positions of its tokens.
#[derive(Debug)]
pub struct RegField {
    pub attrs: Span,
    pub ident: usize,
    pub offset: usize,
    pub width: usize,
    /// The traits the field implements.
    pub traits: Vec<usize>,
}

/// A field, as a value of the specification.
pub struct RegFieldV {
    pub attrs: Span,
    pub ident: usize,
    pub offset: usize,
    pub width: usize,
    pub traits: Seq<usize>,
}

impl View for RegField {
    type V = RegFieldV;

    open spec fn view(&self) -> RegFieldV {
        RegFieldV {
            attrs: self.attrs,
            ident: self.ident,
            offset: self.offset,
            width: self.width,
            traits: self.traits@,
        }
    }
}

/// The entries of a field read so far.
pub struct FieldEntries {
    pub offset: Option<usize>,
    pub width: Option<usize>,
    pub traits: Seq<usize>,
}

/// The entries `key => value;` of a field from `i`, given those read before.
pub open spec fn spec_field_entries(toks: Seq<Tok>, i: int, end: int, st: FieldEntries) -> Result<
    FieldEntries,
    MacroError,
>
    decreases end - i,
{
    if i >= end {
        Ok(st)
    } else {
        match spec_expect_ident(toks, i, end) {
            Err(e) => Err(e),
            Ok(k) => match spec_expect_punct2(toks, k as int, end, '=', '>') {
                Err(e) => Err(e),
                Ok(p) => {
                    let step: Result<(FieldEntries, int), MacroError> = if is_word(
                        toks,
                        i,
                        end,
                        "offset"@,
                    ) {
                        if st.offset is Some {
                            err(p as int, ErrorKind::MultipleKey("offset"))
                        } else {
                            match spec_expect_int_lit(toks, p as int, end) {
                                Err(e) => Err(e),
                                Ok(q) => Ok((FieldEntries { offset: Some(p), ..st }, q as int)),
                            }
                        }
                    } else if is_word(toks, i, end, "width"@) {
                        if st.width is Some {
                            err(p as int, ErrorKind::MultipleKey("width"))
                        } else {
                            match spec_expect_int_lit(toks, p as int, end) {
                                Err(e) => Err(e),
                                Ok(q) => Ok((FieldEntries { width: Some(p), ..st }, q as int)),
                            }
                        }
                    } else if is_word(toks, i, end, "traits"@) {
                        match spec_expect_group(toks, p as int, end, Delim::Brace) {
                            Err(e) => Err(e),
                            Ok(c) => match spec_idents(toks, p + 1, c as int) {
                                Err(e) => Err(e),
                                Ok(ts) => Ok(
                                    (FieldEntries { traits: st.traits + ts, ..st }, c + 1),
                                ),
                            },
                        }
                    } else {
                        err(p as int, ErrorKind::UnknownKey)
                    };
                    match step {
                        Err(e) => Err(e),
                        Ok((st2, q)) => if q < end {
                            match spec_expect_punct(toks, q, end, ';') {
                                Err(e) => Err(e),
                                Ok(q2) => if q2 > i {
                                    spec_field_entries(toks, q2 as int, end, st2)
                                } else {
                                    Ok(st2)
                                },
                            }
                        } else if q > i && q <= end {
                            spec_field_entries(toks, q, end, st2)
                        } else {
                            Ok(st2)
                        },
                    }
                },
            },
        }
    }
}

/// A field `attrs name => { .. }` at `i`.
pub open spec fn spec_reg_field(toks: Seq<Tok>, i: int, end: int) -> Result<
    (RegFieldV, usize),
    MacroError,
> {
    match spec_outer_attrs(toks, i, end) {
        Err(e) => Err(e),
        Ok(a) => match spec_expect_ident(toks, a as int, end) {
            Err(e) => Err(e),
            Ok(k) => match spec_expect_punct2(toks, k as int, end, '=', '>') {
                Err(e) => Err(e),
                Ok(p) => match spec_expect_group(toks, p as int, end, Delim::Brace) {
                    Err(e) => Err(e),
                    Ok(c) => match spec_field_entries(
                        toks,
                        p + 1,
                        c as int,
                        FieldEntries { offset: None, width: None, traits: Seq::empty() },
                    ) {
                        Err(e) => Err(e),
                        Ok(st) => match (st.offset, st.width) {
                            (None, _) => err(c as int, ErrorKind::MissingKey("offset")),
                            (Some(_), None) => err(c as int, ErrorKind::MissingKey("width")),
                            (Some(o), Some(w)) => Ok(
                                (
                                    RegFieldV {
                                        attrs: Span { start: i as usize, end: a },
                                        ident: a,
                                        offset: o,
                                        width: w,
                                        traits: st.traits,
                                    },
                                    (c + 1) as usize,
                                ),
                            ),
                        },
                    },
                },
            },
        },
    }
}

#[verifier::loop_isolation(false)]
fn parse_reg_field(toks: &Vec<Tok>, i: usize, end: usize) -> (r: Result<
    (RegField, usize),
    MacroError,
>)
    requires
        end <= toks@.len(),
    ensures
        r matches Ok((f, n)) ==> spec_reg_field(toks@, i as int, end as int) == Ok::<
            (RegFieldV, usize),
            MacroError,
        >((f@, n)) && i < n <= end,
        r matches Err(e) ==> spec_reg_field(toks@, i as int, end as int) == Err::<
            (RegFieldV, usize),
            MacroError,
        >(e),
{
    let a = outer_attrs(toks, i, end)?;
    let k = expect_ident(toks, a, end)?;
    let p = expect_punct2(toks, k, end, '=', '>')?;
    let c = expect_group(toks, p, end, Delim::Brace)?;
    let mut offset: Option<usize> = None;
    let mut width: Option<usize> = None;
    let mut traits: Vec<usize> = Vec::new();
    let mut j = p + 1;
    let ghost init = FieldEntries { offset: None, width: None, traits: Seq::empty() };
    assert(traits@ =~= Seq::<usize>::empty());
    while j < c
        invariant
            c <= toks@.len(),
            p < j,
            spec_field_entries(toks@, p + 1, c as int, init) == spec_field_entries(
                toks@,
                j as int,
                c as int,
                FieldEntries { offset, width, traits: traits@ },
            ),
        decreases c - j,
    {
        let k2 = expect_ident(toks, j, c)?;
        let p2 = expect_punct2(toks, k2, c, '=', '>')?;
        let q;
        if peek_word(toks, j, c, "offset") {
            if offset.is_some() {
                return Err(MacroError { at: p2, kind: ErrorKind::MultipleKey("offset") });
            }
            q = expect_int_lit(toks, p2, c)?;
            offset = Some(p2);
        } else if peek_word(toks, j, c, "width") {
            if width.is_some() {
                return Err(MacroError { at: p2, kind: ErrorKind::MultipleKey("width") });
            }
            q = expect_int_lit(toks, p2, c)?;
            width = Some(p2);
        } else if peek_word(toks, j, c, "traits") {
            let gc = expect_group(toks, p2, c, Delim::Brace)?;
            parse_idents(toks, p2 + 1, gc, &mut traits)?;
            q = gc + 1;
        } else {
            return Err(MacroError { at: p2, kind: ErrorKind::UnknownKey });
        }
        if q < c {
            j = expect_punct(toks, q, c, ';')?;
        } else {
            j = q;
        }
    }
    match (offset, width) {
        (None, _) => Err(MacroError { at: c, kind: ErrorKind::MissingKey("offset") }),
        (Some(_), None) => Err(MacroError { at: c, kind: ErrorKind::MissingKey("width") }),
        (Some(o), Some(w)) => Ok(
            (RegField { attrs: Span { start: i, end: a }, ident: a, offset: o, width: w, traits }, c
                + 1),
        ),
    }
}

/// The fields `field; field; ..` of a `fields => { .. }` group, `[i, end)`
/// being its contents.
pub open spec fn spec_reg_fields(toks: Seq<Tok>, i: int, end: int) -> Result<
    Seq<RegFieldV>,
    MacroError,
>
    decreases end - i,
{
    if i >= end {
        Ok(Seq::empty())
    } else {
        match spec_reg_field(toks, i, end) {
            Err(e) => Err(e),
            Ok((f, q)) => {
                let next: Result<int, MacroError> = if q < end {
                    match spec_expect_punct(toks, q as int, end, ';') {
                        Err(e) => Err(e),
                        Ok(q2) => Ok(q2 as int),
                    }
                } else {
                    Ok(q as int)
                };
                match next {
                    Err(e) => Err(e),
                    Ok(n) => if n > i && n <= end {
                        match spec_reg_fields(toks, n, end) {
                            Err(e) => Err(e),
                            Ok(rest) => Ok(seq![f] + rest),
                        }
                    } else {
                        Ok(seq![f])
                    },
                }
            },
        }
    }
}

pub open spec fn fields_view(v: Seq<RegField>) -> Seq<RegFieldV> {
    v.map_values(|f: RegField| f@)
}

fn parse_reg_fields(toks: &Vec<Tok>, i: usize, end: usize, out: &mut Vec<RegField>) -> (r: Result<
    (),
    MacroError,
>)
    requires
        end <= toks@.len(),
    ensures
        r matches Err(e) ==> spec_reg_fields(toks@, i as int, end as int) == Err::<
            Seq<RegFieldV>,
            MacroError,
        >(e),
        r is Ok ==> (spec_reg_fields(toks@, i as int, end as int) matches Ok(s) && fields_view(
            final(out)@,
        ) == fields_view(old(out)@) + s),
{
    let ghost start = fields_view(out@);
    let mut j = i;
    while j < end
        invariant
            end <= toks@.len(),
            i <= j,
            fields_view(out@).len() >= start.len(),
            fields_view(out@).subrange(0, start.len() as int) == start,
            spec_reg_fields(toks@, i as int, end as int) == (match spec_reg_fields(
                toks@,
                j as int,
                end as int,
            ) {
                Ok(rest) => Ok(
                    fields_view(out@).subrange(start.len() as int, fields_view(out@).len() as int)
                        + rest,
                ),
                Err(e) => Err(e),
            }),
        decreases end - j,
    {
        let ghost before = fields_view(out@);
        let (f, q) = parse_reg_field(toks, j, end)?;
        let n = if q < end {
            expect_punct(toks, q, end, ';')?
        } else {
            q
        };
        let ghost fv = f@;
        out.push(f);
        proof {
            assert(fields_view(out@) =~= before.push(fv));
            assert(fields_view(out@).subrange(0, start.len() as int) =~= start);
            match spec_reg_fields(toks@, n as int, end as int) {
                Ok(rest) => {
                    assert(before.subrange(start.len() as int, before.len() as int) + (seq![fv]
                        + rest) =~= fields_view(out@).subrange(
                        start.len() as int,
                        fields_view(out@).len() as int,
                    ) + rest);
                },
                Err(_) => {},
            }
        }
        j = n;
    }
    proof {
        let fv = fields_view(out@);
        assert(fv =~= start + fv.subrange(start.len() as int, fv.len() as int));
        assert(fv.subrange(start.len() as int, fv.len() as int) + Seq::<RegFieldV>::empty()
            =~= fv.subrange(start.len() as int, fv.len() as int));
    }
    Ok(())
}

/// A variant of the register, by the positions of its tokens.
#[derive(Debug)]
pub struct Variant {
    pub attrs: Span,
    pub vis: Vis,
    pub block: usize,
    pub ident: usize,
    pub address: usize,
    /// The width of the register in bits.
    pub size: u8,
    pub reset: usize,
    pub traits: Vec<usize>,
    pub fields: Vec<RegField>,
}

/// A variant, as a value of the specification.
pub struct VariantV {
    pub attrs: Span,
    pub vis: Vis,
    pub block: usize,
    pub ident: usize,
    pub address: usize,
    pub size: u8,
    pub reset: usize,
    pub traits: Seq<usize>,
    pub fields: Seq<RegFieldV>,
}

impl View for Variant {
    type V = VariantV;

    open spec fn view(&self) -> VariantV {
        VariantV {
            attrs: self.attrs,
            vis: self.vis,
            block: self.block,
            ident: self.ident,
            address: self.address,
            size: self.size,
            reset: self.reset,
            traits: self.traits@,
            fields: fields_view(self.fields@),
        }
    }
}

/// The entries of a variant read so far.
pub struct VariantEntries {
    pub address: Option<usize>,
    pub size: Option<u8>,
    pub reset: Option<usize>,
    pub traits: Seq<usize>,
    pub fields: Seq<RegFieldV>,
}

/// The size given at `p`: an integer literal that fits in `u8`.
pub open spec fn spec_size(toks: Seq<Tok>, p: int, end: int) -> Result<u8, MacroError> {
    match spec_expect_int_lit(toks, p, end) {
        Err(e) => Err(e),
        Ok(_) => match int_lit_value(literal_text(toks, p)) {
            Some(v) => if v <= 255 {
                Ok(v as u8)
            } else {
                err(p, ErrorKind::IntOverflow)
            },
            None => err(p, ErrorKind::ExpectedIntLit),
        },
    }
}

/// The entries `key => value;` of a variant from `i`, given those read
/// before.
pub open spec fn spec_variant_entries(
    toks: Seq<Tok>,
    i: int,
    end: int,
    st: VariantEntries,
) -> Result<VariantEntries, MacroError>
    decreases end - i,
{
    if i >= end {
        Ok(st)
    } else {
        match spec_expect_ident(toks, i, end) {
            Err(e) => Err(e),
            Ok(k) => match spec_expect_punct2(toks, k as int, end, '=', '>') {
                Err(e) => Err(e),
                Ok(p) => {
                    let step: Result<(VariantEntries, int), MacroError> = if is_word(
                        toks,
                        i,
                        end,
                        "address"@,
                    ) {
                        if st.address is Some {
                            err(p as int, ErrorKind::MultipleKey("address"))
                        } else {
                            match spec_expect_int_lit(toks, p as int, end) {
                                Err(e) => Err(e),
                                Ok(q) => Ok((VariantEntries { address: Some(p), ..st }, q as int)),
                            }
                        }
                    } else if is_word(toks, i, end, "size"@) {
                        if st.size is Some {
                            err(p as int, ErrorKind::MultipleKey("size"))
                        } else {
                            match spec_size(toks, p as int, end) {
                                Err(e) => Err(e),
                                Ok(v) => Ok((VariantEntries { size: Some(v), ..st }, p + 1)),
                            }
                        }
                    } else if is_word(toks, i, end, "reset"@) {
                        if st.reset is Some {
                            err(p as int, ErrorKind::MultipleKey("reset"))
                        } else {
                            match spec_expect_int_lit(toks, p as int, end) {
                                Err(e) => Err(e),
                                Ok(q) => Ok((VariantEntries { reset: Some(p), ..st }, q as int)),
                            }
                        }
                    } else if is_word(toks, i, end, "traits"@) {
                        match spec_expect_group(toks, p as int, end, Delim::Brace) {
                            Err(e) => Err(e),
                            Ok(c) => match spec_idents(toks, p + 1, c as int) {
                                Err(e) => Err(e),
                                Ok(ts) => Ok(
                                    (VariantEntries { traits: st.traits + ts, ..st }, c + 1),
                                ),
                            },
                        }
                    } else if is_word(toks, i, end, "fields"@) {
                        match spec_expect_group(toks, p as int, end, Delim::Brace) {
                            Err(e) => Err(e),
                            Ok(c) => match spec_reg_fields(toks, p + 1, c as int) {
                                Err(e) => Err(e),
                                Ok(fs) => Ok(
                                    (VariantEntries { fields: st.fields + fs, ..st }, c + 1),
                                ),
                            },
                        }
                    } else {
                        err(p as int, ErrorKind::UnknownKey)
                    };
                    match step {
                        Err(e) => Err(e),
                        Ok((st2, q)) => if q < end {
                            match spec_expect_punct(toks, q, end, ';') {
                                Err(e) => Err(e),
                                Ok(q2) => if q2 > i {
                                    spec_variant_entries(toks, q2 as int, end, st2)
                                } else {
                                    Ok(st2)
                                },
                            }
                        } else if q > i && q <= end {
                            spec_variant_entries(toks, q, end, st2)
                        } else {
                            Ok(st2)
                        },
                    }
                },
            },
        }
    }
}

pub open spec fn no_variant_entries() -> VariantEntries {
    VariantEntries {
        address: None,
        size: None,
        reset: None,
        traits: Seq::empty(),
        fields: Seq::empty(),
    }
}

/// A variant `attrs vis Block Name => { .. }` at `i`.
pub open spec fn spec_variant(toks: Seq<Tok>, i: int, end: int) -> Result<
    (VariantV, usize),
    MacroError,
> {
    match spec_outer_attrs(toks, i, end) {
        Err(e) => Err(e),
        Ok(a) => {
            let v = spec_vis(toks, a as int, end);
            let b = v.span.end as int;
            match spec_expect_ident(toks, b, end) {
                Err(e) => Err(e),
                Ok(_) => match spec_expect_ident(toks, b + 1, end) {
                    Err(e) => Err(e),
                    Ok(_) => match spec_expect_punct2(toks, b + 2, end, '=', '>') {
                        Err(e) => Err(e),
                        Ok(p) => match spec_expect_group(toks, p as int, end, Delim::Brace) {
                            Err(e) => Err(e),
                            Ok(c) => match spec_variant_entries(
                                toks,
                                p + 1,
                                c as int,
                                no_variant_entries(),
                            ) {
                                Err(e) => Err(e),
                                Ok(st) => match (st.address, st.size, st.reset) {
                                    (None, _, _) => err(c as int, ErrorKind::MissingKey("address")),
                                    (Some(_), None, _) => err(
                                        c as int,
                                        ErrorKind::MissingKey("size"),
                                    ),
                                    (Some(_), Some(_), None) => err(
                                        c as int,
                                        ErrorKind::MissingKey("reset"),
                                    ),
                                    (Some(ad), Some(sz), Some(rs)) => Ok(
                                        (
                                            VariantV {
                                                attrs: Span { start: i as usize, end: a },
                                                vis: v,
                                                block: b as usize,
                                                ident: (b + 1) as usize,
                                                address: ad,
                                                size: sz,
                                                reset: rs,
                                                traits: st.traits,
                                                fields: st.fields,
                                            },
                                            (c + 1) as usize,
                                        ),
                                    ),
                                },
                            },
                        },
                    },
                },
            }
        },
    }
}

pub fn parse_size(toks: &Vec<Tok>, p: usize, end: usize) -> (r: Result<u8, MacroError>)
    requires
        end <= toks@.len(),
    ensures
        r == spec_size(toks@, p as int, end as int),
{
    expect_int_lit(toks, p, end)?;
    match int_lit_at(toks, p, end) {
        IntLit::Value(v) => if v <= 255 {
            Ok(v as u8)
        } else {
            Err(MacroError { at: p, kind: ErrorKind::IntOverflow })
        },
        IntLit::Huge => Err(MacroError { at: p, kind: ErrorKind::IntOverflow }),
        IntLit::NotInt => Err(MacroError { at: p, kind: ErrorKind::ExpectedIntLit }),
    }
}

#[verifier::loop_isolation(false)]
fn parse_variant(toks: &Vec<Tok>, i: usize, end: usize) -> (r: Result<(Variant, usize), MacroError>)
    requires
        end <= toks@.len(),
    ensures
        r matches Ok((v, n)) ==> spec_variant(toks@, i as int, end as int) == Ok::<
            (VariantV, usize),
            MacroError,
        >((v@, n)) && i < n <= end,
        r matches Err(e) ==> spec_variant(toks@, i as int, end as int) == Err::<
            (VariantV, usize),
            MacroError,
        >(e),
{
    let a = outer_attrs(toks, i, end)?;
    let v = parse_vis(toks, a, end);
    let b = v.span.end;
    expect_ident(toks, b, end)?;
    expect_ident(toks, b + 1, end)?;
    let p = expect_punct2(toks, b + 2, end, '=', '>')?;
    let c = expect_group(toks, p, end, Delim::Brace)?;
    let mut address: Option<usize> = None;
    let mut size: Option<u8> = None;
    let mut reset: Option<usize> = None;
    let mut traits: Vec<usize> = Vec::new();
    let mut fields: Vec<RegField> = Vec::new();
    let mut j = p + 1;
    assert(fields_view(fields@) =~= Seq::<RegFieldV>::empty());
    assert(traits@ =~= Seq::<usize>::empty());
    while j < c
        invariant
            c <= toks@.len(),
            p < j,
            spec_variant_entries(toks@, p + 1, c as int, no_variant_entries())
                == spec_variant_entries(
                toks@,
                j as int,
                c as int,
                VariantEntries {
                    address,
                    size,
                    reset,
                    traits: traits@,
                    fields: fields_view(fields@),
                },
            ),
        decreases c - j,
    {
        let k2 = expect_ident(toks, j, c)?;
        let p2 = expect_punct2(toks, k2, c, '=', '>')?;
        let q;
        if peek_word(toks, j, c, "address") {
            if address.is_some() {
                return Err(MacroError { at: p2, kind: ErrorKind::MultipleKey("address") });
            }
            q = expect_int_lit(toks, p2, c)?;
            address = Some(p2);
        } else if peek_word(toks, j, c, "size") {
            if size.is_some() {
                return Err(MacroError { at: p2, kind: ErrorKind::MultipleKey("size") });
            }
            size = Some(parse_size(toks, p2, c)?);
            q = p2 + 1;
        } else if peek_word(toks, j, c, "reset") {
            if reset.is_some() {
                return Err(MacroError { at: p2, kind: ErrorKind::MultipleKey("reset") });
            }
            q = expect_int_lit(toks, p2, c)?;
            reset = Some(p2);
        } else if peek_word(toks, j, c, "traits") {
            let gc = expect_group(toks, p2, c, Delim::Brace)?;
            parse_idents(toks, p2 + 1, gc, &mut traits)?;
            q = gc + 1;
        } else if peek_word(toks, j, c, "fields") {
            let gc = expect_group(toks, p2, c, Delim::Brace)?;
            parse_reg_fields(toks, p2 + 1, gc, &mut fields)?;
            q = gc + 1;
        } else {
            return Err(MacroError { at: p2, kind: ErrorKind::UnknownKey });
        }
        if q < c {
            j = expect_punct(toks, q, c, ';')?;
        } else {
            j = q;
        }
    }
    match (address, size, reset) {
        (None, _, _) => Err(MacroError { at: c, kind: ErrorKind::MissingKey("address") }),
        (Some(_), None, _) => Err(MacroError { at: c, kind: ErrorKind::MissingKey("size") }),
        (Some(_), Some(_), None) => Err(MacroError { at: c, kind: ErrorKind::MissingKey("reset") }),
        (Some(ad), Some(sz), Some(rs)) => Ok(
            (
                Variant {
                    attrs: Span { start: i, end: a },
                    vis: v,
                    block: b,
                    ident: b + 1,
                    address: ad,
                    size: sz,
                    reset: rs,
                    traits,
                    fields,
                },
                c + 1,
            ),
        ),
    }
}

/// The variants of `reg!`, each but the last followed by `;`.
pub open spec fn spec_variants(toks: Seq<Tok>, i: int, end: int) -> Result<
    Seq<VariantV>,
    MacroError,
>
    decreases end - i,
{
    if i >= end {
        Ok(Seq::empty())
    } else {
        match spec_variant(toks, i, end) {
            Err(e) => Err(e),
            Ok((v, q)) => {
                let next: Result<int, MacroError> = if q < end {
                    match spec_expect_punct(toks, q as int, end, ';') {
                        Err(e) => Err(e),
                        Ok(q2) => Ok(q2 as int),
                    }
                } else {
                    Ok(q as int)
                };
                match next {
                    Err(e) => Err(e),
                    Ok(n) => if n > i && n <= end {
                        match spec_variants(toks, n, end) {
                            Err(e) => Err(e),
                            Ok(rest) => Ok(seq![v] + rest),
                        }
                    } else {
                        Ok(seq![v])
                    },
                }
            },
        }
    }
}

pub open spec fn variants_view(v: Seq<Variant>) -> Seq<VariantV> {
    v.map_values(|x: Variant| x@)
}

/// Reads the input of `reg!`.
pub fn parse_reg_input(toks: &Vec<Tok>) -> (r: Result<Vec<Variant>, MacroError>)
    ensures
        r matches Ok(v) ==> spec_variants(toks@, 0, toks@.len() as int) == Ok::<
            Seq<VariantV>,
            MacroError,
        >(variants_view(v@)),
        r matches Err(e) ==> spec_variants(toks@, 0, toks@.len() as int) == Err::<
            Seq<VariantV>,
            MacroError,
        >(e),
{
    let end = toks.len();
    let mut out: Vec<Variant> = Vec::new();
    let mut j: usize = 0;
    while j < end
        invariant
            end == toks@.len(),
            spec_variants(toks@, 0, end as int) == (match spec_variants(
                toks@,
                j as int,
                end as int,
            ) {
                Ok(rest) => Ok(variants_view(out@) + rest),
                Err(e) => Err(e),
            }),
        decreases end - j,
    {
        let ghost before = variants_view(out@);
        let (v, q) = parse_variant(toks, j, end)?;
        let n = if q < end {
            expect_punct(toks, q, end, ';')?
        } else {
            q
        };
        let ghost vv = v@;
        out.push(v);
        proof {
            assert(variants_view(out@) =~= before.push(vv));
            match spec_variants(toks@, n as int, end as int) {
                Ok(rest) => {
                    assert(before + (seq![vv] + rest) =~= variants_view(out@) + rest);
                },
                Err(_) => {},
            }
        }
        j = n;
    }
    assert(variants_view(out@) + Seq::<VariantV>::empty() =~= variants_view(out@));
    Ok(out)
}

// ---------------------------------------------------------------------------
// The expansion

/// The name of a variant's module: the block and the register, in snake case,
/// joined by `_`.
pub open spec fn reg_full_name(toks: Seq<Tok>, v: VariantV) -> Seq<char> {
    inflector_snake(ident_text(toks, v.block as int)) + "_"@ + inflector_snake(
        ident_text(toks, v.ident as int),
    )
}

/// The name of a field's token type: the field in Pascal case, with `_`
/// appended where that is `Val`, the name of the register's value type.
pub open spec fn field_type_name(name: Seq<char>) -> Seq<char> {
    let p = inflector_pascal(name);
    if p == "Val"@ {
        p + "_"@
    } else {
        p
    }
}

/// What a field of a variant expands to.
#[derive(Debug)]
pub struct FieldPlan {
    /// The field in snake case.
    pub snk: String,
    /// The name of the field's token type.
    pub psc: String,
    /// The name of the field in the register's token: the snake case name,
    /// made a valid identifier.
    pub ident: String,
    /// The `cfg` attributes of the field, which also guard its impls.
    pub cfg_attrs: Vec<usize>,
    /// The field is one bit wide.
    pub bit: bool,
    /// The field has a reader on the register's hold (`RRRegField`).
    pub read: bool,
    /// The field has writers on the register's hold (`WWRegField`).
    pub write: bool,
    /// The names of the writers: `set_`, `clear_`, `toggle_` for a bit,
    /// `write_` for wider fields, followed by the snake case name.
    pub set_name: String,
    pub clear_name: String,
    pub toggle_name: String,
    pub write_name: String,
}

pub struct FieldPlanV {
    pub snk: Seq<char>,
    pub psc: Seq<char>,
    pub ident: Seq<char>,
    pub cfg_attrs: Seq<usize>,
    pub bit: bool,
    pub read: bool,
    pub write: bool,
    pub set_name: Seq<char>,
    pub clear_name: Seq<char>,
    pub toggle_name: Seq<char>,
    pub write_name: Seq<char>,
}

impl View for FieldPlan {
    type V = FieldPlanV;

    open spec fn view(&self) -> FieldPlanV {
        FieldPlanV {
            snk: self.snk@,
            psc: self.psc@,
            ident: self.ident@,
            cfg_attrs: self.cfg_attrs@,
            bit: self.bit,
            read: self.read,
            write: self.write,
            set_name: self.set_name@,
            clear_name: self.clear_name@,
            toggle_name: self.toggle_name@,
            write_name: self.write_name@,
        }
    }
}

/// The expansion of the field `f`.
pub open spec fn field_plan(toks: Seq<Tok>, f: RegFieldV) -> FieldPlanV {
    let name = ident_text(toks, f.ident as int);
    let snk = inflector_snake(name);
    FieldPlanV {
        snk,
        psc: field_type_name(name),
        ident: unkeywordize(snk),
        cfg_attrs: named_attrs(toks, f.attrs.start as int, f.attrs.end as int, "cfg"@),
        bit: int_lit_value(literal_text(toks, f.width as int)) == Some(1nat),
        read: has_name(toks, f.traits, "RRRegField"@),
        write: has_name(toks, f.traits, "WWRegField"@),
        set_name: "set_"@ + snk,
        clear_name: "clear_"@ + snk,
        toggle_name: "toggle_"@ + snk,
        write_name: "write_"@ + snk,
    }
}

/// The accessors of a field are named after it: the reader is the field's
/// name in snake case (kept clear of keywords), and each writer is its
/// operation, `_`, and that name: `set_`, `clear_`, `toggle_` for a one-bit
/// field, `write_` for a wider one; a field is one bit wide exactly when
/// its width is one.
pub proof fn law_field_accessor_names(toks: Seq<Tok>, f: RegFieldV)
    ensures
        ({
            let p = field_plan(toks, f);
            let snk = inflector_snake(ident_text(toks, f.ident as int));
            &&& p.ident == unkeywordize(snk)
            &&& p.set_name == "set_"@ + snk
            &&& p.clear_name == "clear_"@ + snk
            &&& p.toggle_name == "toggle_"@ + snk
            &&& p.write_name == "write_"@ + snk
            &&& p.bit == (int_lit_value(literal_text(toks, f.width as int)) == Some(1nat))
        }),
{
}

/// The traits a variant's module imports: the variant's traits and its
/// fields', each name once, in the order of their first appearance.
pub open spec fn field_imports(toks: Seq<Tok>, acc: Seq<usize>, fs: Seq<RegFieldV>) -> Seq<usize>
    decreases fs.len(),
{
    if fs.len() == 0 {
        acc
    } else {
        field_imports(toks, add_names(toks, acc, fs[0].traits), fs.drop_first())
    }
}

pub open spec fn variant_imports(toks: Seq<Tok>, v: VariantV) -> Seq<usize> {
    field_imports(toks, add_names(toks, Seq::empty(), v.traits), v.fields)
}

proof fn lemma_has_name_carries(toks: Seq<Tok>, a: Seq<usize>, b: Seq<usize>, name: Seq<char>)
    requires
        has_name(toks, a, name),
        forall|k: int| 0 <= k < a.len() ==> has_name(toks, b, ident_text(toks, #[trigger] a[k] as int)),
    ensures
        has_name(toks, b, name),
{
    let k = choose|k: int| 0 <= k < a.len() && #[trigger] ident_text(toks, a[k] as int) == name;
    assert(has_name(toks, b, ident_text(toks, a[k] as int)));
}

proof fn lemma_field_imports(toks: Seq<Tok>, acc: Seq<usize>, fs: Seq<RegFieldV>)
    requires
        distinct_names(toks, acc),
    ensures
        distinct_names(toks, field_imports(toks, acc, fs)),
        forall|k: int|
            0 <= k < acc.len() ==> has_name(
                toks,
                field_imports(toks, acc, fs),
                ident_text(toks, #[trigger] acc[k] as int),
            ),
        forall|m: int, t: int|
            0 <= m < fs.len() && 0 <= t < fs[m].traits.len() ==> has_name(
                toks,
                field_imports(toks, acc, fs),
                ident_text(toks, #[trigger] fs[m].traits[t] as int),
            ),
    decreases fs.len(),
{
    let res = field_imports(toks, acc, fs);
    if fs.len() == 0 {
        assert forall|k: int| 0 <= k < acc.len() implies has_name(
            toks,
            res,
            ident_text(toks, #[trigger] acc[k] as int),
        ) by {
            assert(ident_text(toks, res[k] as int) == ident_text(toks, acc[k] as int));
        }
    } else {
        let ps = fs[0].traits;
        let acc2 = add_names(toks, acc, ps);
        lemma_add_names(toks, acc, ps);
        lemma_field_imports(toks, acc2, fs.drop_first());
        assert(res == field_imports(toks, acc2, fs.drop_first()));
        assert forall|k: int| 0 <= k < acc.len() implies has_name(
            toks,
            res,
            ident_text(toks, #[trigger] acc[k] as int),
        ) by {
            assert((acc + ps)[k] == acc[k]);
            lemma_has_name_carries(toks, acc2, res, ident_text(toks, acc[k] as int));
        }
        assert forall|m: int, t: int| 0 <= m < fs.len() && 0 <= t < fs[m].traits.len() implies has_name(
            toks,
            res,
            ident_text(toks, #[trigger] fs[m].traits[t] as int),
        ) by {
            if m == 0 {
                assert((acc + ps)[acc.len() + t] == ps[t]);
                lemma_has_name_carries(toks, acc2, res, ident_text(toks, ps[t] as int));
            } else {
                assert(fs.drop_first()[m - 1] == fs[m]);
            }
        }
    }
}

/// The traits that a variant's module imports are named once each, and
/// every trait that the variant or one of its fields names is among them.
pub proof fn law_imports_distinct_and_complete(toks: Seq<Tok>, v: VariantV)
    ensures
        distinct_names(toks, variant_imports(toks, v)),
        forall|t: int|
            0 <= t < v.traits.len() ==> has_name(
                toks,
                variant_imports(toks, v),
                ident_text(toks, #[trigger] v.traits[t] as int),
            ),
        forall|m: int, t: int|
            0 <= m < v.fields.len() && 0 <= t < v.fields[m].traits.len() ==> has_name(
                toks,
                variant_imports(toks, v),
                ident_text(toks, #[trigger] v.fields[m].traits[t] as int),
            ),
{
    let e = Seq::<usize>::empty();
    let acc = add_names(toks, e, v.traits);
    lemma_add_names(toks, e, v.traits);
    lemma_field_imports(toks, acc, v.fields);
    assert forall|t: int| 0 <= t < v.traits.len() implies has_name(
        toks,
        variant_imports(toks, v),
        ident_text(toks, #[trigger] v.traits[t] as int),
    ) by {
        assert((e + v.traits)[t] == v.traits[t]);
        lemma_has_name_carries(toks, acc, variant_imports(toks, v), ident_text(toks, v.traits[t] as int));
    }
}

/// What a variant expands to.
#[derive(Debug)]
pub struct VariantPlan {
    /// The name of the variant's module.
    pub reg_full: String,
    /// The register's value type: `u` and the size.
    pub val_ty: String,
    /// The traits the module imports.
    pub imports: Vec<usize>,
    pub fields: Vec<FieldPlan>,
}

pub struct VariantPlanV {
    pub reg_full: Seq<char>,
    pub val_ty: Seq<char>,
    pub imports: Seq<usize>,
    pub fields: Seq<FieldPlanV>,
}

impl View for VariantPlan {
    type V = VariantPlanV;

    open spec fn view(&self) -> VariantPlanV {
        VariantPlanV {
            reg_full: self.reg_full@,
            val_ty: self.val_ty@,
            imports: self.imports@,
            fields: self.fields@.map_values(|f: FieldPlan| f@),
        }
    }
}

pub open spec fn variant_plan(toks: Seq<Tok>, v: VariantV) -> VariantPlanV {
    VariantPlanV {
        reg_full: reg_full_name(toks, v),
        val_ty: "u"@ + decimal(v.size as nat),
        imports: variant_imports(toks, v),
        fields: v.fields.map_values(|f: RegFieldV| field_plan(toks, f)),
    }
}

fn plan_field(toks: &Vec<Tok>, f: &RegField) -> (r: FieldPlan)
    ensures
        r@ == field_plan(toks@, f@),
{
    let name = ident_string(toks, f.ident);
    let snk = to_snake_inflector(name.as_str());
    let mut psc = to_pascal_inflector(name.as_str());
    if eq_lit(&psc, "Val") {
        psc.append("_");
    }
    let ident = unkeywordize_exec(&snk);
    let cfg_attrs = find_named_attrs(toks, f.attrs.start, f.attrs.end, "cfg");
    let bit = width_is_one(toks, f.width);
    let read = has_name_exec(toks, &f.traits, "RRRegField");
    let write = has_name_exec(toks, &f.traits, "WWRegField");
    let set_name = cat("set_", snk.as_str());
    let clear_name = cat("clear_", snk.as_str());
    let toggle_name = cat("toggle_", snk.as_str());
    let write_name = cat("write_", snk.as_str());
    FieldPlan {
        snk,
        psc,
        ident,
        cfg_attrs,
        bit,
        read,
        write,
        set_name,
        clear_name,
        toggle_name,
        write_name,
    }
}

fn width_is_one(toks: &Vec<Tok>, w: usize) -> (r: bool)
    ensures
        r == (int_lit_value(literal_text(toks@, w as int)) == Some(1nat)),
{
    if w < toks.len() {
        match &toks[w] {
            Tok::Literal(text) => matches!(read_int_lit(text), IntLit::Value(1)),
            _ => {
                assert(int_lit_value(Seq::<char>::empty()) is None);
                false
            },
        }
    } else {
        assert(int_lit_value(Seq::<char>::empty()) is None);
        false
    }
}

fn reg_full_exec(toks: &Vec<Tok>, v: &Variant) -> (r: String)
    ensures
        r@ == reg_full_name(toks@, v@),
{
    let b = to_snake_inflector(ident_string(toks, v.block).as_str());
    let i = to_snake_inflector(ident_string(toks, v.ident).as_str());
    cat3(b.as_str(), "_", i.as_str())
}

fn plan_variant(toks: &Vec<Tok>, v: &Variant) -> (r: VariantPlan)
    ensures
        r@ == variant_plan(toks@, v@),
{
    let reg_full = reg_full_exec(toks, v);
    let val_ty = cat("u", decimal_u8(v.size).as_str());
    let mut imports: Vec<usize> = Vec::new();
    add_names_exec(toks, &mut imports, &v.traits);
    let ghost fs = fields_view(v.fields@);
    let mut fields: Vec<FieldPlan> = Vec::new();
    let mut k: usize = 0;
    assert(fs.skip(0) =~= fs);
    while k < v.fields.len()
        invariant
            k <= v.fields@.len(),
            fs == fields_view(v.fields@),
            variant_imports(toks@, v@) == field_imports(toks@, imports@, fs.skip(k as int)),
            fields@.map_values(|f: FieldPlan| f@) == fs.take(k as int).map_values(
                |f: RegFieldV| field_plan(toks@, f),
            ),
        decreases v.fields@.len() - k,
    {
        let f = &v.fields[k];
        add_names_exec(toks, &mut imports, &f.traits);
        let ghost before = fields@.map_values(|f: FieldPlan| f@);
        let fp = plan_field(toks, f);
        let ghost pv = fp@;
        fields.push(fp);
        proof {
            assert(fields@.map_values(|f: FieldPlan| f@) =~= before.push(pv));
            assert(fs[k as int] == f@);
            assert(fs.take(k + 1).map_values(|f: RegFieldV| field_plan(toks@, f)) =~= fs.take(
                k as int,
            ).map_values(|f: RegFieldV| field_plan(toks@, f)).push(field_plan(toks@, f@)));
            assert(fs.skip(k as int)[0] == f@);
            assert(fs.skip(k as int).drop_first() =~= fs.skip(k + 1));
            assert(fs.take(k + 1) =~= fs.take(k as int).push(f@));
            assert(fields@.map_values(|f: FieldPlan| f@) =~= fs.take(k + 1).map_values(
                |f: RegFieldV| field_plan(toks@, f),
            ));
        }
        k = k + 1;
    }
    assert(fs.take(k as int) =~= fs);
    assert(fs.skip(k as int).len() == 0);
    VariantPlan { reg_full, val_ty, imports, fields }
}

/// A conversion of the token of one variant into another's: the indices of
/// the two variants, the method's name and its documentation.
#[derive(Debug)]
pub struct Conversion {
    pub src: usize,
    pub dst: usize,
    pub name: String,
    pub doc: String,
}

pub open spec fn conversion_view(c: Conversion) -> (usize, usize, Seq<char>, Seq<char>) {
    (c.src, c.dst, c.name@, c.doc@)
}

/// The conversion from variant `i` to variant `j`.
pub open spec fn conversion(toks: Seq<Tok>, vs: Seq<VariantV>, i: int, j: int) -> (
    usize,
    usize,
    Seq<char>,
    Seq<char>,
) {
    let src = reg_full_name(toks, vs[i]);
    let dst = reg_full_name(toks, vs[j]);
    (
        i as usize,
        j as usize,
        "into_"@ + dst,
        "Converts the token of variant `"@ + src + "`, to a token of variant `"@ + dst + "`."@,
    )
}

/// The conversions from variant `i` to the variants before `j`, but itself.
pub open spec fn conversion_row(toks: Seq<Tok>, vs: Seq<VariantV>, i: int, j: int) -> Seq<
    (usize, usize, Seq<char>, Seq<char>),
>
    decreases j,
{
    if j <= 0 {
        Seq::empty()
    } else if j - 1 == i {
        conversion_row(toks, vs, i, j - 1)
    } else {
        conversion_row(toks, vs, i, j - 1).push(conversion(toks, vs, i, j - 1))
    }
}

/// The conversions from the variants before `i` to every other variant.
pub open spec fn conversion_rows(toks: Seq<Tok>, vs: Seq<VariantV>, i: int) -> Seq<
    (usize, usize, Seq<char>, Seq<char>),
>
    decreases i,
{
    if i <= 0 {
        Seq::empty()
    } else {
        conversion_rows(toks, vs, i - 1) + conversion_row(toks, vs, i - 1, vs.len() as int)
    }
}

/// One of the conversions goes from variant `a` to variant `b`.
pub open spec fn has_pair(cs: Seq<(usize, usize, Seq<char>, Seq<char>)>, a: int, b: int) -> bool {
    exists|m: int| 0 <= m < cs.len() && (#[trigger] cs[m]).0 == a && cs[m].1 == b
}

proof fn lemma_conversion_row(toks: Seq<Tok>, vs: Seq<VariantV>, i: int, j: int)
    requires
        0 <= i < vs.len(),
        0 <= j <= vs.len(),
        vs.len() <= usize::MAX,
    ensures
        conversion_row(toks, vs, i, j).len() == (if i < j { j - 1 } else { j }),
        forall|m: int|
            0 <= m < conversion_row(toks, vs, i, j).len() ==> {
                let c = #[trigger] conversion_row(toks, vs, i, j)[m];
                &&& c.0 == i
                &&& c.1 < j
                &&& c.1 != i
                &&& c == conversion(toks, vs, i, c.1 as int)
            },
        forall|m1: int, m2: int|
            0 <= m1 < m2 < conversion_row(toks, vs, i, j).len() ==> (#[trigger] conversion_row(
                toks,
                vs,
                i,
                j,
            )[m1]).1 < (#[trigger] conversion_row(toks, vs, i, j)[m2]).1,
        forall|b: int| 0 <= b < j && b != i ==> #[trigger] has_pair(conversion_row(toks, vs, i, j), i, b),
    decreases j,
{
    if j > 0 {
        lemma_conversion_row(toks, vs, i, j - 1);
        let prev = conversion_row(toks, vs, i, j - 1);
        let row = conversion_row(toks, vs, i, j);
        if j - 1 != i {
            assert(row == prev.push(conversion(toks, vs, i, j - 1)));
            assert forall|b: int| 0 <= b < j && b != i implies #[trigger] has_pair(row, i, b) by {
                if b < j - 1 {
                    assert(has_pair(prev, i, b));
                    let m = choose|m: int| 0 <= m < prev.len() && (#[trigger] prev[m]).0 == i && prev[m].1 == b;
                    assert(row[m] == prev[m]);
                } else {
                    assert(row[prev.len() as int].0 == i && row[prev.len() as int].1 == b);
                }
            }
        } else {
            assert forall|b: int| 0 <= b < j && b != i implies #[trigger] has_pair(row, i, b) by {
                assert(has_pair(prev, i, b));
            }
        }
    }
}

/// The conversions between the tokens of the variants are exactly the
/// ordered pairs of two distinct variants, each once: there are n (n - 1)
/// of them, in the order of the source variant and then of the target, and
/// each is the conversion of its pair.
pub proof fn law_conversions_are_distinct_pairs(toks: Seq<Tok>, vs: Seq<VariantV>)
    requires
        vs.len() <= usize::MAX,
    ensures
        conversion_rows(toks, vs, vs.len() as int).len() == vs.len() * (vs.len() - 1),
        forall|m: int|
            0 <= m < conversion_rows(toks, vs, vs.len() as int).len() ==> {
                let c = #[trigger] conversion_rows(toks, vs, vs.len() as int)[m];
                &&& c.0 < vs.len()
                &&& c.1 < vs.len()
                &&& c.0 != c.1
                &&& c == conversion(toks, vs, c.0 as int, c.1 as int)
            },
        forall|m1: int, m2: int|
            0 <= m1 < m2 < conversion_rows(toks, vs, vs.len() as int).len() ==> {
                let c1 = #[trigger] conversion_rows(toks, vs, vs.len() as int)[m1];
                let c2 = #[trigger] conversion_rows(toks, vs, vs.len() as int)[m2];
                c1.0 < c2.0 || (c1.0 == c2.0 && c1.1 < c2.1)
            },
        forall|a: int, b: int|
            0 <= a < vs.len() && 0 <= b < vs.len() && a != b ==> #[trigger] has_pair(
                conversion_rows(toks, vs, vs.len() as int),
                a,
                b,
            ),
{
    lemma_conversion_rows(toks, vs, vs.len() as int);
}

proof fn lemma_conversion_rows(toks: Seq<Tok>, vs: Seq<VariantV>, i: int)
    requires
        0 <= i <= vs.len(),
        vs.len() <= usize::MAX,
    ensures
        conversion_rows(toks, vs, i).len() == i * (vs.len() - 1),
        forall|m: int|
            0 <= m < conversion_rows(toks, vs, i).len() ==> {
                let c = #[trigger] conversion_rows(toks, vs, i)[m];
                &&& c.0 < i
                &&& c.1 < vs.len()
                &&& c.0 != c.1
                &&& c == conversion(toks, vs, c.0 as int, c.1 as int)
            },
        forall|m1: int, m2: int|
            0 <= m1 < m2 < conversion_rows(toks, vs, i).len() ==> {
                let c1 = #[trigger] conversion_rows(toks, vs, i)[m1];
                let c2 = #[trigger] conversion_rows(toks, vs, i)[m2];
                c1.0 < c2.0 || (c1.0 == c2.0 && c1.1 < c2.1)
            },
        forall|a: int, b: int|
            0 <= a < i && 0 <= b < vs.len() && a != b ==> #[trigger] has_pair(
                conversion_rows(toks, vs, i),
                a,
                b,
            ),
    decreases i,
{
    let n = vs.len() as int;
    if i > 0 {
        lemma_conversion_rows(toks, vs, i - 1);
        lemma_conversion_row(toks, vs, i - 1, n);
        let pre = conversion_rows(toks, vs, i - 1);
        let row = conversion_row(toks, vs, i - 1, n);
        let all = conversion_rows(toks, vs, i);
        assert(all == pre + row);
        assert(all.len() == i * (n - 1)) by (nonlinear_arith)
            requires
                all.len() == pre.len() + row.len(),
                pre.len() == (i - 1) * (n - 1),
                row.len() == n - 1,
        ;
        assert forall|m: int| 0 <= m < all.len() implies {
            let c = #[trigger] all[m];
            &&& c.0 < i
            &&& c.1 < n
            &&& c.0 != c.1
            &&& c == conversion(toks, vs, c.0 as int, c.1 as int)
        } by {
            if m < pre.len() {
                assert(all[m] == pre[m]);
            } else {
                assert(all[m] == row[m - pre.len()]);
            }
        }
        assert forall|m1: int, m2: int| 0 <= m1 < m2 < all.len() implies {
            let c1 = #[trigger] all[m1];
            let c2 = #[trigger] all[m2];
            c1.0 < c2.0 || (c1.0 == c2.0 && c1.1 < c2.1)
        } by {
            if m2 < pre.len() {
                assert(all[m1] == pre[m1]);
                assert(all[m2] == pre[m2]);
            } else if m1 < pre.len() {
                assert(all[m1] == pre[m1]);
                assert(all[m2] == row[m2 - pre.len()]);
            } else {
                assert(all[m1] == row[m1 - pre.len()]);
                assert(all[m2] == row[m2 - pre.len()]);
            }
        }
        assert forall|a: int, b: int| 0 <= a < i && 0 <= b < n && a != b implies #[trigger] has_pair(
            all,
            a,
            b,
        ) by {
            if a < i - 1 {
                assert(has_pair(pre, a, b));
                let m = choose|m: int| 0 <= m < pre.len() && (#[trigger] pre[m]).0 == a && pre[m].1 == b;
                assert(all[m] == pre[m]);
            } else {
                assert(has_pair(row, a, b));
                let m = choose|m: int| 0 <= m < row.len() && (#[trigger] row[m]).0 == a && row[m].1 == b;
                assert(all[pre.len() + m] == row[m]);
            }
        }
    }
}

fn convert(toks: &Vec<Tok>, vs: &Vec<Variant>, names: &Vec<String>, i: usize, j: usize) -> (r: Conversion)
    requires
        i < vs@.len(),
        j < vs@.len(),
        names@.len() == vs@.len(),
        forall|k: int| 0 <= k < vs@.len() ==> (#[trigger] names@[k])@ == reg_full_name(
            toks@,
            vs@[k]@,
        ),
    ensures
        conversion_view(r) == conversion(toks@, variants_view(vs@), i as int, j as int),
{
    let src = &names[i];
    let dst = &names[j];
    let name = cat("into_", dst.as_str());
    let doc = cat3("Converts the token of variant `", src.as_str(), "`, to a token of variant `");
    let doc = cat3(doc.as_str(), dst.as_str(), "`.");
    Conversion { src: i, dst: j, name, doc }
}

/// What `reg!` expands to: a module for each variant, and the conversions
/// between the variants' tokens.
#[derive(Debug)]
pub struct RegPlan {
    pub variants: Vec<Variant>,
    pub plans: Vec<VariantPlan>,
    pub conversions: Vec<Conversion>,
}

/// `reg!` on the input `toks`.
pub fn reg(toks: &Vec<Tok>) -> (r: Result<RegPlan, MacroError>)
    ensures
        r matches Err(e) ==> spec_variants(toks@, 0, toks@.len() as int) == Err::<
            Seq<VariantV>,
            MacroError,
        >(e),
        r matches Ok(p) ==> {
            &&& spec_variants(toks@, 0, toks@.len() as int) == Ok::<Seq<VariantV>, MacroError>(
                variants_view(p.variants@),
            )
            &&& p.plans@.map_values(|v: VariantPlan| v@) == variants_view(p.variants@).map_values(
                |v: VariantV| variant_plan(toks@, v),
            )
            &&& p.conversions@.map_values(|c: Conversion| conversion_view(c)) == conversion_rows(
                toks@,
                variants_view(p.variants@),
                p.variants@.len() as int,
            )
        },
{
    let variants = parse_reg_input(toks)?;
    let n = variants.len();
    let ghost vs = variants_view(variants@);
    let mut plans: Vec<VariantPlan> = Vec::new();
    let mut names: Vec<String> = Vec::new();
    let mut k: usize = 0;
    while k < n
        invariant
            n == variants@.len(),
            vs == variants_view(variants@),
            spec_variants(toks@, 0, toks@.len() as int) == Ok::<Seq<VariantV>, MacroError>(vs),
            k <= n,
            plans@.len() == k,
            names@.len() == k,
            forall|m: int| 0 <= m < k ==> (#[trigger] names@[m])@ == reg_full_name(
                toks@,
                vs[m],
            ),
            forall|m: int| 0 <= m < k ==> (#[trigger] plans@[m])@ == variant_plan(toks@, vs[m]),
        decreases n - k,
    {
        let v = &variants[k];
        plans.push(plan_variant(toks, v));
        names.push(reg_full_exec(toks, v));
        k = k + 1;
    }
    assert(plans@.map_values(|v: VariantPlan| v@) =~= vs.map_values(
        |v: VariantV| variant_plan(toks@, v),
    ));
    let mut conversions: Vec<Conversion> = Vec::new();
    let mut i: usize = 0;
    while i < n
        invariant
            n == variants@.len(),
            vs == variants_view(variants@),
            names@.len() == n,
            forall|m: int| 0 <= m < n ==> (#[trigger] names@[m])@ == reg_full_name(
                toks@,
                variants@[m]@,
            ),
            i <= n,
            conversions@.map_values(|c: Conversion| conversion_view(c)) == conversion_rows(
                toks@,
                vs,
                i as int,
            ),
        decreases n - i,
    {
        let ghost row_start = conversions@.map_values(|c: Conversion| conversion_view(c));
        let mut j: usize = 0;
        while j < n
            invariant
                n == variants@.len(),
                vs == variants_view(variants@),
                names@.len() == n,
                forall|m: int| 0 <= m < n ==> (#[trigger] names@[m])@ == reg_full_name(
                    toks@,
                    variants@[m]@,
                ),
                i < n,
                j <= n,
                conversions@.map_values(|c: Conversion| conversion_view(c)) == row_start
                    + conversion_row(toks@, vs, i as int, j as int),
            decreases n - j,
        {
            if i != j {
                let ghost before = conversions@.map_values(|c: Conversion| conversion_view(c));
                let c = convert(toks, &variants, &names, i, j);
                conversions.push(c);
                assert(conversions@.map_values(|c: Conversion| conversion_view(c)) =~= before.push(
                    conversion(toks@, vs, i as int, j as int),
                ));
            }
            j = j + 1;
        }
        i = i + 1;
    }
    Ok(RegPlan { variants, plans, conversions })
}

} // verus!
