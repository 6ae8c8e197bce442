//! `reg_tokens_inner!`: the structure of register tokens that the macros of
//! `unsafe_reg_tokens!` end in: one field for each defined register, in the
//! order of the fields' names.
//!
//! The input is `attrs vis Name { attrs name path; .. } { name; .. }`: the
//! definitions, then the names to leave out. A later definition of a name
//! replaces an earlier one; a name that is left out has no field.

use crate::token::{
    Delim, MacroError, Span, Tok, Vis, expect_end, expect_group, expect_ident, expect_punct,
    ident_string, ident_text, outer_attrs, parse_path, parse_vis, spec_expect_end,
    spec_expect_group, spec_expect_ident, spec_expect_punct, spec_outer_attrs, spec_path, spec_vis,
};
use crate::static_tokens::{emit_token_path, token_path};
use crate::thr::{emit_inline_attr, inline_attr};
use crate::thr_static::{one, one_exec};
use crate::token::{TokV, emit_close, emit_joint, emit_open, emit_punct, emit_span, emit_word, span_toks, tclose, tj, topen, toks_view, tp, tw};
use vstd::prelude::*;

verus! {

/// A definition: `attrs name path;`.
#[derive(PartialEq, Eq, Structural, Clone, Copy, Debug)]
pub struct Def {
    pub attrs: Span,
    pub ident: usize,
    pub path: Span,
}

pub open spec fn spec_def(toks: Seq<Tok>, i: int, end: int) -> Result<(Def, usize), MacroError> {
    match spec_outer_attrs(toks, i, end) {
        Err(e) => Err(e),
        Ok(a) => match spec_expect_ident(toks, a as int, end) {
            Err(e) => Err(e),
            Ok(p) => match spec_path(toks, p as int, end) {
                Err(e) => Err(e),
                Ok(pe) => match spec_expect_punct(toks, pe as int, end, ';') {
                    Err(e) => Err(e),
                    Ok(q) => Ok(
                        (
                            Def {
                                attrs: Span { start: i as usize, end: a },
                                ident: a,
                                path: Span { start: p, end: pe },
                            },
                            q,
                        ),
                    ),
                },
            },
        },
    }
}

/// The definitions in `[i, end)`.
pub open spec fn spec_defs(toks: Seq<Tok>, i: int, end: int) -> Result<Seq<Def>, MacroError>
    decreases end - i,
{
    if i >= end {
        Ok(Seq::empty())
    } else {
        match spec_def(toks, i, end) {
            Err(e) => Err(e),
            Ok((d, q)) => if q > i && q <= end {
                match spec_defs(toks, q as int, end) {
                    Err(e) => Err(e),
                    Ok(rest) => Ok(seq![d] + rest),
                }
            } else {
                Ok(seq![d])
            },
        }
    }
}

/// The names to leave out in `[i, end)`: `name;` each.
pub open spec fn spec_undefs(toks: Seq<Tok>, i: int, end: int) -> Result<Seq<usize>, MacroError>
    decreases end - i,
{
    if i >= end {
        Ok(Seq::empty())
    } else {
        match spec_expect_ident(toks, i, end) {
            Err(e) => Err(e),
            Ok(p) => match spec_expect_punct(toks, p as int, end, ';') {
                Err(e) => Err(e),
                Ok(q) => if q > i && q <= end {
                    match spec_undefs(toks, q as int, end) {
                        Err(e) => Err(e),
                        Ok(rest) => Ok(seq![i as usize] + rest),
                    }
                } else {
                    Ok(seq![i as usize])
                },
            },
        }
    }
}

fn parse_def(toks: &Vec<Tok>, i: usize, end: usize) -> (r: Result<(Def, usize), MacroError>)
    ensures
        r == spec_def(toks@, i as int, end as int),
        r matches Ok((_, q)) ==> i < q <= end,
{
    let a = outer_attrs(toks, i, end)?;
    let p = expect_ident(toks, a, end)?;
    let pe = parse_path(toks, p, end)?;
    let q = expect_punct(toks, pe, end, ';')?;
    Ok((Def { attrs: Span { start: i, end: a }, ident: a, path: Span { start: p, end: pe } }, q))
}

fn parse_defs(toks: &Vec<Tok>, i: usize, end: usize) -> (r: Result<Vec<Def>, MacroError>)
    ensures
        r matches Ok(v) ==> spec_defs(toks@, i as int, end as int) == Ok::<Seq<Def>, MacroError>(
            v@,
        ),
        r matches Err(e) ==> spec_defs(toks@, i as int, end as int) == Err::<Seq<Def>, MacroError>(
            e,
        ),
{
    let mut out: Vec<Def> = Vec::new();
    let mut j = i;
    while j < end
        invariant
            i <= j,
            spec_defs(toks@, i as int, end as int) == (match spec_defs(
                toks@,
                j as int,
                end as int,
            ) {
                Ok(rest) => Ok(out@ + rest),
                Err(e) => Err(e),
            }),
        decreases end - j,
    {
        let (d, q) = parse_def(toks, j, end)?;
        let ghost before = out@;
        out.push(d);
        proof {
            match spec_defs(toks@, q as int, end as int) {
                Ok(rest) => {
                    assert(before + (seq![d] + rest) =~= out@ + rest);
                },
                Err(_) => {},
            }
        }
        j = q;
    }
    assert(out@ + Seq::<Def>::empty() =~= out@);
    Ok(out)
}

fn parse_undefs(toks: &Vec<Tok>, i: usize, end: usize) -> (r: Result<Vec<usize>, MacroError>)
    ensures
        r matches Ok(v) ==> spec_undefs(toks@, i as int, end as int) == Ok::<
            Seq<usize>,
            MacroError,
        >(v@),
        r matches Err(e) ==> spec_undefs(toks@, i as int, end as int) == Err::<
            Seq<usize>,
            MacroError,
        >(e),
{
    let mut out: Vec<usize> = Vec::new();
    let mut j = i;
    while j < end
        invariant
            i <= j,
            spec_undefs(toks@, i as int, end as int) == (match spec_undefs(
                toks@,
                j as int,
                end as int,
            ) {
                Ok(rest) => Ok(out@ + rest),
                Err(e) => Err(e),
            }),
        decreases end - j,
    {
        let p = expect_ident(toks, j, end)?;
        let q = expect_punct(toks, p, end, ';')?;
        let ghost before = out@;
        out.push(j);
        proof {
            match spec_undefs(toks@, q as int, end as int) {
                Ok(rest) => {
                    assert(before + (seq![j as usize] + rest) =~= out@ + rest);
                },
                Err(_) => {},
            }
        }
        j = q;
    }
    assert(out@ + Seq::<usize>::empty() =~= out@);
    Ok(out)
}

/// The input of `reg_tokens_inner!`.
#[derive(Debug)]
pub struct InnerInput {
    pub attrs: Span,
    pub vis: Vis,
    pub ident: usize,
    pub defs: Vec<Def>,
    pub undefs: Vec<usize>,
}

pub struct InnerInputV {
    pub attrs: Span,
    pub vis: Vis,
    pub ident: usize,
    pub defs: Seq<Def>,
    pub undefs: Seq<usize>,
}

pub open spec fn spec_inner_input(toks: Seq<Tok>) -> Result<InnerInputV, MacroError> {
    let end = toks.len() as int;
    match spec_outer_attrs(toks, 0, end) {
        Err(e) => Err(e),
        Ok(a) => {
            let v = spec_vis(toks, a as int, end);
            let id = v.span.end as int;
            match spec_expect_ident(toks, id, end) {
                Err(e) => Err(e),
                Ok(_) => match spec_expect_group(toks, id + 1, end, Delim::Brace) {
                    Err(e) => Err(e),
                    Ok(c1) => match spec_defs(toks, id + 2, c1 as int) {
                        Err(e) => Err(e),
                        Ok(defs) => match spec_expect_group(toks, c1 + 1, end, Delim::Brace) {
                            Err(e) => Err(e),
                            Ok(c2) => match spec_undefs(toks, c1 + 2, c2 as int) {
                                Err(e) => Err(e),
                                Ok(undefs) => match spec_expect_end(c2 + 1, end) {
                                    Err(e) => Err(e),
                                    Ok(_) => Ok(
                                        InnerInputV {
                                            attrs: Span { start: 0, end: a },
                                            vis: v,
                                            ident: id as usize,
                                            defs,
                                            undefs,
                                        },
                                    ),
                                },
                            },
                        },
                    },
                },
            }
        },
    }
}

/// `a` comes before `b` in the order of strings.
pub open spec fn lex_lt(a: Seq<char>, b: Seq<char>) -> bool
    decreases a.len(),
{
    if a.len() == 0 {
        b.len() > 0
    } else if b.len() == 0 {
        false
    } else if a[0] != b[0] {
        a[0] < b[0]
    } else {
        lex_lt(a.drop_first(), b.drop_first())
    }
}

/// Of two different strings, one comes before the other.
pub proof fn lemma_lex_total(a: Seq<char>, b: Seq<char>)
    requires
        a != b,
    ensures
        lex_lt(a, b) || lex_lt(b, a),
    decreases a.len(),
{
    if a.len() > 0 && b.len() > 0 && a[0] == b[0] {
        if a.drop_first() == b.drop_first() {
            assert(a =~= seq![a[0]] + a.drop_first());
            assert(b =~= seq![b[0]] + b.drop_first());
        }
        lemma_lex_total(a.drop_first(), b.drop_first());
    } else if a.len() == 0 && b.len() == 0 {
        assert(a =~= b);
    }
}

fn lex_lt_exec(a: &String, b: &String) -> (r: bool)
    ensures
        r == lex_lt(a@, b@),
{
    let sa = a.as_str();
    let sb = b.as_str();
    let na = sa.unicode_len();
    let nb = sb.unicode_len();
    let mut k: usize = 0;
    assert(a@.skip(0) =~= a@);
    assert(b@.skip(0) =~= b@);
    while k < na && k < nb && sa.get_char(k) == sb.get_char(k)
        invariant
            na == a@.len(),
            nb == b@.len(),
            sa@ == a@,
            sb@ == b@,
            k <= na,
            k <= nb,
            lex_lt(a@, b@) == lex_lt(a@.skip(k as int), b@.skip(k as int)),
        decreases na - k,
    {
        proof {
            assert(a@.skip(k as int).drop_first() =~= a@.skip(k + 1));
            assert(b@.skip(k as int).drop_first() =~= b@.skip(k + 1));
        }
        k = k + 1;
    }
    if k >= na {
        k < nb
    } else if k >= nb {
        false
    } else {
        sa.get_char(k) < sb.get_char(k)
    }
}

/// The definition at `k` holds the last definition of its name, and no
/// name left out is its.
pub open spec fn survives(toks: Seq<Tok>, defs: Seq<Def>, undefs: Seq<usize>, k: int) -> bool {
    let name = ident_text(toks, defs[k].ident as int);
    &&& forall|m: int| k < m < defs.len() ==> ident_text(toks, #[trigger] defs[m].ident as int) != name
    &&& forall|m: int| 0 <= m < undefs.len() ==> ident_text(toks, #[trigger] undefs[m] as int) != name
}

/// The fields, by the indices of their definitions: exactly the surviving
/// definitions, each once, in the order of their names.
pub open spec fn is_field_order(toks: Seq<Tok>, defs: Seq<Def>, undefs: Seq<usize>, r: Seq<usize>) -> bool {
    &&& forall|k: int| 0 <= k < defs.len() && survives(toks, defs, undefs, k) ==> r.contains(k as usize)
    &&& forall|m: int| 0 <= m < r.len() ==> (#[trigger] r[m]) < defs.len() && survives(toks, defs, undefs, r[m] as int)
    &&& forall|m1: int, m2: int| 0 <= m1 < m2 < r.len() ==> #[trigger] r[m1] != #[trigger] r[m2]
    &&& forall|m: int|
        0 <= m < r.len() - 1 ==> lex_lt(
            ident_text(toks, defs[#[trigger] r[m] as int].ident as int),
            ident_text(toks, defs[r[m + 1] as int].ident as int),
        )
}

/// Two surviving definitions have different names.
proof fn lemma_survivors_distinct(toks: Seq<Tok>, defs: Seq<Def>, undefs: Seq<usize>, a: int, b: int)
    requires
        0 <= a < defs.len(),
        0 <= b < defs.len(),
        a != b,
        survives(toks, defs, undefs, a),
        survives(toks, defs, undefs, b),
    ensures
        ident_text(toks, defs[a].ident as int) != ident_text(toks, defs[b].ident as int),
{
    if a < b {
        assert(ident_text(toks, defs[b].ident as int) != ident_text(toks, defs[a].ident as int));
    } else {
        assert(ident_text(toks, defs[a].ident as int) != ident_text(toks, defs[b].ident as int));
    }
}

fn survives_exec(toks: &Vec<Tok>, defs: &Vec<Def>, undefs: &Vec<usize>, k: usize) -> (r: bool)
    requires
        k < defs@.len(),
    ensures
        r == survives(toks@, defs@, undefs@, k as int),
{
    let _n = defs.len();
    let name = ident_string(toks, defs[k].ident);
    let mut m = k + 1;
    while m < defs.len()
        invariant
            k < m <= defs@.len(),
            name@ == ident_text(toks@, defs@[k as int].ident as int),
            forall|j: int| k < j < m ==> ident_text(toks@, #[trigger] defs@[j].ident as int) != name@,
        decreases defs@.len() - m,
    {
        if ident_string(toks, defs[m].ident) == name {
            return false;
        }
        m = m + 1;
    }
    let mut u: usize = 0;
    while u < undefs.len()
        invariant
            u <= undefs@.len(),
            name@ == ident_text(toks@, defs@[k as int].ident as int),
            forall|j: int| 0 <= j < u ==> ident_text(toks@, #[trigger] undefs@[j] as int) != name@,
        decreases undefs@.len() - u,
    {
        if ident_string(toks, undefs[u]) == name {
            return false;
        }
        u = u + 1;
    }
    true
}

/// The order of the fields among the first `k` definitions.
pub open spec fn order_so_far(toks: Seq<Tok>, defs: Seq<Def>, undefs: Seq<usize>, out: Seq<usize>, k: int) -> bool {
    &&& forall|j: int| 0 <= j < k && survives(toks, defs, undefs, j) ==> out.contains(j as usize)
    &&& forall|m: int| 0 <= m < out.len() ==> (#[trigger] out[m]) < k && survives(toks, defs, undefs, out[m] as int)
    &&& forall|m1: int, m2: int| 0 <= m1 < m2 < out.len() ==> #[trigger] out[m1] != #[trigger] out[m2]
    &&& forall|m: int|
        0 <= m < out.len() - 1 ==> lex_lt(
            ident_text(toks, defs[#[trigger] out[m] as int].ident as int),
            ident_text(toks, defs[out[m + 1] as int].ident as int),
        )
}

/// Inserts the surviving definition `k` at its place among the fields.
#[verifier::spinoff_prover]
#[verifier::rlimit(80)]
fn insert_field(toks: &Vec<Tok>, defs: &Vec<Def>, undefs: &Vec<usize>, out: &mut Vec<usize>, k: usize)
    requires
        k < defs@.len(),
        survives(toks@, defs@, undefs@, k as int),
        order_so_far(toks@, defs@, undefs@, old(out)@, k as int),
    ensures
        order_so_far(toks@, defs@, undefs@, final(out)@, k + 1),
{
    let ghost ds = defs@;
    let name = ident_string(toks, defs[k].ident);
    let mut p: usize = 0;
    while p < out.len() && !lex_lt_exec(&name, &ident_string(toks, defs[out[p]].ident))
        invariant
            p <= out@.len(),
            ds == defs@,
            k < ds.len(),
            name@ == ident_text(toks@, ds[k as int].ident as int),
            forall|m: int| 0 <= m < out@.len() ==> (#[trigger] out@[m]) < k,
            forall|m: int|
                0 <= m < p ==> !lex_lt(
                    name@,
                    ident_text(toks@, ds[#[trigger] out@[m] as int].ident as int),
                ),
        decreases out@.len() - p,
    {
        p = p + 1;
    }
    let ghost before = out@;
    out.insert(p, k);
    proof {
        assert(out@ =~= before.subrange(0, p as int).push(k as usize) + before.subrange(
            p as int,
            before.len() as int,
        ));
        assert forall|m: int| 0 <= m < out@.len() implies (#[trigger] out@[m]) < k + 1 && survives(
            toks@,
            ds,
            undefs@,
            out@[m] as int,
        ) by {
            if m < p {
                assert(out@[m] == before[m]);
            } else if m > p {
                assert(out@[m] == before[m - 1]);
            }
        }
        assert forall|m1: int, m2: int| 0 <= m1 < m2 < out@.len() implies #[trigger] out@[m1]
            != #[trigger] out@[m2] by {
            if m1 < p && m2 < p {
                assert(out@[m1] == before[m1] && out@[m2] == before[m2]);
            } else if m1 < p && m2 > p {
                assert(out@[m1] == before[m1] && out@[m2] == before[m2 - 1]);
            } else if m1 > p {
                assert(out@[m1] == before[m1 - 1] && out@[m2] == before[m2 - 1]);
            } else if m1 < p {
                assert(out@[m1] == before[m1]);
            } else {
                assert(out@[m2] == before[m2 - 1]);
            }
        }
        assert forall|m: int| 0 <= m < out@.len() - 1 implies lex_lt(
            ident_text(toks@, ds[#[trigger] out@[m] as int].ident as int),
            ident_text(toks@, ds[out@[m + 1] as int].ident as int),
        ) by {
            if m + 1 < p {
                assert(out@[m] == before[m] && out@[m + 1] == before[m + 1]);
            } else if m + 1 == p {
                assert(out@[m] == before[m]);
                assert(out@[m + 1] == k as usize);
                lemma_survivors_distinct(toks@, ds, undefs@, before[m] as int, k as int);
                lemma_lex_total(ident_text(toks@, ds[before[m] as int].ident as int), name@);
            } else if m == p {
                assert(out@[m] == k as usize);
                assert(out@[m + 1] == before[m]);
            } else {
                assert(out@[m] == before[m - 1] && out@[m + 1] == before[m]);
            }
        }
        assert forall|j: int| 0 <= j < k + 1 && survives(toks@, ds, undefs@, j) implies out@.contains(
            j as usize,
        ) by {
            if j == k {
                assert(out@[p as int] == k as usize);
            } else {
                assert(before.contains(j as usize));
                let m = choose|m: int| 0 <= m < before.len() && before[m] == j as usize;
                if m < p {
                    assert(out@[m] == before[m]);
                } else {
                    assert(out@[m + 1] == before[m]);
                }
            }
        }
    }
}

/// The fields of the structure, in the order of their names.
pub fn field_order(toks: &Vec<Tok>, defs: &Vec<Def>, undefs: &Vec<usize>) -> (r: Vec<usize>)
    ensures
        is_field_order(toks@, defs@, undefs@, r@),
{
    let mut out: Vec<usize> = Vec::new();
    let mut k: usize = 0;
    while k < defs.len()
        invariant
            k <= defs@.len(),
            order_so_far(toks@, defs@, undefs@, out@, k as int),
        decreases defs@.len() - k,
    {
        if survives_exec(toks, defs, undefs, k) {
            insert_field(toks, defs, undefs, &mut out, k);
        } else {
            assert forall|j: int| 0 <= j < k + 1 && survives(toks@, defs@, undefs@, j) implies out@.contains(
                j as usize,
            ) by {}
        }
        k = k + 1;
    }
    out
}

/// What `reg_tokens_inner!` expands to: the input, and the indices of the
/// definitions that make the fields, in their order.
#[derive(Debug)]
pub struct InnerPlan {
    pub input: InnerInput,
    pub fields: Vec<usize>,
}

/// `reg_tokens_inner!` on the input `toks`.
pub fn reg_tokens_inner(toks: &Vec<Tok>) -> (r: Result<InnerPlan, MacroError>)
    ensures
        r matches Err(e) ==> spec_inner_input(toks@) == Err::<InnerInputV, MacroError>(e),
        r matches Ok(p) ==> {
            &&& spec_inner_input(toks@) == Ok::<InnerInputV, MacroError>(
                InnerInputV {
                    attrs: p.input.attrs,
                    vis: p.input.vis,
                    ident: p.input.ident,
                    defs: p.input.defs@,
                    undefs: p.input.undefs@,
                },
            )
            &&& is_field_order(toks@, p.input.defs@, p.input.undefs@, p.fields@)
        },
{
    let end = toks.len();
    let a = outer_attrs(toks, 0, end)?;
    let v = parse_vis(toks, a, end);
    let id = v.span.end;
    expect_ident(toks, id, end)?;
    let c1 = expect_group(toks, id + 1, end, Delim::Brace)?;
    let defs = parse_defs(toks, id + 2, c1)?;
    let c2 = expect_group(toks, c1 + 1, end, Delim::Brace)?;
    let undefs = parse_undefs(toks, c1 + 2, c2)?;
    expect_end(c2 + 1, end)?;
    let fields = field_order(toks, &defs, &undefs);
    Ok(
        InnerPlan {
            input: InnerInput { attrs: Span { start: 0, end: a }, vis: v, ident: id, defs, undefs },
            fields,
        },
    )
}

// ---------------------------------------------------------------------------
// The expansion

/// The structure's fields, for the definitions at `rs`:
/// `ATTRS #[allow(missing_docs)] pub NAME: PATH<::drone_core::reg::tag::Srt>,`
/// each.
pub open spec fn inner_fields(toks: Seq<Tok>, defs: Seq<Def>, rs: Seq<usize>) -> Seq<TokV>
    decreases rs.len(),
{
    if rs.len() == 0 {
        Seq::empty()
    } else {
        let d = defs[rs.last() as int];
        inner_fields(toks, defs, rs.drop_last()) + span_toks(toks, d.attrs) + tp('#') + topen(
            Delim::Bracket,
        ) + tw("allow"@) + topen(Delim::Paren) + tw("missing_docs"@) + tclose(Delim::Paren) + tclose(
            Delim::Bracket,
        ) + tw("pub"@) + span_toks(toks, one(d.ident)) + tp(':') + span_toks(toks, d.path) + tp('<')
            + tj(':', ':') + tw("drone_core"@) + tj(':', ':') + tw("reg"@) + tj(':', ':') + tw("tag"@)
            + tj(':', ':') + tw("Srt"@) + tp('>') + tp(',')
    }
}

/// The constructor's fields, for the definitions at `rs`:
/// `ATTRS NAME: ::drone_core::token::Token::take(),` each.
pub open spec fn inner_ctors(toks: Seq<Tok>, defs: Seq<Def>, rs: Seq<usize>) -> Seq<TokV>
    decreases rs.len(),
{
    if rs.len() == 0 {
        Seq::empty()
    } else {
        let d = defs[rs.last() as int];
        inner_ctors(toks, defs, rs.drop_last()) + span_toks(toks, d.attrs) + span_toks(toks, one(d.ident))
            + tp(':') + token_path("Token"@) + tj(':', ':') + tw("take"@) + topen(Delim::Paren) + tclose(
            Delim::Paren,
        ) + tp(',')
    }
}

/// `ATTRS VIS struct NAME { FIELDS } unsafe impl ::drone_core::token::Token
/// for NAME { #[inline] unsafe fn take() -> Self { Self { CTORS } } }`, with
/// the fields of the definitions at `rs`, in that order.
pub open spec fn inner_expansion(toks: Seq<Tok>, inp: InnerInputV, rs: Seq<usize>) -> Seq<TokV> {
    let name = span_toks(toks, one(inp.ident));
    span_toks(toks, inp.attrs) + span_toks(toks, inp.vis.span) + tw("struct"@) + name + topen(
        Delim::Brace,
    ) + inner_fields(toks, inp.defs, rs) + tclose(Delim::Brace) + tw("unsafe"@) + tw("impl"@)
        + token_path("Token"@) + tw("for"@) + name + topen(Delim::Brace) + inline_attr() + tw(
        "unsafe"@,
    ) + tw("fn"@) + tw("take"@) + topen(Delim::Paren) + tclose(Delim::Paren) + tj('-', '>') + tw(
        "Self"@,
    ) + topen(Delim::Brace) + tw("Self"@) + topen(Delim::Brace) + inner_ctors(toks, inp.defs, rs)
        + tclose(Delim::Brace) + tclose(Delim::Brace) + tclose(Delim::Brace)
}

#[verifier::spinoff_prover]
#[verifier::rlimit(50)]
fn emit_inner_lists(toks: &Vec<Tok>, defs: &Vec<Def>, rs: &Vec<usize>, ctors: bool, out: &mut Vec<Tok>)
    requires
        forall|m: int| 0 <= m < rs@.len() ==> (#[trigger] rs@[m]) < defs@.len(),
    ensures
        !ctors ==> toks_view(final(out)@) == toks_view(old(out)@) + inner_fields(toks@, defs@, rs@),
        ctors ==> toks_view(final(out)@) == toks_view(old(out)@) + inner_ctors(toks@, defs@, rs@),
{
    let ghost head = toks_view(old(out)@);
    let mut k: usize = 0;
    assert(rs@.take(0) =~= Seq::<usize>::empty());
    assert(head + Seq::<TokV>::empty() =~= head);
    while k < rs.len()
        invariant
            k <= rs@.len(),
            forall|m: int| 0 <= m < rs@.len() ==> (#[trigger] rs@[m]) < defs@.len(),
            !ctors ==> toks_view(out@) == head + inner_fields(toks@, defs@, rs@.take(k as int)),
            ctors ==> toks_view(out@) == head + inner_ctors(toks@, defs@, rs@.take(k as int)),
        decreases rs@.len() - k,
    {
        let d = &defs[rs[k]];
        emit_span(toks, d.attrs, out);
        if ctors {
            emit_span(toks, one_exec(d.ident), out);
            emit_punct(out, ':');
            emit_token_path(out, "Token");
            emit_joint(out, ':', ':');
            emit_word(out, "take");
            emit_open(out, Delim::Paren);
            emit_close(out, Delim::Paren);
            emit_punct(out, ',');
        } else {
            emit_punct(out, '#');
            emit_open(out, Delim::Bracket);
            emit_word(out, "allow");
            emit_open(out, Delim::Paren);
            emit_word(out, "missing_docs");
            emit_close(out, Delim::Paren);
            emit_close(out, Delim::Bracket);
            emit_word(out, "pub");
            emit_span(toks, one_exec(d.ident), out);
            emit_punct(out, ':');
            emit_span(toks, d.path, out);
            emit_punct(out, '<');
            emit_joint(out, ':', ':');
            emit_word(out, "drone_core");
            emit_joint(out, ':', ':');
            emit_word(out, "reg");
            emit_joint(out, ':', ':');
            emit_word(out, "tag");
            emit_joint(out, ':', ':');
            emit_word(out, "Srt");
            emit_punct(out, '>');
            emit_punct(out, ',');
        }
        proof {
            let s = rs@.take(k + 1);
            assert(s.drop_last() =~= rs@.take(k as int));
            assert(s.last() == rs@[k as int]);
            if ctors {
                assert(toks_view(out@) =~= head + inner_ctors(toks@, defs@, s));
            } else {
                assert(toks_view(out@) =~= head + inner_fields(toks@, defs@, s));
            }
        }
        k = k + 1;
    }
    assert(rs@.take(k as int) =~= rs@);
}

/// The tokens that `reg_tokens_inner!` expands to on the input `toks`: the
/// structure holds the surviving definitions in the order of their names.
#[verifier::spinoff_prover]
#[verifier::rlimit(80)]
pub fn expand_reg_tokens_inner(toks: &Vec<Tok>) -> (r: Result<Vec<Tok>, MacroError>)
    ensures
        r matches Err(e) ==> spec_inner_input(toks@) == Err::<InnerInputV, MacroError>(e),
        r matches Ok(v) ==> exists|inp: InnerInputV, rs: Seq<usize>|
            {
                &&& spec_inner_input(toks@) == Ok::<InnerInputV, MacroError>(inp)
                &&& is_field_order(toks@, inp.defs, inp.undefs, rs)
                &&& toks_view(v@) == inner_expansion(toks@, inp, rs)
            },
{
    let p = reg_tokens_inner(toks)?;
    let ghost inp = InnerInputV {
        attrs: p.input.attrs,
        vis: p.input.vis,
        ident: p.input.ident,
        defs: p.input.defs@,
        undefs: p.input.undefs@,
    };
    let mut v: Vec<Tok> = Vec::new();
    let out = &mut v;
    assert(toks_view(out@) =~= Seq::<TokV>::empty());
    let name = one_exec(p.input.ident);
    emit_span(toks, p.input.attrs, out);
    emit_span(toks, p.input.vis.span, out);
    emit_word(out, "struct");
    emit_span(toks, name, out);
    emit_open(out, Delim::Brace);
    emit_inner_lists(toks, &p.input.defs, &p.fields, false, out);
    emit_close(out, Delim::Brace);
    let ghost m1 = toks_view(out@);
    emit_word(out, "unsafe");
    emit_word(out, "impl");
    emit_token_path(out, "Token");
    emit_word(out, "for");
    emit_span(toks, name, out);
    emit_open(out, Delim::Brace);
    emit_inline_attr(out);
    emit_word(out, "unsafe");
    emit_word(out, "fn");
    emit_word(out, "take");
    emit_open(out, Delim::Paren);
    emit_close(out, Delim::Paren);
    emit_joint(out, '-', '>');
    emit_word(out, "Self");
    emit_open(out, Delim::Brace);
    emit_word(out, "Self");
    emit_open(out, Delim::Brace);
    emit_inner_lists(toks, &p.input.defs, &p.fields, true, out);
    emit_close(out, Delim::Brace);
    emit_close(out, Delim::Brace);
    emit_close(out, Delim::Brace);
    assert(toks_view(v@) =~= inner_expansion(toks@, inp, p.fields@));
    Ok(v)
}

} // verus!
