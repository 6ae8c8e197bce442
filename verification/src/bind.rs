//! `bind!`: binds registers to local variables, `name: path::macro<args>`
//! each, and gives them back as they are, as a tuple `( .. )` or as a
//! structure `Path { .. }` of them.
//!
//! The bindings of a tuple or a structure stand in its group; a binding
//! that comes before a group makes the input invalid. Whatever follows the
//! first group is left unread.

use crate::bindings::{INVALID_TOKEN, is_mod_sep, reg_tokens};
use crate::token::{
    Delim, ErrorKind, MacroError, Span, Tok, close_of, err, find_close, is_ident_tok, is_open, is_single,
    peek_ident, peek_open, peek_single,
};
use crate::bindings::{emit_starts, starts_toks};
use crate::thr_static::{one, one_exec};
use crate::token::{TokV, emit_close, emit_joint, emit_open, emit_punct, emit_span, emit_word, span_toks, tclose, tj, topen, toks_view, tp, tw};
use vstd::prelude::*;

verus! {

pub const BEFORE_GROUP: &'static str = "Invalid token: bindings before a group";

/// The message of a token that cannot follow a name (or a name, `:` and a
/// register), which the message quotes.
pub const AFTER_NAME: &'static str = "Invalid token after";

pub const IN_STRUCT_NAME: &'static str = "Invalid token in a structure's name";

/// What the bindings are given back as.
#[derive(Debug)]
pub enum Shape {
    /// Each as a variable of its own.
    Plain,
    /// A tuple of them.
    Tuple,
    /// A structure whose path starts at these tokens (identifiers and `::`).
    Struct(Vec<usize>),
}

pub enum ShapeV {
    Plain,
    Tuple,
    Struct(Seq<usize>),
}

pub open spec fn shape_view(s: Shape) -> ShapeV {
    match s {
        Shape::Plain => ShapeV::Plain,
        Shape::Tuple => ShapeV::Tuple,
        Shape::Struct(n) => ShapeV::Struct(n@),
    }
}

/// The input from `i` on, given the bindings `acc` read before.
pub open spec fn spec_bind(toks: Seq<Tok>, i: int, end: int, acc: Seq<(usize, Seq<usize>)>) -> Result<
    (ShapeV, Seq<(usize, Seq<usize>)>),
    MacroError,
>
    decreases end - i, 1int,
{
    if i >= end || i < 0 {
        Ok((ShapeV::Plain, acc))
    } else if is_open(toks, i, end, Delim::Paren) {
        if acc.len() > 0 {
            err(i, ErrorKind::Invalid(BEFORE_GROUP))
        } else {
            match close_of(toks, i, end) {
                Some(c) => if i < c < end {
                    match spec_bind(toks, i + 1, c, acc) {
                        Err(e) => Err(e),
                        Ok((_, acc2)) => Ok((ShapeV::Tuple, acc2)),
                    }
                } else {
                    err(i, ErrorKind::Invalid(INVALID_TOKEN))
                },
                None => err(i, ErrorKind::Invalid(INVALID_TOKEN)),
            }
        }
    } else if is_mod_sep(toks, i, end) {
        spec_struct_name(toks, i + 2, end, seq![i as usize], acc)
    } else if is_ident_tok(toks, i, end) {
        if is_single(toks, i + 1, end, ':') {
            match reg_tokens(toks, i + 2, end) {
                Err(p) => err(p, ErrorKind::InvalidAfter(AFTER_NAME, Span { start: i as usize, end: p as usize })),
                Ok((reg, q)) => if q > i && q <= end {
                    spec_bind(toks, q, end, acc.push((i as usize, reg)))
                } else {
                    Ok((ShapeV::Plain, acc.push((i as usize, reg))))
                },
            }
        } else if is_mod_sep(toks, i + 1, end) {
            spec_struct_name(toks, i + 3, end, seq![i as usize, (i + 1) as usize], acc)
        } else if is_open(toks, i + 1, end, Delim::Brace) {
            spec_struct(toks, i + 1, end, seq![i as usize], acc)
        } else {
            err(i + 1, ErrorKind::InvalidAfter(AFTER_NAME, Span { start: i as usize, end: (i + 1) as usize }))
        }
    } else {
        err(i, ErrorKind::Invalid(INVALID_TOKEN))
    }
}

/// The rest of a structure's path from `j` on, then its group.
pub open spec fn spec_struct_name(
    toks: Seq<Tok>,
    j: int,
    end: int,
    name: Seq<usize>,
    acc: Seq<(usize, Seq<usize>)>,
) -> Result<(ShapeV, Seq<(usize, Seq<usize>)>), MacroError>
    decreases end - j, 1int,
{
    if j >= end || j < 0 {
        err(j, ErrorKind::Invalid(IN_STRUCT_NAME))
    } else if is_ident_tok(toks, j, end) {
        spec_struct_name(toks, j + 1, end, name.push(j as usize), acc)
    } else if is_mod_sep(toks, j, end) {
        spec_struct_name(toks, j + 2, end, name.push(j as usize), acc)
    } else if is_open(toks, j, end, Delim::Brace) {
        spec_struct(toks, j, end, name, acc)
    } else {
        err(j, ErrorKind::Invalid(IN_STRUCT_NAME))
    }
}

/// The group of a structure named `name`, opened at `o`.
pub open spec fn spec_struct(
    toks: Seq<Tok>,
    o: int,
    end: int,
    name: Seq<usize>,
    acc: Seq<(usize, Seq<usize>)>,
) -> Result<(ShapeV, Seq<(usize, Seq<usize>)>), MacroError>
    decreases end - o, 0int,
{
    if acc.len() > 0 {
        err(o, ErrorKind::Invalid(BEFORE_GROUP))
    } else {
        match close_of(toks, o, end) {
            Some(c) => if 0 <= o < c < end {
                match spec_bind(toks, o + 1, c, acc) {
                    Err(e) => Err(e),
                    Ok((_, acc2)) => Ok((ShapeV::Struct(name), acc2)),
                }
            } else {
                err(o, ErrorKind::Invalid(INVALID_TOKEN))
            },
            None => err(o, ErrorKind::Invalid(INVALID_TOKEN)),
        }
    }
}

/// A binding: the variable's name and the starts of its register's tokens.
pub open spec fn bindings_view(v: Seq<(usize, Vec<usize>)>) -> Seq<(usize, Seq<usize>)> {
    v.map_values(|b: (usize, Vec<usize>)| (b.0, b.1@))
}

fn push_binding(acc: &mut Vec<(usize, Vec<usize>)>, name: usize, reg: Vec<usize>)
    ensures
        bindings_view(final(acc)@) == bindings_view(old(acc)@).push((name, reg@)),
{
    let ghost before = bindings_view(acc@);
    let ghost rv = reg@;
    acc.push((name, reg));
    assert(bindings_view(acc@) =~= before.push((name, rv)));
}

fn is_mod_sep_exec(toks: &Vec<Tok>, i: usize, end: usize) -> (r: bool)
    ensures
        r == is_mod_sep(toks@, i as int, end as int),
{
    crate::token::peek_joint_punct(toks, i, end, ':') && i + 1 < end && crate::token::peek_punct(
        toks,
        i + 1,
        end,
        ':',
    ) && !crate::token::glued_after_exec(toks, i + 1) && !crate::token::glued_before_exec(
        toks,
        i,
    )
}

fn scan_reg(toks: &Vec<Tok>, j: usize, end: usize) -> (r: Result<(Vec<usize>, usize), usize>)
    ensures
        r matches Ok((v, q)) ==> reg_tokens(toks@, j as int, end as int) == Ok::<
            (Seq<usize>, int),
            int,
        >((v@, q as int)) && j <= q && (j <= end ==> q <= end),
        r matches Err(p) ==> reg_tokens(toks@, j as int, end as int) == Err::<
            (Seq<usize>, int),
            int,
        >(p as int),
{
    crate::bindings::scan_reg(toks, j, end)
}

fn bind_rec(toks: &Vec<Tok>, i: usize, end: usize, acc: &mut Vec<(usize, Vec<usize>)>) -> (r: Result<
    Shape,
    MacroError,
>)
    requires
        end <= toks@.len(),
    ensures
        r matches Ok(s) ==> spec_bind(toks@, i as int, end as int, bindings_view(old(acc)@))
            == Ok::<(ShapeV, Seq<(usize, Seq<usize>)>), MacroError>(
            (shape_view(s), bindings_view(final(acc)@)),
        ),
        r matches Err(e) ==> spec_bind(toks@, i as int, end as int, bindings_view(old(acc)@))
            == Err::<(ShapeV, Seq<(usize, Seq<usize>)>), MacroError>(e),
    decreases end - i, 1int,
{
    let mut j = i;
    loop
        invariant
            end <= toks@.len(),
            i <= j,
            j <= end || j == i,
            spec_bind(toks@, i as int, end as int, bindings_view(old(acc)@)) == spec_bind(
                toks@,
                j as int,
                end as int,
                bindings_view(acc@),
            ),
        decreases end - j,
    {
        if j >= end {
            return Ok(Shape::Plain);
        }
        if peek_open(toks, j, end, Delim::Paren) {
            if acc.len() > 0 {
                return Err(MacroError { at: j, kind: ErrorKind::Invalid(BEFORE_GROUP) });
            }
            match find_close(toks, j, end) {
                Some(c) => {
                    bind_rec(toks, j + 1, c, acc)?;
                    return Ok(Shape::Tuple);
                },
                None => {
                    return Err(MacroError { at: j, kind: ErrorKind::Invalid(INVALID_TOKEN) });
                },
            }
        } else if is_mod_sep_exec(toks, j, end) {
            let mut name: Vec<usize> = Vec::new();
            name.push(j);
            assert(name@ =~= seq![j as usize]);
            return struct_name_rec(toks, j + 2, end, &name, acc);
        } else if peek_ident(toks, j, end) {
            if peek_single(toks, j + 1, end, ':') {
                match scan_reg(toks, j + 2, end) {
                    Err(p) => {
                        return Err(MacroError { at: p, kind: ErrorKind::InvalidAfter(AFTER_NAME, Span { start: j, end: p }) });
                    },
                    Ok((reg, q)) => {
                        push_binding(acc, j, reg);
                        j = q;
                    },
                }
            } else if is_mod_sep_exec(toks, j + 1, end) {
                let mut name: Vec<usize> = Vec::new();
                name.push(j);
                name.push(j + 1);
                assert(name@ =~= seq![j as usize, (j + 1) as usize]);
                return struct_name_rec(toks, j + 3, end, &name, acc);
            } else if peek_open(toks, j + 1, end, Delim::Brace) {
                let mut name: Vec<usize> = Vec::new();
                name.push(j);
                assert(name@ =~= seq![j as usize]);
                return struct_rec(toks, j + 1, end, name, acc);
            } else {
                return Err(MacroError { at: j + 1, kind: ErrorKind::InvalidAfter(AFTER_NAME, Span { start: j, end: j + 1 }) });
            }
        } else {
            return Err(MacroError { at: j, kind: ErrorKind::Invalid(INVALID_TOKEN) });
        }
    }
}

fn copy_positions(v: &Vec<usize>) -> (r: Vec<usize>)
    ensures
        r@ == v@,
{
    let mut r: Vec<usize> = Vec::new();
    let mut k: usize = 0;
    while k < v.len()
        invariant
            k <= v@.len(),
            r@ == v@.take(k as int),
        decreases v@.len() - k,
    {
        r.push(v[k]);
        assert(v@.take(k + 1) =~= v@.take(k as int).push(v@[k as int]));
        k = k + 1;
    }
    assert(v@.take(k as int) =~= v@);
    r
}

fn struct_name_rec(
    toks: &Vec<Tok>,
    j: usize,
    end: usize,
    name0: &Vec<usize>,
    acc: &mut Vec<(usize, Vec<usize>)>,
) -> (r: Result<Shape, MacroError>)
    requires
        end <= toks@.len(),
    ensures
        r matches Ok(s) ==> spec_struct_name(
            toks@,
            j as int,
            end as int,
            name0@,
            bindings_view(old(acc)@),
        ) == Ok::<(ShapeV, Seq<(usize, Seq<usize>)>), MacroError>(
            (shape_view(s), bindings_view(final(acc)@)),
        ),
        r matches Err(e) ==> spec_struct_name(
            toks@,
            j as int,
            end as int,
            name0@,
            bindings_view(old(acc)@),
        ) == Err::<(ShapeV, Seq<(usize, Seq<usize>)>), MacroError>(e),
    decreases end - j, 1int,
{
    let ghost n0 = name0@;
    let ghost a0 = bindings_view(acc@);
    let mut name = copy_positions(name0);
    let mut k = j;
    loop
        invariant
            end <= toks@.len(),
            j <= k,
            k <= end || k == j,
            bindings_view(acc@) == a0,
            n0 == name0@,
            a0 == bindings_view(old(acc)@),
            spec_struct_name(toks@, j as int, end as int, n0, a0) == spec_struct_name(
                toks@,
                k as int,
                end as int,
                name@,
                bindings_view(acc@),
            ),
        decreases end - k,
    {
        if k >= end {
            return Err(MacroError { at: k, kind: ErrorKind::Invalid(IN_STRUCT_NAME) });
        }
        if peek_ident(toks, k, end) {
            name.push(k);
            k = k + 1;
        } else if is_mod_sep_exec(toks, k, end) {
            name.push(k);
            k = k + 2;
        } else if peek_open(toks, k, end, Delim::Brace) {
            return struct_rec(toks, k, end, name, acc);
        } else {
            return Err(MacroError { at: k, kind: ErrorKind::Invalid(IN_STRUCT_NAME) });
        }
    }
}

fn struct_rec(
    toks: &Vec<Tok>,
    o: usize,
    end: usize,
    name: Vec<usize>,
    acc: &mut Vec<(usize, Vec<usize>)>,
) -> (r: Result<Shape, MacroError>)
    requires
        end <= toks@.len(),
    ensures
        r matches Ok(s) ==> spec_struct(toks@, o as int, end as int, name@, bindings_view(old(acc)@))
            == Ok::<(ShapeV, Seq<(usize, Seq<usize>)>), MacroError>(
            (shape_view(s), bindings_view(final(acc)@)),
        ),
        r matches Err(e) ==> spec_struct(
            toks@,
            o as int,
            end as int,
            name@,
            bindings_view(old(acc)@),
        ) == Err::<(ShapeV, Seq<(usize, Seq<usize>)>), MacroError>(e),
    decreases end - o, 0int,
{
    if acc.len() > 0 {
        return Err(MacroError { at: o, kind: ErrorKind::Invalid(BEFORE_GROUP) });
    }
    if o >= end {
        return Err(MacroError { at: o, kind: ErrorKind::Invalid(INVALID_TOKEN) });
    }
    match find_close(toks, o, end) {
        Some(c) => {
            bind_rec(toks, o + 1, c, acc)?;
            Ok(Shape::Struct(name))
        },
        None => Err(MacroError { at: o, kind: ErrorKind::Invalid(INVALID_TOKEN) }),
    }
}

/// The tokens of a register's macro: those before the first `<`, without a
/// `::` at their end.
pub open spec fn reg_macro(toks: Seq<Tok>, reg: Seq<usize>) -> Seq<usize> {
    let before = reg.take(crate::bindings::first_lt(toks, reg, 0));
    if before.len() > 0 && is_mod_sep(toks, before.last() as int, toks.len() as int) {
        before.drop_last()
    } else {
        before
    }
}

fn reg_macro_exec(toks: &Vec<Tok>, reg: &Vec<usize>) -> (r: Vec<usize>)
    ensures
        r@ == reg_macro(toks@, reg@),
{
    let mut k: usize = 0;
    while k < reg.len() && !crate::token::peek_punct(toks, reg[k], toks.len(), '<')
        invariant
            k <= reg@.len(),
            crate::bindings::first_lt(toks@, reg@, 0) == crate::bindings::first_lt(
                toks@,
                reg@,
                k as int,
            ),
        decreases reg@.len() - k,
    {
        k = k + 1;
    }
    let mut out: Vec<usize> = Vec::new();
    let mut m: usize = 0;
    while m < k
        invariant
            m <= k <= reg@.len(),
            out@ == reg@.take(m as int),
        decreases k - m,
    {
        out.push(reg[m]);
        assert(reg@.take(m + 1) =~= reg@.take(m as int).push(reg@[m as int]));
        m = m + 1;
    }
    if out.len() > 0 && is_mod_sep_exec(toks, out[out.len() - 1], toks.len()) {
        let ghost before = out@;
        out.pop();
        assert(out@ =~= before.drop_last());
    }
    out
}

/// What `bind!` expands to: the shape, the bindings, and for each binding
/// the tokens of the macro that makes its register.
#[derive(Debug)]
pub struct BindPlan {
    pub shape: Shape,
    pub bindings: Vec<(usize, Vec<usize>)>,
    pub macros: Vec<Vec<usize>>,
}

/// `bind!` on the input `toks`.
pub fn bind(toks: &Vec<Tok>) -> (r: Result<BindPlan, MacroError>)
    ensures
        r matches Err(e) ==> spec_bind(toks@, 0, toks@.len() as int, Seq::empty()) == Err::<
            (ShapeV, Seq<(usize, Seq<usize>)>),
            MacroError,
        >(e),
        r matches Ok(p) ==> {
            &&& spec_bind(toks@, 0, toks@.len() as int, Seq::empty()) == Ok::<
                (ShapeV, Seq<(usize, Seq<usize>)>),
                MacroError,
            >((shape_view(p.shape), bindings_view(p.bindings@)))
            &&& p.macros@.len() == p.bindings@.len()
            &&& forall|k: int|
                0 <= k < p.macros@.len() ==> (#[trigger] p.macros@[k])@ == reg_macro(
                    toks@,
                    p.bindings@[k].1@,
                )
        },
{
    let mut acc: Vec<(usize, Vec<usize>)> = Vec::new();
    assert(bindings_view(acc@) =~= Seq::<(usize, Seq<usize>)>::empty());
    let shape = bind_rec(toks, 0, toks.len(), &mut acc)?;
    let mut macros: Vec<Vec<usize>> = Vec::new();
    let mut k: usize = 0;
    while k < acc.len()
        invariant
            k <= acc@.len(),
            macros@.len() == k,
            forall|m: int| 0 <= m < k ==> (#[trigger] macros@[m])@ == reg_macro(toks@, acc@[m].1@),
        decreases acc@.len() - k,
    {
        macros.push(reg_macro_exec(toks, &acc[k].1));
        k = k + 1;
    }
    Ok(BindPlan { shape, bindings: acc, macros })
}

// ---------------------------------------------------------------------------
// The expansion

/// `::drone::reg::W`
pub open spec fn drone_reg_path(w: Seq<char>) -> Seq<TokV> {
    tj(':', ':') + tw("drone"@) + tj(':', ':') + tw("reg"@) + tj(':', ':') + tw(w)
}

/// One binding as a variable: `#[allow(unused_mut)] let mut NAME = unsafe {
/// type Register = REGISTER; MACRO!(Register, ::drone::reg::Reg::<_>,
/// ::drone::reg::RegFields) };`
pub open spec fn bind_let(toks: Seq<Tok>, b: (usize, Seq<usize>)) -> Seq<TokV> {
    tp('#') + topen(Delim::Bracket) + tw("allow"@) + topen(Delim::Paren) + tw("unused_mut"@) + tclose(
        Delim::Paren,
    ) + tclose(Delim::Bracket) + tw("let"@) + tw("mut"@) + span_toks(toks, one(b.0)) + tp('=') + tw(
        "unsafe"@,
    ) + topen(Delim::Brace) + tw("type"@) + tw("Register"@) + tp('=') + starts_toks(toks, b.1) + tp(';')
        + starts_toks(toks, reg_macro(toks, b.1)) + tp('!') + topen(Delim::Paren) + tw("Register"@) + tp(
        ',',
    ) + drone_reg_path("Reg"@) + tj(':', ':') + tp('<') + tw("_"@) + tp('>') + tp(',') + drone_reg_path(
        "RegFields"@,
    ) + tclose(Delim::Paren) + tclose(Delim::Brace) + tp(';')
}

/// The bindings as variables, in order.
pub open spec fn bind_lets(toks: Seq<Tok>, bs: Seq<(usize, Seq<usize>)>) -> Seq<TokV>
    decreases bs.len(),
{
    if bs.len() == 0 {
        Seq::empty()
    } else {
        bind_lets(toks, bs.drop_last()) + bind_let(toks, bs.last())
    }
}

/// The bindings' names, each followed by a comma.
pub open spec fn bind_names(toks: Seq<Tok>, bs: Seq<(usize, Seq<usize>)>) -> Seq<TokV>
    decreases bs.len(),
{
    if bs.len() == 0 {
        Seq::empty()
    } else {
        bind_names(toks, bs.drop_last()) + span_toks(toks, one(bs.last().0)) + tp(',')
    }
}

/// What `bind!` expands to on the input `toks`: the variables alone, or a
/// block of them that ends in `(NAMES)` or in `PATH { NAMES }`.
pub open spec fn spec_expand_bind(toks: Seq<Tok>) -> Result<Seq<TokV>, MacroError> {
    match spec_bind(toks, 0, toks.len() as int, Seq::empty()) {
        Err(e) => Err(e),
        Ok((shape, bs)) => Ok(
            match shape {
                ShapeV::Plain => bind_lets(toks, bs),
                ShapeV::Tuple => topen(Delim::Brace) + bind_lets(toks, bs) + topen(Delim::Paren)
                    + bind_names(toks, bs) + tclose(Delim::Paren) + tclose(Delim::Brace),
                ShapeV::Struct(path) => topen(Delim::Brace) + bind_lets(toks, bs) + starts_toks(
                    toks,
                    path,
                ) + topen(Delim::Brace) + bind_names(toks, bs) + tclose(Delim::Brace) + tclose(
                    Delim::Brace,
                ),
            },
        ),
    }
}

fn emit_drone_reg_path(out: &mut Vec<Tok>, w: &str)
    ensures
        toks_view(final(out)@) == toks_view(old(out)@) + drone_reg_path(w@),
{
    let ghost b = toks_view(old(out)@);
    emit_joint(out, ':', ':');
    emit_word(out, "drone");
    emit_joint(out, ':', ':');
    emit_word(out, "reg");
    emit_joint(out, ':', ':');
    emit_word(out, w);
    assert(toks_view(out@) =~= b + drone_reg_path(w@));
}

#[verifier::spinoff_prover]
#[verifier::rlimit(50)]
fn emit_bind_let(toks: &Vec<Tok>, name: usize, reg: &Vec<usize>, mac: &Vec<usize>, out: &mut Vec<Tok>)
    requires
        mac@ == reg_macro(toks@, reg@),
    ensures
        toks_view(final(out)@) == toks_view(old(out)@) + bind_let(toks@, (name, reg@)),
{
    let ghost b = toks_view(old(out)@);
    emit_punct(out, '#');
    emit_open(out, Delim::Bracket);
    emit_word(out, "allow");
    emit_open(out, Delim::Paren);
    emit_word(out, "unused_mut");
    emit_close(out, Delim::Paren);
    emit_close(out, Delim::Bracket);
    emit_word(out, "let");
    emit_word(out, "mut");
    emit_span(toks, one_exec(name), out);
    emit_punct(out, '=');
    emit_word(out, "unsafe");
    emit_open(out, Delim::Brace);
    emit_word(out, "type");
    emit_word(out, "Register");
    emit_punct(out, '=');
    emit_starts(toks, reg, out);
    emit_punct(out, ';');
    let ghost m = toks_view(out@);
    emit_starts(toks, mac, out);
    emit_punct(out, '!');
    emit_open(out, Delim::Paren);
    emit_word(out, "Register");
    emit_punct(out, ',');
    emit_drone_reg_path(out, "Reg");
    emit_joint(out, ':', ':');
    emit_punct(out, '<');
    emit_word(out, "_");
    emit_punct(out, '>');
    emit_punct(out, ',');
    emit_drone_reg_path(out, "RegFields");
    emit_close(out, Delim::Paren);
    emit_close(out, Delim::Brace);
    emit_punct(out, ';');
    assert(toks_view(out@) =~= b + bind_let(toks@, (name, reg@)));
}

#[verifier::spinoff_prover]
#[verifier::rlimit(50)]
fn emit_bind_lists(toks: &Vec<Tok>, p: &BindPlan, names: bool, out: &mut Vec<Tok>)
    requires
        p.macros@.len() == p.bindings@.len(),
        forall|k: int|
            0 <= k < p.macros@.len() ==> (#[trigger] p.macros@[k])@ == reg_macro(
                toks@,
                p.bindings@[k].1@,
            ),
    ensures
        !names ==> toks_view(final(out)@) == toks_view(old(out)@) + bind_lets(toks@, bindings_view(p.bindings@)),
        names ==> toks_view(final(out)@) == toks_view(old(out)@) + bind_names(toks@, bindings_view(p.bindings@)),
{
    let ghost head = toks_view(old(out)@);
    let ghost bs = bindings_view(p.bindings@);
    let mut k: usize = 0;
    assert(bs.take(0) =~= Seq::<(usize, Seq<usize>)>::empty());
    assert(head + Seq::<TokV>::empty() =~= head);
    while k < p.bindings.len()
        invariant
            k <= bs.len(),
            bs == bindings_view(p.bindings@),
            p.macros@.len() == p.bindings@.len(),
            forall|k: int|
                0 <= k < p.macros@.len() ==> (#[trigger] p.macros@[k])@ == reg_macro(
                    toks@,
                    p.bindings@[k].1@,
                ),
            !names ==> toks_view(out@) == head + bind_lets(toks@, bs.take(k as int)),
            names ==> toks_view(out@) == head + bind_names(toks@, bs.take(k as int)),
        decreases bs.len() - k,
    {
        let b = &p.bindings[k];
        assert(bs[k as int] == (b.0, b.1@));
        if names {
            emit_span(toks, one_exec(b.0), out);
            emit_punct(out, ',');
        } else {
            emit_bind_let(toks, b.0, &b.1, &p.macros[k], out);
        }
        proof {
            let s = bs.take(k + 1);
            assert(s.drop_last() =~= bs.take(k as int));
            assert(s.last() == bs[k as int]);
            if names {
                assert(toks_view(out@) =~= head + bind_names(toks@, s));
            } else {
                assert(toks_view(out@) =~= head + bind_lets(toks@, s));
            }
        }
        k = k + 1;
    }
    assert(bs.take(k as int) =~= bs);
}

/// The tokens that `bind!` expands to on the input `toks`.
#[verifier::spinoff_prover]
#[verifier::rlimit(50)]
pub fn expand_bind(toks: &Vec<Tok>) -> (r: Result<Vec<Tok>, MacroError>)
    ensures
        r matches Err(e) ==> spec_expand_bind(toks@) == Err::<Seq<TokV>, MacroError>(e),
        r matches Ok(v) ==> spec_expand_bind(toks@) == Ok::<Seq<TokV>, MacroError>(toks_view(v@)),
{
    let p = bind(toks)?;
    let ghost bs = bindings_view(p.bindings@);
    let mut v: Vec<Tok> = Vec::new();
    let out = &mut v;
    assert(toks_view(out@) =~= Seq::<TokV>::empty());
    match &p.shape {
        Shape::Plain => {
            emit_bind_lists(toks, &p, false, out);
            assert(toks_view(v@) =~= bind_lets(toks@, bs));
        },
        Shape::Tuple => {
            emit_open(out, Delim::Brace);
            emit_bind_lists(toks, &p, false, out);
            emit_open(out, Delim::Paren);
            emit_bind_lists(toks, &p, true, out);
            emit_close(out, Delim::Paren);
            emit_close(out, Delim::Brace);
            assert(toks_view(v@) =~= topen(Delim::Brace) + bind_lets(toks@, bs) + topen(Delim::Paren)
                + bind_names(toks@, bs) + tclose(Delim::Paren) + tclose(Delim::Brace));
        },
        Shape::Struct(path) => {
            emit_open(out, Delim::Brace);
            emit_bind_lists(toks, &p, false, out);
            emit_starts(toks, path, out);
            emit_open(out, Delim::Brace);
            emit_bind_lists(toks, &p, true, out);
            emit_close(out, Delim::Brace);
            emit_close(out, Delim::Brace);
            assert(toks_view(v@) =~= topen(Delim::Brace) + bind_lets(toks@, bs) + starts_toks(toks@, path@)
                + topen(Delim::Brace) + bind_names(toks@, bs) + tclose(Delim::Brace) + tclose(Delim::Brace));
        },
    }
    Ok(v)
}

} // verus!
