//! `#[derive(Bitfield)]` with the fields declared in the meta syntax of
//! attributes: `#[bitfield(default = lit, name(mode, offset[, width][,
//! "doc"]), ..)]`, in any number of `bitfield` attributes.
//!
//! A malformed attribute or field does not stop the derive: it is reported,
//! and the fields that were read are still expanded. Only an item that is
//! not a tuple struct of one field stops it.

use crate::bitfield::{Accessor, AccessorKind, Mode, push_accessor, reads, spec_tuple_field_type, tuple_field_type};
use crate::case::cat;
use crate::token::{Delim, IntLit, Span, Tok, attr_is_named, attr_named, close_of, find_close, ident_string, ident_text, int_lit_at, int_lit_value, is_ident_tok, is_joint_punct, is_literal_tok, is_open, is_punct, is_str_lit, literal_text, outer_attrs, parse_vis, peek_ident, peek_joint_punct, peek_open, peek_punct, peek_str_lit, spec_outer_attrs, spec_vis};
use vstd::prelude::*;

verus! {

/// An item of a meta list, by the positions of its tokens.
#[derive(PartialEq, Eq, Structural, Clone, Copy, Debug)]
pub enum Nested {
    /// A literal.
    Lit(usize),
    /// A single identifier.
    Word(usize),
    /// `ident = literal`.
    NameValue(usize, usize),
    /// `ident(..)`: the identifier and the positions of the parentheses.
    List(usize, usize, usize),
}

/// A punctuation character not joined to the one after it.
pub open spec fn is_alone(toks: Seq<Tok>, i: int, end: int, c: char) -> bool {
    is_punct(toks, i, end, c) && !is_joint_punct(toks, i, end, c)
}

/// The meta item at `i`, and the position after it.
pub open spec fn spec_nested(toks: Seq<Tok>, i: int, end: int) -> Option<(Nested, int)>
    decreases end - i, 0int,
{
    if is_literal_tok(toks, i, end) {
        Some((Nested::Lit(i as usize), i + 1))
    } else if is_ident_tok(toks, i, end) {
        if is_alone(toks, i + 1, end, '=') && is_literal_tok(toks, i + 2, end) {
            Some((Nested::NameValue(i as usize, (i + 2) as usize), i + 3))
        } else if is_open(toks, i + 1, end, Delim::Paren) {
            match close_of(toks, i + 1, end) {
                Some(c) => if c < end && c >= i + 2 {
                    match spec_nested_items(toks, i + 2, c, true) {
                        Some(_) => Some((Nested::List(i as usize, (i + 1) as usize, c as usize), c + 1)),
                        None => None,
                    }
                } else {
                    None
                },
                None => None,
            }
        } else {
            Some((Nested::Word(i as usize), i + 1))
        }
    } else {
        None
    }
}

/// The meta items of `[i, end)`, separated by commas, with an optional
/// comma after the last; `first` holds before the first item.
pub open spec fn spec_nested_items(toks: Seq<Tok>, i: int, end: int, first: bool) -> Option<
    Seq<Nested>,
>
    decreases end - i, 1int,
{
    if i >= end {
        Some(Seq::empty())
    } else {
        let start = if first {
            i
        } else {
            i + 1
        };
        if !first && !is_alone(toks, i, end, ',') {
            None
        } else if start >= end {
            Some(Seq::empty())
        } else {
            match spec_nested(toks, start, end) {
                None => None,
                Some((x, q)) => if q > i && q <= end {
                    match spec_nested_items(toks, q, end, false) {
                        Some(rest) => Some(seq![x] + rest),
                        None => None,
                    }
                } else {
                    None
                },
            }
        }
    }
}

proof fn lemma_nested_bounds(toks: Seq<Tok>, i: int, end: int)
    ensures
        spec_nested(toks, i, end) matches Some((_, q)) ==> i < q <= end,
{
    if is_ident_tok(toks, i, end) && !(is_alone(toks, i + 1, end, '=') && is_literal_tok(
        toks,
        i + 2,
        end,
    )) && is_open(toks, i + 1, end, Delim::Paren) {
        crate::token::lemma_close_scan_bounds(toks, i + 2, end, 1);
    }
}

fn is_alone_exec(toks: &Vec<Tok>, i: usize, end: usize, c: char) -> (r: bool)
    ensures
        r == is_alone(toks@, i as int, end as int, c),
{
    peek_punct(toks, i, end, c) && !peek_joint_punct(toks, i, end, c)
}

fn peek_literal(toks: &Vec<Tok>, i: usize, end: usize) -> (r: bool)
    ensures
        r == is_literal_tok(toks@, i as int, end as int),
{
    i < end && i < toks.len() && matches!(toks[i], Tok::Literal(_))
}

fn parse_nested(toks: &Vec<Tok>, i: usize, end: usize) -> (r: Option<(Nested, usize)>)
    ensures
        r matches Some((x, q)) ==> spec_nested(toks@, i as int, end as int) == Some((x, q as int)),
        r is None ==> spec_nested(toks@, i as int, end as int) is None,
    decreases end - i, 0int,
{
    proof {
        lemma_nested_bounds(toks@, i as int, end as int);
    }
    if peek_literal(toks, i, end) {
        Some((Nested::Lit(i), i + 1))
    } else if peek_ident(toks, i, end) {
        if is_alone_exec(toks, i + 1, end, '=') && peek_literal(toks, i + 2, end) {
            Some((Nested::NameValue(i, i + 2), i + 3))
        } else if peek_open(toks, i + 1, end, Delim::Paren) {
            match find_close(toks, i + 1, end) {
                Some(c) => match parse_nested_items(toks, i + 2, c) {
                    Some(_) => Some((Nested::List(i, i + 1, c), c + 1)),
                    None => None,
                },
                None => None,
            }
        } else {
            Some((Nested::Word(i), i + 1))
        }
    } else {
        None
    }
}

fn parse_nested_items(toks: &Vec<Tok>, i: usize, end: usize) -> (r: Option<Vec<Nested>>)
    ensures
        r matches Some(v) ==> spec_nested_items(toks@, i as int, end as int, true) == Some(v@),
        r is None ==> spec_nested_items(toks@, i as int, end as int, true) is None,
    decreases end - i, 1int,
{
    let mut out: Vec<Nested> = Vec::new();
    let mut j = i;
    let mut first = true;
    let mut done = false;
    while !done && j < end
        invariant
            i <= j,
            first ==> j == i,
            spec_nested_items(toks@, i as int, end as int, true) == (if done {
                Some(out@)
            } else {
                match spec_nested_items(toks@, j as int, end as int, first) {
                    Some(rest) => Some(out@ + rest),
                    None => None,
                }
            }),
        decreases end - j + (if done { 0int } else { 1int }),
    {
        if !first && !is_alone_exec(toks, j, end, ',') {
            return None;
        }
        let start = if first {
            j
        } else {
            j + 1
        };
        if start >= end {
            assert(out@ + Seq::<Nested>::empty() =~= out@);
            done = true;
        } else {
            match parse_nested(toks, start, end) {
                None => {
                    return None;
                },
                Some((x, q)) => {
                    proof {
                        lemma_nested_bounds(toks@, start as int, end as int);
                    }
                    let ghost before = out@;
                    out.push(x);
                    proof {
                        match spec_nested_items(toks@, q as int, end as int, false) {
                            Some(rest) => {
                                assert(before + (seq![x] + rest) =~= out@ + rest);
                            },
                            None => {},
                        }
                    }
                    j = q;
                    first = false;
                },
            }
        }
    }
    if !done {
        assert(out@ + Seq::<Nested>::empty() =~= out@);
    }
    Some(out)
}

/// A field read from the attributes.
#[derive(PartialEq, Eq, Structural, Clone, Copy, Debug)]
pub struct MetaField {
    /// The position of the field's name.
    pub ident: usize,
    pub mode: Mode,
    pub offset: u64,
    pub width: Option<u64>,
    /// The position of the documentation's string literal.
    pub doc: Option<usize>,
}

/// What went wrong with an attribute, reported at its `#`.
#[derive(PartialEq, Eq, Structural, Clone, Copy, Debug)]
pub enum MetaErrorKind {
    /// `Invalid attribute format`.
    InvalidAttr,
    /// ``Duplicate key `default` ``.
    DuplicateDefault,
}

#[derive(PartialEq, Eq, Structural, Clone, Copy, Debug)]
pub struct MetaError {
    pub attr: usize,
    pub kind: MetaErrorKind,
}

/// What the attributes gave: the default value's literal, the fields and
/// the errors, each in the order they were met.
pub struct MetaState {
    pub default: Option<usize>,
    pub fields: Vec<MetaField>,
    pub errors: Vec<MetaError>,
}

pub struct MetaStateV {
    pub default: Option<usize>,
    pub fields: Seq<MetaField>,
    pub errors: Seq<MetaError>,
}

pub open spec fn state_view(s: MetaState) -> MetaStateV {
    MetaStateV { default: s.default, fields: s.fields@, errors: s.errors@ }
}

/// The integer literal at `p`, where its value fits a `u64`.
pub open spec fn u64_lit(toks: Seq<Tok>, p: int) -> Option<u64> {
    match int_lit_value(literal_text(toks, p)) {
        Some(v) => if v <= u64::MAX {
            Some(v as u64)
        } else {
            None
        },
        None => None,
    }
}

pub open spec fn nested_mode(toks: Seq<Tok>, x: Nested) -> Option<Mode> {
    match x {
        Nested::Word(w) => if ident_text(toks, w as int) == "rw"@ {
            Some(Mode::ReadWrite)
        } else if ident_text(toks, w as int) == "r"@ {
            Some(Mode::Read)
        } else if ident_text(toks, w as int) == "w"@ {
            Some(Mode::Write)
        } else {
            None
        },
        _ => None,
    }
}

pub open spec fn nested_u64(toks: Seq<Tok>, x: Nested) -> Option<u64> {
    match x {
        Nested::Lit(p) => u64_lit(toks, p as int),
        _ => None,
    }
}

pub open spec fn nested_str(toks: Seq<Tok>, x: Nested) -> Option<usize> {
    match x {
        Nested::Lit(p) => if is_str_lit(toks, p as int, toks.len() as int) {
            Some(p)
        } else {
            None
        },
        _ => None,
    }
}

/// The field `ident(items)`: a mode, an offset, then an optional width or
/// documentation, and after a width an optional documentation; nothing
/// where the items do not fit that.
pub open spec fn meta_field(toks: Seq<Tok>, ident: usize, items: Seq<Nested>) -> Option<MetaField> {
    if items.len() < 2 {
        None
    } else {
        match (nested_mode(toks, items[0]), nested_u64(toks, items[1])) {
            (Some(mode), Some(offset)) => {
                let third: Option<(Option<u64>, Option<usize>)> = if items.len() > 2 {
                    match (nested_u64(toks, items[2]), nested_str(toks, items[2])) {
                        (Some(w), _) => Some((Some(w), None)),
                        (None, Some(d)) => Some((None, Some(d))),
                        (None, None) => None,
                    }
                } else {
                    Some((None, None))
                };
                match third {
                    None => None,
                    Some((width, doc)) => if items.len() > 3 {
                        if items.len() == 4 && doc is None && nested_str(toks, items[3]) is Some {
                            Some(MetaField { ident, mode, offset, width, doc: nested_str(toks, items[3]) })
                        } else {
                            None
                        }
                    } else {
                        Some(MetaField { ident, mode, offset, width, doc })
                    },
                }
            },
            _ => None,
        }
    }
}

pub open spec fn with_error(st: MetaStateV, a: usize, kind: MetaErrorKind) -> MetaStateV {
    MetaStateV { errors: st.errors.push(MetaError { attr: a, kind }), ..st }
}

/// One item of the list of the attribute at `a`.
pub open spec fn spec_item(toks: Seq<Tok>, a: usize, x: Nested, st: MetaStateV) -> MetaStateV {
    match x {
        Nested::NameValue(id, lit) => if ident_text(toks, id as int) == "default"@ {
            if st.default is None {
                MetaStateV { default: Some(lit), ..st }
            } else {
                with_error(st, a, MetaErrorKind::DuplicateDefault)
            }
        } else {
            st
        },
        Nested::List(id, o, c) => match spec_nested_items(toks, o + 1, c as int, true) {
            Some(items) => if items.len() > 1 {
                match meta_field(toks, id, items) {
                    Some(f) => MetaStateV { fields: st.fields.push(f), ..st },
                    None => with_error(st, a, MetaErrorKind::InvalidAttr),
                }
            } else {
                with_error(st, a, MetaErrorKind::InvalidAttr)
            },
            None => with_error(st, a, MetaErrorKind::InvalidAttr),
        },
        _ => with_error(st, a, MetaErrorKind::InvalidAttr),
    }
}

/// The items of the list of the attribute at `a`, one after the other.
pub open spec fn spec_items(toks: Seq<Tok>, a: usize, items: Seq<Nested>, st: MetaStateV) -> MetaStateV
    decreases items.len(),
{
    if items.len() == 0 {
        st
    } else {
        spec_items(toks, a, items.drop_first(), spec_item(toks, a, items[0], st))
    }
}

/// The list of the attribute whose `#` is at `a` and whose `]` is at `c`:
/// the tokens after its path must be one parenthesized meta list.
pub open spec fn meta_list(toks: Seq<Tok>, a: int, c: int) -> Option<Seq<Nested>> {
    if is_open(toks, a + 3, c, Delim::Paren) && close_of(toks, a + 3, c) == Some(c - 1) {
        spec_nested_items(toks, a + 4, c - 1, true)
    } else {
        None
    }
}

/// The `bitfield` attribute at `a`, closed at `c`.
pub open spec fn spec_meta_attr(toks: Seq<Tok>, a: int, c: int, st: MetaStateV) -> MetaStateV {
    match meta_list(toks, a, c) {
        Some(items) => spec_items(toks, a as usize, items, st),
        None => with_error(st, a as usize, MetaErrorKind::InvalidAttr),
    }
}

/// The attributes of the run that starts at `i`, those whose path is the
/// word `bitfield` read one after the other.
pub open spec fn spec_meta_attrs(toks: Seq<Tok>, i: int, end: int, st: MetaStateV) -> MetaStateV
    decreases end - i,
{
    if !is_punct(toks, i, end, '#') {
        st
    } else {
        match close_of(toks, i + 1, end) {
            None => st,
            Some(c) => {
                let st2 = if attr_named(toks, i, c, "bitfield"@) {
                    spec_meta_attr(toks, i, c, st)
                } else {
                    st
                };
                if c + 1 > i && c + 1 <= end {
                    spec_meta_attrs(toks, c + 1, end, st2)
                } else {
                    st2
                }
            },
        }
    }
}

fn u64_lit_exec(toks: &Vec<Tok>, p: usize) -> (r: Option<u64>)
    ensures
        r == u64_lit(toks@, p as int),
{
    match int_lit_at(toks, p, toks.len()) {
        IntLit::Value(v) => Some(v),
        IntLit::Huge => None,
        IntLit::NotInt => {
            if p < toks.len() {
                match &toks[p] {
                    Tok::Literal(_) => {},
                    _ => {
                        assert(int_lit_value(Seq::<char>::empty()) is None);
                    },
                }
            } else {
                assert(int_lit_value(Seq::<char>::empty()) is None);
            }
            None
        },
    }
}

fn nested_mode_exec(toks: &Vec<Tok>, x: Nested) -> (r: Option<Mode>)
    ensures
        r == nested_mode(toks@, x),
{
    match x {
        Nested::Word(w) => {
            let t = ident_string(toks, w);
            if crate::token::eq_lit(&t, "rw") {
                Some(Mode::ReadWrite)
            } else if crate::token::eq_lit(&t, "r") {
                Some(Mode::Read)
            } else if crate::token::eq_lit(&t, "w") {
                Some(Mode::Write)
            } else {
                None
            }
        },
        _ => None,
    }
}

fn nested_u64_exec(toks: &Vec<Tok>, x: Nested) -> (r: Option<u64>)
    ensures
        r == nested_u64(toks@, x),
{
    match x {
        Nested::Lit(p) => u64_lit_exec(toks, p),
        _ => None,
    }
}

fn nested_str_exec(toks: &Vec<Tok>, x: Nested) -> (r: Option<usize>)
    ensures
        r == nested_str(toks@, x),
{
    match x {
        Nested::Lit(p) => if peek_str_lit(toks, p, toks.len()) {
            Some(p)
        } else {
            None
        },
        _ => None,
    }
}

fn meta_field_exec(toks: &Vec<Tok>, ident: usize, items: &Vec<Nested>) -> (r: Option<MetaField>)
    ensures
        r == meta_field(toks@, ident, items@),
{
    if items.len() < 2 {
        return None;
    }
    let mode = match nested_mode_exec(toks, items[0]) {
        Some(m) => m,
        None => {
            return None;
        },
    };
    let offset = match nested_u64_exec(toks, items[1]) {
        Some(o) => o,
        None => {
            return None;
        },
    };
    let (width, doc) = if items.len() > 2 {
        match nested_u64_exec(toks, items[2]) {
            Some(w) => (Some(w), None),
            None => match nested_str_exec(toks, items[2]) {
                Some(d) => (None, Some(d)),
                None => {
                    return None;
                },
            },
        }
    } else {
        (None, None)
    };
    if items.len() > 3 {
        if items.len() == 4 && doc.is_none() {
            match nested_str_exec(toks, items[3]) {
                Some(d) => Some(MetaField { ident, mode, offset, width, doc: Some(d) }),
                None => None,
            }
        } else {
            None
        }
    } else {
        Some(MetaField { ident, mode, offset, width, doc })
    }
}

fn push_error(st: &mut MetaState, a: usize, kind: MetaErrorKind)
    ensures
        state_view(*final(st)) == with_error(state_view(*old(st)), a, kind),
{
    st.errors.push(MetaError { attr: a, kind });
}

fn apply_item(toks: &Vec<Tok>, a: usize, x: Nested, st: &mut MetaState)
    ensures
        state_view(*final(st)) == spec_item(toks@, a, x, state_view(*old(st))),
{
    match x {
        Nested::NameValue(id, lit) => {
            if crate::token::eq_lit(&ident_string(toks, id), "default") {
                if st.default.is_none() {
                    st.default = Some(lit);
                } else {
                    push_error(st, a, MetaErrorKind::DuplicateDefault);
                }
            }
        },
        Nested::List(id, o, c) => {
            let parsed = if o < c {
                parse_nested_items(toks, o + 1, c)
            } else {
                Some(Vec::new())
            };
            match parsed {
                Some(items) => {
                    if items.len() > 1 {
                        match meta_field_exec(toks, id, &items) {
                            Some(f) => {
                                st.fields.push(f);
                            },
                            None => {
                                push_error(st, a, MetaErrorKind::InvalidAttr);
                            },
                        }
                    } else {
                        push_error(st, a, MetaErrorKind::InvalidAttr);
                    }
                },
                None => {
                    push_error(st, a, MetaErrorKind::InvalidAttr);
                },
            }
        },
        _ => {
            push_error(st, a, MetaErrorKind::InvalidAttr);
        },
    }
}

fn apply_attr(toks: &Vec<Tok>, a: usize, c: usize, st: &mut MetaState)
    requires
        a < c,
        c <= toks@.len(),
    ensures
        state_view(*final(st)) == spec_meta_attr(toks@, a as int, c as int, state_view(*old(st))),
{
    let items = if c - a > 3 && peek_open(toks, a + 3, c, Delim::Paren) {
        match find_close(toks, a + 3, c) {
            Some(pc) => if pc == c - 1 {
                parse_nested_items(toks, a + 4, c - 1)
            } else {
                None
            },
            None => None,
        }
    } else {
        None
    };
    match items {
        None => {
            push_error(st, a, MetaErrorKind::InvalidAttr);
        },
        Some(items) => {
            let ghost st0 = state_view(*st);
            let mut k: usize = 0;
            assert(items@.skip(0) =~= items@);
            while k < items.len()
                invariant
                    k <= items@.len(),
                    spec_items(toks@, a, items@, st0) == spec_items(
                        toks@,
                        a,
                        items@.skip(k as int),
                        state_view(*st),
                    ),
                decreases items@.len() - k,
            {
                let ghost rest = items@.skip(k as int);
                assert(rest[0] == items@[k as int]);
                assert(rest.drop_first() =~= items@.skip(k + 1));
                apply_item(toks, a, items[k], st);
                k = k + 1;
            }
            assert(items@.skip(k as int).len() == 0);
        },
    }
}

/// What the derive reads of the item and of its attributes.
pub struct MetaDerive {
    pub state: MetaStateV,
    /// The struct's name and the tokens of its field's type, where the item
    /// is a tuple struct of one field (without a comma after it) whose type
    /// is a plain path.
    pub item: Option<(usize, Span)>,
}

pub open spec fn spec_meta_derive(toks: Seq<Tok>) -> MetaDerive {
    let end = toks.len() as int;
    let attrs_end = match spec_outer_attrs(toks, 0, end) {
        Ok(a) => a as int,
        Err(_) => 0,
    };
    let empty = MetaStateV { default: None, fields: Seq::empty(), errors: Seq::empty() };
    MetaDerive {
        state: spec_meta_attrs(toks, 0, attrs_end, empty),
        item: match spec_tuple_field_type(toks, end, false) {
            None => None,
            Some(bits) => Some(((spec_vis(toks, attrs_end, end).span.end + 1) as usize, bits)),
        },
    }
}

/// The accessors of the field `f`, whose index is `k`: those of a bit where
/// the width is one or not given, those of a run of bits otherwise.
pub open spec fn meta_field_accessors(toks: Seq<Tok>, f: MetaField, k: usize) -> Seq<
    (AccessorKind, Seq<char>, usize),
> {
    let id = ident_text(toks, f.ident as int);
    if f.width is None || f.width == Some(1u64) {
        (if f.mode.readable() {
            seq![(AccessorKind::ReadBit, id, k)]
        } else {
            Seq::empty()
        }) + (if f.mode.writable() {
            seq![
                (AccessorKind::SetBit, "set_"@ + id, k),
                (AccessorKind::ClearBit, "clear_"@ + id, k),
                (AccessorKind::ToggleBit, "toggle_"@ + id, k),
            ]
        } else {
            Seq::empty()
        })
    } else {
        (if f.mode.readable() {
            seq![(AccessorKind::ReadBits, id, k)]
        } else {
            Seq::empty()
        }) + (if f.mode.writable() {
            seq![(AccessorKind::WriteBits, "write_"@ + id, k)]
        } else {
            Seq::empty()
        })
    }
}

pub open spec fn meta_accessors(toks: Seq<Tok>, fields: Seq<MetaField>) -> Seq<
    (AccessorKind, Seq<char>, usize),
>
    decreases fields.len(),
{
    if fields.len() == 0 {
        Seq::empty()
    } else {
        meta_accessors(toks, fields.drop_last()) + meta_field_accessors(
            toks,
            fields.last(),
            (fields.len() - 1) as usize,
        )
    }
}

/// The name and width an accessor of the field `f` has by its kind: a
/// reader is named as the field, the writers of a one-bit field (no width,
/// or width one) `set_`, `clear_` and `toggle_` followed by the field's
/// name, the writer of a wider field `write_` followed by it.
pub open spec fn meta_accessor_named_for(toks: Seq<Tok>, f: MetaField, kind: AccessorKind, name: Seq<char>) -> bool {
    let id = ident_text(toks, f.ident as int);
    let bit = f.width is None || f.width == Some(1u64);
    match kind {
        AccessorKind::ReadBit => name == id && bit,
        AccessorKind::SetBit => name == "set_"@ + id && bit,
        AccessorKind::ClearBit => name == "clear_"@ + id && bit,
        AccessorKind::ToggleBit => name == "toggle_"@ + id && bit,
        AccessorKind::ReadBits => name == id && !bit,
        AccessorKind::WriteBits => name == "write_"@ + id && !bit,
    }
}

/// Every accessor is named after its field as its kind says: `write_NAME`
/// writes a field wider than one bit, `set_NAME`, `clear_NAME` and
/// `toggle_NAME` write a one-bit field, and a reader is named `NAME`.
pub proof fn law_meta_accessor_names(toks: Seq<Tok>, fields: Seq<MetaField>)
    requires
        fields.len() <= usize::MAX,
    ensures
        forall|m: int|
            0 <= m < meta_accessors(toks, fields).len() ==> {
                let a = #[trigger] meta_accessors(toks, fields)[m];
                &&& a.2 < fields.len()
                &&& meta_accessor_named_for(toks, fields[a.2 as int], a.0, a.1)
            },
    decreases fields.len(),
{
    if fields.len() > 0 {
        let init = fields.drop_last();
        let n = (fields.len() - 1) as usize;
        let f = fields.last();
        law_meta_accessor_names(toks, init);
        let pre = meta_accessors(toks, init);
        let fa = meta_field_accessors(toks, f, n);
        let all = meta_accessors(toks, fields);
        assert(all == pre + fa);
        assert forall|m: int| 0 <= m < all.len() implies {
            let a = #[trigger] all[m];
            &&& a.2 < fields.len()
            &&& meta_accessor_named_for(toks, fields[a.2 as int], a.0, a.1)
        } by {
            if m < pre.len() {
                assert(all[m] == pre[m]);
                assert(fields[pre[m].2 as int] == init[pre[m].2 as int]);
            } else {
                assert(all[m] == fa[m - pre.len()]);
                assert(fields[n as int] == f);
            }
        }
    }
}

/// No accessor goes beyond its field's mode, and each mode gets its
/// accessors: every accessor belongs to a field that was read, reads only a
/// readable field and writes only a writable one; a readable field has a
/// reader and a writable field has a writer.
pub proof fn law_meta_accessors_follow_modes(toks: Seq<Tok>, fields: Seq<MetaField>)
    requires
        fields.len() <= usize::MAX,
    ensures
        forall|m: int|
            0 <= m < meta_accessors(toks, fields).len() ==> {
                let a = #[trigger] meta_accessors(toks, fields)[m];
                &&& a.2 < fields.len()
                &&& reads(a.0) ==> fields[a.2 as int].mode.readable()
                &&& !reads(a.0) ==> fields[a.2 as int].mode.writable()
            },
        forall|k: int|
            0 <= k < fields.len() && #[trigger] fields[k].mode.readable() ==> exists|m: int|
                0 <= m < meta_accessors(toks, fields).len() && meta_accessors(toks, fields)[m].2
                    == k && reads(#[trigger] meta_accessors(toks, fields)[m].0),
        forall|k: int|
            0 <= k < fields.len() && #[trigger] fields[k].mode.writable() ==> exists|m: int|
                0 <= m < meta_accessors(toks, fields).len() && meta_accessors(toks, fields)[m].2
                    == k && !reads(#[trigger] meta_accessors(toks, fields)[m].0),
    decreases fields.len(),
{
    if fields.len() > 0 {
        let init = fields.drop_last();
        let n = (fields.len() - 1) as usize;
        let f = fields.last();
        law_meta_accessors_follow_modes(toks, init);
        let pre = meta_accessors(toks, init);
        let fa = meta_field_accessors(toks, f, n);
        let all = meta_accessors(toks, fields);
        assert(all == pre + fa);
        assert forall|m: int| 0 <= m < all.len() implies {
            let a = #[trigger] all[m];
            &&& a.2 < fields.len()
            &&& reads(a.0) ==> fields[a.2 as int].mode.readable()
            &&& !reads(a.0) ==> fields[a.2 as int].mode.writable()
        } by {
            if m < pre.len() {
                assert(all[m] == pre[m]);
                assert(fields[pre[m].2 as int] == init[pre[m].2 as int]);
            } else {
                assert(all[m] == fa[m - pre.len()]);
                assert(fields[n as int] == f);
            }
        }
        assert forall|k: int| 0 <= k < fields.len() && #[trigger] fields[k].mode.readable()
            implies exists|m: int|
            0 <= m < all.len() && all[m].2 == k && reads(#[trigger] all[m].0) by {
            if k < init.len() {
                assert(init[k] == fields[k]);
                assert(init[k].mode.readable());
                let m = choose|m: int| 0 <= m < pre.len() && pre[m].2 == k && reads(#[trigger] pre[m].0);
                assert(all[m] == pre[m]);
            } else {
                assert(fields[k] == f);
                assert(all[pre.len() as int] == fa[0]);
                assert(all[pre.len() as int].2 == k && reads(all[pre.len() as int].0));
            }
        }
        assert forall|k: int| 0 <= k < fields.len() && #[trigger] fields[k].mode.writable()
            implies exists|m: int|
            0 <= m < all.len() && all[m].2 == k && !reads(#[trigger] all[m].0) by {
            if k < init.len() {
                assert(init[k] == fields[k]);
                assert(init[k].mode.writable());
                let m = choose|m: int| 0 <= m < pre.len() && pre[m].2 == k && !reads(#[trigger] pre[m].0);
                assert(all[m] == pre[m]);
            } else {
                assert(fields[k] == f);
                let r: int = if f.mode.readable() { 1 } else { 0 };
                assert(all[pre.len() + r] == fa[r]);
                assert(all[pre.len() + r].2 == k && !reads(all[pre.len() + r].0));
            }
        }
    }
}

fn accessors(toks: &Vec<Tok>, fields: &Vec<MetaField>) -> (r: Vec<Accessor>)
    ensures
        r@.map_values(|a: Accessor| crate::bitfield::accessor_view(a)) == meta_accessors(
            toks@,
            fields@,
        ),
{
    let mut out: Vec<Accessor> = Vec::new();
    let mut k: usize = 0;
    while k < fields.len()
        invariant
            k <= fields@.len(),
            out@.map_values(|a: Accessor| crate::bitfield::accessor_view(a)) == meta_accessors(
                toks@,
                fields@.take(k as int),
            ),
        decreases fields@.len() - k,
    {
        let f = fields[k];
        let ghost before = out@.map_values(|a: Accessor| crate::bitfield::accessor_view(a));
        let id = ident_string(toks, f.ident);
        let single = match f.width {
            None => true,
            Some(w) => w == 1,
        };
        if single {
            if f.mode.is_read() {
                push_accessor(&mut out, AccessorKind::ReadBit, id.clone(), k);
            }
            if f.mode.is_write() {
                push_accessor(&mut out, AccessorKind::SetBit, cat("set_", id.as_str()), k);
                push_accessor(&mut out, AccessorKind::ClearBit, cat("clear_", id.as_str()), k);
                push_accessor(&mut out, AccessorKind::ToggleBit, cat("toggle_", id.as_str()), k);
            }
        } else {
            if f.mode.is_read() {
                push_accessor(&mut out, AccessorKind::ReadBits, id.clone(), k);
            }
            if f.mode.is_write() {
                push_accessor(&mut out, AccessorKind::WriteBits, cat("write_", id.as_str()), k);
            }
        }
        proof {
            assert(fields@.take(k + 1).drop_last() =~= fields@.take(k as int));
            assert(fields@.take(k + 1).last() == f);
            assert(out@.map_values(|a: Accessor| crate::bitfield::accessor_view(a)) =~= before
                + meta_field_accessors(toks@, f, k));
        }
        k = k + 1;
    }
    assert(fields@.take(fields@.len() as int) =~= fields@);
    out
}

/// What the derive expands to: the errors to report, and, where the item
/// is a tuple struct of one field, the trait's implementation for the
/// struct named at `ident` with `bits` as its `Bits`, the default value
/// (the literal at `default`, or zero) and the accessor methods.
#[derive(Debug)]
pub struct MetaBitfieldPlan {
    pub errors: Vec<MetaError>,
    pub item: Option<(usize, Span)>,
    pub default: Option<usize>,
    pub fields: Vec<MetaField>,
    pub accessors: Vec<Accessor>,
}

/// `#[derive(Bitfield)]`, its fields read from `bitfield` attributes in the
/// meta syntax, on the item `toks`.
pub fn derive(toks: &Vec<Tok>) -> (r: MetaBitfieldPlan)
    ensures
        ({
            let d = spec_meta_derive(toks@);
            &&& r.errors@ == d.state.errors
            &&& r.item == d.item
            &&& r.default == d.state.default
            &&& r.fields@ == d.state.fields
            &&& r.accessors@.map_values(|a: Accessor| crate::bitfield::accessor_view(a))
                == meta_accessors(toks@, r.fields@)
        }),
{
    let end = toks.len();
    let attrs_end = match outer_attrs(toks, 0, end) {
        Ok(a) => a,
        Err(_) => 0,
    };
    let mut st = MetaState { default: None, fields: Vec::new(), errors: Vec::new() };
    let ghost empty = MetaStateV { default: None, fields: Seq::empty(), errors: Seq::empty() };
    assert(state_view(st) == empty);
    let mut j: usize = 0;
    let mut done = false;
    while !done && j < attrs_end && peek_punct(toks, j, attrs_end, '#')
        invariant
            attrs_end <= toks@.len(),
            spec_meta_attrs(toks@, 0, attrs_end as int, empty) == (if done {
                state_view(st)
            } else {
                spec_meta_attrs(toks@, j as int, attrs_end as int, state_view(st))
            }),
        decreases attrs_end - j + (if done { 0int } else { 1int }),
    {
        if j + 1 >= attrs_end {
            done = true;
        } else {
            match find_close(toks, j + 1, attrs_end) {
                None => {
                    done = true;
                },
                Some(c) => {
                    if c >= 3 && j < c - 2 && attr_is_named(toks, j, c, "bitfield") {
                        apply_attr(toks, j, c, &mut st);
                    } else {
                        assert(!attr_named(toks@, j as int, c as int, "bitfield"@));
                    }
                    j = c + 1;
                },
            }
        }
    }
    let item = match tuple_field_type(toks, false) {
        None => None,
        Some(bits) => Some((parse_vis(toks, attrs_end, end).span.end + 1, bits)),
    };
    let accessors = accessors(toks, &st.fields);
    MetaBitfieldPlan {
        errors: st.errors,
        item,
        default: st.default,
        fields: st.fields,
        accessors,
    }
}

} // verus!
