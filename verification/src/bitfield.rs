//! `#[derive(Bitfield)]`: accessors for the bit fields of a one-field tuple
//! struct, declared in a `#[bitfield(..)]` attribute.
//!
//! The attribute lists fields as `name(mode, offset[, width][, "doc"])`,
//! separated by commas. A field of width one gets bit accessors (`name`,
//! `set_name`, `clear_name`, `toggle_name`), a wider one gets `name` and
//! `write_name`; the mode decides which of them exist.

use crate::case::cat;
use crate::token::{
    Delim, ErrorKind, IntLit, MacroError, Span, Tok, angle_step, attr_is_named, attr_named, close_of, err, expect_end, expect_group, expect_ident, expect_int_lit, expect_punct, find_close, ident_string, ident_text, int_lit_at, int_lit_value, is_int_lit, is_open, is_plain_ident, is_punct, is_str_lit, is_word, literal_text, outer_attrs, parse_path, parse_type, parse_vis, peek_joint_punct, peek_open, peek_plain_ident, peek_punct, peek_str_lit, peek_word, read_int_lit, skip_tree, spec_expect_end, spec_expect_group, spec_expect_ident, spec_expect_int_lit, spec_expect_punct, spec_outer_attrs, spec_path, spec_type, spec_vis, tree_end,
};
use vstd::prelude::*;

verus! {

/// The access mode of a field.
#[derive(PartialEq, Eq, Structural, Clone, Copy, Debug)]
pub enum Mode {
    Read,
    ReadWrite,
    Write,
}

impl Mode {
    pub open spec fn readable(self) -> bool {
        self is Read || self is ReadWrite
    }

    pub open spec fn writable(self) -> bool {
        self is ReadWrite || self is Write
    }

    /// Whether the field can be read.
    pub fn is_read(&self) -> (r: bool)
        ensures
            r == self.readable(),
    {
        match *self {
            Mode::Read | Mode::ReadWrite => true,
            Mode::Write => false,
        }
    }

    /// Whether the field can be written.
    pub fn is_write(&self) -> (r: bool)
        ensures
            r == self.writable(),
    {
        match *self {
            Mode::Read => false,
            Mode::ReadWrite | Mode::Write => true,
        }
    }
}

/// A field of the `#[bitfield(..)]` attribute, by the positions of its
/// tokens.
#[derive(PartialEq, Eq, Clone, Copy, Debug)]
pub struct Field {
    pub ident: usize,
    pub mode: Mode,
    pub offset: usize,
    pub width: Option<usize>,
    pub doc: Option<usize>,
}

/// The mode written at `i`.
pub open spec fn spec_mode(toks: Seq<Tok>, i: int, end: int) -> Result<Mode, MacroError> {
    if !is_plain_ident(toks, i, end) {
        err(i, ErrorKind::ExpectedIdent)
    } else if ident_text(toks, i) == "r"@ {
        Ok(Mode::Read)
    } else if ident_text(toks, i) == "rw"@ {
        Ok(Mode::ReadWrite)
    } else if ident_text(toks, i) == "w"@ {
        Ok(Mode::Write)
    } else {
        err(i + 1, ErrorKind::InvalidMode)
    }
}

fn parse_mode(toks: &Vec<Tok>, i: usize, end: usize) -> (r: Result<Mode, MacroError>)
    requires
        end <= toks@.len(),
    ensures
        r == spec_mode(toks@, i as int, end as int),
{
    if !peek_plain_ident(toks, i, end) {
        return Err(MacroError { at: i, kind: ErrorKind::ExpectedIdent });
    }
    if peek_word(toks, i, end, "r") {
        Ok(Mode::Read)
    } else if peek_word(toks, i, end, "rw") {
        Ok(Mode::ReadWrite)
    } else if peek_word(toks, i, end, "w") {
        Ok(Mode::Write)
    } else {
        Err(MacroError { at: i + 1, kind: ErrorKind::InvalidMode })
    }
}

/// The contents `mode, offset[, width][, "doc"]` of a field's parentheses,
/// in `[i, end)`.
pub open spec fn spec_field_args(toks: Seq<Tok>, ident: int, i: int, end: int) -> Result<
    Field,
    MacroError,
> {
    match spec_mode(toks, i, end) {
        Err(e) => Err(e),
        Ok(mode) => match spec_expect_punct(toks, i + 1, end, ',') {
            Err(e) => Err(e),
            Ok(p) => match spec_expect_int_lit(toks, p as int, end) {
                Err(e) => Err(e),
                Ok(q) => {
                    let has_width = is_punct(toks, q as int, end, ',') && is_int_lit(
                        toks,
                        q + 1,
                        end,
                    );
                    let q2 = if has_width {
                        q + 2
                    } else {
                        q as int
                    };
                    let has_doc = is_punct(toks, q2, end, ',') && is_str_lit(toks, q2 + 1, end);
                    let q3 = if has_doc {
                        q2 + 2
                    } else {
                        q2
                    };
                    match spec_expect_end(q3, end) {
                        Err(e) => Err(e),
                        Ok(_) => Ok(
                            Field {
                                ident: ident as usize,
                                mode,
                                offset: p,
                                width: if has_width {
                                    Some((q + 1) as usize)
                                } else {
                                    None
                                },
                                doc: if has_doc {
                                    Some((q2 + 1) as usize)
                                } else {
                                    None
                                },
                            },
                        ),
                    }
                },
            },
        },
    }
}

/// A field `name(..)` at `i`: the field and the position after it.
pub open spec fn spec_field(toks: Seq<Tok>, i: int, end: int) -> Result<(Field, usize), MacroError> {
    match spec_expect_ident(toks, i, end) {
        Err(e) => Err(e),
        Ok(p) => match spec_expect_group(toks, p as int, end, Delim::Paren) {
            Err(e) => Err(e),
            Ok(c) => match spec_field_args(toks, i, p + 1, c as int) {
                Err(e) => Err(e),
                Ok(f) => Ok((f, (c + 1) as usize)),
            },
        },
    }
}

fn parse_field(toks: &Vec<Tok>, i: usize, end: usize) -> (r: Result<(Field, usize), MacroError>)
    requires
        end <= toks@.len(),
    ensures
        r == spec_field(toks@, i as int, end as int),
        r matches Ok((_, n)) ==> i < n <= end,
{
    let p = expect_ident(toks, i, end)?;
    let c = expect_group(toks, p, end, Delim::Paren)?;
    let mode = parse_mode(toks, p + 1, c)?;
    let q = expect_punct(toks, p + 2, c, ',')?;
    let q = expect_int_lit(toks, q, c)?;
    let offset = q - 1;
    let has_width = peek_punct(toks, q, c, ',') && q + 1 < c && matches!(
        int_lit_at(toks, q + 1, c),
        IntLit::Value(_) | IntLit::Huge
    );
    let q2 = if has_width {
        q + 2
    } else {
        q
    };
    let has_doc = peek_punct(toks, q2, c, ',') && q2 + 1 < c && peek_str_lit(toks, q2 + 1, c);
    let q3 = if has_doc {
        q2 + 2
    } else {
        q2
    };
    expect_end(q3, c)?;
    let f = Field {
        ident: i,
        mode,
        offset,
        width: if has_width {
            Some(q + 1)
        } else {
            None
        },
        doc: if has_doc {
            Some(q2 + 1)
        } else {
            None
        },
    };
    Ok((f, c + 1))
}

/// The fields from `i` on, separated by commas, with an optional trailing
/// comma: the fields and the position after the last comma or field.
pub open spec fn spec_fields(toks: Seq<Tok>, i: int, end: int) -> Result<
    (Seq<Field>, usize),
    MacroError,
>
    decreases end - i,
{
    if i >= end {
        Ok((Seq::empty(), i as usize))
    } else {
        match spec_field(toks, i, end) {
            Err(e) => Err(e),
            Ok((f, p)) => if is_punct(toks, p as int, end, ',') && p > i {
                match spec_fields(toks, p + 1, end) {
                    Err(e) => Err(e),
                    Ok((rest, q)) => Ok((seq![f] + rest, q)),
                }
            } else {
                Ok((seq![f], p))
            },
        }
    }
}

pub open spec fn prepend_fields(acc: Seq<Field>, r: Result<(Seq<Field>, usize), MacroError>) -> Result<
    (Seq<Field>, usize),
    MacroError,
> {
    match r {
        Ok((s, p)) => Ok((acc + s, p)),
        Err(e) => Err(e),
    }
}

fn parse_fields(toks: &Vec<Tok>, i: usize, end: usize) -> (r: Result<(Vec<Field>, usize), MacroError>)
    requires
        end <= toks@.len(),
    ensures
        r matches Ok((v, n)) ==> spec_fields(toks@, i as int, end as int) == Ok::<(Seq<Field>, usize), MacroError>((v@, n)),
        r matches Err(e) ==> spec_fields(toks@, i as int, end as int) == Err::<
            (Seq<Field>, usize),
            MacroError,
        >(e),
{
    let mut fields: Vec<Field> = Vec::new();
    let mut j = i;
    while j < end
        invariant
            end <= toks@.len(),
            i <= j,
            spec_fields(toks@, i as int, end as int) == prepend_fields(
                fields@,
                spec_fields(toks@, j as int, end as int),
            ),
        decreases end - j,
    {
        let ghost prev = fields@;
        let (f, p) = parse_field(toks, j, end)?;
        fields.push(f);
        if peek_punct(toks, p, end, ',') {
            j = p + 1;
            proof {
                match spec_fields(toks@, j as int, end as int) {
                    Ok((rest, q)) => {
                        assert(prev + (seq![f] + rest) =~= fields@ + rest);
                    },
                    Err(_) => {},
                }
            }
        } else {
            proof {
                assert(prev + seq![f] =~= fields@);
            }
            return Ok((fields, p));
        }
    }
    assert(fields@ + Seq::<Field>::empty() =~= fields@);
    Ok((fields, j))
}

/// The arguments of a `#[bitfield(..)]` attribute, `[i, end)` being the
/// tokens after its path: one parenthesized list of fields and nothing else.
pub open spec fn spec_attr_args(toks: Seq<Tok>, i: int, end: int) -> Result<Seq<Field>, MacroError> {
    match spec_expect_group(toks, i, end, Delim::Paren) {
        Err(e) => Err(e),
        Ok(c) => match spec_fields(toks, i + 1, c as int) {
            Err(e) => Err(e),
            Ok((fields, p)) => match spec_expect_end(p as int, c as int) {
                Err(e) => Err(e),
                Ok(_) => match spec_expect_end(c + 1, end) {
                    Err(e) => Err(e),
                    Ok(_) => Ok(fields),
                },
            },
        },
    }
}

fn parse_attr_args(toks: &Vec<Tok>, i: usize, end: usize) -> (r: Result<Vec<Field>, MacroError>)
    requires
        end <= toks@.len(),
    ensures
        r matches Ok(v) ==> spec_attr_args(toks@, i as int, end as int) == Ok::<
            Seq<Field>,
            MacroError,
        >(v@),
        r matches Err(e) ==> spec_attr_args(toks@, i as int, end as int) == Err::<
            Seq<Field>,
            MacroError,
        >(e),
{
    let c = expect_group(toks, i, end, Delim::Paren)?;
    let (fields, p) = parse_fields(toks, i + 1, c)?;
    expect_end(p, c)?;
    expect_end(c + 1, end)?;
    Ok(fields)
}

// ---------------------------------------------------------------------------
// The item the derive is attached to

/// The first attribute in `[i, end)` (a run of outer attributes) whose path
/// is `bitfield`: the position of its `#`.
pub open spec fn find_bitfield_attr(toks: Seq<Tok>, i: int, end: int) -> Option<int>
    decreases end - i,
{
    if !(i < end && is_punct(toks, i, end, '#')) {
        None
    } else if attr_named(toks, i, end, "bitfield"@) {
        Some(i)
    } else {
        match close_of(toks, i + 1, end) {
            Some(c) => if c + 1 > i && c + 1 <= end {
                find_bitfield_attr(toks, c + 1, end)
            } else {
                None
            },
            None => None,
        }
    }
}

fn find_attr(toks: &Vec<Tok>, i: usize, end: usize) -> (r: Option<usize>)
    requires
        end <= toks@.len(),
    ensures
        r matches Some(a) ==> find_bitfield_attr(toks@, i as int, end as int) == Some(a as int)
            && a < end,
        r is None ==> find_bitfield_attr(toks@, i as int, end as int) is None,
{
    let mut j = i;
    while j < end && peek_punct(toks, j, end, '#')
        invariant
            end <= toks@.len(),
            i <= j,
            find_bitfield_attr(toks@, i as int, end as int) == find_bitfield_attr(
                toks@,
                j as int,
                end as int,
            ),
        decreases end - j,
    {
        if end >= 2 && j < end - 2 && attr_is_named(toks, j, end, "bitfield") {
            return Some(j);
        }
        if !(j + 1 < end) {
            return None;
        }
        match find_close(toks, j + 1, end) {
            Some(c) => {
                j = c + 1;
            },
            None => {
                return None;
            },
        }
    }
    None
}

/// Where the angle brackets opened before `i` (with `depth` of them still
/// open) close: the position after the closing `>`.
pub open spec fn angle_close(toks: Seq<Tok>, i: int, end: int, depth: nat) -> Option<int>
    decreases end - i,
{
    if depth == 0 {
        Some(i)
    } else if i >= end || i < 0 {
        None
    } else {
        match tree_end(toks, i, end) {
            Some(n) => if n > i && n <= end {
                angle_close(toks, n, end, angle_step(toks, i, depth))
            } else {
                None
            },
            None => None,
        }
    }
}

/// The type of the one field of the tuple struct the derive is attached to,
/// where the item is such a struct and the type is a plain path; a comma
/// after the field is allowed where `trailing` holds.
pub open spec fn spec_tuple_field_type(toks: Seq<Tok>, end: int, trailing: bool) -> Option<Span> {
    match spec_outer_attrs(toks, 0, end) {
        Err(_) => None,
        Ok(a) => {
            let v = spec_vis(toks, a as int, end);
            let kw = v.span.end as int;
            if !is_word(toks, kw, end, "struct"@) || !is_plain_ident(toks, kw + 1, end) {
                None
            } else {
                let g = if is_punct(toks, kw + 2, end, '<') {
                    angle_close(toks, kw + 3, end, 1)
                } else {
                    Some(kw + 2)
                };
                match g {
                    None => None,
                    Some(g) => if !is_open(toks, g, end, Delim::Paren) {
                        None
                    } else {
                        match close_of(toks, g, end) {
                            None => None,
                            Some(c) => match spec_outer_attrs(toks, g + 1, c) {
                                Err(_) => None,
                                Ok(fa) => {
                                    let fv = spec_vis(toks, fa as int, c);
                                    let ts = fv.span.end as int;
                                    match spec_type(toks, ts, c, ',') {
                                        Err(_) => None,
                                        Ok(te) => {
                                            let rest_ok = te as int == c || (trailing && is_punct(
                                                toks,
                                                te as int,
                                                c,
                                                ',',
                                            ) && te + 1 == c);
                                            if rest_ok && spec_path(toks, ts, te as int) == Ok::<
                                                usize,
                                                MacroError,
                                            >(te) {
                                                Some(Span { start: ts as usize, end: te })
                                            } else {
                                                None
                                            }
                                        },
                                    }
                                },
                            },
                        }
                    },
                }
            }
        },
    }
}

/// Finds where the angle brackets opened just before `i` close.
pub fn skip_angles(toks: &Vec<Tok>, i: usize, end: usize) -> (r: Option<usize>)
    requires
        end <= toks@.len(),
        i >= 1,
    ensures
        r matches Some(n) ==> angle_close(toks@, i as int, end as int, 1) == Some(n as int),
        r is None ==> angle_close(toks@, i as int, end as int, 1) is None,
        r matches Some(n) ==> n <= end,
{
    let mut j = i;
    let mut depth: usize = 1;
    while depth > 0
        invariant
            end <= toks@.len(),
            i <= j,
            i >= 1,
            depth <= j - i + 1,
            depth > 0 ==> j <= end || j == i,
            depth == 0 ==> j <= end,
            angle_close(toks@, i as int, end as int, 1) == angle_close(
                toks@,
                j as int,
                end as int,
                depth as nat,
            ),
        decreases end - j,
    {
        if j >= end {
            return None;
        }
        match skip_tree(toks, j, end) {
            Some(n) => {
                depth = angle_step_depth(toks, j, depth);
                j = n;
            },
            None => {
                return None;
            },
        }
    }
    Some(j)
}

fn angle_step_depth(toks: &Vec<Tok>, j: usize, depth: usize) -> (r: usize)
    requires
        j < toks@.len(),
        depth <= j,
    ensures
        r as nat == angle_step(toks@, j as int, depth as nat),
        r <= depth + 1,
{
    let _len = toks.len();
    if peek_punct(toks, j, toks.len(), '<') {
        depth + 1
    } else if peek_punct(toks, j, toks.len(), '>') {
        if j > 0 && peek_joint_punct(toks, j - 1, toks.len(), '-') {
            depth
        } else if depth > 0 {
            depth - 1
        } else {
            0
        }
    } else {
        depth
    }
}

pub fn tuple_field_type(toks: &Vec<Tok>, trailing: bool) -> (r: Option<Span>)
    ensures
        r == spec_tuple_field_type(toks@, toks@.len() as int, trailing),
{
    let end = toks.len();
    let a = match outer_attrs(toks, 0, end) {
        Ok(a) => a,
        Err(_) => {
            return None;
        },
    };
    let v = parse_vis(toks, a, end);
    let kw = v.span.end;
    if !peek_word(toks, kw, end, "struct") || kw + 1 >= end || !peek_plain_ident(
        toks,
        kw + 1,
        end,
    ) {
        return None;
    }
    let g = if kw + 2 < end && peek_punct(toks, kw + 2, end, '<') {
        match skip_angles(toks, kw + 3, end) {
            Some(g) => g,
            None => {
                return None;
            },
        }
    } else {
        kw + 2
    };
    if !peek_open(toks, g, end, Delim::Paren) {
        return None;
    }
    let c = match find_close(toks, g, end) {
        Some(c) => c,
        None => {
            return None;
        },
    };
    let fa = match outer_attrs(toks, g + 1, c) {
        Ok(fa) => fa,
        Err(_) => {
            return None;
        },
    };
    let fv = parse_vis(toks, fa, c);
    let ts = fv.span.end;
    let te = match parse_type(toks, ts, c, ',') {
        Ok(te) => te,
        Err(_) => {
            return None;
        },
    };
    let rest_ok = te == c || (trailing && peek_punct(toks, te, c, ',') && te + 1 == c);
    if !rest_ok {
        return None;
    }
    match parse_path(toks, ts, te) {
        Ok(pe) => if pe == te {
            Some(Span { start: ts, end: te })
        } else {
            None
        },
        Err(_) => None,
    }
}

// ---------------------------------------------------------------------------
// The accessors

/// The kinds of accessor methods.
#[derive(PartialEq, Eq, Structural, Clone, Copy, Debug)]
pub enum AccessorKind {
    /// `fn name(&self) -> bool`
    ReadBit,
    /// `fn set_name(&mut self) -> &mut Self`
    SetBit,
    /// `fn clear_name(&mut self) -> &mut Self`
    ClearBit,
    /// `fn toggle_name(&mut self) -> &mut Self`
    ToggleBit,
    /// `fn name(&self) -> Bits`
    ReadBits,
    /// `fn write_name(&mut self, bits: Bits) -> &mut Self`
    WriteBits,
}

/// An accessor method: its kind, its name and the index of its field.
#[derive(Debug)]
pub struct Accessor {
    pub kind: AccessorKind,
    pub name: String,
    pub field: usize,
}

pub open spec fn accessor_view(a: Accessor) -> (AccessorKind, Seq<char>, usize) {
    (a.kind, a.name@, a.field)
}

/// The field has width one: no width given, or a width of value one.
pub open spec fn is_single_bit(toks: Seq<Tok>, f: Field) -> bool {
    match f.width {
        None => true,
        Some(w) => int_lit_value(literal_text(toks, w as int)) == Some(1nat),
    }
}

/// The accessors of the field `f`, whose index is `k`.
pub open spec fn field_accessors(toks: Seq<Tok>, f: Field, k: usize) -> Seq<
    (AccessorKind, Seq<char>, usize),
> {
    let id = ident_text(toks, f.ident as int);
    if is_single_bit(toks, f) {
        (if f.mode.readable() {
            seq![(AccessorKind::ReadBit, id, k)]
        } else {
            Seq::empty()
        }) + (if f.mode.writable() {
            seq![
                (AccessorKind::SetBit, "set_"@ + id, k),
                (AccessorKind::ClearBit, "clear_"@ + id, k),
                (AccessorKind::ToggleBit, "toggle_"@ + id, k),
            ]
        } else {
            Seq::empty()
        })
    } else {
        (if f.mode.readable() {
            seq![(AccessorKind::ReadBits, id, k)]
        } else {
            Seq::empty()
        }) + (if f.mode.writable() {
            seq![(AccessorKind::WriteBits, "write_"@ + id, k)]
        } else {
            Seq::empty()
        })
    }
}

/// The accessors of all the fields, field by field, in their order.
pub open spec fn all_accessors(toks: Seq<Tok>, fields: Seq<Field>) -> Seq<
    (AccessorKind, Seq<char>, usize),
>
    decreases fields.len(),
{
    if fields.len() == 0 {
        Seq::empty()
    } else {
        all_accessors(toks, fields.drop_last()) + field_accessors(
            toks,
            fields.last(),
            (fields.len() - 1) as usize,
        )
    }
}

/// The accessor kinds that read a field.
pub open spec fn reads(kind: AccessorKind) -> bool {
    kind is ReadBit || kind is ReadBits
}

/// No accessor goes beyond its field's mode, and each mode gets its
/// accessors: every accessor belongs to a declared field, reads only a
/// readable field and writes only a writable one; a readable field has a
/// reader and a writable field has a writer.
pub proof fn law_accessors_follow_modes(toks: Seq<Tok>, fields: Seq<Field>)
    requires
        fields.len() <= usize::MAX,
    ensures
        forall|m: int|
            0 <= m < all_accessors(toks, fields).len() ==> {
                let a = #[trigger] all_accessors(toks, fields)[m];
                &&& a.2 < fields.len()
                &&& reads(a.0) ==> fields[a.2 as int].mode.readable()
                &&& !reads(a.0) ==> fields[a.2 as int].mode.writable()
            },
        forall|k: int|
            0 <= k < fields.len() && #[trigger] fields[k].mode.readable() ==> exists|m: int|
                0 <= m < all_accessors(toks, fields).len() && all_accessors(toks, fields)[m].2
                    == k && reads(#[trigger] all_accessors(toks, fields)[m].0),
        forall|k: int|
            0 <= k < fields.len() && #[trigger] fields[k].mode.writable() ==> exists|m: int|
                0 <= m < all_accessors(toks, fields).len() && all_accessors(toks, fields)[m].2
                    == k && !reads(#[trigger] all_accessors(toks, fields)[m].0),
    decreases fields.len(),
{
    if fields.len() > 0 {
        let init = fields.drop_last();
        let n = (fields.len() - 1) as usize;
        let f = fields.last();
        law_accessors_follow_modes(toks, init);
        let pre = all_accessors(toks, init);
        let fa = field_accessors(toks, f, n);
        let all = all_accessors(toks, fields);
        assert(all == pre + fa);
        assert forall|m: int| 0 <= m < all.len() implies {
            let a = #[trigger] all[m];
            &&& a.2 < fields.len()
            &&& reads(a.0) ==> fields[a.2 as int].mode.readable()
            &&& !reads(a.0) ==> fields[a.2 as int].mode.writable()
        } by {
            if m < pre.len() {
                assert(all[m] == pre[m]);
                assert(fields[pre[m].2 as int] == init[pre[m].2 as int]);
            } else {
                assert(all[m] == fa[m - pre.len()]);
                assert(fields[n as int] == f);
            }
        }
        assert forall|k: int| 0 <= k < fields.len() && #[trigger] fields[k].mode.readable()
            implies exists|m: int|
            0 <= m < all.len() && all[m].2 == k && reads(#[trigger] all[m].0) by {
            if k < init.len() {
                assert(init[k] == fields[k]);
                let m = choose|m: int| 0 <= m < pre.len() && pre[m].2 == k && reads(#[trigger] pre[m].0);
                assert(all[m] == pre[m]);
            } else {
                assert(fields[k] == f);
                assert(all[pre.len() as int] == fa[0]);
                assert(all[pre.len() as int].2 == k && reads(all[pre.len() as int].0));
            }
        }
        assert forall|k: int| 0 <= k < fields.len() && #[trigger] fields[k].mode.writable()
            implies exists|m: int|
            0 <= m < all.len() && all[m].2 == k && !reads(#[trigger] all[m].0) by {
            if k < init.len() {
                assert(init[k] == fields[k]);
                let m = choose|m: int| 0 <= m < pre.len() && pre[m].2 == k && !reads(#[trigger] pre[m].0);
                assert(all[m] == pre[m]);
            } else {
                assert(fields[k] == f);
                let r: int = if f.mode.readable() { 1 } else { 0 };
                assert(all[pre.len() + r] == fa[r]);
                assert(all[pre.len() + r].2 == k && !reads(all[pre.len() + r].0));
            }
        }
    }
}

/// The name and width an accessor of the field `f` has by its kind: a
/// reader is named as the field, the writers of a one-bit field `set_`,
/// `clear_` and `toggle_` followed by the field's name, the writer of a wider
/// field `write_` followed by it; bit accessors belong to one-bit fields
/// only, bits accessors to wider ones.
pub open spec fn accessor_named_for(toks: Seq<Tok>, f: Field, kind: AccessorKind, name: Seq<char>) -> bool {
    let id = ident_text(toks, f.ident as int);
    match kind {
        AccessorKind::ReadBit => name == id && is_single_bit(toks, f),
        AccessorKind::SetBit => name == "set_"@ + id && is_single_bit(toks, f),
        AccessorKind::ClearBit => name == "clear_"@ + id && is_single_bit(toks, f),
        AccessorKind::ToggleBit => name == "toggle_"@ + id && is_single_bit(toks, f),
        AccessorKind::ReadBits => name == id && !is_single_bit(toks, f),
        AccessorKind::WriteBits => name == "write_"@ + id && !is_single_bit(toks, f),
    }
}

/// Every accessor is named after its field as its kind says: `write_NAME`
/// writes a field wider than one bit, `set_NAME`, `clear_NAME` and
/// `toggle_NAME` write a one-bit field, and a reader is named `NAME`.
pub proof fn law_accessor_names(toks: Seq<Tok>, fields: Seq<Field>)
    requires
        fields.len() <= usize::MAX,
    ensures
        forall|m: int|
            0 <= m < all_accessors(toks, fields).len() ==> {
                let a = #[trigger] all_accessors(toks, fields)[m];
                &&& a.2 < fields.len()
                &&& accessor_named_for(toks, fields[a.2 as int], a.0, a.1)
            },
    decreases fields.len(),
{
    if fields.len() > 0 {
        let init = fields.drop_last();
        let n = (fields.len() - 1) as usize;
        let f = fields.last();
        law_accessor_names(toks, init);
        let pre = all_accessors(toks, init);
        let fa = field_accessors(toks, f, n);
        let all = all_accessors(toks, fields);
        assert(all == pre + fa);
        assert forall|m: int| 0 <= m < all.len() implies {
            let a = #[trigger] all[m];
            &&& a.2 < fields.len()
            &&& accessor_named_for(toks, fields[a.2 as int], a.0, a.1)
        } by {
            if m < pre.len() {
                assert(all[m] == pre[m]);
                assert(fields[pre[m].2 as int] == init[pre[m].2 as int]);
            } else {
                assert(all[m] == fa[m - pre.len()]);
                assert(fields[n as int] == f);
            }
        }
    }
}

fn is_single_bit_exec(toks: &Vec<Tok>, f: &Field) -> (r: bool)
    ensures
        r == is_single_bit(toks@, *f),
{
    match f.width {
        None => true,
        Some(w) => {
            if w < toks.len() {
                match &toks[w] {
                    Tok::Literal(text) => matches!(read_int_lit(text), IntLit::Value(1)),
                    _ => {
                        assert(int_lit_value(Seq::<char>::empty()) is None);
                        false
                    },
                }
            } else {
                assert(int_lit_value(Seq::<char>::empty()) is None);
                false
            }
        },
    }
}

pub fn push_accessor(
    out: &mut Vec<Accessor>,
    kind: AccessorKind,
    name: String,
    field: usize,
)
    ensures
        final(out)@.map_values(|a: Accessor| accessor_view(a)) == old(out)@.map_values(
            |a: Accessor| accessor_view(a),
        ).push((kind, name@, field)),
{
    let ghost before = out@;
    out.push(Accessor { kind, name, field });
    assert(out@.map_values(|a: Accessor| accessor_view(a)) =~= before.map_values(
        |a: Accessor| accessor_view(a),
    ).push((kind, name@, field)));
}

fn accessors(toks: &Vec<Tok>, fields: &Vec<Field>) -> (r: Vec<Accessor>)
    ensures
        r@.map_values(|a: Accessor| accessor_view(a)) == all_accessors(toks@, fields@),
{
    let mut out: Vec<Accessor> = Vec::new();
    let mut k: usize = 0;
    while k < fields.len()
        invariant
            k <= fields@.len(),
            out@.map_values(|a: Accessor| accessor_view(a)) == all_accessors(
                toks@,
                fields@.take(k as int),
            ),
        decreases fields@.len() - k,
    {
        let f = fields[k];
        let ghost before = out@.map_values(|a: Accessor| accessor_view(a));
        let id = ident_string(toks, f.ident);
        if is_single_bit_exec(toks, &f) {
            if f.mode.is_read() {
                push_accessor(&mut out, AccessorKind::ReadBit, id.clone(), k);
            }
            if f.mode.is_write() {
                push_accessor(&mut out, AccessorKind::SetBit, cat("set_", id.as_str()), k);
                push_accessor(&mut out, AccessorKind::ClearBit, cat("clear_", id.as_str()), k);
                push_accessor(&mut out, AccessorKind::ToggleBit, cat("toggle_", id.as_str()), k);
            }
        } else {
            if f.mode.is_read() {
                push_accessor(&mut out, AccessorKind::ReadBits, id.clone(), k);
            }
            if f.mode.is_write() {
                push_accessor(&mut out, AccessorKind::WriteBits, cat("write_", id.as_str()), k);
            }
        }
        proof {
            assert(fields@.take(k + 1).drop_last() =~= fields@.take(k as int));
            assert(fields@.take(k + 1).last() == f);
            assert(out@.map_values(|a: Accessor| accessor_view(a)) =~= before + field_accessors(
                toks@,
                f,
                k,
            ));
        }
        k = k + 1;
    }
    assert(fields@.take(fields@.len() as int) =~= fields@);
    out
}

// ---------------------------------------------------------------------------
// The derive

/// What the derive reads of its input.
pub struct BitfieldDecl {
    /// The position of the struct's name.
    pub ident: usize,
    /// The tokens of the struct's field type.
    pub bits: Span,
    /// The declared fields.
    pub fields: Seq<Field>,
}

/// What `#[derive(Bitfield)]` expands to: the trait's implementation for the
/// struct named at `ident`, with `bits` as its `Bits`, and the accessor
/// methods.
#[derive(Debug)]
pub struct BitfieldPlan {
    pub ident: usize,
    pub bits: Span,
    pub fields: Vec<Field>,
    pub accessors: Vec<Accessor>,
}

/// The message of a derive on anything but a one-field tuple struct.
pub const BITFIELD_ONLY_TUPLE: &'static str = "Bitfield can be derived only from a tuple struct with one field";

/// The derive on the item `toks`: the fields of its first `#[bitfield(..)]`
/// attribute (none without one), then the struct's shape.
pub open spec fn spec_derive_bitfield(toks: Seq<Tok>) -> Result<BitfieldDecl, MacroError> {
    let end = toks.len() as int;
    let attrs_end = match spec_outer_attrs(toks, 0, end) {
        Ok(a) => a as int,
        Err(_) => 0,
    };
    let fields: Result<Seq<Field>, MacroError> = match find_bitfield_attr(toks, 0, attrs_end) {
        None => Ok(Seq::empty()),
        Some(a) => match close_of(toks, a + 1, attrs_end) {
            Some(c) => spec_attr_args(toks, a + 3, c),
            None => Ok(Seq::empty()),
        },
    };
    match fields {
        Err(e) => Err(e),
        Ok(fields) => match spec_tuple_field_type(toks, end, true) {
            None => err(0, ErrorKind::Invalid(BITFIELD_ONLY_TUPLE)),
            Some(bits) => {
                let kw = spec_vis(toks, attrs_end, end).span.end as int;
                Ok(BitfieldDecl { ident: (kw + 1) as usize, bits, fields })
            },
        },
    }
}

/// `#[derive(Bitfield)]` on the item `toks`.
pub fn derive_bitfield(toks: &Vec<Tok>) -> (r: Result<BitfieldPlan, MacroError>)
    ensures
        r matches Ok(p) ==> spec_derive_bitfield(toks@) == Ok::<BitfieldDecl, MacroError>(
            BitfieldDecl { ident: p.ident, bits: p.bits, fields: p.fields@ },
        ) && p.accessors@.map_values(|a: Accessor| accessor_view(a)) == all_accessors(
            toks@,
            p.fields@,
        ),
        r matches Err(e) ==> spec_derive_bitfield(toks@) == Err::<BitfieldDecl, MacroError>(e),
{
    let end = toks.len();
    let attrs_end = match outer_attrs(toks, 0, end) {
        Ok(a) => a,
        Err(_) => 0,
    };
    let fields = match find_attr(toks, 0, attrs_end) {
        None => Vec::new(),
        Some(a) => {
            if a + 1 >= attrs_end {
                Vec::new()
            } else {
                match find_close(toks, a + 1, attrs_end) {
                    Some(c) => parse_attr_args(toks, a + 3, c)?,
                    None => Vec::new(),
                }
            }
        },
    };
    let bits = match tuple_field_type(toks, true) {
        Some(b) => b,
        None => {
            return Err(MacroError { at: 0, kind: ErrorKind::Invalid(BITFIELD_ONLY_TUPLE) });
        },
    };
    let kw = parse_vis(toks, attrs_end, end).span.end;
    let accessors = accessors(toks, &fields);
    Ok(BitfieldPlan { ident: kw + 1, bits, fields, accessors })
}

} // verus!
