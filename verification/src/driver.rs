//! `#[derive(Driver)]` and `#[derive(Resource)]`: the driver traits for a
//! structure. A driver is a tuple structure around its resource, which it
//! may hold inside `Option` and `RefCell`; with `#[driver(forward)]` its
//! field is itself a driver, whose resource the outer one takes over.

use crate::bitfield::{angle_close, skip_angles};
use crate::case::{inflector_snake, to_snake_inflector};
use crate::token::{
    close_of, err, find_close, find_named_attrs, ident_string, ident_text, is_ident_tok,
    is_literal_tok, is_open, is_plain_ident, is_punct, is_single, is_word, named_attrs,
    outer_attrs, parse_type, parse_vis, peek_open, peek_plain_ident, peek_punct, peek_single,
    peek_word, spec_outer_attrs, spec_type, spec_vis, Delim, ErrorKind, MacroError, Span, Tok,
    TokV, copy_span, emit_close, emit_inline_always, emit_joint, emit_literal, emit_open,
    emit_punct, emit_span, emit_string, emit_word, inline_always, span_toks, tclose, tj, tl,
    topen, toks_view, tp, tw,
};
use vstd::prelude::*;

verus! {

/// The message of a driver derive on anything but a tuple structure of one
/// field.
pub const DRIVER_ONLY_TUPLE: &'static str = "Driver can be derived only from a tuple struct with one field";

/// The head of the item a derive is attached to: the positions of its
/// keyword and of its name, and the tokens of its generic parameters (empty
/// where it has none).
#[derive(PartialEq, Eq, Structural, Clone, Copy, Debug)]
pub struct ItemHead {
    pub keyword: usize,
    pub ident: usize,
    pub generics: Span,
}

/// The head of the item `toks`: its outer attributes and visibility, then
/// `struct`, `enum` or `union`, a name, and `<..>` where it is generic.
pub open spec fn spec_item_head(toks: Seq<Tok>) -> Option<ItemHead> {
    let end = toks.len() as int;
    match spec_outer_attrs(toks, 0, end) {
        Err(_) => None,
        Ok(a) => {
            let kw = spec_vis(toks, a as int, end).span.end as int;
            if (is_word(toks, kw, end, "struct"@) || is_word(toks, kw, end, "enum"@) || is_word(
                toks,
                kw,
                end,
                "union"@,
            )) && is_plain_ident(toks, kw + 1, end) {
                if is_punct(toks, kw + 2, end, '<') {
                    match angle_close(toks, kw + 3, end, 1) {
                        Some(g) => Some(
                            ItemHead {
                                keyword: kw as usize,
                                ident: (kw + 1) as usize,
                                generics: Span { start: (kw + 2) as usize, end: g as usize },
                            },
                        ),
                        None => None,
                    }
                } else {
                    Some(
                        ItemHead {
                            keyword: kw as usize,
                            ident: (kw + 1) as usize,
                            generics: Span { start: (kw + 2) as usize, end: (kw + 2) as usize },
                        },
                    )
                }
            } else {
                None
            }
        },
    }
}

/// Reads the head of the item `toks`.
pub fn item_head(toks: &Vec<Tok>) -> (r: Option<ItemHead>)
    ensures
        r == spec_item_head(toks@),
        r matches Some(h) ==> h.keyword < h.ident < h.generics.start <= h.generics.end
            <= toks@.len(),
{
    let end = toks.len();
    let a = match outer_attrs(toks, 0, end) {
        Ok(a) => a,
        Err(_) => {
            return None;
        },
    };
    let kw = parse_vis(toks, a, end).span.end;
    if !(peek_word(toks, kw, end, "struct") || peek_word(toks, kw, end, "enum") || peek_word(
        toks,
        kw,
        end,
        "union",
    )) || kw + 1 >= end || !peek_plain_ident(toks, kw + 1, end) {
        return None;
    }
    if kw + 2 < end && peek_punct(toks, kw + 2, end, '<') {
        match skip_angles(toks, kw + 3, end) {
            Some(g) => {
                proof {
                    lemma_angle_close_after(toks@, (kw + 3) as int, end as int, 1);
                }
                Some(
                    ItemHead { keyword: kw, ident: kw + 1, generics: Span { start: kw + 2, end: g } },
                )
            },
            None => None,
        }
    } else {
        Some(
            ItemHead { keyword: kw, ident: kw + 1, generics: Span { start: kw + 2, end: kw + 2 } },
        )
    }
}

/// Angle brackets that close do so after where they were opened.
proof fn lemma_angle_close_after(toks: Seq<Tok>, i: int, end: int, depth: nat)
    ensures
        angle_close(toks, i, end, depth) matches Some(n) ==> i <= n,
    decreases end - i,
{
    if depth == 0 {
    } else if i >= end || i < 0 {
    } else {
        match crate::token::tree_end(toks, i, end) {
            Some(n) => if n > i && n <= end {
                lemma_angle_close_after(toks, n, end, crate::token::angle_step(toks, i, depth));
            },
            None => {},
        }
    }
}

// ---------------------------------------------------------------------------
// The `driver` attribute

/// The `forward` flag of the attribute whose `#` stands at `a`: after its
/// path comes one parenthesized group, empty or holding the word `forward`;
/// anything else is refused at the attribute.
pub open spec fn spec_driver_args(toks: Seq<Tok>, a: int, end: int) -> Result<bool, MacroError> {
    match close_of(toks, a + 1, end) {
        None => err(a, ErrorKind::Unexpected),
        Some(c) => if is_open(toks, a + 3, c, Delim::Paren) && close_of(toks, a + 3, c) == Some(
            c - 1,
        ) {
            if c - 1 == a + 4 {
                Ok(false)
            } else if c - 1 == a + 5 && is_word(toks, a + 4, c, "forward"@) {
                Ok(true)
            } else {
                err(a, ErrorKind::Unexpected)
            }
        } else {
            err(a, ErrorKind::Unexpected)
        },
    }
}

fn driver_args(toks: &Vec<Tok>, a: usize, end: usize) -> (r: Result<bool, MacroError>)
    requires
        end <= toks@.len(),
    ensures
        r == spec_driver_args(toks@, a as int, end as int),
{
    if a >= end || a + 1 >= end {
        return Err(MacroError { at: a, kind: ErrorKind::Unexpected });
    }
    let c = match find_close(toks, a + 1, end) {
        Some(c) => c,
        None => {
            return Err(MacroError { at: a, kind: ErrorKind::Unexpected });
        },
    };
    if !peek_open(toks, a + 3, c, Delim::Paren) {
        return Err(MacroError { at: a, kind: ErrorKind::Unexpected });
    }
    match find_close(toks, a + 3, c) {
        Some(p) => if p != c - 1 {
            return Err(MacroError { at: a, kind: ErrorKind::Unexpected });
        },
        None => {
            return Err(MacroError { at: a, kind: ErrorKind::Unexpected });
        },
    }
    if c - 1 == a + 4 {
        Ok(false)
    } else if c - 1 == a + 5 && peek_word(toks, a + 4, c, "forward") {
        Ok(true)
    } else {
        Err(MacroError { at: a, kind: ErrorKind::Unexpected })
    }
}

/// The flag that the first `#[driver(..)]` among the item's outer
/// attributes gives; without one, `false`.
pub open spec fn spec_forward(toks: Seq<Tok>) -> Result<bool, MacroError> {
    let end = toks.len() as int;
    let attrs_end = match spec_outer_attrs(toks, 0, end) {
        Ok(a) => a as int,
        Err(_) => 0,
    };
    let found = named_attrs(toks, 0, attrs_end, "driver"@);
    if found.len() == 0 {
        Ok(false)
    } else {
        spec_driver_args(toks, found[0] as int, attrs_end)
    }
}

fn forward_flag(toks: &Vec<Tok>) -> (r: Result<bool, MacroError>)
    ensures
        r == spec_forward(toks@),
{
    let end = toks.len();
    let attrs_end = match outer_attrs(toks, 0, end) {
        Ok(a) => a,
        Err(_) => 0,
    };
    let found = find_named_attrs(toks, 0, attrs_end, "driver");
    if found.len() == 0 {
        Ok(false)
    } else {
        driver_args(toks, found[0], attrs_end)
    }
}

// ---------------------------------------------------------------------------
// The fields of a tuple structure

/// The positions of `(` and `)` around the fields of the tuple structure
/// `toks`.
pub open spec fn spec_tuple_parens(toks: Seq<Tok>) -> Option<(int, int)> {
    let end = toks.len() as int;
    match spec_item_head(toks) {
        None => None,
        Some(h) => {
            let g = h.generics.end as int;
            if is_word(toks, h.keyword as int, end, "struct"@) && is_open(
                toks,
                g,
                end,
                Delim::Paren,
            ) {
                match close_of(toks, g, end) {
                    Some(c) => Some((g, c)),
                    None => None,
                }
            } else {
                None
            }
        },
    }
}

fn tuple_parens(toks: &Vec<Tok>) -> (r: Option<(usize, usize)>)
    ensures
        r matches Some((g, c)) ==> spec_tuple_parens(toks@) == Some((g as int, c as int)) && g
            < c < toks@.len(),
        r is None ==> spec_tuple_parens(toks@) is None,
{
    let end = toks.len();
    let h = match item_head(toks) {
        Some(h) => h,
        None => {
            return None;
        },
    };
    let g = h.generics.end;
    if !(peek_word(toks, h.keyword, end, "struct") && peek_open(toks, g, end, Delim::Paren)) {
        return None;
    }
    match find_close(toks, g, end) {
        Some(c) => Some((g, c)),
        None => None,
    }
}

/// A field of a tuple structure at `i`, before `c`: its outer attributes,
/// its visibility, then its type up to a comma; the span of the whole field
/// and where its type begins.
pub open spec fn spec_tuple_field(toks: Seq<Tok>, i: int, c: int) -> Option<(Span, usize)> {
    match spec_outer_attrs(toks, i, c) {
        Err(_) => None,
        Ok(fa) => {
            let ts = spec_vis(toks, fa as int, c).span.end;
            match spec_type(toks, ts as int, c, ',') {
                Ok(te) => Some((Span { start: i as usize, end: te }, ts)),
                Err(_) => None,
            }
        },
    }
}

fn tuple_field(toks: &Vec<Tok>, i: usize, c: usize) -> (r: Option<(Span, usize)>)
    ensures
        r == spec_tuple_field(toks@, i as int, c as int),
        r matches Some((f, ts)) ==> f.start == i && i <= ts < f.end <= c,
{
    let fa = match outer_attrs(toks, i, c) {
        Ok(fa) => fa,
        Err(_) => {
            return None;
        },
    };
    let ts = parse_vis(toks, fa, c).span.end;
    match parse_type(toks, ts, c, ',') {
        Ok(te) => Some((Span { start: i, end: te }, ts)),
        Err(_) => None,
    }
}

/// The type of the one field of the tuple structure `toks`, which a comma
/// may follow.
pub open spec fn spec_single_field_type(toks: Seq<Tok>) -> Option<Span> {
    match spec_tuple_parens(toks) {
        None => None,
        Some((g, c)) => match spec_tuple_field(toks, g + 1, c) {
            None => None,
            Some((f, ts)) => if f.end == c || (is_punct(toks, f.end as int, c, ',') && f.end + 1
                == c) {
                Some(Span { start: ts, end: f.end })
            } else {
                None
            },
        },
    }
}

fn single_field_type(toks: &Vec<Tok>) -> (r: Option<Span>)
    ensures
        r == spec_single_field_type(toks@),
        r matches Some(t) ==> t.start < t.end <= toks@.len(),
{
    let (g, c) = match tuple_parens(toks) {
        Some(p) => p,
        None => {
            return None;
        },
    };
    match tuple_field(toks, g + 1, c) {
        None => None,
        Some((f, ts)) => if f.end == c || (peek_punct(toks, f.end, c, ',') && f.end + 1 == c) {
            Some(Span { start: ts, end: f.end })
        } else {
            None
        },
    }
}

/// The last field of a tuple structure, from `i` to `c`, where no comma
/// follows it: the whole field, with its attributes and visibility.
pub open spec fn spec_last_field(toks: Seq<Tok>, i: int, c: int) -> Option<Span>
    decreases c - i,
{
    if i >= c {
        None
    } else {
        match spec_tuple_field(toks, i, c) {
            None => None,
            Some((f, _)) => if f.end == c {
                Some(f)
            } else if is_punct(toks, f.end as int, c, ',') && i < f.end + 1 < c {
                spec_last_field(toks, f.end + 1, c)
            } else {
                None
            },
        }
    }
}

fn last_field(toks: &Vec<Tok>, i: usize, c: usize) -> (r: Option<Span>)
    ensures
        r == spec_last_field(toks@, i as int, c as int),
        r matches Some(f) ==> f.end <= c,
{
    let mut j = i;
    while j < c
        invariant
            i <= j,
            spec_last_field(toks@, i as int, c as int) == spec_last_field(
                toks@,
                j as int,
                c as int,
            ),
        decreases c - j,
    {
        match tuple_field(toks, j, c) {
            None => {
                return None;
            },
            Some((f, _)) => {
                if f.end == c {
                    return Some(f);
                } else if peek_punct(toks, f.end, c, ',') && f.end + 1 < c {
                    j = f.end + 1;
                } else {
                    return None;
                }
            },
        }
    }
    None
}

/// The last field of the tuple structure `toks`, where no comma follows it.
pub open spec fn spec_last_field_of(toks: Seq<Tok>) -> Option<Span> {
    match spec_tuple_parens(toks) {
        None => None,
        Some((g, c)) => spec_last_field(toks, g + 1, c),
    }
}


// ---------------------------------------------------------------------------
// Wrappers of the resource

/// The generic argument at `i`, before `end`, is a type: not a lifetime, a
/// literal, a block or a binding `Name = Type`.
pub open spec fn is_type_arg(toks: Seq<Tok>, i: int, end: int) -> bool {
    &&& !is_punct(toks, i, end, '\'')
    &&& !is_literal_tok(toks, i, end)
    &&& !is_open(toks, i, end, Delim::Brace)
    &&& !(is_ident_tok(toks, i, end) && is_single(toks, i + 1, end, '='))
}

/// The argument of the type `ty` where it is `wrapper<T>`: a path of the one
/// segment `wrapper`, with one generic argument, a type (a comma may follow
/// it).
pub open spec fn spec_unwrap(toks: Seq<Tok>, ty: Span, wrapper: Seq<char>) -> Option<Span> {
    let s = ty.start as int;
    let e = ty.end as int;
    if is_word(toks, s, e, wrapper) && s + 3 <= e && is_punct(toks, s + 1, e, '<') && angle_close(
        toks,
        s + 2,
        e,
        1,
    ) == Some(e) && is_type_arg(toks, s + 2, e - 1) {
        match spec_type(toks, s + 2, e - 1, ',') {
            Ok(t) => if t == e - 1 || (t + 1 == e - 1 && is_punct(toks, t as int, e - 1, ',')) {
                Some(Span { start: (s + 2) as usize, end: t })
            } else {
                None
            },
            Err(_) => None,
        }
    } else {
        None
    }
}

/// The type `ty` with the wrapper `wrapper` taken off where it has it, and
/// whether it had it.
pub open spec fn peel(toks: Seq<Tok>, ty: Span, wrapper: Seq<char>) -> (Span, bool) {
    match spec_unwrap(toks, ty, wrapper) {
        Some(t) => (t, true),
        None => (ty, false),
    }
}

fn is_type_arg_exec(toks: &Vec<Tok>, i: usize, end: usize) -> (r: bool)
    ensures
        r == is_type_arg(toks@, i as int, end as int),
{
    let lit = i < end && i < toks.len() && match &toks[i] {
        Tok::Literal(_) => true,
        _ => false,
    };
    let ident = i < end && i < toks.len() && match &toks[i] {
        Tok::Ident(_) => true,
        _ => false,
    };
    !peek_punct(toks, i, end, '\'') && !lit && !peek_open(toks, i, end, Delim::Brace) && !(ident
        && i + 1 < end && peek_single(toks, i + 1, end, '='))
}

/// Takes the wrapper `wrapper` off the type `ty` where it has it; answers
/// the type left and whether it had it.
pub fn parse_wrapper(toks: &Vec<Tok>, ty: Span, wrapper: &str) -> (r: (Span, bool))
    requires
        ty.end <= toks@.len(),
    ensures
        r == peel(toks@, ty, wrapper@),
        r.0.end <= ty.end,
        r.0.start <= r.0.end || r.0 == ty,
{
    let s = ty.start;
    let e = ty.end;
    if !peek_word(toks, s, e, wrapper) || e < 3 || s > e - 3 || !peek_punct(toks, s + 1, e, '<') {
        return (ty, false);
    }
    match skip_angles(toks, s + 2, e) {
        Some(n) => if n != e {
            return (ty, false);
        },
        None => {
            return (ty, false);
        },
    }
    if !is_type_arg_exec(toks, s + 2, e - 1) {
        return (ty, false);
    }
    match parse_type(toks, s + 2, e - 1, ',') {
        Ok(t) => if t == e - 1 || (t + 1 == e - 1 && peek_punct(toks, t, e - 1, ',')) {
            (Span { start: s + 2, end: t }, true)
        } else {
            (ty, false)
        },
        Err(_) => (ty, false),
    }
}

// ---------------------------------------------------------------------------
// `#[derive(Driver)]`

/// How a driver is made from its source, step by step.
#[derive(PartialEq, Eq, Structural, Clone, Copy, Debug)]
pub enum NewStep {
    /// `Resource::from_source(source)`.
    FromSource,
    /// `Driver::new(source)` of the inner driver.
    DriverNew,
    /// `Some(..)`.
    WrapSome,
    /// `RefCell::new(..)`.
    WrapRefCell,
}

/// How a driver gives its resource back, step by step.
#[derive(PartialEq, Eq, Structural, Clone, Copy, Debug)]
pub enum FreeStep {
    /// `self.0`.
    Field,
    /// `.into_inner()` of the `RefCell`.
    IntoInner,
    /// `.unwrap()` of the `Option`.
    Unwrap,
    /// `Driver::free(..)` of the inner driver.
    DriverFree,
}

/// The steps of `new`: the source made into the resource (or the inner
/// driver), then put in `Some` and in a `RefCell` where the field has them.
pub open spec fn new_steps(forward: bool, option: bool, ref_cell: bool) -> Seq<NewStep> {
    let base = if forward {
        seq![NewStep::DriverNew]
    } else {
        seq![NewStep::FromSource]
    };
    let s1 = if option {
        base.push(NewStep::WrapSome)
    } else {
        base
    };
    if ref_cell {
        s1.push(NewStep::WrapRefCell)
    } else {
        s1
    }
}

/// The steps of `free`: the field, taken out of its `RefCell` and its
/// `Option` where it has them, then freed where it is a driver.
pub open spec fn free_steps(forward: bool, option: bool, ref_cell: bool) -> Seq<FreeStep> {
    let s0 = seq![FreeStep::Field];
    let s1 = if ref_cell {
        s0.push(FreeStep::IntoInner)
    } else {
        s0
    };
    let s2 = if option {
        s1.push(FreeStep::Unwrap)
    } else {
        s1
    };
    if forward {
        s2.push(FreeStep::DriverFree)
    } else {
        s2
    }
}

/// What the derive reads of its input: the `forward` flag, the resource
/// type with its wrappers taken off, and which wrappers it had.
pub struct DriverDecl {
    pub forward: bool,
    pub res: Span,
    pub ref_cell: bool,
    pub option: bool,
}

/// `#[derive(Driver)]` on the item `toks`: the `driver` attribute, then the
/// one field, whose type loses a `RefCell`, then an `Option`.
pub open spec fn spec_derive_driver(toks: Seq<Tok>) -> Result<DriverDecl, MacroError> {
    match spec_forward(toks) {
        Err(e) => Err(e),
        Ok(forward) => match spec_single_field_type(toks) {
            None => err(0, ErrorKind::Invalid(DRIVER_ONLY_TUPLE)),
            Some(ty) => {
                let (t1, ref_cell) = peel(toks, ty, "RefCell"@);
                let (t2, option) = peel(toks, t1, "Option"@);
                Ok(DriverDecl { forward, res: t2, ref_cell, option })
            },
        },
    }
}

/// What `#[derive(Driver)]` expands to: a module `rt` of the runtime names,
/// and the trait's implementation for the structure named at `ident` with
/// the parameters `generics`. Its `Resource` is `res` (or the resource of
/// the driver `res` where `forward` holds); `new` and `free` go by their
/// steps.
#[derive(Debug)]
pub struct DriverPlan {
    pub ident: usize,
    pub generics: Span,
    pub rt: String,
    pub res: Span,
    pub forward: bool,
    pub ref_cell: bool,
    pub option: bool,
    pub new_steps: Vec<NewStep>,
    pub free_steps: Vec<FreeStep>,
}

/// `#[derive(Driver)]` on the item `toks`.
pub fn derive_driver(toks: &Vec<Tok>) -> (r: Result<DriverPlan, MacroError>)
    requires
        spec_item_head(toks@) is Some,
    ensures
        r matches Err(e) ==> spec_derive_driver(toks@) == Err::<DriverDecl, MacroError>(e),
        r matches Ok(p) ==> {
            let h = spec_item_head(toks@).unwrap();
            &&& spec_derive_driver(toks@) == Ok::<DriverDecl, MacroError>(
                DriverDecl { forward: p.forward, res: p.res, ref_cell: p.ref_cell, option: p.option },
            )
            &&& p.ident == h.ident
            &&& p.generics == h.generics
            &&& p.rt@ == "__driver_rt_"@ + inflector_snake(ident_text(toks@, h.ident as int))
            &&& p.new_steps@ == new_steps(p.forward, p.option, p.ref_cell)
            &&& p.free_steps@ == free_steps(p.forward, p.option, p.ref_cell)
        },
{
    let forward = forward_flag(toks)?;
    let ty = match single_field_type(toks) {
        Some(t) => t,
        None => {
            return Err(MacroError { at: 0, kind: ErrorKind::Invalid(DRIVER_ONLY_TUPLE) });
        },
    };
    let (t1, ref_cell) = parse_wrapper(toks, ty, "RefCell");
    let (res, option) = parse_wrapper(toks, t1, "Option");
    let h = item_head(toks).unwrap();
    let name = ident_string(toks, h.ident);
    let snk = to_snake_inflector(name.as_str());
    let rt = String::from_str("__driver_rt_").concat(snk.as_str());
    let mut new_steps: Vec<NewStep> = Vec::new();
    new_steps.push(if forward { NewStep::DriverNew } else { NewStep::FromSource });
    if option {
        new_steps.push(NewStep::WrapSome);
    }
    if ref_cell {
        new_steps.push(NewStep::WrapRefCell);
    }
    let mut free_steps: Vec<FreeStep> = Vec::new();
    free_steps.push(FreeStep::Field);
    if ref_cell {
        free_steps.push(FreeStep::IntoInner);
    }
    if option {
        free_steps.push(FreeStep::Unwrap);
    }
    if forward {
        free_steps.push(FreeStep::DriverFree);
    }
    assert(new_steps@ =~= self::new_steps(forward, option, ref_cell));
    assert(free_steps@ =~= self::free_steps(forward, option, ref_cell));
    Ok(
        DriverPlan {
            ident: h.ident,
            generics: h.generics,
            rt,
            res,
            forward,
            ref_cell,
            option,
            new_steps,
            free_steps,
        },
    )
}

/// The step of `free` that takes back a step of `new`; making the resource
/// from its source needs none.
pub open spec fn undo(s: NewStep) -> Option<FreeStep> {
    match s {
        NewStep::FromSource => None,
        NewStep::DriverNew => Some(FreeStep::DriverFree),
        NewStep::WrapSome => Some(FreeStep::Unwrap),
        NewStep::WrapRefCell => Some(FreeStep::IntoInner),
    }
}

/// The steps that take back `steps`, last first.
pub open spec fn undo_all(steps: Seq<NewStep>) -> Seq<FreeStep>
    decreases steps.len(),
{
    if steps.len() == 0 {
        Seq::empty()
    } else {
        let rest = undo_all(steps.drop_last());
        match undo(steps.last()) {
            Some(f) => seq![f] + rest,
            None => rest,
        }
    }
}

/// `free` takes apart, in the reverse order, what `new` built: after
/// reading the field, each wrapper that `new` put on is taken off, the last
/// first, and an inner driver that `new` made is freed last.
pub proof fn law_free_undoes_new(forward: bool, option: bool, ref_cell: bool)
    ensures
        free_steps(forward, option, ref_cell) == seq![FreeStep::Field] + undo_all(
            new_steps(forward, option, ref_cell),
        ),
{
    let n = new_steps(forward, option, ref_cell);
    reveal_with_fuel(undo_all, 4);
    let base = if forward {
        seq![NewStep::DriverNew]
    } else {
        seq![NewStep::FromSource]
    };
    let s1 = if option {
        base.push(NewStep::WrapSome)
    } else {
        base
    };
    assert(base.drop_last() =~= Seq::<NewStep>::empty());
    if option {
        assert(s1.drop_last() =~= base);
    }
    if ref_cell {
        assert(n.drop_last() =~= s1);
    }
    assert(free_steps(forward, option, ref_cell) =~= seq![FreeStep::Field] + undo_all(n));
}

/// A value as the generated `new` and `free` see it: the source, the
/// resource `Resource::from_source` makes of a value, the inner driver that
/// `Driver::new` makes of one, a value in `Some`, in a `RefCell`, and the
/// driver structure around its field.
pub enum Val {
    Source,
    FromSource(Box<Val>),
    InnerDriver(Box<Val>),
    InSome(Box<Val>),
    InCell(Box<Val>),
    Outer(Box<Val>),
}

/// The value that the steps of `new` make of `v`, the first step first.
pub open spec fn apply_new(steps: Seq<NewStep>, v: Val) -> Val
    decreases steps.len(),
{
    if steps.len() == 0 {
        v
    } else {
        let inner = apply_new(steps.drop_last(), v);
        match steps.last() {
            NewStep::FromSource => Val::FromSource(Box::new(inner)),
            NewStep::DriverNew => Val::InnerDriver(Box::new(inner)),
            NewStep::WrapSome => Val::InSome(Box::new(inner)),
            NewStep::WrapRefCell => Val::InCell(Box::new(inner)),
        }
    }
}

/// One step of `free` on `v`; `None` where the step does not apply. Freeing
/// an inner driver made from `x` gives the resource made from `x`: that is
/// this same law, for the inner driver.
pub open spec fn free_step(s: FreeStep, v: Val) -> Option<Val> {
    match (s, v) {
        (FreeStep::Field, Val::Outer(x)) => Some(*x),
        (FreeStep::IntoInner, Val::InCell(x)) => Some(*x),
        (FreeStep::Unwrap, Val::InSome(x)) => Some(*x),
        (FreeStep::DriverFree, Val::InnerDriver(x)) => Some(Val::FromSource(x)),
        _ => None,
    }
}

/// The value that the steps of `free` give back from `v`, the first step
/// first.
pub open spec fn apply_free(steps: Seq<FreeStep>, v: Val) -> Option<Val>
    decreases steps.len(),
{
    if steps.len() == 0 {
        Some(v)
    } else {
        match free_step(steps[0], v) {
            Some(w) => apply_free(steps.drop_first(), w),
            None => None,
        }
    }
}

/// `free(new(source))` gives back `Resource::from_source(source)`: the
/// driver that `new` builds around the source is taken apart by `free` down
/// to the resource made from that source, whichever wrappers the field has
/// and whether the driver forwards to an inner one (which obeys this law in
/// turn).
pub proof fn law_free_of_new_is_the_resource(forward: bool, option: bool, ref_cell: bool)
    ensures
        apply_free(
            free_steps(forward, option, ref_cell),
            Val::Outer(Box::new(apply_new(new_steps(forward, option, ref_cell), Val::Source))),
        ) == Some(Val::FromSource(Box::new(Val::Source))),
{
    let n = new_steps(forward, option, ref_cell);
    let f = free_steps(forward, option, ref_cell);
    reveal_with_fuel(apply_new, 4);
    reveal_with_fuel(apply_free, 5);
    let base = if forward {
        seq![NewStep::DriverNew]
    } else {
        seq![NewStep::FromSource]
    };
    let s1 = if option {
        base.push(NewStep::WrapSome)
    } else {
        base
    };
    assert(base.drop_last() =~= Seq::<NewStep>::empty());
    if option {
        assert(s1.drop_last() =~= base);
    }
    if ref_cell {
        assert(n.drop_last() =~= s1);
    }
    let f0 = seq![FreeStep::Field];
    let f1 = if ref_cell { f0.push(FreeStep::IntoInner) } else { f0 };
    let f2 = if option { f1.push(FreeStep::Unwrap) } else { f1 };
    assert(f.drop_first() =~= f2.drop_first().add(if forward { seq![FreeStep::DriverFree] } else { Seq::empty() }));
    assert(f1.drop_first() =~= (if ref_cell { seq![FreeStep::IntoInner] } else { Seq::<FreeStep>::empty() }));
    assert(f2.drop_first() =~= f1.drop_first().add(if option { seq![FreeStep::Unwrap] } else { Seq::<FreeStep>::empty() }));
}

// ---------------------------------------------------------------------------
// The tokens of `#[derive(Driver)]`

/// `< RES as RT :: TR >`
pub open spec fn qualified(res: Seq<TokV>, rt: Seq<char>, tr: Seq<char>) -> Seq<TokV> {
    tp('<') + res + tw("as"@) + tw(rt) + tj(':', ':') + tw(tr) + tp('>')
}

/// The expression of `new`: `source`, then each step around it, the first
/// step innermost.
pub open spec fn new_def(steps: Seq<NewStep>, res: Seq<TokV>, rt: Seq<char>) -> Seq<TokV>
    decreases steps.len(),
{
    if steps.len() == 0 {
        tw("source"@)
    } else {
        let inner = new_def(steps.drop_last(), res, rt);
        match steps.last() {
            NewStep::FromSource => qualified(res, rt, "Resource"@) + tj(':', ':') + tw(
                "from_source"@,
            ) + topen(Delim::Paren) + inner + tclose(Delim::Paren),
            NewStep::DriverNew => qualified(res, rt, "Driver"@) + tj(':', ':') + tw("new"@) + topen(
                Delim::Paren,
            ) + inner + tclose(Delim::Paren),
            NewStep::WrapSome => tw(rt) + tj(':', ':') + tw("Some"@) + topen(Delim::Paren) + inner
                + tclose(Delim::Paren),
            NewStep::WrapRefCell => tw(rt) + tj(':', ':') + tw("RefCell"@) + tj(':', ':') + tw(
                "new"@,
            ) + topen(Delim::Paren) + inner + tclose(Delim::Paren),
        }
    }
}

/// The expression of `free`: each step applied to what the steps before it
/// give, the first step first.
pub open spec fn free_def(steps: Seq<FreeStep>, rt: Seq<char>) -> Seq<TokV>
    decreases steps.len(),
{
    if steps.len() == 0 {
        Seq::empty()
    } else {
        let prev = free_def(steps.drop_last(), rt);
        match steps.last() {
            FreeStep::Field => tw("self"@) + tp('.') + tl("0"@),
            FreeStep::IntoInner => prev + tp('.') + tw("into_inner"@) + topen(Delim::Paren)
                + tclose(Delim::Paren),
            FreeStep::Unwrap => prev + tp('.') + tw("unwrap"@) + topen(Delim::Paren) + tclose(
                Delim::Paren,
            ),
            FreeStep::DriverFree => tw(rt) + tj(':', ':') + tw("Driver"@) + tj(':', ':') + tw(
                "free"@,
            ) + topen(Delim::Paren) + prev + tclose(Delim::Paren),
        }
    }
}

/// The module of runtime names: `mod RT { extern crate core; extern crate
/// drone_core; pub use self::core::option::Option::*; pub use
/// self::core::cell::RefCell; pub use self::drone_core::drv::{Driver,
/// Resource}; }`.
pub open spec fn driver_module(rt: Seq<char>) -> Seq<TokV> {
    tw("mod"@) + tw(rt) + topen(Delim::Brace) + extern_crates() + core_uses() + drv_use() + tclose(
        Delim::Brace,
    )
}

/// `extern crate core; extern crate drone_core;`
pub open spec fn extern_crates() -> Seq<TokV> {
    tw("extern"@) + tw("crate"@) + tw("core"@) + tp(';') + tw("extern"@) + tw("crate"@) + tw(
        "drone_core"@,
    ) + tp(';')
}

/// `pub use self::core::option::Option::*; pub use self::core::cell::RefCell;`
pub open spec fn core_uses() -> Seq<TokV> {
    tw("pub"@) + tw("use"@) + tw("self"@) + tj(':', ':') + tw("core"@) + tj(':', ':') + tw(
        "option"@,
    ) + tj(':', ':') + tw("Option"@) + tj(':', ':') + tp('*') + tp(';') + tw("pub"@) + tw("use"@)
        + tw("self"@) + tj(':', ':') + tw("core"@) + tj(':', ':') + tw("cell"@) + tj(':', ':') + tw(
        "RefCell"@,
    ) + tp(';')
}

/// `pub use self::drone_core::drv::{Driver, Resource};`
pub open spec fn drv_use() -> Seq<TokV> {
    tw("pub"@) + tw("use"@) + tw("self"@) + tj(':', ':') + tw("drone_core"@) + tj(':', ':') + tw(
        "drv"@,
    ) + tj(':', ':') + topen(Delim::Brace) + tw("Driver"@) + tp(',') + tw("Resource"@) + tclose(
        Delim::Brace,
    ) + tp(';')
}

/// The type `Resource` of the driver: the resource type, or where the
/// driver forwards, the resource of the inner driver.
pub open spec fn res_def(res: Seq<TokV>, rt: Seq<char>, forward: bool) -> Seq<TokV> {
    if forward {
        qualified(res, rt, "Driver"@) + tj(':', ':') + tw("Resource"@)
    } else {
        res
    }
}

/// `impl IG RT::Driver for NAME TG WC {`
pub open spec fn impl_head(name: Seq<TokV>, rt: Seq<char>, ig: Seq<TokV>, tg: Seq<TokV>, wc: Seq<TokV>) -> Seq<TokV> {
    tw("impl"@) + ig + tw(rt) + tj(':', ':') + tw("Driver"@) + tw("for"@) + name + tg + wc + topen(
        Delim::Brace,
    )
}

/// `type Resource = RES_DEF;`
pub open spec fn res_item(res: Seq<TokV>, rt: Seq<char>, forward: bool) -> Seq<TokV> {
    tw("type"@) + tw("Resource"@) + tp('=') + res_def(res, rt, forward) + tp(';')
}

/// `#[inline(always)] fn new(source: <Self::Resource as RT::Resource>::Source)
/// -> Self { NAME(NEW_DEF) }`
pub open spec fn new_fn(name: Seq<TokV>, rt: Seq<char>, res: Seq<TokV>, news: Seq<NewStep>) -> Seq<TokV> {
    inline_always() + tw("fn"@) + tw("new"@) + topen(Delim::Paren) + tw("source"@) + tp(':') + tp(
        '<',
    ) + tw("Self"@) + tj(':', ':') + tw("Resource"@) + tw("as"@) + tw(rt) + tj(':', ':') + tw(
        "Resource"@,
    ) + tp('>') + tj(':', ':') + tw("Source"@) + tclose(Delim::Paren) + tj('-', '>') + tw("Self"@)
        + topen(Delim::Brace) + name + topen(Delim::Paren) + new_def(news, res, rt) + tclose(
        Delim::Paren,
    ) + tclose(Delim::Brace)
}

/// `#[inline(always)] fn free(self) -> Self::Resource { FREE_DEF }`
pub open spec fn free_fn(rt: Seq<char>, frees: Seq<FreeStep>) -> Seq<TokV> {
    inline_always() + tw("fn"@) + tw("free"@) + topen(Delim::Paren) + tw("self"@) + tclose(
        Delim::Paren,
    ) + tj('-', '>') + tw("Self"@) + tj(':', ':') + tw("Resource"@) + topen(Delim::Brace) + free_def(
        frees,
        rt,
    ) + tclose(Delim::Brace)
}

/// `impl IG RT::Driver for NAME TG WC { type Resource = ..; fn new(..) ..
/// fn free(self) .. }`, with the generic parameters, arguments and `where`
/// clause that `syn` splits off the item.
pub open spec fn driver_impl(
    name: Seq<TokV>,
    rt: Seq<char>,
    res: Seq<TokV>,
    forward: bool,
    news: Seq<NewStep>,
    frees: Seq<FreeStep>,
    ig: Seq<TokV>,
    tg: Seq<TokV>,
    wc: Seq<TokV>,
) -> Seq<TokV> {
    impl_head(name, rt, ig, tg, wc) + res_item(res, rt, forward) + new_fn(name, rt, res, news)
        + free_fn(rt, frees) + tclose(Delim::Brace)
}

fn emit_qualified(toks: &Vec<Tok>, res: Span, rt: &String, tr: &str, out: &mut Vec<Tok>)
    ensures
        toks_view(final(out)@) == toks_view(old(out)@) + qualified(span_toks(toks@, res), rt@, tr@),
{
    let ghost b = toks_view(old(out)@);
    emit_punct(out, '<');
    emit_span(toks, res, out);
    emit_word(out, "as");
    emit_string(out, rt);
    emit_joint(out, ':', ':');
    emit_word(out, tr);
    emit_punct(out, '>');
    assert(toks_view(out@) =~= b + qualified(span_toks(toks@, res), rt@, tr@));
}

#[verifier::spinoff_prover]
#[verifier::rlimit(50)]
fn emit_new_def(toks: &Vec<Tok>, steps: &Vec<NewStep>, n: usize, res: Span, rt: &String, out: &mut Vec<Tok>)
    requires
        n <= steps@.len(),
    ensures
        toks_view(final(out)@) == toks_view(old(out)@) + new_def(
            steps@.take(n as int),
            span_toks(toks@, res),
            rt@,
        ),
    decreases n,
{
    let ghost b = toks_view(old(out)@);
    let ghost r = span_toks(toks@, res);
    if n == 0 {
        emit_word(out, "source");
        assert(steps@.take(0) =~= Seq::<NewStep>::empty());
        return ;
    }
    let ghost t = steps@.take(n as int);
    assert(t.drop_last() =~= steps@.take(n - 1));
    assert(t.last() == steps@[n - 1]);
    match steps[n - 1] {
        NewStep::FromSource => {
            emit_qualified(toks, res, rt, "Resource", out);
            emit_joint(out, ':', ':');
            emit_word(out, "from_source");
            emit_open(out, Delim::Paren);
            emit_new_def(toks, steps, n - 1, res, rt, out);
            emit_close(out, Delim::Paren);
        },
        NewStep::DriverNew => {
            emit_qualified(toks, res, rt, "Driver", out);
            emit_joint(out, ':', ':');
            emit_word(out, "new");
            emit_open(out, Delim::Paren);
            emit_new_def(toks, steps, n - 1, res, rt, out);
            emit_close(out, Delim::Paren);
        },
        NewStep::WrapSome => {
            emit_string(out, rt);
            emit_joint(out, ':', ':');
            emit_word(out, "Some");
            emit_open(out, Delim::Paren);
            emit_new_def(toks, steps, n - 1, res, rt, out);
            emit_close(out, Delim::Paren);
        },
        NewStep::WrapRefCell => {
            emit_string(out, rt);
            emit_joint(out, ':', ':');
            emit_word(out, "RefCell");
            emit_joint(out, ':', ':');
            emit_word(out, "new");
            emit_open(out, Delim::Paren);
            emit_new_def(toks, steps, n - 1, res, rt, out);
            emit_close(out, Delim::Paren);
        },
    }
    assert(toks_view(out@) =~= b + new_def(t, r, rt@));
}

#[verifier::spinoff_prover]
#[verifier::rlimit(50)]
fn emit_free_def(steps: &Vec<FreeStep>, n: usize, rt: &String, out: &mut Vec<Tok>)
    requires
        n <= steps@.len(),
    ensures
        toks_view(final(out)@) == toks_view(old(out)@) + free_def(steps@.take(n as int), rt@),
    decreases n,
{
    let ghost b = toks_view(old(out)@);
    if n == 0 {
        assert(steps@.take(0) =~= Seq::<FreeStep>::empty());
        assert(toks_view(out@) =~= b + Seq::<TokV>::empty());
        return ;
    }
    let ghost t = steps@.take(n as int);
    assert(t.drop_last() =~= steps@.take(n - 1));
    assert(t.last() == steps@[n - 1]);
    match steps[n - 1] {
        FreeStep::Field => {
            emit_word(out, "self");
            emit_punct(out, '.');
            emit_literal(out, "0");
        },
        FreeStep::IntoInner => {
            emit_free_def(steps, n - 1, rt, out);
            emit_punct(out, '.');
            emit_word(out, "into_inner");
            emit_open(out, Delim::Paren);
            emit_close(out, Delim::Paren);
        },
        FreeStep::Unwrap => {
            emit_free_def(steps, n - 1, rt, out);
            emit_punct(out, '.');
            emit_word(out, "unwrap");
            emit_open(out, Delim::Paren);
            emit_close(out, Delim::Paren);
        },
        FreeStep::DriverFree => {
            emit_string(out, rt);
            emit_joint(out, ':', ':');
            emit_word(out, "Driver");
            emit_joint(out, ':', ':');
            emit_word(out, "free");
            emit_open(out, Delim::Paren);
            emit_free_def(steps, n - 1, rt, out);
            emit_close(out, Delim::Paren);
        },
    }
    assert(toks_view(out@) =~= b + free_def(t, rt@));
}

fn emit_extern_crates(out: &mut Vec<Tok>)
    ensures
        toks_view(final(out)@) == toks_view(old(out)@) + extern_crates(),
{
    let ghost b = toks_view(old(out)@);
    emit_word(out, "extern");
    emit_word(out, "crate");
    emit_word(out, "core");
    emit_punct(out, ';');
    emit_word(out, "extern");
    emit_word(out, "crate");
    emit_word(out, "drone_core");
    emit_punct(out, ';');
    assert(toks_view(out@) =~= b + extern_crates());
}

#[verifier::spinoff_prover]
#[verifier::rlimit(50)]
fn emit_core_uses(out: &mut Vec<Tok>)
    ensures
        toks_view(final(out)@) == toks_view(old(out)@) + core_uses(),
{
    let ghost b = toks_view(old(out)@);
    emit_word(out, "pub");
    emit_word(out, "use");
    emit_word(out, "self");
    emit_joint(out, ':', ':');
    emit_word(out, "core");
    emit_joint(out, ':', ':');
    emit_word(out, "option");
    emit_joint(out, ':', ':');
    emit_word(out, "Option");
    emit_joint(out, ':', ':');
    emit_punct(out, '*');
    emit_punct(out, ';');
    let ghost m = toks_view(out@);
    emit_word(out, "pub");
    emit_word(out, "use");
    emit_word(out, "self");
    emit_joint(out, ':', ':');
    emit_word(out, "core");
    emit_joint(out, ':', ':');
    emit_word(out, "cell");
    emit_joint(out, ':', ':');
    emit_word(out, "RefCell");
    emit_punct(out, ';');
    assert(toks_view(out@) =~= b + core_uses());
}

fn emit_drv_use(out: &mut Vec<Tok>)
    ensures
        toks_view(final(out)@) == toks_view(old(out)@) + drv_use(),
{
    let ghost b = toks_view(old(out)@);
    emit_word(out, "pub");
    emit_word(out, "use");
    emit_word(out, "self");
    emit_joint(out, ':', ':');
    emit_word(out, "drone_core");
    emit_joint(out, ':', ':');
    emit_word(out, "drv");
    emit_joint(out, ':', ':');
    emit_open(out, Delim::Brace);
    emit_word(out, "Driver");
    emit_punct(out, ',');
    emit_word(out, "Resource");
    emit_close(out, Delim::Brace);
    emit_punct(out, ';');
    assert(toks_view(out@) =~= b + drv_use());
}

#[verifier::spinoff_prover]
#[verifier::rlimit(50)]
fn emit_driver_module(rt: &String, out: &mut Vec<Tok>)
    ensures
        toks_view(final(out)@) == toks_view(old(out)@) + driver_module(rt@),
{
    let ghost b = toks_view(old(out)@);
    emit_word(out, "mod");
    emit_string(out, rt);
    emit_open(out, Delim::Brace);
    emit_extern_crates(out);
    emit_core_uses(out);
    emit_drv_use(out);
    emit_close(out, Delim::Brace);
    assert(toks_view(out@) =~= b + driver_module(rt@));
}

fn emit_all(v: &Vec<Tok>, out: &mut Vec<Tok>)
    ensures
        toks_view(final(out)@) == toks_view(old(out)@) + toks_view(v@),
{
    copy_span(v, 0, v.len(), out);
    assert(v@.subrange(0, v@.len() as int) =~= v@);
}

#[verifier::spinoff_prover]
#[verifier::rlimit(50)]
fn emit_new_fn(toks: &Vec<Tok>, p: &DriverPlan, name: Span, out: &mut Vec<Tok>)
    requires
        p.new_steps@.len() <= usize::MAX,
    ensures
        toks_view(final(out)@) == toks_view(old(out)@) + new_fn(
            span_toks(toks@, name),
            p.rt@,
            span_toks(toks@, p.res),
            p.new_steps@,
        ),
{
    let ghost b = toks_view(old(out)@);
    emit_inline_always(out);
    emit_word(out, "fn");
    emit_word(out, "new");
    emit_open(out, Delim::Paren);
    emit_word(out, "source");
    emit_punct(out, ':');
    emit_punct(out, '<');
    emit_word(out, "Self");
    emit_joint(out, ':', ':');
    emit_word(out, "Resource");
    emit_word(out, "as");
    emit_string(out, &p.rt);
    emit_joint(out, ':', ':');
    emit_word(out, "Resource");
    emit_punct(out, '>');
    emit_joint(out, ':', ':');
    emit_word(out, "Source");
    emit_close(out, Delim::Paren);
    emit_joint(out, '-', '>');
    emit_word(out, "Self");
    emit_open(out, Delim::Brace);
    emit_span(toks, name, out);
    emit_open(out, Delim::Paren);
    emit_new_def(toks, &p.new_steps, p.new_steps.len(), p.res, &p.rt, out);
    assert(p.new_steps@.take(p.new_steps@.len() as int) =~= p.new_steps@);
    emit_close(out, Delim::Paren);
    emit_close(out, Delim::Brace);
    assert(toks_view(out@) =~= b + new_fn(span_toks(toks@, name), p.rt@, span_toks(toks@, p.res), p.new_steps@));
}

#[verifier::spinoff_prover]
#[verifier::rlimit(50)]
fn emit_free_fn(p: &DriverPlan, out: &mut Vec<Tok>)
    ensures
        toks_view(final(out)@) == toks_view(old(out)@) + free_fn(p.rt@, p.free_steps@),
{
    let ghost b = toks_view(old(out)@);
    emit_inline_always(out);
    emit_word(out, "fn");
    emit_word(out, "free");
    emit_open(out, Delim::Paren);
    emit_word(out, "self");
    emit_close(out, Delim::Paren);
    emit_joint(out, '-', '>');
    emit_word(out, "Self");
    emit_joint(out, ':', ':');
    emit_word(out, "Resource");
    emit_open(out, Delim::Brace);
    emit_free_def(&p.free_steps, p.free_steps.len(), &p.rt, out);
    assert(p.free_steps@.take(p.free_steps@.len() as int) =~= p.free_steps@);
    emit_close(out, Delim::Brace);
    assert(toks_view(out@) =~= b + free_fn(p.rt@, p.free_steps@));
}

#[verifier::spinoff_prover]
#[verifier::rlimit(50)]
fn emit_impl_head(toks: &Vec<Tok>, name: Span, rt: &String, ig: &Vec<Tok>, tg: &Vec<Tok>, wc: &Vec<Tok>, out: &mut Vec<Tok>)
    ensures
        toks_view(final(out)@) == toks_view(old(out)@) + impl_head(
            span_toks(toks@, name),
            rt@,
            toks_view(ig@),
            toks_view(tg@),
            toks_view(wc@),
        ),
{
    let ghost b = toks_view(old(out)@);
    emit_word(out, "impl");
    emit_all(ig, out);
    emit_string(out, rt);
    emit_joint(out, ':', ':');
    emit_word(out, "Driver");
    emit_word(out, "for");
    emit_span(toks, name, out);
    emit_all(tg, out);
    emit_all(wc, out);
    emit_open(out, Delim::Brace);
    assert(toks_view(out@) =~= b + impl_head(span_toks(toks@, name), rt@, toks_view(ig@), toks_view(tg@), toks_view(wc@)));
}

#[verifier::spinoff_prover]
#[verifier::rlimit(50)]
fn emit_res_item(toks: &Vec<Tok>, res: Span, rt: &String, forward: bool, out: &mut Vec<Tok>)
    ensures
        toks_view(final(out)@) == toks_view(old(out)@) + res_item(span_toks(toks@, res), rt@, forward),
{
    let ghost b = toks_view(old(out)@);
    emit_word(out, "type");
    emit_word(out, "Resource");
    emit_punct(out, '=');
    let ghost before_res = toks_view(out@);
    if forward {
        emit_qualified(toks, res, rt, "Driver", out);
        emit_joint(out, ':', ':');
        emit_word(out, "Resource");
    } else {
        emit_span(toks, res, out);
    }
    assert(toks_view(out@) =~= before_res + res_def(span_toks(toks@, res), rt@, forward));
    emit_punct(out, ';');
    assert(toks_view(out@) =~= b + res_item(span_toks(toks@, res), rt@, forward));
}

/// The tokens of `#[derive(Driver)]` on the item `toks`, given the generic
/// parameters `ig`, arguments `tg` and `where` clause `wc` that `syn` splits
/// off the item for an implementation.
pub open spec fn spec_expand_driver(toks: Seq<Tok>, ig: Seq<TokV>, tg: Seq<TokV>, wc: Seq<TokV>) -> Result<
    Seq<TokV>,
    MacroError,
> {
    match spec_derive_driver(toks) {
        Err(e) => Err(e),
        Ok(d) => {
            let h = spec_item_head(toks).unwrap();
            let rt = "__driver_rt_"@ + inflector_snake(ident_text(toks, h.ident as int));
            let name = span_toks(toks, Span { start: h.ident, end: (h.ident + 1) as usize });
            let res = span_toks(toks, d.res);
            Ok(
                driver_module(rt) + driver_impl(
                    name,
                    rt,
                    res,
                    d.forward,
                    new_steps(d.forward, d.option, d.ref_cell),
                    free_steps(d.forward, d.option, d.ref_cell),
                    ig,
                    tg,
                    wc,
                ),
            )
        },
    }
}

/// For every item that `#[derive(Driver)]` accepts, the `new` and the
/// `free` of its expansion are written from the steps of the item's field
/// (`new_def` and `free_def` of them), and `free` applied to what `new`
/// makes of a source gives back the resource made from that source.
pub proof fn law_derived_free_of_new_is_the_resource(toks: Seq<Tok>, ig: Seq<TokV>, tg: Seq<TokV>, wc: Seq<TokV>)
    requires
        spec_derive_driver(toks) is Ok,
    ensures
        spec_derive_driver(toks) matches Ok(d) ==> {
            let news = new_steps(d.forward, d.option, d.ref_cell);
            let frees = free_steps(d.forward, d.option, d.ref_cell);
            let h = spec_item_head(toks).unwrap();
            let rt = "__driver_rt_"@ + inflector_snake(ident_text(toks, h.ident as int));
            let name = span_toks(toks, Span { start: h.ident, end: (h.ident + 1) as usize });
            &&& spec_expand_driver(toks, ig, tg, wc) == Ok::<Seq<TokV>, MacroError>(
                driver_module(rt) + driver_impl(name, rt, span_toks(toks, d.res), d.forward, news, frees, ig, tg, wc),
            )
            &&& apply_free(frees, Val::Outer(Box::new(apply_new(news, Val::Source)))) == Some(
                Val::FromSource(Box::new(Val::Source)),
            )
        },
{
    let d = spec_derive_driver(toks)->Ok_0;
    law_free_of_new_is_the_resource(d.forward, d.option, d.ref_cell);
}

/// The tokens of `#[derive(Driver)]` on the item `toks`.
#[verifier::spinoff_prover]
#[verifier::rlimit(50)]
pub fn expand_driver(toks: &Vec<Tok>, ig: &Vec<Tok>, tg: &Vec<Tok>, wc: &Vec<Tok>) -> (r: Result<
    Vec<Tok>,
    MacroError,
>)
    requires
        spec_item_head(toks@) is Some,
    ensures
        r matches Err(e) ==> spec_expand_driver(toks@, toks_view(ig@), toks_view(tg@), toks_view(wc@))
            == Err::<Seq<TokV>, MacroError>(e),
        r matches Ok(v) ==> spec_expand_driver(toks@, toks_view(ig@), toks_view(tg@), toks_view(wc@))
            == Ok::<Seq<TokV>, MacroError>(toks_view(v@)),
{
    let p = derive_driver(toks)?;
    let h = item_head(toks).unwrap();
    let name = Span { start: p.ident, end: h.generics.start };
    let mut out: Vec<Tok> = Vec::new();
    assert(toks_view(out@) =~= Seq::<TokV>::empty());
    emit_driver_module(&p.rt, &mut out);
    let ghost m = toks_view(out@);
    emit_impl_head(toks, name, &p.rt, ig, tg, wc, &mut out);
    emit_res_item(toks, p.res, &p.rt, p.forward, &mut out);
    emit_new_fn(toks, &p, name, &mut out);
    emit_free_fn(&p, &mut out);
    emit_close(&mut out, Delim::Brace);
    assert(toks_view(out@) =~= m + driver_impl(
        span_toks(toks@, name),
        p.rt@,
        span_toks(toks@, p.res),
        p.forward,
        p.new_steps@,
        p.free_steps@,
        toks_view(ig@),
        toks_view(tg@),
        toks_view(wc@),
    ));
    Ok(out)
}

// ---------------------------------------------------------------------------
// The derives that put their implementation in a module of their own

/// What `#[derive(Driver)]` of the form that wraps its implementation in a
/// module expands to: the module `scope`, and in it the trait's
/// implementation for the structure named at `ident`, whose `Resource` is
/// the last field `res` (or that field's resource, where `forward` holds).
#[derive(Debug)]
pub struct DriverInModPlan {
    pub ident: usize,
    pub generics: Span,
    pub scope: String,
    pub res: Span,
    pub forward: bool,
}

/// That derive on the item `toks`: the `driver` attribute, then the last
/// field of the tuple structure, where no comma follows it.
pub open spec fn spec_derive_driver_in_mod(toks: Seq<Tok>) -> Result<(bool, Span), MacroError> {
    match spec_forward(toks) {
        Err(e) => Err(e),
        Ok(forward) => match spec_last_field_of(toks) {
            None => err(0, ErrorKind::Invalid(DRIVER_ONLY_TUPLE)),
            Some(f) => Ok((forward, f)),
        },
    }
}

/// `#[derive(Driver)]`, in the form that wraps its implementation in a
/// module, on the item `toks`.
pub fn derive_driver_in_mod(toks: &Vec<Tok>) -> (r: Result<DriverInModPlan, MacroError>)
    requires
        spec_item_head(toks@) is Some,
    ensures
        r matches Err(e) ==> spec_derive_driver_in_mod(toks@) == Err::<(bool, Span), MacroError>(
            e,
        ),
        r matches Ok(p) ==> {
            let h = spec_item_head(toks@).unwrap();
            &&& spec_derive_driver_in_mod(toks@) == Ok::<(bool, Span), MacroError>(
                (p.forward, p.res),
            )
            &&& p.ident == h.ident
            &&& p.generics == h.generics
            &&& p.scope@ == "__driver_"@ + inflector_snake(ident_text(toks@, h.ident as int))
        },
{
    let forward = forward_flag(toks)?;
    let res = match tuple_parens(toks) {
        Some((g, c)) => last_field(toks, g + 1, c),
        None => None,
    };
    let res = match res {
        Some(f) => f,
        None => {
            return Err(MacroError { at: 0, kind: ErrorKind::Invalid(DRIVER_ONLY_TUPLE) });
        },
    };
    let h = item_head(toks).unwrap();
    let name = ident_string(toks, h.ident);
    let snk = to_snake_inflector(name.as_str());
    let scope = String::from_str("__driver_").concat(snk.as_str());
    Ok(DriverInModPlan { ident: h.ident, generics: h.generics, scope, res, forward })
}

// ---------------------------------------------------------------------------
// `#[derive(Resource)]`

/// What `#[derive(Resource)]` expands to: the implementation of `Resource`
/// for the item named at `ident` with the parameters `generics`, its own
/// source; the runtime names stand in the module `module`.
#[derive(Debug)]
pub struct ResourcePlan {
    pub ident: usize,
    pub generics: Span,
    pub module: String,
}

/// `#[derive(Resource)]` on the item `toks`; the module of runtime names is
/// `__resource_` and the item's name in snake case.
pub fn derive_resource(toks: &Vec<Tok>) -> (r: ResourcePlan)
    requires
        spec_item_head(toks@) is Some,
    ensures
        r.ident == spec_item_head(toks@).unwrap().ident,
        r.generics == spec_item_head(toks@).unwrap().generics,
        r.module@ == "__resource_"@ + inflector_snake(ident_text(toks@, r.ident as int)),
{
    resource_plan(toks, "__resource_")
}

/// `#[derive(Resource)]`, in the form that wraps its implementation in a
/// module `__driver_` and the item's name in snake case, on the item `toks`.
pub fn derive_resource_in_mod(toks: &Vec<Tok>) -> (r: ResourcePlan)
    requires
        spec_item_head(toks@) is Some,
    ensures
        r.ident == spec_item_head(toks@).unwrap().ident,
        r.generics == spec_item_head(toks@).unwrap().generics,
        r.module@ == "__driver_"@ + inflector_snake(ident_text(toks@, r.ident as int)),
{
    resource_plan(toks, "__driver_")
}

fn resource_plan(toks: &Vec<Tok>, prefix: &str) -> (r: ResourcePlan)
    requires
        spec_item_head(toks@) is Some,
    ensures
        r.ident == spec_item_head(toks@).unwrap().ident,
        r.generics == spec_item_head(toks@).unwrap().generics,
        r.module@ == prefix@ + inflector_snake(ident_text(toks@, r.ident as int)),
{
    let h = item_head(toks).unwrap();
    let name = ident_string(toks, h.ident);
    let snk = to_snake_inflector(name.as_str());
    let module = String::from_str(prefix).concat(snk.as_str());
    ResourcePlan { ident: h.ident, generics: h.generics, module }
}

} // verus!
