//! `thr!`: a thread structure and its thread-local structure.
//!
//! The input is a list of `key => value` entries separated by `;`:
//! `array => path` (without attributes), `thread => attrs vis Name { fields }`
//! and `local => attrs vis Name { fields }`, each exactly once. A field is
//! `attrs vis name: Type = init`, the fields separated by `;`.

use crate::case::cat;
use crate::thr_static::{emit_thread_fields, emit_thread_inits, one, one_exec, thread_fields, thread_inits};
use crate::token::{TokV, emit_close, emit_joint, emit_literal, emit_open, emit_punct, emit_span, emit_string, emit_word, span_toks, tclose, tj, tl, topen, toks_view, tp, tw};
use crate::token::{Delim, ErrorKind, MacroError, Span, Tok, Vis, err, expect_group, expect_ident, expect_punct, expect_punct2, ident_string, ident_text, is_word, outer_attrs, parse_expr, parse_path, parse_type, parse_vis, peek_word, spec_expect_group, spec_expect_ident, spec_expect_punct, spec_expect_punct2, spec_expr, spec_outer_attrs, spec_path, spec_type, spec_vis};
use vstd::prelude::*;

verus! {

/// A field: `attrs vis name: Type = init`.
#[derive(PartialEq, Eq, Structural, Clone, Copy, Debug)]
pub struct ThrField {
    pub attrs: Span,
    pub vis: Vis,
    pub ident: usize,
    pub ty: Span,
    pub init: Span,
}

/// A field at `i`.
pub open spec fn spec_thr_field(toks: Seq<Tok>, i: int, end: int) -> Result<
    (ThrField, usize),
    MacroError,
> {
    match spec_outer_attrs(toks, i, end) {
        Err(e) => Err(e),
        Ok(a) => {
            let v = spec_vis(toks, a as int, end);
            let id = v.span.end as int;
            match spec_expect_ident(toks, id, end) {
                Err(e) => Err(e),
                Ok(_) => match spec_expect_punct(toks, id + 1, end, ':') {
                    Err(e) => Err(e),
                    Ok(t) => match spec_type(toks, t as int, end, '=') {
                        Err(e) => Err(e),
                        Ok(te) => match spec_expect_punct(toks, te as int, end, '=') {
                            Err(e) => Err(e),
                            Ok(x) => match spec_expr(toks, x as int, end, ';') {
                                Err(e) => Err(e),
                                Ok(xe) => Ok(
                                    (
                                        ThrField {
                                            attrs: Span { start: i as usize, end: a },
                                            vis: v,
                                            ident: id as usize,
                                            ty: Span { start: t, end: te },
                                            init: Span { start: x, end: xe },
                                        },
                                        xe,
                                    ),
                                ),
                            },
                        },
                    },
                },
            }
        },
    }
}

pub fn parse_thr_field(toks: &Vec<Tok>, i: usize, end: usize) -> (r: Result<(ThrField, usize), MacroError>)
    ensures
        r == spec_thr_field(toks@, i as int, end as int),
        r matches Ok((_, n)) ==> i < n <= end,
{
    let a = outer_attrs(toks, i, end)?;
    let v = parse_vis(toks, a, end);
    let id = v.span.end;
    expect_ident(toks, id, end)?;
    let t = expect_punct(toks, id + 1, end, ':')?;
    let te = parse_type(toks, t, end, '=')?;
    let x = expect_punct(toks, te, end, '=')?;
    let xe = parse_expr(toks, x, end, ';')?;
    Ok(
        (
            ThrField {
                attrs: Span { start: i, end: a },
                vis: v,
                ident: id,
                ty: Span { start: t, end: te },
                init: Span { start: x, end: xe },
            },
            xe,
        ),
    )
}

/// The fields in `[i, end)`: after each field but the last comes a `;`.
pub open spec fn spec_thr_fields(toks: Seq<Tok>, i: int, end: int) -> Result<
    Seq<ThrField>,
    MacroError,
>
    decreases end - i,
{
    if i >= end {
        Ok(Seq::empty())
    } else {
        match spec_thr_field(toks, i, end) {
            Err(e) => Err(e),
            Ok((f, n)) => if n >= end || n <= i {
                Ok(seq![f])
            } else {
                match spec_expect_punct(toks, n as int, end, ';') {
                    Err(e) => Err(e),
                    Ok(q) => if q > i && q <= end {
                        match spec_thr_fields(toks, q as int, end) {
                            Err(e) => Err(e),
                            Ok(rest) => Ok(seq![f] + rest),
                        }
                    } else {
                        Ok(seq![f])
                    },
                }
            },
        }
    }
}

fn parse_thr_fields(toks: &Vec<Tok>, i: usize, end: usize) -> (r: Result<Vec<ThrField>, MacroError>)
    ensures
        r matches Ok(v) ==> spec_thr_fields(toks@, i as int, end as int) == Ok::<
            Seq<ThrField>,
            MacroError,
        >(v@),
        r matches Err(e) ==> spec_thr_fields(toks@, i as int, end as int) == Err::<
            Seq<ThrField>,
            MacroError,
        >(e),
{
    let mut out: Vec<ThrField> = Vec::new();
    let mut j = i;
    let mut done = false;
    while j < end && !done
        invariant
            i <= j,
            spec_thr_fields(toks@, i as int, end as int) == (if done {
                Ok(out@)
            } else {
                match spec_thr_fields(toks@, j as int, end as int) {
                    Ok(rest) => Ok(out@ + rest),
                    Err(e) => Err(e),
                }
            }),
        decreases end - j + (if done { 0int } else { 1int }),
    {
        let (f, n) = parse_thr_field(toks, j, end)?;
        let ghost before = out@;
        out.push(f);
        if n >= end {
            assert(before + seq![f] =~= out@);
            done = true;
        } else {
            let q = expect_punct(toks, n, end, ';')?;
            proof {
                match spec_thr_fields(toks@, q as int, end as int) {
                    Ok(rest) => {
                        assert(before + (seq![f] + rest) =~= out@ + rest);
                    },
                    Err(_) => {},
                }
            }
            j = q;
        }
    }
    if !done {
        assert(out@ + Seq::<ThrField>::empty() =~= out@);
    }
    Ok(out)
}

/// A structure of the input: `attrs vis Name { fields }`.
#[derive(Debug)]
pub struct ThrStruct {
    pub attrs: Span,
    pub vis: Vis,
    pub ident: usize,
    pub fields: Vec<ThrField>,
}

pub struct ThrStructV {
    pub attrs: Span,
    pub vis: Vis,
    pub ident: usize,
    pub fields: Seq<ThrField>,
}

pub open spec fn struct_view(s: ThrStruct) -> ThrStructV {
    ThrStructV { attrs: s.attrs, vis: s.vis, ident: s.ident, fields: s.fields@ }
}

/// A structure at `i`, with the attributes `attrs` read before its key.
pub open spec fn spec_thr_struct(toks: Seq<Tok>, attrs: Span, i: int, end: int) -> Result<
    (ThrStructV, usize),
    MacroError,
> {
    let v = spec_vis(toks, i, end);
    let id = v.span.end as int;
    match spec_expect_ident(toks, id, end) {
        Err(e) => Err(e),
        Ok(_) => match spec_expect_group(toks, id + 1, end, Delim::Brace) {
            Err(e) => Err(e),
            Ok(c) => match spec_thr_fields(toks, id + 2, c as int) {
                Err(e) => Err(e),
                Ok(fields) => Ok(
                    (ThrStructV { attrs, vis: v, ident: id as usize, fields }, (c + 1) as usize),
                ),
            },
        },
    }
}

pub fn parse_thr_struct(toks: &Vec<Tok>, attrs: Span, i: usize, end: usize) -> (r: Result<
    (ThrStruct, usize),
    MacroError,
>)
    ensures
        r matches Ok((s, n)) ==> spec_thr_struct(toks@, attrs, i as int, end as int) == Ok::<
            (ThrStructV, usize),
            MacroError,
        >((struct_view(s), n)) && i < n <= end,
        r matches Err(e) ==> spec_thr_struct(toks@, attrs, i as int, end as int) == Err::<
            (ThrStructV, usize),
            MacroError,
        >(e),
{
    let v = parse_vis(toks, i, end);
    let id = v.span.end;
    expect_ident(toks, id, end)?;
    let c = expect_group(toks, id + 1, end, Delim::Brace)?;
    let fields = parse_thr_fields(toks, id + 2, c)?;
    Ok((ThrStruct { attrs, vis: v, ident: id, fields }, c + 1))
}

/// The entries read so far.
pub struct ThrEntries {
    pub array: Option<Span>,
    pub thread: Option<ThrStruct>,
    pub local: Option<ThrStruct>,
}

pub struct ThrEntriesV {
    pub array: Option<Span>,
    pub thread: Option<ThrStructV>,
    pub local: Option<ThrStructV>,
}

pub open spec fn opt_struct_view(s: Option<ThrStruct>) -> Option<ThrStructV> {
    match s {
        Some(s) => Some(struct_view(s)),
        None => None,
    }
}

pub open spec fn entries_view(e: ThrEntries) -> ThrEntriesV {
    ThrEntriesV {
        array: e.array,
        thread: opt_struct_view(e.thread),
        local: opt_struct_view(e.local),
    }
}

/// One entry at `i`, given the entries `st` read before.
pub open spec fn spec_thr_entry(toks: Seq<Tok>, i: int, end: int, st: ThrEntriesV) -> Result<
    (ThrEntriesV, usize),
    MacroError,
> {
    match spec_outer_attrs(toks, i, end) {
        Err(e) => Err(e),
        Ok(a) => match spec_expect_ident(toks, a as int, end) {
            Err(e) => Err(e),
            Ok(k) => match spec_expect_punct2(toks, k as int, end, '=', '>') {
                Err(e) => Err(e),
                Ok(p) => {
                    let attrs = Span { start: i as usize, end: a };
                    if a as int == i && is_word(toks, a as int, end, "array"@) {
                        if st.array is Some {
                            err(p as int, ErrorKind::MultipleKey("array"))
                        } else {
                            match spec_path(toks, p as int, end) {
                                Err(e) => Err(e),
                                Ok(q) => Ok(
                                    (
                                        ThrEntriesV { array: Some(Span { start: p, end: q }), ..st },
                                        q,
                                    ),
                                ),
                            }
                        }
                    } else if is_word(toks, a as int, end, "thread"@) {
                        if st.thread is Some {
                            err(p as int, ErrorKind::MultipleKey("thread"))
                        } else {
                            match spec_thr_struct(toks, attrs, p as int, end) {
                                Err(e) => Err(e),
                                Ok((s, q)) => Ok((ThrEntriesV { thread: Some(s), ..st }, q)),
                            }
                        }
                    } else if is_word(toks, a as int, end, "local"@) {
                        if st.local is Some {
                            err(p as int, ErrorKind::MultipleKey("local"))
                        } else {
                            match spec_thr_struct(toks, attrs, p as int, end) {
                                Err(e) => Err(e),
                                Ok((s, q)) => Ok((ThrEntriesV { local: Some(s), ..st }, q)),
                            }
                        }
                    } else {
                        err(p as int, ErrorKind::UnknownKey)
                    }
                },
            },
        },
    }
}

/// The entries from `i` on, given those read before: after each entry but
/// the last comes a `;`.
pub open spec fn spec_thr_entries(toks: Seq<Tok>, i: int, end: int, st: ThrEntriesV) -> Result<
    ThrEntriesV,
    MacroError,
>
    decreases end - i,
{
    if i >= end {
        Ok(st)
    } else {
        match spec_thr_entry(toks, i, end, st) {
            Err(e) => Err(e),
            Ok((st2, q)) => if q < end {
                match spec_expect_punct(toks, q as int, end, ';') {
                    Err(e) => Err(e),
                    Ok(q2) => if q2 > i {
                        spec_thr_entries(toks, q2 as int, end, st2)
                    } else {
                        Ok(st2)
                    },
                }
            } else {
                Ok(st2)
            },
        }
    }
}

fn parse_thr_entry(toks: &Vec<Tok>, i: usize, end: usize, st: ThrEntries) -> (r: Result<
    (ThrEntries, usize),
    MacroError,
>)
    ensures
        r matches Ok((st2, n)) ==> spec_thr_entry(toks@, i as int, end as int, entries_view(st))
            == Ok::<(ThrEntriesV, usize), MacroError>((entries_view(st2), n)) && i < n <= end,
        r matches Err(e) ==> spec_thr_entry(toks@, i as int, end as int, entries_view(st)) == Err::<
            (ThrEntriesV, usize),
            MacroError,
        >(e),
{
    let a = outer_attrs(toks, i, end)?;
    let k = expect_ident(toks, a, end)?;
    let p = expect_punct2(toks, k, end, '=', '>')?;
    let attrs = Span { start: i, end: a };
    if a == i && peek_word(toks, a, end, "array") {
        if st.array.is_some() {
            Err(MacroError { at: p, kind: ErrorKind::MultipleKey("array") })
        } else {
            let q = parse_path(toks, p, end)?;
            Ok((ThrEntries { array: Some(Span { start: p, end: q }), ..st }, q))
        }
    } else if peek_word(toks, a, end, "thread") {
        if st.thread.is_some() {
            Err(MacroError { at: p, kind: ErrorKind::MultipleKey("thread") })
        } else {
            let (s, q) = parse_thr_struct(toks, attrs, p, end)?;
            Ok((ThrEntries { thread: Some(s), ..st }, q))
        }
    } else if peek_word(toks, a, end, "local") {
        if st.local.is_some() {
            Err(MacroError { at: p, kind: ErrorKind::MultipleKey("local") })
        } else {
            let (s, q) = parse_thr_struct(toks, attrs, p, end)?;
            Ok((ThrEntries { local: Some(s), ..st }, q))
        }
    } else {
        Err(MacroError { at: p, kind: ErrorKind::UnknownKey })
    }
}

/// The input of `thr!`.
#[derive(Debug)]
pub struct ThrInput {
    /// The path of the array of threads.
    pub array: Span,
    pub thread: ThrStruct,
    pub local: ThrStruct,
}

pub struct ThrInputV {
    pub array: Span,
    pub thread: ThrStructV,
    pub local: ThrStructV,
}

pub open spec fn thr_input_view(i: ThrInput) -> ThrInputV {
    ThrInputV { array: i.array, thread: struct_view(i.thread), local: struct_view(i.local) }
}

pub open spec fn no_thr_entries() -> ThrEntriesV {
    ThrEntriesV { array: None, thread: None, local: None }
}

/// The input of `thr!`: its entries, each of the three given.
pub open spec fn spec_thr_input(toks: Seq<Tok>) -> Result<ThrInputV, MacroError> {
    let end = toks.len() as int;
    match spec_thr_entries(toks, 0, end, no_thr_entries()) {
        Err(e) => Err(e),
        Ok(st) => match (st.array, st.thread, st.local) {
            (None, _, _) => err(end, ErrorKind::MissingKey("array")),
            (Some(_), None, _) => err(end, ErrorKind::MissingKey("thread")),
            (Some(_), Some(_), None) => err(end, ErrorKind::MissingKey("local")),
            (Some(a), Some(t), Some(l)) => Ok(ThrInputV { array: a, thread: t, local: l }),
        },
    }
}

/// Reads the input of `thr!`.
pub fn parse_thr_input(toks: &Vec<Tok>) -> (r: Result<ThrInput, MacroError>)
    ensures
        r matches Ok(v) ==> spec_thr_input(toks@) == Ok::<ThrInputV, MacroError>(
            thr_input_view(v),
        ),
        r matches Err(e) ==> spec_thr_input(toks@) == Err::<ThrInputV, MacroError>(e),
{
    let end = toks.len();
    let mut st = ThrEntries { array: None, thread: None, local: None };
    let mut i: usize = 0;
    let mut done = false;
    while i < end && !done
        invariant
            end == toks@.len(),
            spec_thr_entries(toks@, 0, end as int, no_thr_entries()) == (if done {
                Ok(entries_view(st))
            } else {
                spec_thr_entries(toks@, i as int, end as int, entries_view(st))
            }),
        decreases end - i + (if done { 0int } else { 1int }),
    {
        let (st2, q) = parse_thr_entry(toks, i, end, st)?;
        st = st2;
        if q < end {
            i = expect_punct(toks, q, end, ';')?;
        } else {
            done = true;
        }
    }
    match st {
        ThrEntries { array: None, .. } => Err(
            MacroError { at: end, kind: ErrorKind::MissingKey("array") },
        ),
        ThrEntries { array: Some(_), thread: None, .. } => Err(
            MacroError { at: end, kind: ErrorKind::MissingKey("thread") },
        ),
        ThrEntries { array: Some(_), thread: Some(_), local: None } => Err(
            MacroError { at: end, kind: ErrorKind::MissingKey("local") },
        ),
        ThrEntries { array: Some(array), thread: Some(thread), local: Some(local) } => Ok(
            ThrInput { array, thread, local },
        ),
    }
}

/// The name of the wrapper of the thread-local structure, which makes it
/// `Sync`: the structure's name, then `Wrapper`.
pub open spec fn local_wrapper(toks: Seq<Tok>, inp: ThrInputV) -> Seq<char> {
    ident_text(toks, inp.local.ident as int) + "Wrapper"@
}

/// What `thr!` expands to: the two structures, as the input gives them,
/// and the name of the wrapper.
#[derive(Debug)]
pub struct ThrPlan {
    pub input: ThrInput,
    pub local_wrapper: String,
}

/// `thr!` on the input `toks`.
pub fn thr(toks: &Vec<Tok>) -> (r: Result<ThrPlan, MacroError>)
    ensures
        r matches Err(e) ==> spec_thr_input(toks@) == Err::<ThrInputV, MacroError>(e),
        r matches Ok(p) ==> {
            &&& spec_thr_input(toks@) == Ok::<ThrInputV, MacroError>(thr_input_view(p.input))
            &&& p.local_wrapper@ == local_wrapper(toks@, thr_input_view(p.input))
        },
{
    let input = parse_thr_input(toks)?;
    let local_wrapper = cat(ident_string(toks, input.local.ident).as_str(), "Wrapper");
    Ok(ThrPlan { input, local_wrapper })
}


// ---------------------------------------------------------------------------
// The expansion

/// `::drone_core::M::W`
pub open spec fn core_path(m: Seq<char>, w: Seq<char>) -> Seq<TokV> {
    tj(':', ':') + tw("drone_core"@) + tj(':', ':') + tw(m) + tj(':', ':') + tw(w)
}

/// `#[inline]`
pub open spec fn inline_attr() -> Seq<TokV> {
    tp('#') + topen(Delim::Bracket) + tw("inline"@) + tclose(Delim::Bracket)
}

/// The thread structure: `ATTRS VIS struct NAME { fib_chain:
/// ::drone_core::fib::Chain, local: WRAPPER, FIELDS }`.
pub open spec fn thr_struct(toks: Seq<Tok>, t: ThrStructV, wrapper: Seq<char>) -> Seq<TokV> {
    span_toks(toks, t.attrs) + span_toks(toks, t.vis.span) + tw("struct"@) + span_toks(toks, one(t.ident))
        + topen(Delim::Brace) + tw("fib_chain"@) + tp(':') + core_path("fib"@, "Chain"@) + tp(',')
        + tw("local"@) + tp(':') + tw(wrapper) + tp(',') + thread_fields(toks, t.fields) + tclose(
        Delim::Brace,
    )
}

/// `impl NAME { /// doc  pub const fn new(index: usize) -> Self { Self {
/// fib_chain: ::drone_core::fib::Chain::new(), local: WRAPPER(LOCAL::new(index)),
/// INITS } } }`
pub open spec fn thr_new(toks: Seq<Tok>, t: ThrStructV, l: ThrStructV, wrapper: Seq<char>) -> Seq<TokV> {
    tw("impl"@) + span_toks(toks, one(t.ident)) + topen(Delim::Brace) + tp('#') + topen(
        Delim::Bracket,
    ) + tw("doc"@) + tp('=') + tl("\" Creates a new thread object with given `index`.\""@) + tclose(
        Delim::Bracket,
    ) + tw("pub"@) + tw("const"@) + tw("fn"@) + tw("new"@) + topen(Delim::Paren) + tw("index"@) + tp(
        ':',
    ) + tw("usize"@) + tclose(Delim::Paren) + tj('-', '>') + tw("Self"@) + topen(Delim::Brace) + tw(
        "Self"@,
    ) + topen(Delim::Brace) + tw("fib_chain"@) + tp(':') + core_path("fib"@, "Chain"@) + tj(':', ':')
        + tw("new"@) + topen(Delim::Paren) + tclose(Delim::Paren) + tp(',') + tw("local"@) + tp(':')
        + tw(wrapper) + topen(Delim::Paren) + span_toks(toks, one(l.ident)) + tj(':', ':') + tw(
        "new"@,
    ) + topen(Delim::Paren) + tw("index"@) + tclose(Delim::Paren) + tclose(Delim::Paren) + tp(',')
        + thread_inits(toks, t.fields) + tclose(Delim::Brace) + tclose(Delim::Brace) + tclose(
        Delim::Brace,
    )
}

/// `#[inline] fn first() -> *const Self { unsafe { ARRAY.as_ptr() } }`
pub open spec fn first_fn(toks: Seq<Tok>, array: Span) -> Seq<TokV> {
    inline_attr() + tw("fn"@) + tw("first"@) + topen(Delim::Paren) + tclose(Delim::Paren) + tj('-', '>')
        + tp('*') + tw("const"@) + tw("Self"@) + topen(Delim::Brace) + tw("unsafe"@) + topen(
        Delim::Brace,
    ) + span_toks(toks, array) + tp('.') + tw("as_ptr"@) + topen(Delim::Paren) + tclose(Delim::Paren)
        + tclose(Delim::Brace) + tclose(Delim::Brace)
}

/// `#[inline] fn fib_chain(&self) -> &::drone_core::fib::Chain { &self.fib_chain }`
pub open spec fn fib_chain_fn() -> Seq<TokV> {
    inline_attr() + tw("fn"@) + tw("fib_chain"@) + topen(Delim::Paren) + tp('&') + tw("self"@)
        + tclose(Delim::Paren) + tj('-', '>') + tp('&') + core_path("fib"@, "Chain"@) + topen(
        Delim::Brace,
    ) + tp('&') + tw("self"@) + tp('.') + tw("fib_chain"@) + tclose(Delim::Brace)
}

/// `#[inline] unsafe fn local(&self) -> &LOCAL { &self.local.0 }`
pub open spec fn local_fn(toks: Seq<Tok>, local: usize) -> Seq<TokV> {
    inline_attr() + tw("unsafe"@) + tw("fn"@) + tw("local"@) + topen(Delim::Paren) + tp('&') + tw(
        "self"@,
    ) + tclose(Delim::Paren) + tj('-', '>') + tp('&') + span_toks(toks, one(local)) + topen(
        Delim::Brace,
    ) + tp('&') + tw("self"@) + tp('.') + tw("local"@) + tp('.') + tl("0"@) + tclose(Delim::Brace)
}

/// `impl ::drone_core::thr::Thread for NAME { type Local = LOCAL; FIRST
/// FIB_CHAIN LOCAL_FN }`
pub open spec fn thr_impl(toks: Seq<Tok>, inp: ThrInputV) -> Seq<TokV> {
    tw("impl"@) + core_path("thr"@, "Thread"@) + tw("for"@) + span_toks(toks, one(inp.thread.ident))
        + topen(Delim::Brace) + tw("type"@) + tw("Local"@) + tp('=') + span_toks(
        toks,
        one(inp.local.ident),
    ) + tp(';') + first_fn(toks, inp.array) + fib_chain_fn() + local_fn(toks, inp.local.ident)
        + tclose(Delim::Brace)
}

/// `ATTRS VIS struct LOCAL { preempted: ::drone_core::thr::PreemptedCell,
/// FIELDS } struct WRAPPER(LOCAL);`
pub open spec fn local_struct(toks: Seq<Tok>, l: ThrStructV, wrapper: Seq<char>) -> Seq<TokV> {
    let name = span_toks(toks, one(l.ident));
    span_toks(toks, l.attrs) + span_toks(toks, l.vis.span) + tw("struct"@) + name + topen(
        Delim::Brace,
    ) + tw("preempted"@) + tp(':') + core_path("thr"@, "PreemptedCell"@) + tp(',') + thread_fields(
        toks,
        l.fields,
    ) + tclose(Delim::Brace) + tw("struct"@) + tw(wrapper) + topen(Delim::Paren) + name + tclose(
        Delim::Paren,
    ) + tp(';')
}

/// `impl LOCAL { const fn new(index: usize) -> Self { Self { preempted:
/// ::drone_core::thr::PreemptedCell::new(), INITS } } }`
pub open spec fn local_new(toks: Seq<Tok>, l: ThrStructV) -> Seq<TokV> {
    tw("impl"@) + span_toks(toks, one(l.ident)) + topen(Delim::Brace) + tw("const"@) + tw("fn"@) + tw(
        "new"@,
    ) + topen(Delim::Paren) + tw("index"@) + tp(':') + tw("usize"@) + tclose(Delim::Paren) + tj(
        '-',
        '>',
    ) + tw("Self"@) + topen(Delim::Brace) + tw("Self"@) + topen(Delim::Brace) + tw("preempted"@)
        + tp(':') + core_path("thr"@, "PreemptedCell"@) + tj(':', ':') + tw("new"@) + topen(
        Delim::Paren,
    ) + tclose(Delim::Paren) + tp(',') + thread_inits(toks, l.fields) + tclose(Delim::Brace)
        + tclose(Delim::Brace) + tclose(Delim::Brace)
}

/// `impl ::drone_core::thr::ThreadLocal for LOCAL { #[inline] fn
/// preempted(&self) -> &::drone_core::thr::PreemptedCell { &self.preempted }
/// } unsafe impl Sync for WRAPPER {}`
pub open spec fn local_impls(toks: Seq<Tok>, l: ThrStructV, wrapper: Seq<char>) -> Seq<TokV> {
    tw("impl"@) + core_path("thr"@, "ThreadLocal"@) + tw("for"@) + span_toks(toks, one(l.ident))
        + topen(Delim::Brace) + inline_attr() + tw("fn"@) + tw("preempted"@) + topen(Delim::Paren)
        + tp('&') + tw("self"@) + tclose(Delim::Paren) + tj('-', '>') + tp('&') + core_path(
        "thr"@,
        "PreemptedCell"@,
    ) + topen(Delim::Brace) + tp('&') + tw("self"@) + tp('.') + tw("preempted"@) + tclose(
        Delim::Brace,
    ) + tclose(Delim::Brace) + tw("unsafe"@) + tw("impl"@) + tw("Sync"@) + tw("for"@) + tw(wrapper)
        + topen(Delim::Brace) + tclose(Delim::Brace)
}

/// The thread-local structure, its wrapper, its constructor, its
/// implementation of `ThreadLocal`, and the wrapper's `Sync`.
pub open spec fn local_items(toks: Seq<Tok>, l: ThrStructV, wrapper: Seq<char>) -> Seq<TokV> {
    local_struct(toks, l, wrapper) + local_new(toks, l) + local_impls(toks, l, wrapper)
}

/// The run of tokens `run` stands somewhere in `s`.
pub open spec fn contains_run(s: Seq<TokV>, run: Seq<TokV>) -> bool {
    exists|a: Seq<TokV>, c: Seq<TokV>| #[trigger] (a + run + c) == s
}

/// The constructor of the thread-local structure gives each declared field
/// its declared initializer, `NAME: INIT,`, in the order of declaration;
/// so does the constructor of the thread structure for its own fields, and
/// the structures declare those fields, `ATTRS VIS NAME: TYPE,`, in the same
/// order.
pub proof fn law_constructors_initialize_every_field(
    toks: Seq<Tok>,
    t: ThrStructV,
    l: ThrStructV,
    wrapper: Seq<char>,
)
    ensures
        contains_run(local_new(toks, l), thread_inits(toks, l.fields)),
        contains_run(thr_new(toks, t, l, wrapper), thread_inits(toks, t.fields)),
        contains_run(local_struct(toks, l, wrapper), thread_fields(toks, l.fields)),
        contains_run(thr_struct(toks, t, wrapper), thread_fields(toks, t.fields)),
{
    let s = local_new(toks, l);
    let n = thread_inits(toks, l.fields);
    let c = tclose(Delim::Brace) + tclose(Delim::Brace) + tclose(Delim::Brace);
    let a = s.take(s.len() - n.len() - 3);
    assert(s =~= a + n + c);
    let s = thr_new(toks, t, l, wrapper);
    let n = thread_inits(toks, t.fields);
    let a = s.take(s.len() - n.len() - 3);
    assert(s =~= a + n + c);
    let s = local_struct(toks, l, wrapper);
    let n = thread_fields(toks, l.fields);
    let name = span_toks(toks, one(l.ident));
    let c = tclose(Delim::Brace) + tw("struct"@) + tw(wrapper) + topen(Delim::Paren) + name + tclose(
        Delim::Paren,
    ) + tp(';');
    let a = s.take(s.len() - n.len() - c.len());
    assert(s =~= a + n + c);
    let s = thr_struct(toks, t, wrapper);
    let n = thread_fields(toks, t.fields);
    let c = tclose(Delim::Brace);
    let a = s.take(s.len() - n.len() - 1);
    assert(s =~= a + n + c);
}

/// What `thr!` expands to, for the input as read.
pub open spec fn thr_expansion(toks: Seq<Tok>, inp: ThrInputV) -> Seq<TokV> {
    let w = local_wrapper(toks, inp);
    thr_struct(toks, inp.thread, w) + thr_new(toks, inp.thread, inp.local, w) + thr_impl(toks, inp)
        + local_items(toks, inp.local, w)
}

pub open spec fn spec_expand_thr(toks: Seq<Tok>) -> Result<Seq<TokV>, MacroError> {
    match spec_thr_input(toks) {
        Err(e) => Err(e),
        Ok(inp) => Ok(thr_expansion(toks, inp)),
    }
}

/// Adds `::drone_core::M::W` to `out`.
pub fn emit_core_path(out: &mut Vec<Tok>, m: &str, w: &str)
    ensures
        toks_view(final(out)@) == toks_view(old(out)@) + core_path(m@, w@),
{
    let ghost b = toks_view(old(out)@);
    emit_joint(out, ':', ':');
    emit_word(out, "drone_core");
    emit_joint(out, ':', ':');
    emit_word(out, m);
    emit_joint(out, ':', ':');
    emit_word(out, w);
    assert(toks_view(out@) =~= b + core_path(m@, w@));
}

/// Adds `#[inline]` to `out`.
pub fn emit_inline_attr(out: &mut Vec<Tok>)
    ensures
        toks_view(final(out)@) == toks_view(old(out)@) + inline_attr(),
{
    let ghost b = toks_view(old(out)@);
    emit_punct(out, '#');
    emit_open(out, Delim::Bracket);
    emit_word(out, "inline");
    emit_close(out, Delim::Bracket);
    assert(toks_view(out@) =~= b + inline_attr());
}

#[verifier::spinoff_prover]
#[verifier::rlimit(50)]
pub fn emit_thr_struct(toks: &Vec<Tok>, t: &ThrStruct, wrapper: &String, out: &mut Vec<Tok>)
    ensures
        toks_view(final(out)@) == toks_view(old(out)@) + thr_struct(toks@, struct_view(*t), wrapper@),
{
    let ghost b = toks_view(old(out)@);
    emit_span(toks, t.attrs, out);
    emit_span(toks, t.vis.span, out);
    emit_word(out, "struct");
    emit_span(toks, one_exec(t.ident), out);
    emit_open(out, Delim::Brace);
    emit_word(out, "fib_chain");
    emit_punct(out, ':');
    emit_core_path(out, "fib", "Chain");
    emit_punct(out, ',');
    emit_word(out, "local");
    emit_punct(out, ':');
    emit_string(out, wrapper);
    emit_punct(out, ',');
    emit_thread_fields(toks, &t.fields, out);
    emit_close(out, Delim::Brace);
    assert(toks_view(out@) =~= b + thr_struct(toks@, struct_view(*t), wrapper@));
}

#[verifier::spinoff_prover]
#[verifier::rlimit(50)]
pub fn emit_thr_new(toks: &Vec<Tok>, t: &ThrStruct, l: &ThrStruct, wrapper: &String, out: &mut Vec<Tok>)
    ensures
        toks_view(final(out)@) == toks_view(old(out)@) + thr_new(
            toks@,
            struct_view(*t),
            struct_view(*l),
            wrapper@,
        ),
{
    let ghost b = toks_view(old(out)@);
    emit_word(out, "impl");
    emit_span(toks, one_exec(t.ident), out);
    emit_open(out, Delim::Brace);
    emit_punct(out, '#');
    emit_open(out, Delim::Bracket);
    emit_word(out, "doc");
    emit_punct(out, '=');
    emit_literal(out, "\" Creates a new thread object with given `index`.\"");
    emit_close(out, Delim::Bracket);
    emit_word(out, "pub");
    emit_word(out, "const");
    emit_word(out, "fn");
    emit_word(out, "new");
    emit_open(out, Delim::Paren);
    emit_word(out, "index");
    emit_punct(out, ':');
    emit_word(out, "usize");
    emit_close(out, Delim::Paren);
    emit_joint(out, '-', '>');
    emit_word(out, "Self");
    emit_open(out, Delim::Brace);
    emit_word(out, "Self");
    emit_open(out, Delim::Brace);
    let ghost m = toks_view(out@);
    emit_word(out, "fib_chain");
    emit_punct(out, ':');
    emit_core_path(out, "fib", "Chain");
    emit_joint(out, ':', ':');
    emit_word(out, "new");
    emit_open(out, Delim::Paren);
    emit_close(out, Delim::Paren);
    emit_punct(out, ',');
    emit_word(out, "local");
    emit_punct(out, ':');
    emit_string(out, wrapper);
    emit_open(out, Delim::Paren);
    emit_span(toks, one_exec(l.ident), out);
    emit_joint(out, ':', ':');
    emit_word(out, "new");
    emit_open(out, Delim::Paren);
    emit_word(out, "index");
    emit_close(out, Delim::Paren);
    emit_close(out, Delim::Paren);
    emit_punct(out, ',');
    emit_thread_inits(toks, &t.fields, out);
    emit_close(out, Delim::Brace);
    emit_close(out, Delim::Brace);
    emit_close(out, Delim::Brace);
    assert(toks_view(out@) =~= b + thr_new(toks@, struct_view(*t), struct_view(*l), wrapper@));
}

fn emit_first_fn(toks: &Vec<Tok>, array: Span, out: &mut Vec<Tok>)
    ensures
        toks_view(final(out)@) == toks_view(old(out)@) + first_fn(toks@, array),
{
    let ghost b = toks_view(old(out)@);
    emit_inline_attr(out);
    emit_word(out, "fn");
    emit_word(out, "first");
    emit_open(out, Delim::Paren);
    emit_close(out, Delim::Paren);
    emit_joint(out, '-', '>');
    emit_punct(out, '*');
    emit_word(out, "const");
    emit_word(out, "Self");
    emit_open(out, Delim::Brace);
    emit_word(out, "unsafe");
    emit_open(out, Delim::Brace);
    emit_span(toks, array, out);
    emit_punct(out, '.');
    emit_word(out, "as_ptr");
    emit_open(out, Delim::Paren);
    emit_close(out, Delim::Paren);
    emit_close(out, Delim::Brace);
    emit_close(out, Delim::Brace);
    assert(toks_view(out@) =~= b + first_fn(toks@, array));
}

pub fn emit_fib_chain_fn(out: &mut Vec<Tok>)
    ensures
        toks_view(final(out)@) == toks_view(old(out)@) + fib_chain_fn(),
{
    let ghost b = toks_view(old(out)@);
    emit_inline_attr(out);
    emit_word(out, "fn");
    emit_word(out, "fib_chain");
    emit_open(out, Delim::Paren);
    emit_punct(out, '&');
    emit_word(out, "self");
    emit_close(out, Delim::Paren);
    emit_joint(out, '-', '>');
    emit_punct(out, '&');
    emit_core_path(out, "fib", "Chain");
    emit_open(out, Delim::Brace);
    emit_punct(out, '&');
    emit_word(out, "self");
    emit_punct(out, '.');
    emit_word(out, "fib_chain");
    emit_close(out, Delim::Brace);
    assert(toks_view(out@) =~= b + fib_chain_fn());
}

pub fn emit_local_fn(toks: &Vec<Tok>, local: usize, out: &mut Vec<Tok>)
    ensures
        toks_view(final(out)@) == toks_view(old(out)@) + local_fn(toks@, local),
{
    let ghost b = toks_view(old(out)@);
    emit_inline_attr(out);
    emit_word(out, "unsafe");
    emit_word(out, "fn");
    emit_word(out, "local");
    emit_open(out, Delim::Paren);
    emit_punct(out, '&');
    emit_word(out, "self");
    emit_close(out, Delim::Paren);
    emit_joint(out, '-', '>');
    emit_punct(out, '&');
    emit_span(toks, one_exec(local), out);
    emit_open(out, Delim::Brace);
    emit_punct(out, '&');
    emit_word(out, "self");
    emit_punct(out, '.');
    emit_word(out, "local");
    emit_punct(out, '.');
    emit_literal(out, "0");
    emit_close(out, Delim::Brace);
    assert(toks_view(out@) =~= b + local_fn(toks@, local));
}

fn emit_thr_impl(toks: &Vec<Tok>, inp: &ThrInput, out: &mut Vec<Tok>)
    ensures
        toks_view(final(out)@) == toks_view(old(out)@) + thr_impl(toks@, thr_input_view(*inp)),
{
    let ghost b = toks_view(old(out)@);
    emit_word(out, "impl");
    emit_core_path(out, "thr", "Thread");
    emit_word(out, "for");
    emit_span(toks, one_exec(inp.thread.ident), out);
    emit_open(out, Delim::Brace);
    emit_word(out, "type");
    emit_word(out, "Local");
    emit_punct(out, '=');
    emit_span(toks, one_exec(inp.local.ident), out);
    emit_punct(out, ';');
    emit_first_fn(toks, inp.array, out);
    emit_fib_chain_fn(out);
    emit_local_fn(toks, inp.local.ident, out);
    emit_close(out, Delim::Brace);
    assert(toks_view(out@) =~= b + thr_impl(toks@, thr_input_view(*inp)));
}

#[verifier::spinoff_prover]
#[verifier::rlimit(50)]
fn emit_local_struct(toks: &Vec<Tok>, l: &ThrStruct, wrapper: &String, out: &mut Vec<Tok>)
    ensures
        toks_view(final(out)@) == toks_view(old(out)@) + local_struct(toks@, struct_view(*l), wrapper@),
{
    let ghost b = toks_view(old(out)@);
    let name = one_exec(l.ident);
    emit_span(toks, l.attrs, out);
    emit_span(toks, l.vis.span, out);
    emit_word(out, "struct");
    emit_span(toks, name, out);
    emit_open(out, Delim::Brace);
    emit_word(out, "preempted");
    emit_punct(out, ':');
    emit_core_path(out, "thr", "PreemptedCell");
    emit_punct(out, ',');
    emit_thread_fields(toks, &l.fields, out);
    emit_close(out, Delim::Brace);
    emit_word(out, "struct");
    emit_string(out, wrapper);
    emit_open(out, Delim::Paren);
    emit_span(toks, name, out);
    emit_close(out, Delim::Paren);
    emit_punct(out, ';');
    assert(toks_view(out@) =~= b + local_struct(toks@, struct_view(*l), wrapper@));
}

#[verifier::spinoff_prover]
#[verifier::rlimit(50)]
fn emit_local_new(toks: &Vec<Tok>, l: &ThrStruct, out: &mut Vec<Tok>)
    ensures
        toks_view(final(out)@) == toks_view(old(out)@) + local_new(toks@, struct_view(*l)),
{
    let ghost b = toks_view(old(out)@);
    emit_word(out, "impl");
    emit_span(toks, one_exec(l.ident), out);
    emit_open(out, Delim::Brace);
    emit_word(out, "const");
    emit_word(out, "fn");
    emit_word(out, "new");
    emit_open(out, Delim::Paren);
    emit_word(out, "index");
    emit_punct(out, ':');
    emit_word(out, "usize");
    emit_close(out, Delim::Paren);
    emit_joint(out, '-', '>');
    emit_word(out, "Self");
    emit_open(out, Delim::Brace);
    emit_word(out, "Self");
    emit_open(out, Delim::Brace);
    emit_word(out, "preempted");
    emit_punct(out, ':');
    emit_core_path(out, "thr", "PreemptedCell");
    emit_joint(out, ':', ':');
    emit_word(out, "new");
    emit_open(out, Delim::Paren);
    emit_close(out, Delim::Paren);
    emit_punct(out, ',');
    emit_thread_inits(toks, &l.fields, out);
    emit_close(out, Delim::Brace);
    emit_close(out, Delim::Brace);
    emit_close(out, Delim::Brace);
    assert(toks_view(out@) =~= b + local_new(toks@, struct_view(*l)));
}

#[verifier::spinoff_prover]
#[verifier::rlimit(50)]
fn emit_local_impls(toks: &Vec<Tok>, l: &ThrStruct, wrapper: &String, out: &mut Vec<Tok>)
    ensures
        toks_view(final(out)@) == toks_view(old(out)@) + local_impls(toks@, struct_view(*l), wrapper@),
{
    let ghost b = toks_view(old(out)@);
    emit_word(out, "impl");
    emit_core_path(out, "thr", "ThreadLocal");
    emit_word(out, "for");
    emit_span(toks, one_exec(l.ident), out);
    emit_open(out, Delim::Brace);
    emit_inline_attr(out);
    emit_word(out, "fn");
    emit_word(out, "preempted");
    emit_open(out, Delim::Paren);
    emit_punct(out, '&');
    emit_word(out, "self");
    emit_close(out, Delim::Paren);
    emit_joint(out, '-', '>');
    emit_punct(out, '&');
    emit_core_path(out, "thr", "PreemptedCell");
    emit_open(out, Delim::Brace);
    emit_punct(out, '&');
    emit_word(out, "self");
    emit_punct(out, '.');
    emit_word(out, "preempted");
    emit_close(out, Delim::Brace);
    emit_close(out, Delim::Brace);
    emit_word(out, "unsafe");
    emit_word(out, "impl");
    emit_word(out, "Sync");
    emit_word(out, "for");
    emit_string(out, wrapper);
    emit_open(out, Delim::Brace);
    emit_close(out, Delim::Brace);
    assert(toks_view(out@) =~= b + local_impls(toks@, struct_view(*l), wrapper@));
}

fn emit_local_items(toks: &Vec<Tok>, l: &ThrStruct, wrapper: &String, out: &mut Vec<Tok>)
    ensures
        toks_view(final(out)@) == toks_view(old(out)@) + local_items(toks@, struct_view(*l), wrapper@),
{
    let ghost b = toks_view(old(out)@);
    emit_local_struct(toks, l, wrapper, out);
    emit_local_new(toks, l, out);
    emit_local_impls(toks, l, wrapper, out);
    assert(toks_view(out@) =~= b + local_items(toks@, struct_view(*l), wrapper@));
}

/// The tokens that `thr!` expands to, on the input `toks`.
pub fn expand_thr(toks: &Vec<Tok>) -> (r: Result<Vec<Tok>, MacroError>)
    ensures
        r matches Err(e) ==> spec_expand_thr(toks@) == Err::<Seq<TokV>, MacroError>(e),
        r matches Ok(v) ==> spec_expand_thr(toks@) == Ok::<Seq<TokV>, MacroError>(toks_view(v@)),
{
    let p = thr(toks)?;
    let mut out: Vec<Tok> = Vec::new();
    assert(toks_view(out@) =~= Seq::<TokV>::empty());
    emit_thr_struct(toks, &p.input.thread, &p.local_wrapper, &mut out);
    emit_thr_new(toks, &p.input.thread, &p.input.local, &p.local_wrapper, &mut out);
    emit_thr_impl(toks, &p.input, &mut out);
    emit_local_items(toks, &p.input.local, &p.local_wrapper, &mut out);
    assert(toks_view(out@) =~= thr_expansion(toks@, thr_input_view(p.input)));
    Ok(out)
}
} // verus!
