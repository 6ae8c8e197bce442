//! `thr_soft!`: a pool of software threads, handed on to `thr::pool!`, and
//! the implementation of `SoftThread` for its thread structure.
//!
//! The input is a list of `key => value` entries separated by `;`:
//! `thread => attrs vis Name { .. }`, `local => attrs vis Name { .. }`,
//! `index => attrs vis Name`, `threads => { .. }` (without attributes), each
//! exactly once, and optionally `resume => path` and `set_pending => path`
//! (without attributes), each at most once. The contents of the braces are
//! handed on as they stand.

use crate::thr_pool::{NameDecl, spec_name_decl};
use crate::token::{Delim, ErrorKind, MacroError, Span, Tok, err, expect_group, expect_ident, expect_punct, expect_punct2, is_word, outer_attrs, parse_path, parse_vis, peek_word, spec_expect_group, spec_expect_ident, spec_expect_punct, spec_expect_punct2, spec_outer_attrs, spec_path};
use crate::thr::{core_path, emit_core_path, emit_inline_attr, inline_attr};
use crate::thr_static::{one, one_exec};
use crate::token::{TokV, emit_close, emit_joint, emit_literal, emit_open, emit_punct, emit_span, emit_word, span_toks, tclose, tj, tl, topen, toks_view, tp, tw};
use vstd::prelude::*;

verus! {

/// A structure whose fields are handed on as they stand: `attrs vis Name`
/// and the tokens inside its braces.
#[derive(PartialEq, Eq, Structural, Clone, Copy, Debug)]
pub struct SoftStruct {
    pub decl: NameDecl,
    pub body: Span,
}

/// `vis Name { .. }` at `i`, with the attributes `attrs` read before.
pub open spec fn spec_soft_struct(toks: Seq<Tok>, attrs: Span, i: int, end: int) -> Result<
    (SoftStruct, usize),
    MacroError,
> {
    match spec_name_decl(toks, attrs, i, end) {
        Err(e) => Err(e),
        Ok((d, q)) => match spec_expect_group(toks, q as int, end, Delim::Brace) {
            Err(e) => Err(e),
            Ok(c) => Ok((SoftStruct { decl: d, body: Span { start: (q + 1) as usize, end: c } }, (c + 1) as usize)),
        },
    }
}

fn parse_soft_struct(toks: &Vec<Tok>, attrs: Span, i: usize, end: usize) -> (r: Result<
    (SoftStruct, usize),
    MacroError,
>)
    ensures
        r == spec_soft_struct(toks@, attrs, i as int, end as int),
        r matches Ok((_, n)) ==> i < n <= end,
{
    let v = parse_vis(toks, i, end);
    let q = expect_ident(toks, v.span.end, end)?;
    let d = NameDecl { attrs, vis: v, ident: v.span.end };
    let c = expect_group(toks, q, end, Delim::Brace)?;
    Ok((SoftStruct { decl: d, body: Span { start: q + 1, end: c } }, c + 1))
}

/// The entries read so far.
#[derive(PartialEq, Eq, Structural, Clone, Copy, Debug)]
pub struct SoftEntries {
    pub thread: Option<SoftStruct>,
    pub local: Option<SoftStruct>,
    pub index: Option<NameDecl>,
    /// The tokens inside the braces of `threads`.
    pub threads: Option<Span>,
    pub resume: Option<Span>,
    pub set_pending: Option<Span>,
}

/// One entry at `i`, given the entries `st` read before.
pub open spec fn spec_soft_entry(toks: Seq<Tok>, i: int, end: int, st: SoftEntries) -> Result<
    (SoftEntries, usize),
    MacroError,
> {
    match spec_outer_attrs(toks, i, end) {
        Err(e) => Err(e),
        Ok(a) => match spec_expect_ident(toks, a as int, end) {
            Err(e) => Err(e),
            Ok(k) => match spec_expect_punct2(toks, k as int, end, '=', '>') {
                Err(e) => Err(e),
                Ok(p) => {
                    let attrs = Span { start: i as usize, end: a };
                    let bare = a as int == i;
                    if is_word(toks, a as int, end, "thread"@) {
                        if st.thread is Some {
                            err(p as int, ErrorKind::MultipleKey("thread"))
                        } else {
                            match spec_soft_struct(toks, attrs, p as int, end) {
                                Err(e) => Err(e),
                                Ok((s, q)) => Ok((SoftEntries { thread: Some(s), ..st }, q)),
                            }
                        }
                    } else if is_word(toks, a as int, end, "local"@) {
                        if st.local is Some {
                            err(p as int, ErrorKind::MultipleKey("local"))
                        } else {
                            match spec_soft_struct(toks, attrs, p as int, end) {
                                Err(e) => Err(e),
                                Ok((s, q)) => Ok((SoftEntries { local: Some(s), ..st }, q)),
                            }
                        }
                    } else if is_word(toks, a as int, end, "index"@) {
                        if st.index is Some {
                            err(p as int, ErrorKind::MultipleKey("index"))
                        } else {
                            match spec_name_decl(toks, attrs, p as int, end) {
                                Err(e) => Err(e),
                                Ok((d, q)) => Ok((SoftEntries { index: Some(d), ..st }, q)),
                            }
                        }
                    } else if bare && is_word(toks, a as int, end, "threads"@) {
                        if st.threads is Some {
                            err(p as int, ErrorKind::MultipleKey("threads"))
                        } else {
                            match spec_expect_group(toks, p as int, end, Delim::Brace) {
                                Err(e) => Err(e),
                                Ok(c) => Ok(
                                    (
                                        SoftEntries { threads: Some(Span { start: (p + 1) as usize, end: c }), ..st },
                                        (c + 1) as usize,
                                    ),
                                ),
                            }
                        }
                    } else if bare && is_word(toks, a as int, end, "resume"@) {
                        if st.resume is Some {
                            err(p as int, ErrorKind::MultipleKey("resume"))
                        } else {
                            match spec_path(toks, p as int, end) {
                                Err(e) => Err(e),
                                Ok(q) => Ok(
                                    (SoftEntries { resume: Some(Span { start: p, end: q }), ..st }, q),
                                ),
                            }
                        }
                    } else if bare && is_word(toks, a as int, end, "set_pending"@) {
                        if st.set_pending is Some {
                            err(p as int, ErrorKind::MultipleKey("set_pending"))
                        } else {
                            match spec_path(toks, p as int, end) {
                                Err(e) => Err(e),
                                Ok(q) => Ok(
                                    (SoftEntries { set_pending: Some(Span { start: p, end: q }), ..st }, q),
                                ),
                            }
                        }
                    } else {
                        err(p as int, ErrorKind::UnknownKey)
                    }
                },
            },
        },
    }
}

fn parse_soft_entry(toks: &Vec<Tok>, i: usize, end: usize, st: SoftEntries) -> (r: Result<
    (SoftEntries, usize),
    MacroError,
>)
    ensures
        r == spec_soft_entry(toks@, i as int, end as int, st),
        r matches Ok((_, n)) ==> i < n <= end,
{
    let a = outer_attrs(toks, i, end)?;
    let k = expect_ident(toks, a, end)?;
    let p = expect_punct2(toks, k, end, '=', '>')?;
    let attrs = Span { start: i, end: a };
    let bare = a == i;
    if peek_word(toks, a, end, "thread") {
        if st.thread.is_some() {
            Err(MacroError { at: p, kind: ErrorKind::MultipleKey("thread") })
        } else {
            let (s, q) = parse_soft_struct(toks, attrs, p, end)?;
            Ok((SoftEntries { thread: Some(s), ..st }, q))
        }
    } else if peek_word(toks, a, end, "local") {
        if st.local.is_some() {
            Err(MacroError { at: p, kind: ErrorKind::MultipleKey("local") })
        } else {
            let (s, q) = parse_soft_struct(toks, attrs, p, end)?;
            Ok((SoftEntries { local: Some(s), ..st }, q))
        }
    } else if peek_word(toks, a, end, "index") {
        if st.index.is_some() {
            Err(MacroError { at: p, kind: ErrorKind::MultipleKey("index") })
        } else {
            let v = parse_vis(toks, p, end);
            let q = expect_ident(toks, v.span.end, end)?;
            Ok((SoftEntries { index: Some(NameDecl { attrs, vis: v, ident: v.span.end }), ..st }, q))
        }
    } else if bare && peek_word(toks, a, end, "threads") {
        if st.threads.is_some() {
            Err(MacroError { at: p, kind: ErrorKind::MultipleKey("threads") })
        } else {
            let c = expect_group(toks, p, end, Delim::Brace)?;
            Ok((SoftEntries { threads: Some(Span { start: (p + 1) as usize, end: c }), ..st }, c + 1))
        }
    } else if bare && peek_word(toks, a, end, "resume") {
        if st.resume.is_some() {
            Err(MacroError { at: p, kind: ErrorKind::MultipleKey("resume") })
        } else {
            let q = parse_path(toks, p, end)?;
            Ok((SoftEntries { resume: Some(Span { start: p, end: q }), ..st }, q))
        }
    } else if bare && peek_word(toks, a, end, "set_pending") {
        if st.set_pending.is_some() {
            Err(MacroError { at: p, kind: ErrorKind::MultipleKey("set_pending") })
        } else {
            let q = parse_path(toks, p, end)?;
            Ok((SoftEntries { set_pending: Some(Span { start: p, end: q }), ..st }, q))
        }
    } else {
        Err(MacroError { at: p, kind: ErrorKind::UnknownKey })
    }
}

/// The entries from `i` on, given those read before: after each entry but
/// the last comes a `;`.
pub open spec fn spec_soft_entries(toks: Seq<Tok>, i: int, end: int, st: SoftEntries) -> Result<
    SoftEntries,
    MacroError,
>
    decreases end - i,
{
    if i >= end {
        Ok(st)
    } else {
        match spec_soft_entry(toks, i, end, st) {
            Err(e) => Err(e),
            Ok((st2, q)) => if q < end {
                match spec_expect_punct(toks, q as int, end, ';') {
                    Err(e) => Err(e),
                    Ok(q2) => if q2 > i {
                        spec_soft_entries(toks, q2 as int, end, st2)
                    } else {
                        Ok(st2)
                    },
                }
            } else {
                Ok(st2)
            },
        }
    }
}

pub open spec fn no_soft_entries() -> SoftEntries {
    SoftEntries {
        thread: None,
        local: None,
        index: None,
        threads: None,
        resume: None,
        set_pending: None,
    }
}

/// The input of `thr_soft!`: the required entries, and the optional paths.
#[derive(PartialEq, Eq, Structural, Clone, Copy, Debug)]
pub struct SoftInput {
    pub thread: SoftStruct,
    pub local: SoftStruct,
    pub index: NameDecl,
    pub threads: Span,
    pub resume: Option<Span>,
    pub set_pending: Option<Span>,
}

pub open spec fn spec_soft_input(toks: Seq<Tok>) -> Result<SoftInput, MacroError> {
    let end = toks.len() as int;
    match spec_soft_entries(toks, 0, end, no_soft_entries()) {
        Err(e) => Err(e),
        Ok(st) => match (st.thread, st.local, st.index, st.threads) {
            (None, _, _, _) => err(end, ErrorKind::MissingKey("thread")),
            (Some(_), None, _, _) => err(end, ErrorKind::MissingKey("local")),
            (Some(_), Some(_), None, _) => err(end, ErrorKind::MissingKey("index")),
            (Some(_), Some(_), Some(_), None) => err(end, ErrorKind::MissingKey("threads")),
            (Some(t), Some(l), Some(x), Some(ts)) => Ok(
                SoftInput {
                    thread: t,
                    local: l,
                    index: x,
                    threads: ts,
                    resume: st.resume,
                    set_pending: st.set_pending,
                },
            ),
        },
    }
}

/// `thr_soft!` on the input `toks`: what it reads, which the expansion
/// hands on to `thr::pool!` (with the thread's priority field added) and
/// to the implementation of `SoftThread` (with `set_pending` where given).
pub fn thr_soft(toks: &Vec<Tok>) -> (r: Result<SoftInput, MacroError>)
    ensures
        r == spec_soft_input(toks@),
{
    let end = toks.len();
    let mut st = no_soft_entries_exec();
    let mut i: usize = 0;
    let mut done = false;
    while i < end && !done
        invariant
            end == toks@.len(),
            spec_soft_entries(toks@, 0, end as int, no_soft_entries()) == (if done {
                Ok(st)
            } else {
                spec_soft_entries(toks@, i as int, end as int, st)
            }),
        decreases end - i + (if done { 0int } else { 1int }),
    {
        let (st2, q) = parse_soft_entry(toks, i, end, st)?;
        st = st2;
        if q < end {
            i = expect_punct(toks, q, end, ';')?;
        } else {
            done = true;
        }
    }
    match (st.thread, st.local, st.index, st.threads) {
        (None, _, _, _) => Err(MacroError { at: end, kind: ErrorKind::MissingKey("thread") }),
        (Some(_), None, _, _) => Err(MacroError { at: end, kind: ErrorKind::MissingKey("local") }),
        (Some(_), Some(_), None, _) => Err(
            MacroError { at: end, kind: ErrorKind::MissingKey("index") },
        ),
        (Some(_), Some(_), Some(_), None) => Err(
            MacroError { at: end, kind: ErrorKind::MissingKey("threads") },
        ),
        (Some(t), Some(l), Some(x), Some(ts)) => Ok(
            SoftInput {
                thread: t,
                local: l,
                index: x,
                threads: ts,
                resume: st.resume,
                set_pending: st.set_pending,
            },
        ),
    }
}

fn no_soft_entries_exec() -> (r: SoftEntries)
    ensures
        r == no_soft_entries(),
{
    SoftEntries {
        thread: None,
        local: None,
        index: None,
        threads: None,
        resume: None,
        set_pending: None,
    }
}

// ---------------------------------------------------------------------------
// The expansion

/// `::core::sync::atomic::W`
pub open spec fn atomic(w: Seq<char>) -> Seq<TokV> {
    tj(':', ':') + tw("core"@) + tj(':', ':') + tw("sync"@) + tj(':', ':') + tw("atomic"@) + tj(':', ':')
        + tw(w)
}

/// `ATTRS KEY => VIS NAME`
pub open spec fn soft_decl(toks: Seq<Tok>, key: Seq<char>, d: NameDecl) -> Seq<TokV> {
    span_toks(toks, d.attrs) + tw(key) + tj('=', '>') + span_toks(toks, d.vis.span) + span_toks(
        toks,
        one(d.ident),
    )
}

/// `ATTRS thread => VIS NAME { priority: ::core::sync::atomic::AtomicU8 =
/// ::core::sync::atomic::AtomicU8::new(0); BODY };`
pub open spec fn soft_thread_entry(toks: Seq<Tok>, t: SoftStruct) -> Seq<TokV> {
    soft_decl(toks, "thread"@, t.decl) + topen(Delim::Brace) + tw("priority"@) + tp(':') + atomic(
        "AtomicU8"@,
    ) + tp('=') + atomic("AtomicU8"@) + tj(':', ':') + tw("new"@) + topen(Delim::Paren) + tl("0"@)
        + tclose(Delim::Paren) + tp(';') + span_toks(toks, t.body) + tclose(Delim::Brace) + tp(';')
}

/// `ATTRS local => VIS NAME { BODY }; ATTRS index => VIS NAME; threads => {
/// THREADS };` and `resume => PATH;` where it is given.
pub open spec fn soft_other_entries(toks: Seq<Tok>, inp: SoftInput) -> Seq<TokV> {
    soft_decl(toks, "local"@, inp.local.decl) + topen(Delim::Brace) + span_toks(toks, inp.local.body)
        + tclose(Delim::Brace) + tp(';') + soft_decl(toks, "index"@, inp.index) + tp(';') + tw(
        "threads"@,
    ) + tj('=', '>') + topen(Delim::Brace) + span_toks(toks, inp.threads) + tclose(Delim::Brace) + tp(
        ';',
    ) + match inp.resume {
        Some(r) => tw("resume"@) + tj('=', '>') + span_toks(toks, r) + tp(';'),
        None => Seq::empty(),
    }
}

/// `::drone_core::thr::pool! { ENTRIES }`
pub open spec fn soft_pool(toks: Seq<Tok>, inp: SoftInput) -> Seq<TokV> {
    core_path("thr"@, "pool"@) + tp('!') + topen(Delim::Brace) + soft_thread_entry(toks, inp.thread)
        + soft_other_entries(toks, inp) + tclose(Delim::Brace)
}

/// `#[allow(clippy::declare_interior_mutable_const)] const VALUE:
/// ::core::sync::atomic::AtomicU32 = ::core::sync::atomic::AtomicU32::new(0);`
pub open spec fn pending_value() -> Seq<TokV> {
    tp('#') + topen(Delim::Bracket) + tw("allow"@) + topen(Delim::Paren) + tw("clippy"@) + tj(':', ':')
        + tw("declare_interior_mutable_const"@) + tclose(Delim::Paren) + tclose(Delim::Bracket) + tw(
        "const"@,
    ) + tw("VALUE"@) + tp(':') + atomic("AtomicU32"@) + tp('=') + atomic("AtomicU32"@) + tj(':', ':')
        + tw("new"@) + topen(Delim::Paren) + tl("0"@) + tclose(Delim::Paren) + tp(';')
}

/// `const COUNT: usize = ::drone_core::thr::pending_size::<THR>();`
pub open spec fn pending_count(thr: Seq<TokV>) -> Seq<TokV> {
    tw("const"@) + tw("COUNT"@) + tp(':') + tw("usize"@) + tp('=') + core_path("thr"@, "pending_size"@)
        + tj(':', ':') + tp('<') + thr + tp('>') + topen(Delim::Paren) + tclose(Delim::Paren) + tp(';')
}

/// `static PENDING: [::core::sync::atomic::AtomicU32; COUNT] = [VALUE;
/// COUNT]; PENDING.as_ptr()`
pub open spec fn pending_array() -> Seq<TokV> {
    tw("static"@) + tw("PENDING"@) + tp(':') + topen(Delim::Bracket) + atomic("AtomicU32"@) + tp(';')
        + tw("COUNT"@) + tclose(Delim::Bracket) + tp('=') + topen(Delim::Bracket) + tw("VALUE"@) + tp(';')
        + tw("COUNT"@) + tclose(Delim::Bracket) + tp(';') + tw("PENDING"@) + tp('.') + tw("as_ptr"@)
        + topen(Delim::Paren) + tclose(Delim::Paren)
}

/// `#[inline] fn pending() -> *const ::core::sync::atomic::AtomicU32 { VALUE
/// COUNT ARRAY }`
pub open spec fn pending_fn(thr: Seq<TokV>) -> Seq<TokV> {
    inline_attr() + tw("fn"@) + tw("pending"@) + topen(Delim::Paren) + tclose(Delim::Paren) + tj('-', '>')
        + tp('*') + tw("const"@) + atomic("AtomicU32"@) + topen(Delim::Brace) + pending_value()
        + pending_count(thr) + pending_array() + tclose(Delim::Brace)
}

/// `#[inline] fn pending_priority() -> *const ::core::sync::atomic::AtomicU8 {
/// static PENDING_PRIORITY: .. = ..::new(0); &PENDING_PRIORITY }` and
/// `#[inline] fn priority(&self) -> *const ::core::sync::atomic::AtomicU8 {
/// &self.priority }`
pub open spec fn priority_fns() -> Seq<TokV> {
    inline_attr() + tw("fn"@) + tw("pending_priority"@) + topen(Delim::Paren) + tclose(Delim::Paren)
        + tj('-', '>') + tp('*') + tw("const"@) + atomic("AtomicU8"@) + topen(Delim::Brace) + tw(
        "static"@,
    ) + tw("PENDING_PRIORITY"@) + tp(':') + atomic("AtomicU8"@) + tp('=') + atomic("AtomicU8"@) + tj(
        ':',
        ':',
    ) + tw("new"@) + topen(Delim::Paren) + tl("0"@) + tclose(Delim::Paren) + tp(';') + tp('&') + tw(
        "PENDING_PRIORITY"@,
    ) + tclose(Delim::Brace) + inline_attr() + tw("fn"@) + tw("priority"@) + topen(Delim::Paren) + tp(
        '&',
    ) + tw("self"@) + tclose(Delim::Paren) + tj('-', '>') + tp('*') + tw("const"@) + atomic(
        "AtomicU8"@,
    ) + topen(Delim::Brace) + tp('&') + tw("self"@) + tp('.') + tw("priority"@) + tclose(Delim::Brace)
}

/// `#[inline] unsafe fn set_pending(thr_idx: u16) { unsafe {
/// PATH(thr_idx) }; }` where the path is given.
pub open spec fn set_pending_fn(toks: Seq<Tok>, set_pending: Option<Span>) -> Seq<TokV> {
    match set_pending {
        Some(p) => inline_attr() + tw("unsafe"@) + tw("fn"@) + tw("set_pending"@) + topen(Delim::Paren)
            + tw("thr_idx"@) + tp(':') + tw("u16"@) + tclose(Delim::Paren) + topen(Delim::Brace) + tw(
            "unsafe"@,
        ) + topen(Delim::Brace) + span_toks(toks, p) + topen(Delim::Paren) + tw("thr_idx"@) + tclose(
            Delim::Paren,
        ) + tclose(Delim::Brace) + tp(';') + tclose(Delim::Brace),
        None => Seq::empty(),
    }
}

/// `unsafe impl ::drone_core::thr::SoftThread for THR { PENDING
/// PRIORITIES SET_PENDING }`
pub open spec fn soft_impl(toks: Seq<Tok>, inp: SoftInput) -> Seq<TokV> {
    let thr = span_toks(toks, one(inp.thread.decl.ident));
    tw("unsafe"@) + tw("impl"@) + core_path("thr"@, "SoftThread"@) + tw("for"@) + thr + topen(
        Delim::Brace,
    ) + pending_fn(thr) + priority_fns() + set_pending_fn(toks, inp.set_pending) + tclose(Delim::Brace)
}

/// What `thr_soft!` expands to on the input `toks`.
pub open spec fn spec_expand_thr_soft(toks: Seq<Tok>) -> Result<Seq<TokV>, MacroError> {
    match spec_soft_input(toks) {
        Err(e) => Err(e),
        Ok(inp) => Ok(soft_pool(toks, inp) + soft_impl(toks, inp)),
    }
}

fn emit_atomic(out: &mut Vec<Tok>, w: &str)
    ensures
        toks_view(final(out)@) == toks_view(old(out)@) + atomic(w@),
{
    let ghost b = toks_view(old(out)@);
    emit_joint(out, ':', ':');
    emit_word(out, "core");
    emit_joint(out, ':', ':');
    emit_word(out, "sync");
    emit_joint(out, ':', ':');
    emit_word(out, "atomic");
    emit_joint(out, ':', ':');
    emit_word(out, w);
    assert(toks_view(out@) =~= b + atomic(w@));
}

fn emit_soft_decl(toks: &Vec<Tok>, key: &str, d: NameDecl, out: &mut Vec<Tok>)
    ensures
        toks_view(final(out)@) == toks_view(old(out)@) + soft_decl(toks@, key@, d),
{
    let ghost b = toks_view(old(out)@);
    emit_span(toks, d.attrs, out);
    emit_word(out, key);
    emit_joint(out, '=', '>');
    emit_span(toks, d.vis.span, out);
    emit_span(toks, one_exec(d.ident), out);
    assert(toks_view(out@) =~= b + soft_decl(toks@, key@, d));
}

#[verifier::spinoff_prover]
#[verifier::rlimit(50)]
fn emit_soft_thread_entry(toks: &Vec<Tok>, t: SoftStruct, out: &mut Vec<Tok>)
    ensures
        toks_view(final(out)@) == toks_view(old(out)@) + soft_thread_entry(toks@, t),
{
    let ghost b = toks_view(old(out)@);
    emit_soft_decl(toks, "thread", t.decl, out);
    emit_open(out, Delim::Brace);
    emit_word(out, "priority");
    emit_punct(out, ':');
    emit_atomic(out, "AtomicU8");
    emit_punct(out, '=');
    emit_atomic(out, "AtomicU8");
    emit_joint(out, ':', ':');
    emit_word(out, "new");
    emit_open(out, Delim::Paren);
    emit_literal(out, "0");
    emit_close(out, Delim::Paren);
    emit_punct(out, ';');
    emit_span(toks, t.body, out);
    emit_close(out, Delim::Brace);
    emit_punct(out, ';');
    assert(toks_view(out@) =~= b + soft_thread_entry(toks@, t));
}

#[verifier::spinoff_prover]
#[verifier::rlimit(50)]
fn emit_soft_other_entries(toks: &Vec<Tok>, inp: SoftInput, out: &mut Vec<Tok>)
    ensures
        toks_view(final(out)@) == toks_view(old(out)@) + soft_other_entries(toks@, inp),
{
    let ghost b = toks_view(old(out)@);
    emit_soft_decl(toks, "local", inp.local.decl, out);
    emit_open(out, Delim::Brace);
    emit_span(toks, inp.local.body, out);
    emit_close(out, Delim::Brace);
    emit_punct(out, ';');
    emit_soft_decl(toks, "index", inp.index, out);
    emit_punct(out, ';');
    emit_word(out, "threads");
    emit_joint(out, '=', '>');
    emit_open(out, Delim::Brace);
    emit_span(toks, inp.threads, out);
    emit_close(out, Delim::Brace);
    emit_punct(out, ';');
    let ghost m = toks_view(out@);
    match inp.resume {
        Some(r) => {
            emit_word(out, "resume");
            emit_joint(out, '=', '>');
            emit_span(toks, r, out);
            emit_punct(out, ';');
            assert(toks_view(out@) =~= m + (tw("resume"@) + tj('=', '>') + span_toks(toks@, r) + tp(';')));
        },
        None => {
            assert(toks_view(out@) =~= m + Seq::<TokV>::empty());
        },
    }
    assert(toks_view(out@) =~= b + soft_other_entries(toks@, inp));
}

#[verifier::spinoff_prover]
#[verifier::rlimit(50)]
fn emit_pending_value(out: &mut Vec<Tok>)
    ensures
        toks_view(final(out)@) == toks_view(old(out)@) + pending_value(),
{
    let ghost b = toks_view(old(out)@);
    emit_punct(out, '#');
    emit_open(out, Delim::Bracket);
    emit_word(out, "allow");
    emit_open(out, Delim::Paren);
    emit_word(out, "clippy");
    emit_joint(out, ':', ':');
    emit_word(out, "declare_interior_mutable_const");
    emit_close(out, Delim::Paren);
    emit_close(out, Delim::Bracket);
    emit_word(out, "const");
    emit_word(out, "VALUE");
    emit_punct(out, ':');
    emit_atomic(out, "AtomicU32");
    emit_punct(out, '=');
    emit_atomic(out, "AtomicU32");
    emit_joint(out, ':', ':');
    emit_word(out, "new");
    emit_open(out, Delim::Paren);
    emit_literal(out, "0");
    emit_close(out, Delim::Paren);
    emit_punct(out, ';');
    assert(toks_view(out@) =~= b + pending_value());
}

#[verifier::spinoff_prover]
#[verifier::rlimit(50)]
fn emit_pending_count(toks: &Vec<Tok>, thr: Span, out: &mut Vec<Tok>)
    ensures
        toks_view(final(out)@) == toks_view(old(out)@) + pending_count(span_toks(toks@, thr)),
{
    let ghost b = toks_view(old(out)@);
    emit_word(out, "const");
    emit_word(out, "COUNT");
    emit_punct(out, ':');
    emit_word(out, "usize");
    emit_punct(out, '=');
    emit_core_path(out, "thr", "pending_size");
    emit_joint(out, ':', ':');
    emit_punct(out, '<');
    emit_span(toks, thr, out);
    emit_punct(out, '>');
    emit_open(out, Delim::Paren);
    emit_close(out, Delim::Paren);
    emit_punct(out, ';');
    assert(toks_view(out@) =~= b + pending_count(span_toks(toks@, thr)));
}

#[verifier::spinoff_prover]
#[verifier::rlimit(50)]
fn emit_pending_array(out: &mut Vec<Tok>)
    ensures
        toks_view(final(out)@) == toks_view(old(out)@) + pending_array(),
{
    let ghost b = toks_view(old(out)@);
    emit_word(out, "static");
    emit_word(out, "PENDING");
    emit_punct(out, ':');
    emit_open(out, Delim::Bracket);
    emit_atomic(out, "AtomicU32");
    emit_punct(out, ';');
    emit_word(out, "COUNT");
    emit_close(out, Delim::Bracket);
    emit_punct(out, '=');
    emit_open(out, Delim::Bracket);
    emit_word(out, "VALUE");
    emit_punct(out, ';');
    emit_word(out, "COUNT");
    emit_close(out, Delim::Bracket);
    emit_punct(out, ';');
    emit_word(out, "PENDING");
    emit_punct(out, '.');
    emit_word(out, "as_ptr");
    emit_open(out, Delim::Paren);
    emit_close(out, Delim::Paren);
    assert(toks_view(out@) =~= b + pending_array());
}

#[verifier::spinoff_prover]
#[verifier::rlimit(50)]
fn emit_pending_fn(toks: &Vec<Tok>, thr: Span, out: &mut Vec<Tok>)
    ensures
        toks_view(final(out)@) == toks_view(old(out)@) + pending_fn(span_toks(toks@, thr)),
{
    let ghost b = toks_view(old(out)@);
    emit_inline_attr(out);
    emit_word(out, "fn");
    emit_word(out, "pending");
    emit_open(out, Delim::Paren);
    emit_close(out, Delim::Paren);
    emit_joint(out, '-', '>');
    emit_punct(out, '*');
    emit_word(out, "const");
    emit_atomic(out, "AtomicU32");
    emit_open(out, Delim::Brace);
    emit_pending_value(out);
    emit_pending_count(toks, thr, out);
    emit_pending_array(out);
    emit_close(out, Delim::Brace);
    assert(toks_view(out@) =~= b + pending_fn(span_toks(toks@, thr)));
}

#[verifier::spinoff_prover]
#[verifier::rlimit(80)]
fn emit_priority_fns(out: &mut Vec<Tok>)
    ensures
        toks_view(final(out)@) == toks_view(old(out)@) + priority_fns(),
{
    let ghost b = toks_view(old(out)@);
    emit_inline_attr(out);
    emit_word(out, "fn");
    emit_word(out, "pending_priority");
    emit_open(out, Delim::Paren);
    emit_close(out, Delim::Paren);
    emit_joint(out, '-', '>');
    emit_punct(out, '*');
    emit_word(out, "const");
    emit_atomic(out, "AtomicU8");
    emit_open(out, Delim::Brace);
    emit_word(out, "static");
    emit_word(out, "PENDING_PRIORITY");
    emit_punct(out, ':');
    emit_atomic(out, "AtomicU8");
    emit_punct(out, '=');
    emit_atomic(out, "AtomicU8");
    emit_joint(out, ':', ':');
    emit_word(out, "new");
    emit_open(out, Delim::Paren);
    emit_literal(out, "0");
    emit_close(out, Delim::Paren);
    emit_punct(out, ';');
    emit_punct(out, '&');
    emit_word(out, "PENDING_PRIORITY");
    emit_close(out, Delim::Brace);
    let ghost m = toks_view(out@);
    emit_inline_attr(out);
    emit_word(out, "fn");
    emit_word(out, "priority");
    emit_open(out, Delim::Paren);
    emit_punct(out, '&');
    emit_word(out, "self");
    emit_close(out, Delim::Paren);
    emit_joint(out, '-', '>');
    emit_punct(out, '*');
    emit_word(out, "const");
    emit_atomic(out, "AtomicU8");
    emit_open(out, Delim::Brace);
    emit_punct(out, '&');
    emit_word(out, "self");
    emit_punct(out, '.');
    emit_word(out, "priority");
    emit_close(out, Delim::Brace);
    assert(toks_view(out@) =~= b + priority_fns());
}

#[verifier::spinoff_prover]
#[verifier::rlimit(50)]
fn emit_set_pending_fn(toks: &Vec<Tok>, set_pending: Option<Span>, out: &mut Vec<Tok>)
    ensures
        toks_view(final(out)@) == toks_view(old(out)@) + set_pending_fn(toks@, set_pending),
{
    let ghost b = toks_view(old(out)@);
    match set_pending {
        Some(p) => {
            emit_inline_attr(out);
            emit_word(out, "unsafe");
            emit_word(out, "fn");
            emit_word(out, "set_pending");
            emit_open(out, Delim::Paren);
            emit_word(out, "thr_idx");
            emit_punct(out, ':');
            emit_word(out, "u16");
            emit_close(out, Delim::Paren);
            emit_open(out, Delim::Brace);
            emit_word(out, "unsafe");
            emit_open(out, Delim::Brace);
            emit_span(toks, p, out);
            emit_open(out, Delim::Paren);
            emit_word(out, "thr_idx");
            emit_close(out, Delim::Paren);
            emit_close(out, Delim::Brace);
            emit_punct(out, ';');
            emit_close(out, Delim::Brace);
        },
        None => {},
    }
    assert(toks_view(out@) =~= b + set_pending_fn(toks@, set_pending));
}

/// The tokens that `thr_soft!` expands to on the input `toks`.
#[verifier::spinoff_prover]
#[verifier::rlimit(80)]
pub fn expand_thr_soft(toks: &Vec<Tok>) -> (r: Result<Vec<Tok>, MacroError>)
    ensures
        r matches Err(e) ==> spec_expand_thr_soft(toks@) == Err::<Seq<TokV>, MacroError>(e),
        r matches Ok(v) ==> spec_expand_thr_soft(toks@) == Ok::<Seq<TokV>, MacroError>(toks_view(v@)),
{
    let inp = thr_soft(toks)?;
    let mut out: Vec<Tok> = Vec::new();
    assert(toks_view(out@) =~= Seq::<TokV>::empty());
    emit_core_path(&mut out, "thr", "pool");
    emit_punct(&mut out, '!');
    emit_open(&mut out, Delim::Brace);
    emit_soft_thread_entry(toks, inp.thread, &mut out);
    emit_soft_other_entries(toks, inp, &mut out);
    emit_close(&mut out, Delim::Brace);
    let ghost m = toks_view(out@);
    assert(m =~= soft_pool(toks@, inp));
    let thr = one_exec(inp.thread.decl.ident);
    emit_word(&mut out, "unsafe");
    emit_word(&mut out, "impl");
    emit_core_path(&mut out, "thr", "SoftThread");
    emit_word(&mut out, "for");
    emit_span(toks, thr, &mut out);
    emit_open(&mut out, Delim::Brace);
    emit_pending_fn(toks, thr, &mut out);
    emit_priority_fns(&mut out);
    emit_set_pending_fn(toks, inp.set_pending, &mut out);
    emit_close(&mut out, Delim::Brace);
    assert(toks_view(out@) =~= m + soft_impl(toks@, inp));
    Ok(out)
}

} // verus!
