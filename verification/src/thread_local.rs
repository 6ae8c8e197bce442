//! `thread_local!`: the thread-local storage structure `ThreadLocal`, with
//! the fields that the input declares.
//!
//! The input is a sequence of inner attributes `#![..]`, which go to the
//! structure, and of fields `#[..] pub name: Type = { init }`, each with its
//! own attributes and an optional `pub`. A field's type is a run of single
//! tokens (no groups) up to the `=`, and its initializer is a braced group.

use crate::token::{
    Delim, ErrorKind, MacroError, Span, Tok, close_of, err, find_close, is_ident_tok, is_open,
    is_punct, is_single, is_word, peek_ident, peek_open, peek_punct, peek_single, peek_word,
};
use crate::bindings::{doc_line, emit_doc_line};
use crate::thr::{emit_inline_attr, inline_attr};
use crate::thr_static::{one, one_exec};
use crate::token::{TokV, emit_close, emit_joint, emit_literal, emit_open, emit_punct, emit_span, emit_word, push_tok, span_toks, tclose, tj, tl, topen, toks_view, tp, tw};
use vstd::prelude::*;

verus! {

/// A field of the structure.
#[derive(Debug)]
pub struct TlField {
    /// The attributes: each a `#` followed by the group at this span.
    pub attrs: Vec<Span>,
    pub public: bool,
    pub ident: usize,
    pub ty: Span,
    /// The tokens inside the initializer's braces.
    pub init: Span,
}

pub struct TlFieldV {
    pub attrs: Seq<Span>,
    pub public: bool,
    pub ident: usize,
    pub ty: Span,
    pub init: Span,
}

pub open spec fn field_view(f: TlField) -> TlFieldV {
    TlFieldV { attrs: f.attrs@, public: f.public, ident: f.ident, ty: f.ty, init: f.init }
}

pub open spec fn fields_view(fs: Seq<TlField>) -> Seq<TlFieldV> {
    fs.map_values(|f: TlField| field_view(f))
}

/// What has been read: the structure's attributes, the fields, and the
/// attributes and `pub` of the field being read.
pub struct TlState {
    pub attrs: Seq<Span>,
    pub fields: Seq<TlFieldV>,
    pub pending_attrs: Seq<Span>,
    pub pending_pub: bool,
}

/// A `=` that stands alone: not part of `==`, `=>`, `<=`, `+=` and the like.
pub open spec fn is_eq_tok(toks: Seq<Tok>, i: int, end: int) -> bool {
    is_single(toks, i, end, '=')
}

/// A `:` that stands alone, not part of `::`.
pub open spec fn is_colon_tok(toks: Seq<Tok>, i: int, end: int) -> bool {
    is_single(toks, i, end, ':')
}

/// The position of the `=` that ends a field's type, scanning from `j`:
/// `Err` with the position of the first token that cannot be part of the
/// type (a group, or the end of the input).
pub open spec fn type_end(toks: Seq<Tok>, j: int, end: int) -> Result<int, int>
    decreases end - j,
{
    if j >= end || j >= toks.len() || j < 0 {
        Err(j)
    } else if is_eq_tok(toks, j, end) {
        Ok(j)
    } else if toks[j] is Open || toks[j] is Close {
        Err(j)
    } else {
        type_end(toks, j + 1, end)
    }
}

pub const AFTER_POUND_BANG: &'static str = "Invalid tokens after `#!`";

pub const AFTER_POUND: &'static str = "Invalid tokens after `#`";

pub const INVALID_TOKEN: &'static str = "Invalid token";

/// The message of a token that cannot follow a field's name, type or `=`,
/// which the message quotes.
pub const AFTER: &'static str = "Invalid token after";

/// The input from `i` on, given what was read before it.
pub open spec fn spec_tl(toks: Seq<Tok>, i: int, end: int, st: TlState) -> Result<TlState, MacroError>
    decreases end - i,
{
    if i >= end || i >= toks.len() || i < 0 {
        Ok(st)
    } else if is_punct(toks, i, end, '#') {
        if is_punct(toks, i + 1, end, '!') {
            if is_open(toks, i + 2, end, toks[i + 2]->Open_0) {
                match close_of(toks, i + 2, end) {
                    Some(c) => if c + 1 > i && c + 1 <= end {
                        spec_tl(
                            toks,
                            c + 1,
                            end,
                            TlState { attrs: st.attrs.push(Span { start: (i + 2) as usize, end: (c + 1) as usize }), ..st },
                        )
                    } else {
                        err(i + 2, ErrorKind::Invalid(AFTER_POUND_BANG))
                    },
                    None => err(i + 2, ErrorKind::Invalid(AFTER_POUND_BANG)),
                }
            } else {
                err(i + 2, ErrorKind::Invalid(AFTER_POUND_BANG))
            }
        } else if is_open(toks, i + 1, end, toks[i + 1]->Open_0) {
            match close_of(toks, i + 1, end) {
                Some(c) => if c + 1 > i && c + 1 <= end {
                    spec_tl(
                        toks,
                        c + 1,
                        end,
                        TlState {
                            pending_attrs: st.pending_attrs.push(
                                Span { start: (i + 1) as usize, end: (c + 1) as usize },
                            ),
                            ..st
                        },
                    )
                } else {
                    err(i + 1, ErrorKind::Invalid(AFTER_POUND))
                },
                None => err(i + 1, ErrorKind::Invalid(AFTER_POUND)),
            }
        } else {
            err(i + 1, ErrorKind::Invalid(AFTER_POUND))
        }
    } else if is_word(toks, i, end, "pub"@) {
        spec_tl(toks, i + 1, end, TlState { pending_pub: true, ..st })
    } else if is_ident_tok(toks, i, end) {
        if !is_colon_tok(toks, i + 1, end) {
            err(i + 1, ErrorKind::InvalidAfter(AFTER, Span { start: i as usize, end: (i + 1) as usize }))
        } else {
            match type_end(toks, i + 2, end) {
                Err(p) => err(p, ErrorKind::InvalidAfter(AFTER, Span { start: i as usize, end: p as usize })),
                Ok(e) => if is_open(toks, e + 1, end, Delim::Brace) {
                    match close_of(toks, e + 1, end) {
                        Some(c) => if c + 1 > i && c + 1 <= end {
                            spec_tl(
                                toks,
                                c + 1,
                                end,
                                TlState {
                                    attrs: st.attrs,
                                    fields: st.fields.push(
                                        TlFieldV {
                                            attrs: st.pending_attrs,
                                            public: st.pending_pub,
                                            ident: i as usize,
                                            ty: Span { start: (i + 2) as usize, end: e as usize },
                                            init: Span { start: (e + 2) as usize, end: c as usize },
                                        },
                                    ),
                                    pending_attrs: Seq::empty(),
                                    pending_pub: false,
                                },
                            )
                        } else {
                            err(e + 1, ErrorKind::InvalidAfter(AFTER, Span { start: i as usize, end: (e + 1) as usize }))
                        },
                        None => err(e + 1, ErrorKind::InvalidAfter(AFTER, Span { start: i as usize, end: (e + 1) as usize })),
                    }
                } else {
                    err(e + 1, ErrorKind::InvalidAfter(AFTER, Span { start: i as usize, end: (e + 1) as usize }))
                },
            }
        }
    } else {
        err(i, ErrorKind::Invalid(INVALID_TOKEN))
    }
}

pub open spec fn tl_start() -> TlState {
    TlState { attrs: Seq::empty(), fields: Seq::empty(), pending_attrs: Seq::empty(), pending_pub: false }
}

fn is_eq_exec(toks: &Vec<Tok>, i: usize, end: usize) -> (r: bool)
    ensures
        r == is_eq_tok(toks@, i as int, end as int),
{
    peek_single(toks, i, end, '=')
}

fn find_type_end(toks: &Vec<Tok>, j: usize, end: usize) -> (r: Result<usize, usize>)
    ensures
        r matches Ok(e) ==> type_end(toks@, j as int, end as int) == Ok::<int, int>(e as int),
        r matches Err(p) ==> type_end(toks@, j as int, end as int) == Err::<int, int>(p as int),
        r matches Ok(e) ==> j <= e < end,
{
    let mut k = j;
    while k < end && k < toks.len()
        invariant
            j <= k,
            type_end(toks@, j as int, end as int) == type_end(toks@, k as int, end as int),
        decreases end - k,
    {
        if is_eq_exec(toks, k, end) {
            return Ok(k);
        }
        match &toks[k] {
            Tok::Open(_) | Tok::Close(_) => {
                return Err(k);
            },
            _ => {},
        }
        k = k + 1;
    }
    Err(k)
}

fn open_at(toks: &Vec<Tok>, i: usize, end: usize) -> (r: bool)
    ensures
        r == (0 <= i < end && i < toks@.len() && toks@[i as int] is Open),
{
    i < end && i < toks.len() && matches!(toks[i], Tok::Open(_))
}

/// The input of `thread_local!`.
#[derive(Debug)]
pub struct TlInput {
    /// The structure's attributes: each a `#` followed by the group at this
    /// span (the `!` of the input left out).
    pub attrs: Vec<Span>,
    pub fields: Vec<TlField>,
}

/// Reads the input of `thread_local!`.
#[verifier::loop_isolation(false)]
pub fn thread_local(toks: &Vec<Tok>) -> (r: Result<TlInput, MacroError>)
    ensures
        r matches Ok(inp) ==> spec_tl(toks@, 0, toks@.len() as int, tl_start()) matches Ok(st)
            && st.attrs == inp.attrs@ && st.fields == fields_view(inp.fields@),
        r matches Err(e) ==> spec_tl(toks@, 0, toks@.len() as int, tl_start()) == Err::<
            TlState,
            MacroError,
        >(e),
{
    let end = toks.len();
    let mut attrs: Vec<Span> = Vec::new();
    let mut fields: Vec<TlField> = Vec::new();
    let mut pending_attrs: Vec<Span> = Vec::new();
    let mut pending_pub = false;
    let mut i: usize = 0;
    assert(fields_view(fields@) =~= Seq::<TlFieldV>::empty());
    assert(attrs@ =~= Seq::<Span>::empty());
    assert(pending_attrs@ =~= Seq::<Span>::empty());
    while i < end
        invariant
            end == toks@.len(),
            spec_tl(toks@, 0, end as int, tl_start()) == spec_tl(
                toks@,
                i as int,
                end as int,
                TlState {
                    attrs: attrs@,
                    fields: fields_view(fields@),
                    pending_attrs: pending_attrs@,
                    pending_pub,
                },
            ),
        decreases end - i,
    {
        if peek_punct(toks, i, end, '#') {
            if peek_punct(toks, i + 1, end, '!') {
                if !open_at(toks, i + 2, end) {
                    return Err(MacroError { at: i + 2, kind: ErrorKind::Invalid(AFTER_POUND_BANG) });
                }
                match find_close(toks, i + 2, end) {
                    Some(c) => {
                        attrs.push(Span { start: i + 2, end: c + 1 });
                        i = c + 1;
                    },
                    None => {
                        return Err(MacroError { at: i + 2, kind: ErrorKind::Invalid(AFTER_POUND_BANG) });
                    },
                }
            } else {
                if !open_at(toks, i + 1, end) {
                    return Err(MacroError { at: i + 1, kind: ErrorKind::Invalid(AFTER_POUND) });
                }
                match find_close(toks, i + 1, end) {
                    Some(c) => {
                        pending_attrs.push(Span { start: i + 1, end: c + 1 });
                        i = c + 1;
                    },
                    None => {
                        return Err(MacroError { at: i + 1, kind: ErrorKind::Invalid(AFTER_POUND) });
                    },
                }
            }
        } else if peek_word(toks, i, end, "pub") {
            pending_pub = true;
            i = i + 1;
        } else if peek_ident(toks, i, end) {
            if !peek_single(toks, i + 1, end, ':') {
                return Err(MacroError { at: i + 1, kind: ErrorKind::InvalidAfter(AFTER, Span { start: i, end: i + 1 }) });
            }
            let e = match find_type_end(toks, i + 2, end) {
                Ok(e) => e,
                Err(p) => {
                    return Err(MacroError { at: p, kind: ErrorKind::InvalidAfter(AFTER, Span { start: i, end: p }) });
                },
            };
            if !peek_open(toks, e + 1, end, Delim::Brace) {
                return Err(MacroError { at: e + 1, kind: ErrorKind::InvalidAfter(AFTER, Span { start: i, end: e + 1 }) });
            }
            match find_close(toks, e + 1, end) {
                Some(c) => {
                    let ghost before = fields_view(fields@);
                    let f = TlField {
                        attrs: pending_attrs,
                        public: pending_pub,
                        ident: i,
                        ty: Span { start: i + 2, end: e },
                        init: Span { start: e + 2, end: c },
                    };
                    let ghost fv = field_view(f);
                    fields.push(f);
                    assert(fields_view(fields@) =~= before.push(fv));
                    pending_attrs = Vec::new();
                    pending_pub = false;
                    i = c + 1;
                },
                None => {
                    return Err(MacroError { at: e + 1, kind: ErrorKind::InvalidAfter(AFTER, Span { start: i, end: e + 1 }) });
                },
            }
        } else {
            return Err(MacroError { at: i, kind: ErrorKind::Invalid(INVALID_TOKEN) });
        }
    }
    Ok(TlInput { attrs, fields })
}

// ---------------------------------------------------------------------------
// The expansion

/// Attributes, each written `#` and the group at its span.
pub open spec fn pound_attrs(toks: Seq<Tok>, attrs: Seq<Span>) -> Seq<TokV>
    decreases attrs.len(),
{
    if attrs.len() == 0 {
        Seq::empty()
    } else {
        pound_attrs(toks, attrs.drop_last()) + tp('#') + span_toks(toks, attrs.last())
    }
}

/// The declared fields: `ATTRS [pub] NAME: TYPE,` each.
pub open spec fn tl_fields(toks: Seq<Tok>, fs: Seq<TlFieldV>) -> Seq<TokV>
    decreases fs.len(),
{
    if fs.len() == 0 {
        Seq::empty()
    } else {
        let f = fs.last();
        tl_fields(toks, fs.drop_last()) + pound_attrs(toks, f.attrs) + (if f.public {
            tw("pub"@)
        } else {
            Seq::empty()
        }) + span_toks(toks, one(f.ident)) + tp(':') + span_toks(toks, f.ty) + tp(',')
    }
}

/// The declared fields' initializers: `NAME: { INIT },` each.
pub open spec fn tl_inits(toks: Seq<Tok>, fs: Seq<TlFieldV>) -> Seq<TokV>
    decreases fs.len(),
{
    if fs.len() == 0 {
        Seq::empty()
    } else {
        let f = fs.last();
        tl_inits(toks, fs.drop_last()) + span_toks(toks, one(f.ident)) + tp(':') + topen(Delim::Brace)
            + span_toks(toks, f.init) + tclose(Delim::Brace) + tp(',')
    }
}

/// `use core::cell::Cell; use core::ptr; use drone::thread::{self, Chain,
/// Thread};`
pub open spec fn tl_uses() -> Seq<TokV> {
    tw("use"@) + tw("core"@) + tj(':', ':') + tw("cell"@) + tj(':', ':') + tw("Cell"@) + tp(';') + tw(
        "use"@,
    ) + tw("core"@) + tj(':', ':') + tw("ptr"@) + tp(';') + tw("use"@) + tw("drone"@) + tj(':', ':')
        + tw("thread"@) + tj(':', ':') + topen(Delim::Brace) + tw("self"@) + tp(',') + tw("Chain"@) + tp(
        ',',
    ) + tw("Thread"@) + tclose(Delim::Brace) + tp(';')
}

/// `ATTRS pub struct ThreadLocal { chain: Chain, preempted_id: usize, task:
/// Cell<*mut u8>, FIELDS }`
pub open spec fn tl_struct(toks: Seq<Tok>, attrs: Seq<Span>, fs: Seq<TlFieldV>) -> Seq<TokV> {
    pound_attrs(toks, attrs) + tw("pub"@) + tw("struct"@) + tw("ThreadLocal"@) + topen(Delim::Brace)
        + tw("chain"@) + tp(':') + tw("Chain"@) + tp(',') + tw("preempted_id"@) + tp(':') + tw("usize"@)
        + tp(',') + tw("task"@) + tp(':') + tw("Cell"@) + tp('<') + tp('*') + tw("mut"@) + tw("u8"@) + tp(
        '>',
    ) + tp(',') + tl_fields(toks, fs) + tclose(Delim::Brace)
}

/// The structure declares the declared fields, `ATTRS [pub] NAME: TYPE,`,
/// and its constructor gives each its declared initializer, `NAME: {
/// INIT },`, in the order of declaration.
pub proof fn law_storage_declares_and_initializes_every_field(toks: Seq<Tok>, attrs: Seq<Span>, fs: Seq<TlFieldV>)
    ensures
        crate::thr::contains_run(tl_struct(toks, attrs, fs), tl_fields(toks, fs)),
        crate::thr::contains_run(tl_new(toks, fs), tl_inits(toks, fs)),
{
    let s = tl_struct(toks, attrs, fs);
    let n = tl_fields(toks, fs);
    let a = s.take(s.len() - n.len() - 1);
    let c = tclose(Delim::Brace);
    assert(s =~= a + n + c);
    let s = tl_new(toks, fs);
    let n = tl_inits(toks, fs);
    let c = tclose(Delim::Brace) + tclose(Delim::Brace) + tclose(Delim::Brace);
    let a = s.take(s.len() - n.len() - 3);
    assert(s =~= a + n + c);
}

/// `impl ThreadLocal { #[doc = ..] #[allow(dead_code)] pub const fn new(_id:
/// usize) -> Self { Self { chain: Chain::new(), preempted_id: 0, task:
/// Cell::new(ptr::null_mut()), INITS } } }`
pub open spec fn tl_new(toks: Seq<Tok>, fs: Seq<TlFieldV>) -> Seq<TokV> {
    tw("impl"@) + tw("ThreadLocal"@) + topen(Delim::Brace) + doc_line(
        "\" Creates a blank `ThreadLocal`.\""@,
    ) + tp('#') + topen(Delim::Bracket) + tw("allow"@) + topen(Delim::Paren) + tw("dead_code"@) + tclose(
        Delim::Paren,
    ) + tclose(Delim::Bracket) + tw("pub"@) + tw("const"@) + tw("fn"@) + tw("new"@) + topen(Delim::Paren)
        + tw("_id"@) + tp(':') + tw("usize"@) + tclose(Delim::Paren) + tj('-', '>') + tw("Self"@) + topen(
        Delim::Brace,
    ) + tw("Self"@) + topen(Delim::Brace) + tw("chain"@) + tp(':') + tw("Chain"@) + tj(':', ':') + tw(
        "new"@,
    ) + topen(Delim::Paren) + tclose(Delim::Paren) + tp(',') + tw("preempted_id"@) + tp(':') + tl("0"@)
        + tp(',') + tw("task"@) + tp(':') + tw("Cell"@) + tj(':', ':') + tw("new"@) + topen(Delim::Paren)
        + tw("ptr"@) + tj(':', ':') + tw("null_mut"@) + topen(Delim::Paren) + tclose(Delim::Paren)
        + tclose(Delim::Paren) + tp(',') + tl_inits(toks, fs) + tclose(Delim::Brace) + tclose(
        Delim::Brace,
    ) + tclose(Delim::Brace)
}

/// `#[inline] unsafe fn get_unchecked(id: usize) -> &'static Self {
/// THREADS.get_unchecked(id) } #[inline] fn chain(&self) -> &Chain {
/// &self.chain } #[inline] fn chain_mut(&mut self) -> &mut Chain { &mut
/// self.chain }`
pub open spec fn tl_chain_fns() -> Seq<TokV> {
    inline_attr() + tw("unsafe"@) + tw("fn"@) + tw("get_unchecked"@) + topen(Delim::Paren) + tw("id"@)
        + tp(':') + tw("usize"@) + tclose(Delim::Paren) + tj('-', '>') + tp('&') + seq![
        TokV::Punct('\'', true),
    ] + tw("static"@) + tw("Self"@) + topen(Delim::Brace) + tw("THREADS"@) + tp('.') + tw(
        "get_unchecked"@,
    ) + topen(Delim::Paren) + tw("id"@) + tclose(Delim::Paren) + tclose(Delim::Brace) + inline_attr()
        + tw("fn"@) + tw("chain"@) + topen(Delim::Paren) + tp('&') + tw("self"@) + tclose(Delim::Paren)
        + tj('-', '>') + tp('&') + tw("Chain"@) + topen(Delim::Brace) + tp('&') + tw("self"@) + tp('.')
        + tw("chain"@) + tclose(Delim::Brace) + inline_attr() + tw("fn"@) + tw("chain_mut"@) + topen(
        Delim::Paren,
    ) + tp('&') + tw("mut"@) + tw("self"@) + tclose(Delim::Paren) + tj('-', '>') + tp('&') + tw("mut"@)
        + tw("Chain"@) + topen(Delim::Brace) + tp('&') + tw("mut"@) + tw("self"@) + tp('.') + tw("chain"@)
        + tclose(Delim::Brace)
}

/// `#[inline] fn preempted_id(&self) -> usize { self.preempted_id }
/// #[inline] unsafe fn set_preempted_id(&mut self, id: usize) {
/// self.preempted_id = id; }`
pub open spec fn tl_preempted_fns() -> Seq<TokV> {
    inline_attr() + tw("fn"@) + tw("preempted_id"@) + topen(Delim::Paren) + tp('&') + tw("self"@) + tclose(
        Delim::Paren,
    ) + tj('-', '>') + tw("usize"@) + topen(Delim::Brace) + tw("self"@) + tp('.') + tw("preempted_id"@)
        + tclose(Delim::Brace) + inline_attr() + tw("unsafe"@) + tw("fn"@) + tw("set_preempted_id"@)
        + topen(Delim::Paren) + tp('&') + tw("mut"@) + tw("self"@) + tp(',') + tw("id"@) + tp(':') + tw(
        "usize"@,
    ) + tclose(Delim::Paren) + topen(Delim::Brace) + tw("self"@) + tp('.') + tw("preempted_id"@) + tp('=')
        + tw("id"@) + tp(';') + tclose(Delim::Brace)
}

/// `#[inline] fn task(&self) -> *mut u8 { self.task.get() } #[inline]
/// unsafe fn set_task(&self, task: *mut u8) { self.task.set(task); }`
pub open spec fn tl_task_fns() -> Seq<TokV> {
    inline_attr() + tw("fn"@) + tw("task"@) + topen(Delim::Paren) + tp('&') + tw("self"@) + tclose(
        Delim::Paren,
    ) + tj('-', '>') + tp('*') + tw("mut"@) + tw("u8"@) + topen(Delim::Brace) + tw("self"@) + tp('.')
        + tw("task"@) + tp('.') + tw("get"@) + topen(Delim::Paren) + tclose(Delim::Paren) + tclose(
        Delim::Brace,
    ) + inline_attr() + tw("unsafe"@) + tw("fn"@) + tw("set_task"@) + topen(Delim::Paren) + tp('&') + tw(
        "self"@,
    ) + tp(',') + tw("task"@) + tp(':') + tp('*') + tw("mut"@) + tw("u8"@) + tclose(Delim::Paren)
        + topen(Delim::Brace) + tw("self"@) + tp('.') + tw("task"@) + tp('.') + tw("set"@) + topen(
        Delim::Paren,
    ) + tw("task"@) + tclose(Delim::Paren) + tp(';') + tclose(Delim::Brace)
}

/// `impl Thread for ThreadLocal { .. }`
pub open spec fn tl_thread_impl() -> Seq<TokV> {
    tw("impl"@) + tw("Thread"@) + tw("for"@) + tw("ThreadLocal"@) + topen(Delim::Brace) + tl_chain_fns()
        + tl_preempted_fns() + tl_task_fns() + tclose(Delim::Brace)
}

/// The documented `#[inline] pub unsafe fn init() {
/// thread::init::<ThreadLocal>(); }`
pub open spec fn tl_init_fn() -> Seq<TokV> {
    doc_line("\" Initialize the `futures` task system.\""@) + doc_line("\"\""@) + doc_line(
        "\" See [`thread::init()`] for more details.\""@,
    ) + doc_line("\"\""@) + doc_line("\" [`thread::init()`]: ../../drone/thread/fn.init.html\""@)
        + inline_attr() + tw("pub"@) + tw("unsafe"@) + tw("fn"@) + tw("init"@) + topen(Delim::Paren)
        + tclose(Delim::Paren) + topen(Delim::Brace) + tw("thread"@) + tj(':', ':') + tw("init"@) + tj(
        ':',
        ':',
    ) + tp('<') + tw("ThreadLocal"@) + tp('>') + topen(Delim::Paren) + tclose(Delim::Paren) + tp(';')
        + tclose(Delim::Brace)
}

/// What `thread_local!` expands to on the input `toks`.
pub open spec fn spec_expand_thread_local(toks: Seq<Tok>) -> Result<Seq<TokV>, MacroError> {
    match spec_tl(toks, 0, toks.len() as int, tl_start()) {
        Err(e) => Err(e),
        Ok(st) => Ok(
            tl_uses() + tl_struct(toks, st.attrs, st.fields) + tl_new(toks, st.fields) + tl_thread_impl()
                + tl_init_fn(),
        ),
    }
}

pub fn emit_pound_attrs(toks: &Vec<Tok>, attrs: &Vec<Span>, out: &mut Vec<Tok>)
    ensures
        toks_view(final(out)@) == toks_view(old(out)@) + pound_attrs(toks@, attrs@),
{
    let ghost head = toks_view(old(out)@);
    let mut k: usize = 0;
    assert(attrs@.take(0) =~= Seq::<Span>::empty());
    assert(head + Seq::<TokV>::empty() =~= head);
    while k < attrs.len()
        invariant
            k <= attrs@.len(),
            toks_view(out@) == head + pound_attrs(toks@, attrs@.take(k as int)),
        decreases attrs@.len() - k,
    {
        emit_punct(out, '#');
        emit_span(toks, attrs[k], out);
        proof {
            let s = attrs@.take(k + 1);
            assert(s.drop_last() =~= attrs@.take(k as int));
            assert(toks_view(out@) =~= head + pound_attrs(toks@, s));
        }
        k = k + 1;
    }
    assert(attrs@.take(k as int) =~= attrs@);
}

#[verifier::spinoff_prover]
#[verifier::rlimit(50)]
fn emit_tl_lists(toks: &Vec<Tok>, fs: &Vec<TlField>, inits: bool, out: &mut Vec<Tok>)
    ensures
        !inits ==> toks_view(final(out)@) == toks_view(old(out)@) + tl_fields(toks@, fields_view(fs@)),
        inits ==> toks_view(final(out)@) == toks_view(old(out)@) + tl_inits(toks@, fields_view(fs@)),
{
    let ghost head = toks_view(old(out)@);
    let ghost v = fields_view(fs@);
    let mut k: usize = 0;
    assert(v.take(0) =~= Seq::<TlFieldV>::empty());
    assert(head + Seq::<TokV>::empty() =~= head);
    while k < fs.len()
        invariant
            k <= v.len(),
            v == fields_view(fs@),
            !inits ==> toks_view(out@) == head + tl_fields(toks@, v.take(k as int)),
            inits ==> toks_view(out@) == head + tl_inits(toks@, v.take(k as int)),
        decreases v.len() - k,
    {
        let f = &fs[k];
        assert(v[k as int] == field_view(*f));
        let ghost before = toks_view(out@);
        if inits {
            emit_span(toks, one_exec(f.ident), out);
            emit_punct(out, ':');
            emit_open(out, Delim::Brace);
            emit_span(toks, f.init, out);
            emit_close(out, Delim::Brace);
            emit_punct(out, ',');
        } else {
            emit_pound_attrs(toks, &f.attrs, out);
            let ghost m = toks_view(out@);
            if f.public {
                emit_word(out, "pub");
            } else {
                assert(m + Seq::<TokV>::empty() =~= m);
            }
            emit_span(toks, one_exec(f.ident), out);
            emit_punct(out, ':');
            emit_span(toks, f.ty, out);
            emit_punct(out, ',');
        }
        proof {
            let s = v.take(k + 1);
            assert(s.drop_last() =~= v.take(k as int));
            assert(s.last() == v[k as int]);
            if inits {
                assert(toks_view(out@) =~= head + tl_inits(toks@, s));
            } else {
                assert(toks_view(out@) =~= head + tl_fields(toks@, s));
            }
        }
        k = k + 1;
    }
    assert(v.take(k as int) =~= v);
}

#[verifier::spinoff_prover]
#[verifier::rlimit(50)]
fn emit_tl_uses(out: &mut Vec<Tok>)
    ensures
        toks_view(final(out)@) == toks_view(old(out)@) + tl_uses(),
{
    let ghost b = toks_view(old(out)@);
    emit_word(out, "use");
    emit_word(out, "core");
    emit_joint(out, ':', ':');
    emit_word(out, "cell");
    emit_joint(out, ':', ':');
    emit_word(out, "Cell");
    emit_punct(out, ';');
    emit_word(out, "use");
    emit_word(out, "core");
    emit_joint(out, ':', ':');
    emit_word(out, "ptr");
    emit_punct(out, ';');
    emit_word(out, "use");
    emit_word(out, "drone");
    emit_joint(out, ':', ':');
    emit_word(out, "thread");
    emit_joint(out, ':', ':');
    emit_open(out, Delim::Brace);
    emit_word(out, "self");
    emit_punct(out, ',');
    emit_word(out, "Chain");
    emit_punct(out, ',');
    emit_word(out, "Thread");
    emit_close(out, Delim::Brace);
    emit_punct(out, ';');
    assert(toks_view(out@) =~= b + tl_uses());
}

#[verifier::spinoff_prover]
#[verifier::rlimit(50)]
fn emit_tl_struct(toks: &Vec<Tok>, attrs: &Vec<Span>, fs: &Vec<TlField>, out: &mut Vec<Tok>)
    ensures
        toks_view(final(out)@) == toks_view(old(out)@) + tl_struct(toks@, attrs@, fields_view(fs@)),
{
    let ghost b = toks_view(old(out)@);
    emit_pound_attrs(toks, attrs, out);
    emit_word(out, "pub");
    emit_word(out, "struct");
    emit_word(out, "ThreadLocal");
    emit_open(out, Delim::Brace);
    emit_word(out, "chain");
    emit_punct(out, ':');
    emit_word(out, "Chain");
    emit_punct(out, ',');
    emit_word(out, "preempted_id");
    emit_punct(out, ':');
    emit_word(out, "usize");
    emit_punct(out, ',');
    emit_word(out, "task");
    emit_punct(out, ':');
    emit_word(out, "Cell");
    emit_punct(out, '<');
    emit_punct(out, '*');
    emit_word(out, "mut");
    emit_word(out, "u8");
    emit_punct(out, '>');
    emit_punct(out, ',');
    emit_tl_lists(toks, fs, false, out);
    emit_close(out, Delim::Brace);
    assert(toks_view(out@) =~= b + tl_struct(toks@, attrs@, fields_view(fs@)));
}

#[verifier::spinoff_prover]
#[verifier::rlimit(80)]
fn emit_tl_new(toks: &Vec<Tok>, fs: &Vec<TlField>, out: &mut Vec<Tok>)
    ensures
        toks_view(final(out)@) == toks_view(old(out)@) + tl_new(toks@, fields_view(fs@)),
{
    let ghost b = toks_view(old(out)@);
    emit_word(out, "impl");
    emit_word(out, "ThreadLocal");
    emit_open(out, Delim::Brace);
    emit_doc_line(out, "\" Creates a blank `ThreadLocal`.\"");
    emit_punct(out, '#');
    emit_open(out, Delim::Bracket);
    emit_word(out, "allow");
    emit_open(out, Delim::Paren);
    emit_word(out, "dead_code");
    emit_close(out, Delim::Paren);
    emit_close(out, Delim::Bracket);
    emit_word(out, "pub");
    emit_word(out, "const");
    emit_word(out, "fn");
    emit_word(out, "new");
    emit_open(out, Delim::Paren);
    emit_word(out, "_id");
    emit_punct(out, ':');
    emit_word(out, "usize");
    emit_close(out, Delim::Paren);
    emit_joint(out, '-', '>');
    emit_word(out, "Self");
    emit_open(out, Delim::Brace);
    let ghost m = toks_view(out@);
    emit_word(out, "Self");
    emit_open(out, Delim::Brace);
    emit_word(out, "chain");
    emit_punct(out, ':');
    emit_word(out, "Chain");
    emit_joint(out, ':', ':');
    emit_word(out, "new");
    emit_open(out, Delim::Paren);
    emit_close(out, Delim::Paren);
    emit_punct(out, ',');
    emit_word(out, "preempted_id");
    emit_punct(out, ':');
    emit_literal(out, "0");
    emit_punct(out, ',');
    emit_word(out, "task");
    emit_punct(out, ':');
    emit_word(out, "Cell");
    emit_joint(out, ':', ':');
    emit_word(out, "new");
    emit_open(out, Delim::Paren);
    emit_word(out, "ptr");
    emit_joint(out, ':', ':');
    emit_word(out, "null_mut");
    emit_open(out, Delim::Paren);
    emit_close(out, Delim::Paren);
    emit_close(out, Delim::Paren);
    emit_punct(out, ',');
    emit_tl_lists(toks, fs, true, out);
    emit_close(out, Delim::Brace);
    emit_close(out, Delim::Brace);
    emit_close(out, Delim::Brace);
    assert(toks_view(out@) =~= b + tl_new(toks@, fields_view(fs@)));
}

#[verifier::spinoff_prover]
#[verifier::rlimit(80)]
fn emit_tl_chain_fns(out: &mut Vec<Tok>)
    ensures
        toks_view(final(out)@) == toks_view(old(out)@) + tl_chain_fns(),
{
    let ghost b = toks_view(old(out)@);
    emit_inline_attr(out);
    emit_word(out, "unsafe");
    emit_word(out, "fn");
    emit_word(out, "get_unchecked");
    emit_open(out, Delim::Paren);
    emit_word(out, "id");
    emit_punct(out, ':');
    emit_word(out, "usize");
    emit_close(out, Delim::Paren);
    emit_joint(out, '-', '>');
    emit_punct(out, '&');
    push_tok(out, Tok::Punct('\'', true));
    emit_word(out, "static");
    emit_word(out, "Self");
    emit_open(out, Delim::Brace);
    emit_word(out, "THREADS");
    emit_punct(out, '.');
    emit_word(out, "get_unchecked");
    emit_open(out, Delim::Paren);
    emit_word(out, "id");
    emit_close(out, Delim::Paren);
    emit_close(out, Delim::Brace);
    let ghost m = toks_view(out@);
    emit_inline_attr(out);
    emit_word(out, "fn");
    emit_word(out, "chain");
    emit_open(out, Delim::Paren);
    emit_punct(out, '&');
    emit_word(out, "self");
    emit_close(out, Delim::Paren);
    emit_joint(out, '-', '>');
    emit_punct(out, '&');
    emit_word(out, "Chain");
    emit_open(out, Delim::Brace);
    emit_punct(out, '&');
    emit_word(out, "self");
    emit_punct(out, '.');
    emit_word(out, "chain");
    emit_close(out, Delim::Brace);
    emit_inline_attr(out);
    emit_word(out, "fn");
    emit_word(out, "chain_mut");
    emit_open(out, Delim::Paren);
    emit_punct(out, '&');
    emit_word(out, "mut");
    emit_word(out, "self");
    emit_close(out, Delim::Paren);
    emit_joint(out, '-', '>');
    emit_punct(out, '&');
    emit_word(out, "mut");
    emit_word(out, "Chain");
    emit_open(out, Delim::Brace);
    emit_punct(out, '&');
    emit_word(out, "mut");
    emit_word(out, "self");
    emit_punct(out, '.');
    emit_word(out, "chain");
    emit_close(out, Delim::Brace);
    assert(toks_view(out@) =~= b + tl_chain_fns());
}

#[verifier::spinoff_prover]
#[verifier::rlimit(80)]
fn emit_tl_preempted_fns(out: &mut Vec<Tok>)
    ensures
        toks_view(final(out)@) == toks_view(old(out)@) + tl_preempted_fns(),
{
    let ghost b = toks_view(old(out)@);
    emit_inline_attr(out);
    emit_word(out, "fn");
    emit_word(out, "preempted_id");
    emit_open(out, Delim::Paren);
    emit_punct(out, '&');
    emit_word(out, "self");
    emit_close(out, Delim::Paren);
    emit_joint(out, '-', '>');
    emit_word(out, "usize");
    emit_open(out, Delim::Brace);
    emit_word(out, "self");
    emit_punct(out, '.');
    emit_word(out, "preempted_id");
    emit_close(out, Delim::Brace);
    emit_inline_attr(out);
    emit_word(out, "unsafe");
    emit_word(out, "fn");
    emit_word(out, "set_preempted_id");
    emit_open(out, Delim::Paren);
    emit_punct(out, '&');
    emit_word(out, "mut");
    emit_word(out, "self");
    emit_punct(out, ',');
    emit_word(out, "id");
    emit_punct(out, ':');
    emit_word(out, "usize");
    emit_close(out, Delim::Paren);
    emit_open(out, Delim::Brace);
    emit_word(out, "self");
    emit_punct(out, '.');
    emit_word(out, "preempted_id");
    emit_punct(out, '=');
    emit_word(out, "id");
    emit_punct(out, ';');
    emit_close(out, Delim::Brace);
    assert(toks_view(out@) =~= b + tl_preempted_fns());
}

#[verifier::spinoff_prover]
#[verifier::rlimit(80)]
fn emit_tl_task_fns(out: &mut Vec<Tok>)
    ensures
        toks_view(final(out)@) == toks_view(old(out)@) + tl_task_fns(),
{
    let ghost b = toks_view(old(out)@);
    emit_inline_attr(out);
    emit_word(out, "fn");
    emit_word(out, "task");
    emit_open(out, Delim::Paren);
    emit_punct(out, '&');
    emit_word(out, "self");
    emit_close(out, Delim::Paren);
    emit_joint(out, '-', '>');
    emit_punct(out, '*');
    emit_word(out, "mut");
    emit_word(out, "u8");
    emit_open(out, Delim::Brace);
    emit_word(out, "self");
    emit_punct(out, '.');
    emit_word(out, "task");
    emit_punct(out, '.');
    emit_word(out, "get");
    emit_open(out, Delim::Paren);
    emit_close(out, Delim::Paren);
    emit_close(out, Delim::Brace);
    emit_inline_attr(out);
    emit_word(out, "unsafe");
    emit_word(out, "fn");
    emit_word(out, "set_task");
    emit_open(out, Delim::Paren);
    emit_punct(out, '&');
    emit_word(out, "self");
    emit_punct(out, ',');
    emit_word(out, "task");
    emit_punct(out, ':');
    emit_punct(out, '*');
    emit_word(out, "mut");
    emit_word(out, "u8");
    emit_close(out, Delim::Paren);
    emit_open(out, Delim::Brace);
    emit_word(out, "self");
    emit_punct(out, '.');
    emit_word(out, "task");
    emit_punct(out, '.');
    emit_word(out, "set");
    emit_open(out, Delim::Paren);
    emit_word(out, "task");
    emit_close(out, Delim::Paren);
    emit_punct(out, ';');
    emit_close(out, Delim::Brace);
    assert(toks_view(out@) =~= b + tl_task_fns());
}

#[verifier::spinoff_prover]
#[verifier::rlimit(80)]
fn emit_tl_init_fn(out: &mut Vec<Tok>)
    ensures
        toks_view(final(out)@) == toks_view(old(out)@) + tl_init_fn(),
{
    let ghost b = toks_view(old(out)@);
    emit_doc_line(out, "\" Initialize the `futures` task system.\"");
    emit_doc_line(out, "\"\"");
    emit_doc_line(out, "\" See [`thread::init()`] for more details.\"");
    emit_doc_line(out, "\"\"");
    emit_doc_line(out, "\" [`thread::init()`]: ../../drone/thread/fn.init.html\"");
    let ghost m = toks_view(out@);
    emit_inline_attr(out);
    emit_word(out, "pub");
    emit_word(out, "unsafe");
    emit_word(out, "fn");
    emit_word(out, "init");
    emit_open(out, Delim::Paren);
    emit_close(out, Delim::Paren);
    emit_open(out, Delim::Brace);
    emit_word(out, "thread");
    emit_joint(out, ':', ':');
    emit_word(out, "init");
    emit_joint(out, ':', ':');
    emit_punct(out, '<');
    emit_word(out, "ThreadLocal");
    emit_punct(out, '>');
    emit_open(out, Delim::Paren);
    emit_close(out, Delim::Paren);
    emit_punct(out, ';');
    emit_close(out, Delim::Brace);
    assert(toks_view(out@) =~= b + tl_init_fn());
}

/// The tokens that `thread_local!` expands to on the input `toks`.
#[verifier::spinoff_prover]
#[verifier::rlimit(80)]
pub fn expand_thread_local(toks: &Vec<Tok>) -> (r: Result<Vec<Tok>, MacroError>)
    ensures
        r matches Err(e) ==> spec_expand_thread_local(toks@) == Err::<Seq<TokV>, MacroError>(e),
        r matches Ok(v) ==> spec_expand_thread_local(toks@) == Ok::<Seq<TokV>, MacroError>(
            toks_view(v@),
        ),
{
    let inp = thread_local(toks)?;
    let mut out: Vec<Tok> = Vec::new();
    assert(toks_view(out@) =~= Seq::<TokV>::empty());
    emit_tl_uses(&mut out);
    emit_tl_struct(toks, &inp.attrs, &inp.fields, &mut out);
    emit_tl_new(toks, &inp.fields, &mut out);
    let ghost m = toks_view(out@);
    emit_word(&mut out, "impl");
    emit_word(&mut out, "Thread");
    emit_word(&mut out, "for");
    emit_word(&mut out, "ThreadLocal");
    emit_open(&mut out, Delim::Brace);
    emit_tl_chain_fns(&mut out);
    emit_tl_preempted_fns(&mut out);
    emit_tl_task_fns(&mut out);
    emit_close(&mut out, Delim::Brace);
    assert(toks_view(out@) =~= m + tl_thread_impl());
    emit_tl_init_fn(&mut out);
    Ok(out)
}

} // verus!
