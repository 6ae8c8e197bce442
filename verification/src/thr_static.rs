//! `thr!` of the static thread array, and `thread!` and `thread_local!`
//! of the same form: a thread structure whose threads are the elements of
//! an array declared elsewhere. The three differ in the name of the module
//! of runtime names, and `thread_local!` takes only input that reads.
//!
//! The input is `attrs vis struct Name;`, then `extern static ARRAY;`, then
//! the fields `attrs vis name: Type = init;`. A field that does not read
//! leaves its tokens unread, which is an error there.

use crate::thr::{ThrField, parse_thr_field, spec_thr_field};
use crate::token::{
    Delim, TokV, emit_close, emit_inline_always, emit_joint, emit_literal, emit_open, emit_punct,
    emit_span, emit_string, emit_word, inline_always, span_toks, tclose, tj, tl, topen, toks_view,
    tp, tw, ErrorKind, MacroError, Span, Tok, Vis, err, expect_ident, expect_punct, expect_word,
    is_punct, outer_attrs, parse_vis, peek_punct, spec_expect_ident, spec_expect_punct,
    spec_expect_word, spec_outer_attrs, spec_vis,
};
use vstd::prelude::*;

verus! {

/// The fields from `i` on, added to `acc`: each a field and `;`.
pub open spec fn spec_static_fields(toks: Seq<Tok>, i: int, end: int, acc: Seq<ThrField>) -> Result<
    Seq<ThrField>,
    MacroError,
>
    decreases end - i,
{
    if i >= end {
        Ok(acc)
    } else {
        match spec_thr_field(toks, i, end) {
            Ok((f, n)) => if is_punct(toks, n as int, end, ';') && n + 1 > i && n + 1 <= end {
                spec_static_fields(toks, n + 1, end, acc.push(f))
            } else {
                err(i, ErrorKind::Unexpected)
            },
            Err(_) => err(i, ErrorKind::Unexpected),
        }
    }
}

/// The input of this `thr!`, as read.
pub struct ThrStaticInputV {
    pub attrs: Span,
    pub vis: Vis,
    pub ident: usize,
    /// The name of the array of threads.
    pub array: usize,
    pub fields: Seq<ThrField>,
}

pub open spec fn spec_thr_static(toks: Seq<Tok>) -> Result<ThrStaticInputV, MacroError> {
    let end = toks.len() as int;
    match spec_outer_attrs(toks, 0, end) {
        Err(e) => Err(e),
        Ok(a) => {
            let v = spec_vis(toks, a as int, end);
            let s = v.span.end as int;
            match spec_expect_word(toks, s, end, "struct") {
                Err(e) => Err(e),
                Ok(_) => match spec_expect_ident(toks, s + 1, end) {
                    Err(e) => Err(e),
                    Ok(_) => match spec_expect_punct(toks, s + 2, end, ';') {
                        Err(e) => Err(e),
                        Ok(_) => match spec_expect_word(toks, s + 3, end, "extern") {
                            Err(e) => Err(e),
                            Ok(_) => match spec_expect_word(toks, s + 4, end, "static") {
                                Err(e) => Err(e),
                                Ok(_) => match spec_expect_ident(toks, s + 5, end) {
                                    Err(e) => Err(e),
                                    Ok(_) => match spec_expect_punct(toks, s + 6, end, ';') {
                                        Err(e) => Err(e),
                                        Ok(_) => match spec_static_fields(toks, s + 7, end, Seq::empty()) {
                                            Err(e) => Err(e),
                                            Ok(fields) => Ok(
                                                ThrStaticInputV {
                                                    attrs: Span { start: 0, end: a },
                                                    vis: v,
                                                    ident: (s + 1) as usize,
                                                    array: (s + 5) as usize,
                                                    fields,
                                                },
                                            ),
                                        },
                                    },
                                },
                            },
                        },
                    },
                },
            }
        },
    }
}

/// What these macros expand to: the module `rt` of runtime names, the
/// thread structure named at `ident`, with the given attributes and
/// visibility, whose threads are the array named at `array`, and its
/// fields.
#[derive(Debug)]
pub struct ThrStaticPlan {
    pub rt: String,
    pub attrs: Span,
    pub vis: Vis,
    pub ident: usize,
    pub array: usize,
    pub fields: Vec<ThrField>,
}

/// `thr!` of the static thread array on the input `toks`; its runtime
/// module is `__thr_rt`.
pub fn thr(toks: &Vec<Tok>) -> (r: Result<ThrStaticPlan, MacroError>)
    ensures
        r matches Err(e) ==> spec_thr_static(toks@) == Err::<ThrStaticInputV, MacroError>(e),
        r matches Ok(p) ==> p.rt@ == "__thr_rt"@ && spec_thr_static(toks@) == Ok::<
            ThrStaticInputV,
            MacroError,
        >(
            ThrStaticInputV {
                attrs: p.attrs,
                vis: p.vis,
                ident: p.ident,
                array: p.array,
                fields: p.fields@,
            },
        ),
{
    static_thread(toks, "__thr_rt")
}

/// `thread!` on the input `toks`; its runtime module is `__thread_rt`.
pub fn thread(toks: &Vec<Tok>) -> (r: Result<ThrStaticPlan, MacroError>)
    ensures
        r matches Err(e) ==> spec_thr_static(toks@) == Err::<ThrStaticInputV, MacroError>(e),
        r matches Ok(p) ==> p.rt@ == "__thread_rt"@ && spec_thr_static(toks@) == Ok::<
            ThrStaticInputV,
            MacroError,
        >(
            ThrStaticInputV {
                attrs: p.attrs,
                vis: p.vis,
                ident: p.ident,
                array: p.array,
                fields: p.fields@,
            },
        ),
{
    static_thread(toks, "__thread_rt")
}

/// `thread_local!` on the input `toks`, which must read; its runtime module
/// is `rt`.
pub fn thread_local(toks: &Vec<Tok>) -> (p: ThrStaticPlan)
    requires
        spec_thr_static(toks@) is Ok,
    ensures
        p.rt@ == "rt"@,
        spec_thr_static(toks@) == Ok::<ThrStaticInputV, MacroError>(
            ThrStaticInputV {
                attrs: p.attrs,
                vis: p.vis,
                ident: p.ident,
                array: p.array,
                fields: p.fields@,
            },
        ),
{
    static_thread(toks, "rt").unwrap()
}

/// Whether the input `toks` reads as a thread structure of the static
/// array.
pub fn reads_static_thread(toks: &Vec<Tok>) -> (r: bool)
    ensures
        r == spec_thr_static(toks@) is Ok,
{
    static_thread(toks, "rt").is_ok()
}

#[verifier::loop_isolation(false)]
fn static_thread(toks: &Vec<Tok>, rt: &str) -> (r: Result<ThrStaticPlan, MacroError>)
    ensures
        r matches Ok(p) ==> p.rt@ == rt@,
        r matches Err(e) ==> spec_thr_static(toks@) == Err::<ThrStaticInputV, MacroError>(e),
        r matches Ok(p) ==> spec_thr_static(toks@) == Ok::<ThrStaticInputV, MacroError>(
            ThrStaticInputV {
                attrs: p.attrs,
                vis: p.vis,
                ident: p.ident,
                array: p.array,
                fields: p.fields@,
            },
        ),
{
    let end = toks.len();
    let a = outer_attrs(toks, 0, end)?;
    let v = parse_vis(toks, a, end);
    let s = v.span.end;
    expect_word(toks, s, end, "struct")?;
    expect_ident(toks, s + 1, end)?;
    expect_punct(toks, s + 2, end, ';')?;
    expect_word(toks, s + 3, end, "extern")?;
    expect_word(toks, s + 4, end, "static")?;
    expect_ident(toks, s + 5, end)?;
    expect_punct(toks, s + 6, end, ';')?;
    let mut fields: Vec<ThrField> = Vec::new();
    let mut j = s + 7;
    while j < end
        invariant
            spec_static_fields(toks@, s + 7, end as int, Seq::empty()) == spec_static_fields(
                toks@,
                j as int,
                end as int,
                fields@,
            ),
        decreases end - j,
    {
        match parse_thr_field(toks, j, end) {
            Ok((f, n)) => {
                if peek_punct(toks, n, end, ';') && n + 1 <= end {
                    fields.push(f);
                    j = n + 1;
                } else {
                    return Err(MacroError { at: j, kind: ErrorKind::Unexpected });
                }
            },
            Err(_) => {
                return Err(MacroError { at: j, kind: ErrorKind::Unexpected });
            },
        }
    }
    Ok(
        ThrStaticPlan {
            rt: String::from_str(rt),
            attrs: Span { start: 0, end: a },
            vis: v,
            ident: s + 1,
            array: s + 5,
            fields,
        },
    )
}


// ---------------------------------------------------------------------------
// The expansion

/// The two forms of the thread structure: `thr!` keeps its fibers in
/// `fib_chain` (of `drone_core::fib` and `drone_core::thr`); `thread!` and
/// `thread_local!` keep them in `fibers` (of `drone_core::fiber` and
/// `drone_core::thread`).
#[derive(PartialEq, Eq, Structural, Clone, Copy, Debug)]
pub enum ThreadForm {
    FibChain,
    Fibers,
}

pub open spec fn chain_mod(f: ThreadForm) -> Seq<char> {
    match f {
        ThreadForm::FibChain => "fib"@,
        ThreadForm::Fibers => "fiber"@,
    }
}

pub open spec fn thr_mod(f: ThreadForm) -> Seq<char> {
    match f {
        ThreadForm::FibChain => "thr"@,
        ThreadForm::Fibers => "thread"@,
    }
}

pub open spec fn chain_field(f: ThreadForm) -> Seq<char> {
    match f {
        ThreadForm::FibChain => "fib_chain"@,
        ThreadForm::Fibers => "fibers"@,
    }
}

pub open spec fn chain_field_mut(f: ThreadForm) -> Seq<char> {
    match f {
        ThreadForm::FibChain => "fib_chain_mut"@,
        ThreadForm::Fibers => "fibers_mut"@,
    }
}

/// The text of the doc literal of `new`.
pub open spec fn new_doc(f: ThreadForm) -> Seq<char> {
    match f {
        ThreadForm::FibChain => "\" Creates a new thread.\""@,
        ThreadForm::Fibers => "\" Creates a new blank thread.\""@,
    }
}

fn form_words(f: ThreadForm) -> (r: (&'static str, &'static str, &'static str, &'static str, &'static str))
    ensures
        r.0@ == chain_mod(f),
        r.1@ == thr_mod(f),
        r.2@ == chain_field(f),
        r.3@ == chain_field_mut(f),
        r.4@ == new_doc(f),
{
    match f {
        ThreadForm::FibChain => ("fib", "thr", "fib_chain", "fib_chain_mut", "\" Creates a new thread.\""),
        ThreadForm::Fibers => ("fiber", "thread", "fibers", "fibers_mut", "\" Creates a new blank thread.\""),
    }
}

/// `RT::W`
pub open spec fn rt_path(rt: Seq<char>, w: Seq<char>) -> Seq<TokV> {
    tw(rt) + tj(':', ':') + tw(w)
}

/// The module of runtime names: `mod RT { extern crate drone_core; pub use
/// self::drone_core::CHAIN::Chain; pub use self::drone_core::THR::{TaskCell,
/// Thread}; }`.
pub open spec fn thread_module(rt: Seq<char>, f: ThreadForm) -> Seq<TokV> {
    tw("mod"@) + tw(rt) + topen(Delim::Brace) + tw("extern"@) + tw("crate"@) + tw("drone_core"@)
        + tp(';') + tw("pub"@) + tw("use"@) + tw("self"@) + tj(':', ':') + tw("drone_core"@) + tj(
        ':',
        ':',
    ) + tw(chain_mod(f)) + tj(':', ':') + tw("Chain"@) + tp(';') + tw("pub"@) + tw("use"@) + tw(
        "self"@,
    ) + tj(':', ':') + tw("drone_core"@) + tj(':', ':') + tw(thr_mod(f)) + tj(':', ':') + topen(
        Delim::Brace,
    ) + tw("TaskCell"@) + tp(',') + tw("Thread"@) + tclose(Delim::Brace) + tp(';') + tclose(
        Delim::Brace,
    )
}

/// The one token at `i`.
pub open spec fn one(i: usize) -> Span {
    if i < usize::MAX {
        Span { start: i, end: (i + 1) as usize }
    } else {
        Span { start: i, end: i }
    }
}

/// A field of the structure: `ATTRS VIS NAME: TYPE,`.
pub open spec fn thread_field(toks: Seq<Tok>, fl: ThrField) -> Seq<TokV> {
    span_toks(toks, fl.attrs) + span_toks(toks, fl.vis.span) + span_toks(toks, one(fl.ident)) + tp(
        ':',
    ) + span_toks(toks, fl.ty) + tp(',')
}

pub open spec fn thread_fields(toks: Seq<Tok>, fs: Seq<ThrField>) -> Seq<TokV>
    decreases fs.len(),
{
    if fs.len() == 0 {
        Seq::empty()
    } else {
        thread_fields(toks, fs.drop_last()) + thread_field(toks, fs.last())
    }
}

/// A field's value in `new`: `NAME: INIT,`.
pub open spec fn thread_init(toks: Seq<Tok>, fl: ThrField) -> Seq<TokV> {
    span_toks(toks, one(fl.ident)) + tp(':') + span_toks(toks, fl.init) + tp(',')
}

pub open spec fn thread_inits(toks: Seq<Tok>, fs: Seq<ThrField>) -> Seq<TokV>
    decreases fs.len(),
{
    if fs.len() == 0 {
        Seq::empty()
    } else {
        thread_inits(toks, fs.drop_last()) + thread_init(toks, fs.last())
    }
}

/// The structure: its fibers, its task, its preemption counter, and the
/// fields of the input.
pub open spec fn thread_struct(toks: Seq<Tok>, inp: ThrStaticInputV, rt: Seq<char>, f: ThreadForm) -> Seq<TokV> {
    span_toks(toks, inp.attrs) + span_toks(toks, inp.vis.span) + tw("struct"@) + span_toks(
        toks,
        one(inp.ident),
    ) + topen(Delim::Brace) + tw(chain_field(f)) + tp(':') + rt_path(rt, "Chain"@) + tp(',') + tw(
        "task"@,
    ) + tp(':') + rt_path(rt, "TaskCell"@) + tp(',') + tw("preempted"@) + tp(':') + tw("usize"@)
        + tp(',') + thread_fields(toks, inp.fields) + tclose(Delim::Brace)
}

/// `impl NAME { #[doc = ..] #[inline(always)] pub const fn new(_index: usize)
/// -> Self { Self {`
pub open spec fn new_head(toks: Seq<Tok>, ident: usize, f: ThreadForm) -> Seq<TokV> {
    tw("impl"@) + span_toks(toks, one(ident)) + topen(Delim::Brace) + tp('#') + topen(
        Delim::Bracket,
    ) + tw("doc"@) + tp('=') + tl(new_doc(f)) + tclose(Delim::Bracket) + inline_always() + tw(
        "pub"@,
    ) + tw("const"@) + tw("fn"@) + tw("new"@) + topen(Delim::Paren) + tw("_index"@) + tp(':') + tw(
        "usize"@,
    ) + tclose(Delim::Paren) + tj('-', '>') + tw("Self"@) + topen(Delim::Brace) + tw("Self"@)
        + topen(Delim::Brace)
}

/// `FIBERS: RT::Chain::new(), task: RT::TaskCell::new(), preempted: 0,`
pub open spec fn new_inits(rt: Seq<char>, f: ThreadForm) -> Seq<TokV> {
    tw(chain_field(f)) + tp(':') + rt_path(rt, "Chain"@) + tj(':', ':') + tw("new"@) + topen(
        Delim::Paren,
    ) + tclose(Delim::Paren) + tp(',') + tw("task"@) + tp(':') + rt_path(rt, "TaskCell"@) + tj(
        ':',
        ':',
    ) + tw("new"@) + topen(Delim::Paren) + tclose(Delim::Paren) + tp(',') + tw("preempted"@) + tp(
        ':',
    ) + tl("0"@) + tp(',')
}

/// `impl NAME { .. pub const fn new(_index: usize) -> Self { Self { .. } } }`
pub open spec fn thread_new(toks: Seq<Tok>, inp: ThrStaticInputV, rt: Seq<char>, f: ThreadForm) -> Seq<TokV> {
    new_head(toks, inp.ident, f) + new_inits(rt, f) + thread_inits(toks, inp.fields) + tclose(
        Delim::Brace,
    ) + tclose(Delim::Brace) + tclose(Delim::Brace)
}

/// The structure declares the fields of the input, `ATTRS VIS NAME: TYPE,`,
/// and its constructor gives each its declared initializer, `NAME: INIT,`,
/// in the order of declaration.
pub proof fn law_thread_declares_and_initializes_every_field(
    toks: Seq<Tok>,
    inp: ThrStaticInputV,
    rt: Seq<char>,
    f: ThreadForm,
)
    ensures
        crate::thr::contains_run(thread_struct(toks, inp, rt, f), thread_fields(toks, inp.fields)),
        crate::thr::contains_run(thread_new(toks, inp, rt, f), thread_inits(toks, inp.fields)),
{
    let s = thread_struct(toks, inp, rt, f);
    let n = thread_fields(toks, inp.fields);
    let a = s.take(s.len() - n.len() - 1);
    let c = tclose(Delim::Brace);
    assert(s =~= a + n + c);
    let s = thread_new(toks, inp, rt, f);
    let n = thread_inits(toks, inp.fields);
    let c = tclose(Delim::Brace) + tclose(Delim::Brace) + tclose(Delim::Brace);
    let a = s.take(s.len() - n.len() - 3);
    assert(s =~= a + n + c);
}

/// `#[inline(always)] fn NAME(&self) -> &TY { &self.FIELD }`, with `mut`
/// after each `&` where `m` holds.
pub open spec fn getter(name: Seq<char>, field: Seq<char>, ty: Seq<TokV>, m: bool) -> Seq<TokV> {
    let mt = if m {
        tw("mut"@)
    } else {
        Seq::empty()
    };
    inline_always() + tw("fn"@) + tw(name) + topen(Delim::Paren) + tp('&') + mt + tw("self"@)
        + tclose(Delim::Paren) + tj('-', '>') + tp('&') + mt + ty + topen(Delim::Brace) + tp('&')
        + mt + tw("self"@) + tp('.') + tw(field) + tclose(Delim::Brace)
}

/// `impl RT::Thread for NAME { #[inline(always)] fn all() -> *mut [Self] {
/// unsafe { &mut ARRAY } }`
pub open spec fn impl_head(toks: Seq<Tok>, inp: ThrStaticInputV, rt: Seq<char>) -> Seq<TokV> {
    tw("impl"@) + rt_path(rt, "Thread"@) + tw("for"@) + span_toks(toks, one(inp.ident)) + topen(
        Delim::Brace,
    ) + inline_always() + tw("fn"@) + tw("all"@) + topen(Delim::Paren) + tclose(Delim::Paren)
        + tj('-', '>') + tp('*') + tw("mut"@) + topen(Delim::Bracket) + tw("Self"@) + tclose(
        Delim::Bracket,
    ) + topen(Delim::Brace) + tw("unsafe"@) + topen(Delim::Brace) + tp('&') + tw("mut"@)
        + span_toks(toks, one(inp.array)) + tclose(Delim::Brace) + tclose(Delim::Brace)
}

/// The accessors of the fibers, the task and the preemption counter.
pub open spec fn getters(rt: Seq<char>, f: ThreadForm) -> Seq<TokV> {
    getter(chain_field(f), chain_field(f), rt_path(rt, "Chain"@), false) + getter(
        chain_field_mut(f),
        chain_field(f),
        rt_path(rt, "Chain"@),
        true,
    ) + getter("task"@, "task"@, rt_path(rt, "TaskCell"@), false) + getter(
        "preempted"@,
        "preempted"@,
        tw("usize"@),
        true,
    )
}

/// The implementation of `Thread`: the array of all threads, and the
/// accessors of the fibers, the task and the preemption counter.
pub open spec fn thread_impl(toks: Seq<Tok>, inp: ThrStaticInputV, rt: Seq<char>, f: ThreadForm) -> Seq<TokV> {
    impl_head(toks, inp, rt) + getters(rt, f) + tclose(Delim::Brace)
}

/// The whole expansion of a thread structure of the input as read.
pub open spec fn thread_expansion(toks: Seq<Tok>, inp: ThrStaticInputV, rt: Seq<char>, f: ThreadForm) -> Seq<TokV> {
    thread_module(rt, f) + thread_struct(toks, inp, rt, f) + thread_new(toks, inp, rt, f)
        + thread_impl(toks, inp, rt, f)
}

fn emit_rt_path(out: &mut Vec<Tok>, rt: &String, w: &str)
    ensures
        toks_view(final(out)@) == toks_view(old(out)@) + rt_path(rt@, w@),
{
    let ghost b = toks_view(old(out)@);
    emit_string(out, rt);
    emit_joint(out, ':', ':');
    emit_word(out, w);
    assert(toks_view(out@) =~= b + rt_path(rt@, w@));
}

#[verifier::spinoff_prover]
#[verifier::rlimit(50)]
fn emit_thread_module(out: &mut Vec<Tok>, rt: &String, f: ThreadForm)
    ensures
        toks_view(final(out)@) == toks_view(old(out)@) + thread_module(rt@, f),
{
    let ghost b = toks_view(old(out)@);
    let (cm, tm, _, _, _) = form_words(f);
    emit_word(out, "mod");
    emit_string(out, rt);
    emit_open(out, Delim::Brace);
    emit_word(out, "extern");
    emit_word(out, "crate");
    emit_word(out, "drone_core");
    emit_punct(out, ';');
    emit_word(out, "pub");
    emit_word(out, "use");
    emit_word(out, "self");
    emit_joint(out, ':', ':');
    emit_word(out, "drone_core");
    emit_joint(out, ':', ':');
    emit_word(out, cm);
    emit_joint(out, ':', ':');
    emit_word(out, "Chain");
    emit_punct(out, ';');
    emit_word(out, "pub");
    emit_word(out, "use");
    emit_word(out, "self");
    emit_joint(out, ':', ':');
    emit_word(out, "drone_core");
    emit_joint(out, ':', ':');
    emit_word(out, tm);
    emit_joint(out, ':', ':');
    emit_open(out, Delim::Brace);
    emit_word(out, "TaskCell");
    emit_punct(out, ',');
    emit_word(out, "Thread");
    emit_close(out, Delim::Brace);
    emit_punct(out, ';');
    emit_close(out, Delim::Brace);
    assert(toks_view(out@) =~= b + thread_module(rt@, f));
}

/// The one token at `i`.
pub fn one_exec(i: usize) -> (r: Span)
    ensures
        r == one(i),
{
    if i < usize::MAX {
        Span { start: i, end: i + 1 }
    } else {
        Span { start: i, end: i }
    }
}

#[verifier::spinoff_prover]
#[verifier::rlimit(50)]
fn emit_thread_struct(toks: &Vec<Tok>, p: &ThrStaticPlan, f: ThreadForm, out: &mut Vec<Tok>)
    ensures
        toks_view(final(out)@) == toks_view(old(out)@) + thread_struct(
            toks@,
            ThrStaticInputV { attrs: p.attrs, vis: p.vis, ident: p.ident, array: p.array, fields: p.fields@ },
            p.rt@,
            f,
        ),
{
    let ghost b = toks_view(old(out)@);
    let ghost inp = ThrStaticInputV { attrs: p.attrs, vis: p.vis, ident: p.ident, array: p.array, fields: p.fields@ };
    let (_, _, cf, _, _) = form_words(f);
    emit_span(toks, p.attrs, out);
    emit_span(toks, p.vis.span, out);
    emit_word(out, "struct");
    emit_span(toks, one_exec(p.ident), out);
    emit_open(out, Delim::Brace);
    emit_word(out, cf);
    emit_punct(out, ':');
    emit_rt_path(out, &p.rt, "Chain");
    emit_punct(out, ',');
    emit_word(out, "task");
    emit_punct(out, ':');
    emit_rt_path(out, &p.rt, "TaskCell");
    emit_punct(out, ',');
    emit_word(out, "preempted");
    emit_punct(out, ':');
    emit_word(out, "usize");
    emit_punct(out, ',');
    let ghost head = toks_view(out@);
    let mut k: usize = 0;
    assert(head + thread_fields(toks@, p.fields@.take(0)) =~= head);
    while k < p.fields.len()
        invariant
            k <= p.fields@.len(),
            toks_view(out@) == head + thread_fields(toks@, p.fields@.take(k as int)),
        decreases p.fields@.len() - k,
    {
        let fl = p.fields[k];
        let ghost before = toks_view(out@);
        emit_span(toks, fl.attrs, out);
        emit_span(toks, fl.vis.span, out);
        emit_span(toks, one_exec(fl.ident), out);
        emit_punct(out, ':');
        emit_span(toks, fl.ty, out);
        emit_punct(out, ',');
        proof {
            let t = p.fields@.take(k + 1);
            assert(t.drop_last() =~= p.fields@.take(k as int));
            assert(t.last() == fl);
            assert(toks_view(out@) =~= before + thread_field(toks@, fl));
            assert(toks_view(out@) =~= head + thread_fields(toks@, t));
        }
        k = k + 1;
    }
    assert(p.fields@.take(k as int) =~= p.fields@);
    emit_close(out, Delim::Brace);
    assert(toks_view(out@) =~= b + thread_struct(toks@, inp, p.rt@, f));
}

#[verifier::spinoff_prover]
#[verifier::rlimit(50)]
fn emit_new_head(toks: &Vec<Tok>, ident: usize, f: ThreadForm, out: &mut Vec<Tok>)
    ensures
        toks_view(final(out)@) == toks_view(old(out)@) + new_head(toks@, ident, f),
{
    let ghost b = toks_view(old(out)@);
    let (_, _, _, _, doc) = form_words(f);
    emit_word(out, "impl");
    emit_span(toks, one_exec(ident), out);
    emit_open(out, Delim::Brace);
    emit_punct(out, '#');
    emit_open(out, Delim::Bracket);
    emit_word(out, "doc");
    emit_punct(out, '=');
    emit_literal(out, doc);
    emit_close(out, Delim::Bracket);
    emit_inline_always(out);
    emit_word(out, "pub");
    emit_word(out, "const");
    emit_word(out, "fn");
    emit_word(out, "new");
    emit_open(out, Delim::Paren);
    emit_word(out, "_index");
    emit_punct(out, ':');
    emit_word(out, "usize");
    emit_close(out, Delim::Paren);
    emit_joint(out, '-', '>');
    emit_word(out, "Self");
    emit_open(out, Delim::Brace);
    emit_word(out, "Self");
    emit_open(out, Delim::Brace);
    assert(toks_view(out@) =~= b + new_head(toks@, ident, f));
}

#[verifier::spinoff_prover]
#[verifier::rlimit(50)]
fn emit_new_inits(rt: &String, f: ThreadForm, out: &mut Vec<Tok>)
    ensures
        toks_view(final(out)@) == toks_view(old(out)@) + new_inits(rt@, f),
{
    let ghost b = toks_view(old(out)@);
    let (_, _, cf, _, _) = form_words(f);
    emit_word(out, cf);
    emit_punct(out, ':');
    emit_rt_path(out, rt, "Chain");
    emit_joint(out, ':', ':');
    emit_word(out, "new");
    emit_open(out, Delim::Paren);
    emit_close(out, Delim::Paren);
    emit_punct(out, ',');
    emit_word(out, "task");
    emit_punct(out, ':');
    emit_rt_path(out, rt, "TaskCell");
    emit_joint(out, ':', ':');
    emit_word(out, "new");
    emit_open(out, Delim::Paren);
    emit_close(out, Delim::Paren);
    emit_punct(out, ',');
    emit_word(out, "preempted");
    emit_punct(out, ':');
    emit_literal(out, "0");
    emit_punct(out, ',');
    assert(toks_view(out@) =~= b + new_inits(rt@, f));
}

#[verifier::spinoff_prover]
#[verifier::rlimit(50)]
fn emit_thread_new(toks: &Vec<Tok>, p: &ThrStaticPlan, f: ThreadForm, out: &mut Vec<Tok>)
    ensures
        toks_view(final(out)@) == toks_view(old(out)@) + thread_new(
            toks@,
            ThrStaticInputV { attrs: p.attrs, vis: p.vis, ident: p.ident, array: p.array, fields: p.fields@ },
            p.rt@,
            f,
        ),
{
    let ghost b = toks_view(old(out)@);
    let ghost inp = ThrStaticInputV { attrs: p.attrs, vis: p.vis, ident: p.ident, array: p.array, fields: p.fields@ };
    emit_new_head(toks, p.ident, f, out);
    emit_new_inits(&p.rt, f, out);
    let ghost head = toks_view(out@);
    let mut k: usize = 0;
    assert(head + thread_inits(toks@, p.fields@.take(0)) =~= head);
    while k < p.fields.len()
        invariant
            k <= p.fields@.len(),
            toks_view(out@) == head + thread_inits(toks@, p.fields@.take(k as int)),
        decreases p.fields@.len() - k,
    {
        let fl = p.fields[k];
        let ghost before = toks_view(out@);
        emit_span(toks, one_exec(fl.ident), out);
        emit_punct(out, ':');
        emit_span(toks, fl.init, out);
        emit_punct(out, ',');
        proof {
            let t = p.fields@.take(k + 1);
            assert(t.drop_last() =~= p.fields@.take(k as int));
            assert(t.last() == fl);
            assert(toks_view(out@) =~= before + thread_init(toks@, fl));
            assert(toks_view(out@) =~= head + thread_inits(toks@, t));
        }
        k = k + 1;
    }
    assert(p.fields@.take(k as int) =~= p.fields@);
    emit_close(out, Delim::Brace);
    emit_close(out, Delim::Brace);
    emit_close(out, Delim::Brace);
    assert(toks_view(out@) =~= b + thread_new(toks@, inp, p.rt@, f));
}

#[verifier::spinoff_prover]
#[verifier::rlimit(50)]
fn emit_getter(out: &mut Vec<Tok>, name: &str, field: &str, rt: &String, ty: &str, in_rt: bool, m: bool)
    ensures
        toks_view(final(out)@) == toks_view(old(out)@) + getter(
            name@,
            field@,
            if in_rt { rt_path(rt@, ty@) } else { tw(ty@) },
            m,
        ),
{
    let ghost b = toks_view(old(out)@);
    emit_inline_always(out);
    emit_word(out, "fn");
    emit_word(out, name);
    emit_open(out, Delim::Paren);
    emit_punct(out, '&');
    if m {
        emit_word(out, "mut");
    }
    emit_word(out, "self");
    emit_close(out, Delim::Paren);
    emit_joint(out, '-', '>');
    emit_punct(out, '&');
    if m {
        emit_word(out, "mut");
    }
    if in_rt {
        emit_rt_path(out, rt, ty);
    } else {
        emit_word(out, ty);
    }
    emit_open(out, Delim::Brace);
    emit_punct(out, '&');
    if m {
        emit_word(out, "mut");
    }
    emit_word(out, "self");
    emit_punct(out, '.');
    emit_word(out, field);
    emit_close(out, Delim::Brace);
    assert(toks_view(out@) =~= b + getter(
        name@,
        field@,
        if in_rt { rt_path(rt@, ty@) } else { tw(ty@) },
        m,
    ));
}

#[verifier::spinoff_prover]
#[verifier::rlimit(50)]
fn emit_impl_head(toks: &Vec<Tok>, p: &ThrStaticPlan, out: &mut Vec<Tok>)
    ensures
        toks_view(final(out)@) == toks_view(old(out)@) + impl_head(
            toks@,
            ThrStaticInputV { attrs: p.attrs, vis: p.vis, ident: p.ident, array: p.array, fields: p.fields@ },
            p.rt@,
        ),
{
    let ghost b = toks_view(old(out)@);
    emit_word(out, "impl");
    emit_rt_path(out, &p.rt, "Thread");
    emit_word(out, "for");
    emit_span(toks, one_exec(p.ident), out);
    emit_open(out, Delim::Brace);
    emit_inline_always(out);
    emit_word(out, "fn");
    emit_word(out, "all");
    emit_open(out, Delim::Paren);
    emit_close(out, Delim::Paren);
    emit_joint(out, '-', '>');
    emit_punct(out, '*');
    emit_word(out, "mut");
    emit_open(out, Delim::Bracket);
    emit_word(out, "Self");
    emit_close(out, Delim::Bracket);
    emit_open(out, Delim::Brace);
    emit_word(out, "unsafe");
    emit_open(out, Delim::Brace);
    emit_punct(out, '&');
    emit_word(out, "mut");
    emit_span(toks, one_exec(p.array), out);
    emit_close(out, Delim::Brace);
    emit_close(out, Delim::Brace);
    assert(toks_view(out@) =~= b + impl_head(
        toks@,
        ThrStaticInputV { attrs: p.attrs, vis: p.vis, ident: p.ident, array: p.array, fields: p.fields@ },
        p.rt@,
    ));
}

#[verifier::spinoff_prover]
#[verifier::rlimit(50)]
fn emit_getters(rt: &String, f: ThreadForm, out: &mut Vec<Tok>)
    ensures
        toks_view(final(out)@) == toks_view(old(out)@) + getters(rt@, f),
{
    let ghost b = toks_view(old(out)@);
    let (_, _, cf, cfm, _) = form_words(f);
    emit_getter(out, cf, cf, rt, "Chain", true, false);
    emit_getter(out, cfm, cf, rt, "Chain", true, true);
    emit_getter(out, "task", "task", rt, "TaskCell", true, false);
    emit_getter(out, "preempted", "preempted", rt, "usize", false, true);
    assert(toks_view(out@) =~= b + getters(rt@, f));
}

#[verifier::spinoff_prover]
#[verifier::rlimit(50)]
fn emit_thread_impl(toks: &Vec<Tok>, p: &ThrStaticPlan, f: ThreadForm, out: &mut Vec<Tok>)
    ensures
        toks_view(final(out)@) == toks_view(old(out)@) + thread_impl(
            toks@,
            ThrStaticInputV { attrs: p.attrs, vis: p.vis, ident: p.ident, array: p.array, fields: p.fields@ },
            p.rt@,
            f,
        ),
{
    let ghost b = toks_view(old(out)@);
    emit_impl_head(toks, p, out);
    emit_getters(&p.rt, f, out);
    emit_close(out, Delim::Brace);
    assert(toks_view(out@) =~= b + thread_impl(
        toks@,
        ThrStaticInputV { attrs: p.attrs, vis: p.vis, ident: p.ident, array: p.array, fields: p.fields@ },
        p.rt@,
        f,
    ));
}

/// The tokens of the thread structure that the plan `p` describes, in the
/// form `f`.
#[verifier::spinoff_prover]
#[verifier::rlimit(50)]
fn expand_thread(toks: &Vec<Tok>, p: &ThrStaticPlan, f: ThreadForm) -> (r: Vec<Tok>)
    ensures
        toks_view(r@) == thread_expansion(
            toks@,
            ThrStaticInputV { attrs: p.attrs, vis: p.vis, ident: p.ident, array: p.array, fields: p.fields@ },
            p.rt@,
            f,
        ),
{
    let mut out: Vec<Tok> = Vec::new();
    assert(toks_view(out@) =~= Seq::<TokV>::empty());
    emit_thread_module(&mut out, &p.rt, f);
    emit_thread_struct(toks, p, f, &mut out);
    emit_thread_new(toks, p, f, &mut out);
    emit_thread_impl(toks, p, f, &mut out);
    assert(toks_view(out@) =~= thread_expansion(
        toks@,
        ThrStaticInputV { attrs: p.attrs, vis: p.vis, ident: p.ident, array: p.array, fields: p.fields@ },
        p.rt@,
        f,
    ));
    out
}


/// The expansion, in the form `f` with the runtime module `rt`, of the input
/// `toks`.
pub open spec fn spec_expand_static_thread(toks: Seq<Tok>, rt: Seq<char>, f: ThreadForm) -> Result<
    Seq<TokV>,
    MacroError,
> {
    match spec_thr_static(toks) {
        Err(e) => Err(e),
        Ok(inp) => Ok(thread_expansion(toks, inp, rt, f)),
    }
}

/// What `thr!` of the static thread array expands to, as tokens.
pub fn expand_thr(toks: &Vec<Tok>) -> (r: Result<Vec<Tok>, MacroError>)
    ensures
        r matches Err(e) ==> spec_expand_static_thread(toks@, "__thr_rt"@, ThreadForm::FibChain)
            == Err::<Seq<TokV>, MacroError>(e),
        r matches Ok(v) ==> spec_expand_static_thread(toks@, "__thr_rt"@, ThreadForm::FibChain)
            == Ok::<Seq<TokV>, MacroError>(toks_view(v@)),
{
    let p = thr(toks)?;
    Ok(expand_thread(toks, &p, ThreadForm::FibChain))
}

/// What `thread!` expands to, as tokens.
pub fn expand_thread_macro(toks: &Vec<Tok>) -> (r: Result<Vec<Tok>, MacroError>)
    ensures
        r matches Err(e) ==> spec_expand_static_thread(toks@, "__thread_rt"@, ThreadForm::Fibers)
            == Err::<Seq<TokV>, MacroError>(e),
        r matches Ok(v) ==> spec_expand_static_thread(toks@, "__thread_rt"@, ThreadForm::Fibers)
            == Ok::<Seq<TokV>, MacroError>(toks_view(v@)),
{
    let p = thread(toks)?;
    Ok(expand_thread(toks, &p, ThreadForm::Fibers))
}

/// What `thread_local!` expands to on input that reads, as tokens.
pub fn expand_thread_local(toks: &Vec<Tok>) -> (r: Vec<Tok>)
    requires
        spec_thr_static(toks@) is Ok,
    ensures
        spec_expand_static_thread(toks@, "rt"@, ThreadForm::Fibers) == Ok::<Seq<TokV>, MacroError>(
            toks_view(r@),
        ),
{
    let p = thread_local(toks);
    expand_thread(toks, &p, ThreadForm::Fibers)
}


/// Adds the fields `fs` (`ATTRS VIS NAME: TYPE,` each) to `out`.
#[verifier::spinoff_prover]
pub fn emit_thread_fields(toks: &Vec<Tok>, fs: &Vec<ThrField>, out: &mut Vec<Tok>)
    ensures
        toks_view(final(out)@) == toks_view(old(out)@) + thread_fields(toks@, fs@),
{
    let ghost head = toks_view(old(out)@);
    let mut k: usize = 0;
    assert(head + thread_fields(toks@, fs@.take(0)) =~= head);
    while k < fs.len()
        invariant
            k <= fs@.len(),
            toks_view(out@) == head + thread_fields(toks@, fs@.take(k as int)),
        decreases fs@.len() - k,
    {
        let fl = fs[k];
        let ghost before = toks_view(out@);
        emit_span(toks, fl.attrs, out);
        emit_span(toks, fl.vis.span, out);
        emit_span(toks, one_exec(fl.ident), out);
        emit_punct(out, ':');
        emit_span(toks, fl.ty, out);
        emit_punct(out, ',');
        proof {
            let t = fs@.take(k + 1);
            assert(t.drop_last() =~= fs@.take(k as int));
            assert(t.last() == fl);
            assert(toks_view(out@) =~= before + thread_field(toks@, fl));
            assert(toks_view(out@) =~= head + thread_fields(toks@, t));
        }
        k = k + 1;
    }
    assert(fs@.take(k as int) =~= fs@);
}

/// Adds the initializers of the fields `fs` (`NAME: INIT,` each) to `out`.
#[verifier::spinoff_prover]
pub fn emit_thread_inits(toks: &Vec<Tok>, fs: &Vec<ThrField>, out: &mut Vec<Tok>)
    ensures
        toks_view(final(out)@) == toks_view(old(out)@) + thread_inits(toks@, fs@),
{
    let ghost head = toks_view(old(out)@);
    let mut k: usize = 0;
    assert(head + thread_inits(toks@, fs@.take(0)) =~= head);
    while k < fs.len()
        invariant
            k <= fs@.len(),
            toks_view(out@) == head + thread_inits(toks@, fs@.take(k as int)),
        decreases fs@.len() - k,
    {
        let fl = fs[k];
        let ghost before = toks_view(out@);
        emit_span(toks, one_exec(fl.ident), out);
        emit_punct(out, ':');
        emit_span(toks, fl.init, out);
        emit_punct(out, ',');
        proof {
            let t = fs@.take(k + 1);
            assert(t.drop_last() =~= fs@.take(k as int));
            assert(t.last() == fl);
            assert(toks_view(out@) =~= before + thread_init(toks@, fl));
            assert(toks_view(out@) =~= head + thread_inits(toks@, t));
        }
        k = k + 1;
    }
    assert(fs@.take(k as int) =~= fs@);
}
} // verus!
