//! `thr_pool!`: a pool of threads, its thread and thread-local structures,
//! and an index structure with a token for each thread.
//!
//! The input is a list of `key => value` entries separated by `;`:
//! `pool => attrs vis Name`, `thread => attrs vis Name { fields }`,
//! `local => attrs vis Name { fields }`, `index => attrs vis Name` and
//! `threads => { attrs vis Name; .. }` (without attributes), each exactly
//! once.

use crate::case::{cat, inflector_pascal, inflector_screaming, inflector_snake, to_pascal_inflector, to_screaming_inflector, to_snake_inflector};
use crate::case::{decimal, decimal_usize};
use crate::static_tokens::{emit_token_path, token_path};
use crate::thr::{core_path, emit_core_path, emit_fib_chain_fn, emit_inline_attr, emit_local_fn, emit_thr_new, emit_thr_struct, fib_chain_fn, inline_attr, local_fn, thr_new, thr_struct};
use crate::thr_static::{emit_thread_fields, emit_thread_inits, thread_fields, thread_inits};
use crate::thr_static::{one, one_exec};
use crate::token::{TokV, emit_close, emit_joint, emit_open, emit_punct, emit_span, emit_string, emit_word, push_tok, span_toks, tclose, tj, tl, topen, toks_view, tp, tw};
use crate::thr::{ThrStruct, ThrStructV, parse_thr_struct, spec_thr_struct, struct_view};
use crate::token::{Delim, ErrorKind, MacroError, Span, Tok, Vis, err, expect_group, expect_ident, expect_punct, expect_punct2, ident_string, ident_text, is_word, outer_attrs, parse_vis, peek_word, spec_expect_group, spec_expect_ident, spec_expect_punct, spec_expect_punct2, spec_outer_attrs, spec_vis};
use vstd::prelude::*;

verus! {

/// A declaration `attrs vis Name`.
#[derive(PartialEq, Eq, Structural, Clone, Copy, Debug)]
pub struct NameDecl {
    pub attrs: Span,
    pub vis: Vis,
    pub ident: usize,
}

/// `vis Name` at `i`, with the attributes `attrs` read before.
pub open spec fn spec_name_decl(toks: Seq<Tok>, attrs: Span, i: int, end: int) -> Result<
    (NameDecl, usize),
    MacroError,
> {
    let v = spec_vis(toks, i, end);
    match spec_expect_ident(toks, v.span.end as int, end) {
        Err(e) => Err(e),
        Ok(q) => Ok((NameDecl { attrs, vis: v, ident: v.span.end }, q)),
    }
}

fn parse_name_decl(toks: &Vec<Tok>, attrs: Span, i: usize, end: usize) -> (r: Result<
    (NameDecl, usize),
    MacroError,
>)
    ensures
        r == spec_name_decl(toks@, attrs, i as int, end as int),
        r matches Ok((_, n)) ==> i < n,
{
    let v = parse_vis(toks, i, end);
    let q = expect_ident(toks, v.span.end, end)?;
    Ok((NameDecl { attrs, vis: v, ident: v.span.end }, q))
}

/// The threads in `[i, end)`: declarations separated by `;`.
pub open spec fn spec_threads(toks: Seq<Tok>, i: int, end: int) -> Result<Seq<NameDecl>, MacroError>
    decreases end - i,
{
    if i >= end {
        Ok(Seq::empty())
    } else {
        match spec_outer_attrs(toks, i, end) {
            Err(e) => Err(e),
            Ok(a) => match spec_name_decl(toks, Span { start: i as usize, end: a }, a as int, end) {
                Err(e) => Err(e),
                Ok((d, n)) => if n >= end || n <= i {
                    Ok(seq![d])
                } else {
                    match spec_expect_punct(toks, n as int, end, ';') {
                        Err(e) => Err(e),
                        Ok(q) => if q > i && q <= end {
                            match spec_threads(toks, q as int, end) {
                                Err(e) => Err(e),
                                Ok(rest) => Ok(seq![d] + rest),
                            }
                        } else {
                            Ok(seq![d])
                        },
                    }
                },
            },
        }
    }
}

fn parse_threads(toks: &Vec<Tok>, i: usize, end: usize) -> (r: Result<Vec<NameDecl>, MacroError>)
    ensures
        r matches Ok(v) ==> spec_threads(toks@, i as int, end as int) == Ok::<
            Seq<NameDecl>,
            MacroError,
        >(v@),
        r matches Err(e) ==> spec_threads(toks@, i as int, end as int) == Err::<
            Seq<NameDecl>,
            MacroError,
        >(e),
{
    let mut out: Vec<NameDecl> = Vec::new();
    let mut j = i;
    let mut done = false;
    while j < end && !done
        invariant
            i <= j,
            spec_threads(toks@, i as int, end as int) == (if done {
                Ok(out@)
            } else {
                match spec_threads(toks@, j as int, end as int) {
                    Ok(rest) => Ok(out@ + rest),
                    Err(e) => Err(e),
                }
            }),
        decreases end - j + (if done { 0int } else { 1int }),
    {
        let a = outer_attrs(toks, j, end)?;
        let (d, n) = parse_name_decl(toks, Span { start: j, end: a }, a, end)?;
        let ghost before = out@;
        out.push(d);
        if n >= end {
            assert(before + seq![d] =~= out@);
            done = true;
        } else {
            let q = expect_punct(toks, n, end, ';')?;
            proof {
                match spec_threads(toks@, q as int, end as int) {
                    Ok(rest) => {
                        assert(before + (seq![d] + rest) =~= out@ + rest);
                    },
                    Err(_) => {},
                }
            }
            j = q;
        }
    }
    if !done {
        assert(out@ + Seq::<NameDecl>::empty() =~= out@);
    }
    Ok(out)
}

/// The entries read so far.
pub struct PoolEntries {
    pub pool: Option<NameDecl>,
    pub thread: Option<ThrStruct>,
    pub local: Option<ThrStruct>,
    pub index: Option<NameDecl>,
    pub threads: Option<Vec<NameDecl>>,
}

pub struct PoolEntriesV {
    pub pool: Option<NameDecl>,
    pub thread: Option<ThrStructV>,
    pub local: Option<ThrStructV>,
    pub index: Option<NameDecl>,
    pub threads: Option<Seq<NameDecl>>,
}

pub open spec fn pool_entries_view(e: PoolEntries) -> PoolEntriesV {
    PoolEntriesV {
        pool: e.pool,
        thread: match e.thread {
            Some(s) => Some(struct_view(s)),
            None => None,
        },
        local: match e.local {
            Some(s) => Some(struct_view(s)),
            None => None,
        },
        index: e.index,
        threads: match e.threads {
            Some(v) => Some(v@),
            None => None,
        },
    }
}

/// One entry at `i`, given the entries `st` read before.
pub open spec fn spec_pool_entry(toks: Seq<Tok>, i: int, end: int, st: PoolEntriesV) -> Result<
    (PoolEntriesV, usize),
    MacroError,
> {
    match spec_outer_attrs(toks, i, end) {
        Err(e) => Err(e),
        Ok(a) => match spec_expect_ident(toks, a as int, end) {
            Err(e) => Err(e),
            Ok(k) => match spec_expect_punct2(toks, k as int, end, '=', '>') {
                Err(e) => Err(e),
                Ok(p) => {
                    let attrs = Span { start: i as usize, end: a };
                    if is_word(toks, a as int, end, "pool"@) {
                        if st.pool is Some {
                            err(p as int, ErrorKind::MultipleKey("pool"))
                        } else {
                            match spec_name_decl(toks, attrs, p as int, end) {
                                Err(e) => Err(e),
                                Ok((d, q)) => Ok((PoolEntriesV { pool: Some(d), ..st }, q)),
                            }
                        }
                    } else if is_word(toks, a as int, end, "thread"@) {
                        if st.thread is Some {
                            err(p as int, ErrorKind::MultipleKey("thread"))
                        } else {
                            match spec_thr_struct(toks, attrs, p as int, end) {
                                Err(e) => Err(e),
                                Ok((s, q)) => Ok((PoolEntriesV { thread: Some(s), ..st }, q)),
                            }
                        }
                    } else if is_word(toks, a as int, end, "local"@) {
                        if st.local is Some {
                            err(p as int, ErrorKind::MultipleKey("local"))
                        } else {
                            match spec_thr_struct(toks, attrs, p as int, end) {
                                Err(e) => Err(e),
                                Ok((s, q)) => Ok((PoolEntriesV { local: Some(s), ..st }, q)),
                            }
                        }
                    } else if is_word(toks, a as int, end, "index"@) {
                        if st.index is Some {
                            err(p as int, ErrorKind::MultipleKey("index"))
                        } else {
                            match spec_name_decl(toks, attrs, p as int, end) {
                                Err(e) => Err(e),
                                Ok((d, q)) => Ok((PoolEntriesV { index: Some(d), ..st }, q)),
                            }
                        }
                    } else if a as int == i && is_word(toks, a as int, end, "threads"@) {
                        if st.threads is Some {
                            err(p as int, ErrorKind::MultipleKey("threads"))
                        } else {
                            match spec_expect_group(toks, p as int, end, Delim::Brace) {
                                Err(e) => Err(e),
                                Ok(c) => match spec_threads(toks, p + 1, c as int) {
                                    Err(e) => Err(e),
                                    Ok(ts) => Ok(
                                        (PoolEntriesV { threads: Some(ts), ..st }, (c + 1) as usize),
                                    ),
                                },
                            }
                        }
                    } else {
                        err(p as int, ErrorKind::UnknownKey)
                    }
                },
            },
        },
    }
}

/// The entries from `i` on, given those read before: after each entry but
/// the last comes a `;`.
pub open spec fn spec_pool_entries(toks: Seq<Tok>, i: int, end: int, st: PoolEntriesV) -> Result<
    PoolEntriesV,
    MacroError,
>
    decreases end - i,
{
    if i >= end {
        Ok(st)
    } else {
        match spec_pool_entry(toks, i, end, st) {
            Err(e) => Err(e),
            Ok((st2, q)) => if q < end {
                match spec_expect_punct(toks, q as int, end, ';') {
                    Err(e) => Err(e),
                    Ok(q2) => if q2 > i {
                        spec_pool_entries(toks, q2 as int, end, st2)
                    } else {
                        Ok(st2)
                    },
                }
            } else {
                Ok(st2)
            },
        }
    }
}

fn parse_pool_entry(toks: &Vec<Tok>, i: usize, end: usize, st: PoolEntries) -> (r: Result<
    (PoolEntries, usize),
    MacroError,
>)
    ensures
        r matches Ok((st2, n)) ==> spec_pool_entry(
            toks@,
            i as int,
            end as int,
            pool_entries_view(st),
        ) == Ok::<(PoolEntriesV, usize), MacroError>((pool_entries_view(st2), n)) && i < n <= end,
        r matches Err(e) ==> spec_pool_entry(toks@, i as int, end as int, pool_entries_view(st))
            == Err::<(PoolEntriesV, usize), MacroError>(e),
{
    let a = outer_attrs(toks, i, end)?;
    let k = expect_ident(toks, a, end)?;
    let p = expect_punct2(toks, k, end, '=', '>')?;
    let attrs = Span { start: i, end: a };
    if peek_word(toks, a, end, "pool") {
        if st.pool.is_some() {
            Err(MacroError { at: p, kind: ErrorKind::MultipleKey("pool") })
        } else {
            let (d, q) = parse_name_decl(toks, attrs, p, end)?;
            Ok((PoolEntries { pool: Some(d), ..st }, q))
        }
    } else if peek_word(toks, a, end, "thread") {
        if st.thread.is_some() {
            Err(MacroError { at: p, kind: ErrorKind::MultipleKey("thread") })
        } else {
            let (s, q) = parse_thr_struct(toks, attrs, p, end)?;
            Ok((PoolEntries { thread: Some(s), ..st }, q))
        }
    } else if peek_word(toks, a, end, "local") {
        if st.local.is_some() {
            Err(MacroError { at: p, kind: ErrorKind::MultipleKey("local") })
        } else {
            let (s, q) = parse_thr_struct(toks, attrs, p, end)?;
            Ok((PoolEntries { local: Some(s), ..st }, q))
        }
    } else if peek_word(toks, a, end, "index") {
        if st.index.is_some() {
            Err(MacroError { at: p, kind: ErrorKind::MultipleKey("index") })
        } else {
            let (d, q) = parse_name_decl(toks, attrs, p, end)?;
            Ok((PoolEntries { index: Some(d), ..st }, q))
        }
    } else if a == i && peek_word(toks, a, end, "threads") {
        if st.threads.is_some() {
            Err(MacroError { at: p, kind: ErrorKind::MultipleKey("threads") })
        } else {
            let c = expect_group(toks, p, end, Delim::Brace)?;
            let ts = parse_threads(toks, p + 1, c)?;
            Ok((PoolEntries { threads: Some(ts), ..st }, c + 1))
        }
    } else {
        Err(MacroError { at: p, kind: ErrorKind::UnknownKey })
    }
}

/// The input of `thr_pool!`.
#[derive(Debug)]
pub struct PoolInput {
    pub pool: NameDecl,
    pub thread: ThrStruct,
    pub local: ThrStruct,
    pub index: NameDecl,
    pub threads: Vec<NameDecl>,
}

pub struct PoolInputV {
    pub pool: NameDecl,
    pub thread: ThrStructV,
    pub local: ThrStructV,
    pub index: NameDecl,
    pub threads: Seq<NameDecl>,
}

pub open spec fn pool_input_view(i: PoolInput) -> PoolInputV {
    PoolInputV {
        pool: i.pool,
        thread: struct_view(i.thread),
        local: struct_view(i.local),
        index: i.index,
        threads: i.threads@,
    }
}

pub open spec fn no_pool_entries() -> PoolEntriesV {
    PoolEntriesV { pool: None, thread: None, local: None, index: None, threads: None }
}

/// The input of `thr_pool!`: its entries, each of the five given.
pub open spec fn spec_pool_input(toks: Seq<Tok>) -> Result<PoolInputV, MacroError> {
    let end = toks.len() as int;
    match spec_pool_entries(toks, 0, end, no_pool_entries()) {
        Err(e) => Err(e),
        Ok(st) => match (st.pool, st.thread, st.local, st.index, st.threads) {
            (None, _, _, _, _) => err(end, ErrorKind::MissingKey("pool")),
            (Some(_), None, _, _, _) => err(end, ErrorKind::MissingKey("thread")),
            (Some(_), Some(_), None, _, _) => err(end, ErrorKind::MissingKey("local")),
            (Some(_), Some(_), Some(_), None, _) => err(end, ErrorKind::MissingKey("index")),
            (Some(_), Some(_), Some(_), Some(_), None) => err(end, ErrorKind::MissingKey("threads")),
            (Some(p), Some(t), Some(l), Some(x), Some(ts)) => Ok(
                PoolInputV { pool: p, thread: t, local: l, index: x, threads: ts },
            ),
        },
    }
}

/// Reads the input of `thr_pool!`.
pub fn parse_pool_input(toks: &Vec<Tok>) -> (r: Result<PoolInput, MacroError>)
    ensures
        r matches Ok(v) ==> spec_pool_input(toks@) == Ok::<PoolInputV, MacroError>(
            pool_input_view(v),
        ),
        r matches Err(e) ==> spec_pool_input(toks@) == Err::<PoolInputV, MacroError>(e),
{
    let end = toks.len();
    let mut st = PoolEntries { pool: None, thread: None, local: None, index: None, threads: None };
    let mut i: usize = 0;
    let mut done = false;
    while i < end && !done
        invariant
            end == toks@.len(),
            spec_pool_entries(toks@, 0, end as int, no_pool_entries()) == (if done {
                Ok(pool_entries_view(st))
            } else {
                spec_pool_entries(toks@, i as int, end as int, pool_entries_view(st))
            }),
        decreases end - i + (if done { 0int } else { 1int }),
    {
        let (st2, q) = parse_pool_entry(toks, i, end, st)?;
        st = st2;
        if q < end {
            i = expect_punct(toks, q, end, ';')?;
        } else {
            done = true;
        }
    }
    match st {
        PoolEntries { pool: None, .. } => Err(
            MacroError { at: end, kind: ErrorKind::MissingKey("pool") },
        ),
        PoolEntries { pool: Some(_), thread: None, .. } => Err(
            MacroError { at: end, kind: ErrorKind::MissingKey("thread") },
        ),
        PoolEntries { pool: Some(_), thread: Some(_), local: None, .. } => Err(
            MacroError { at: end, kind: ErrorKind::MissingKey("local") },
        ),
        PoolEntries { pool: Some(_), thread: Some(_), local: Some(_), index: None, .. } => Err(
            MacroError { at: end, kind: ErrorKind::MissingKey("index") },
        ),
        PoolEntries {
            pool: Some(_),
            thread: Some(_),
            local: Some(_),
            index: Some(_),
            threads: None,
        } => Err(MacroError { at: end, kind: ErrorKind::MissingKey("threads") }),
        PoolEntries {
            pool: Some(pool),
            thread: Some(thread),
            local: Some(local),
            index: Some(index),
            threads: Some(threads),
        } => Ok(PoolInput { pool, thread, local, index, threads }),
    }
}

/// The names a thread's token gets: its field in the index structure
/// (snake case) and its structure (Pascal case).
pub open spec fn thread_names(toks: Seq<Tok>, d: NameDecl) -> (Seq<char>, Seq<char>) {
    let name = ident_text(toks, d.ident as int);
    (inflector_snake(name), inflector_pascal(name))
}

/// The positions `0, 1, .., n - 1`.
pub open spec fn positions(n: nat) -> Seq<usize> {
    Seq::new(n, |k: int| k as usize)
}

/// What `thr_pool!` expands to: the input, the static holding the pool
/// (the pool's name in screaming snake case), the wrapper of the
/// thread-local structure, the names of each thread's token, the argument
/// of the thread's `new` at each position of the pool's array, and the
/// `THR_IDX` of each thread's token.
#[derive(Debug)]
pub struct PoolPlan {
    pub input: PoolInput,
    pub static_ident: String,
    pub local_wrapper: String,
    pub tokens: Vec<(String, String)>,
    pub pool: Vec<usize>,
    pub token_indices: Vec<usize>,
}

/// The token of the `k`-th thread of the list indexes the pool at the
/// position that holds the thread made by `new(k)`: the indices are the
/// positions `0` to `n - 1`, each once, with no gap.
pub proof fn law_tokens_index_the_pool(pool: Seq<usize>, token_indices: Seq<usize>, n: nat)
    requires
        n <= usize::MAX,
        pool == positions(n),
        token_indices == positions(n),
    ensures
        token_indices.len() == n && pool.len() == n,
        forall|k: int| 0 <= k < n ==> #[trigger] pool[token_indices[k] as int] == k,
        forall|j: int, k: int|
            0 <= j < n && 0 <= k < n && j != k ==> #[trigger] token_indices[j] != #[trigger] token_indices[k],
        forall|m: usize| m < n ==> #[trigger] token_indices.contains(m),
{
    assert forall|k: int| 0 <= k < n implies #[trigger] pool[token_indices[k] as int] == k by {
        assert(token_indices[k] == k as usize);
        assert(pool[k] == k as usize);
    }
    assert forall|j: int, k: int|
        0 <= j < n && 0 <= k < n && j != k implies #[trigger] token_indices[j] != #[trigger] token_indices[k] by {
        assert(token_indices[j] == j as usize);
        assert(token_indices[k] == k as usize);
    }
    assert forall|m: usize| m < n implies #[trigger] token_indices.contains(m) by {
        assert(token_indices[m as int] == m);
    }
}

/// `thr_pool!` on the input `toks`.
pub fn thr_pool(toks: &Vec<Tok>) -> (r: Result<PoolPlan, MacroError>)
    ensures
        r matches Err(e) ==> spec_pool_input(toks@) == Err::<PoolInputV, MacroError>(e),
        r matches Ok(p) ==> {
            &&& spec_pool_input(toks@) == Ok::<PoolInputV, MacroError>(pool_input_view(p.input))
            &&& p.static_ident@ == inflector_screaming(ident_text(toks@, p.input.pool.ident as int))
            &&& p.local_wrapper@ == ident_text(toks@, p.input.local.ident as int) + "Wrapper"@
            &&& p.tokens@.map_values(|t: (String, String)| (t.0@, t.1@)) == p.input.threads@.map_values(
                |d: NameDecl| thread_names(toks@, d),
            )
            &&& p.pool@ == positions(p.input.threads@.len())
            &&& p.token_indices@ == positions(p.input.threads@.len())
        },
{
    let input = parse_pool_input(toks)?;
    let static_ident = to_screaming_inflector(ident_string(toks, input.pool.ident).as_str());
    let local_wrapper = cat(ident_string(toks, input.local.ident).as_str(), "Wrapper");
    let mut tokens: Vec<(String, String)> = Vec::new();
    let mut k: usize = 0;
    while k < input.threads.len()
        invariant
            k <= input.threads@.len(),
            tokens@.map_values(|t: (String, String)| (t.0@, t.1@)) == input.threads@.take(
                k as int,
            ).map_values(|d: NameDecl| thread_names(toks@, d)),
        decreases input.threads@.len() - k,
    {
        let d = input.threads[k];
        let name = ident_string(toks, d.ident);
        let pair = (to_snake_inflector(name.as_str()), to_pascal_inflector(name.as_str()));
        let ghost before = tokens@.map_values(|t: (String, String)| (t.0@, t.1@));
        let ghost pv = (pair.0@, pair.1@);
        tokens.push(pair);
        proof {
            assert(tokens@.map_values(|t: (String, String)| (t.0@, t.1@)) =~= before.push(pv));
            assert(input.threads@.take(k + 1) =~= input.threads@.take(k as int).push(d));
            assert(input.threads@.take(k + 1).map_values(|d: NameDecl| thread_names(toks@, d))
                =~= input.threads@.take(k as int).map_values(
                |d: NameDecl| thread_names(toks@, d),
            ).push(thread_names(toks@, d)));
        }
        k = k + 1;
    }
    assert(input.threads@.take(k as int) =~= input.threads@);
    let mut pool: Vec<usize> = Vec::new();
    let mut m: usize = 0;
    while m < input.threads.len()
        invariant
            m <= input.threads@.len(),
            pool@ == positions(m as nat),
        decreases input.threads@.len() - m,
    {
        pool.push(m);
        m = m + 1;
        assert(pool@ =~= positions(m as nat));
    }
    let token_indices = pool.clone();
    assert(token_indices@ =~= pool@);
    Ok(PoolPlan { input, static_ident, local_wrapper, tokens, pool, token_indices })
}


// ---------------------------------------------------------------------------
// The pool and the index, as tokens

/// The literal `Kusize`.
pub open spec fn usize_lit(k: nat) -> Seq<TokV> {
    tl(decimal(k) + "usize"@)
}

/// `&'static`
pub open spec fn static_ref() -> Seq<TokV> {
    tp('&') + seq![TokV::Punct('\'', true)] + tw("static"@)
}

/// The elements of the pool's array: `THR::new(0usize), THR::new(1usize), ..`
/// up to `n` elements.
pub open spec fn pool_slots(thr: Seq<TokV>, n: nat) -> Seq<TokV>
    decreases n,
{
    if n == 0 {
        Seq::empty()
    } else {
        pool_slots(thr, (n - 1) as nat) + (if n > 1 {
            tp(',')
        } else {
            Seq::empty()
        }) + thr + tj(':', ':') + tw("new"@) + topen(Delim::Paren) + usize_lit((n - 1) as nat)
            + tclose(Delim::Paren)
    }
}

/// `ATTRS VIS static STATIC: POOL = POOL::new();`
pub open spec fn pool_static(toks: Seq<Tok>, p: NameDecl, st: Seq<char>) -> Seq<TokV> {
    let pname = span_toks(toks, one(p.ident));
    span_toks(toks, p.attrs) + span_toks(toks, p.vis.span) + tw("static"@) + tw(st) + tp(':') + pname
        + tp('=') + pname + tj(':', ':') + tw("new"@) + topen(Delim::Paren) + tclose(Delim::Paren)
        + tp(';')
}

/// `ATTRS VIS struct POOL { threads: [THR; Nusize], current:
/// ::drone_core::thr::Current, }`
pub open spec fn pool_struct(toks: Seq<Tok>, p: NameDecl, thr: Seq<TokV>, n: nat) -> Seq<TokV> {
    span_toks(toks, p.attrs) + span_toks(toks, p.vis.span) + tw("struct"@) + span_toks(toks, one(p.ident))
        + topen(Delim::Brace) + tw("threads"@) + tp(':') + topen(Delim::Bracket) + thr + tp(';')
        + usize_lit(n) + tclose(Delim::Bracket) + tp(',') + tw("current"@) + tp(':') + core_path(
        "thr"@,
        "Current"@,
    ) + tp(',') + tclose(Delim::Brace)
}

/// `impl POOL { const fn new() -> Self { Self { threads: [SLOTS], current:
/// ::drone_core::thr::Current::new(), } } }`
pub open spec fn pool_new(pname: Seq<TokV>, thr: Seq<TokV>, n: nat) -> Seq<TokV> {
    tw("impl"@) + pname + topen(Delim::Brace) + tw("const"@) + tw("fn"@) + tw("new"@) + topen(
        Delim::Paren,
    ) + tclose(Delim::Paren) + tj('-', '>') + tw("Self"@) + topen(Delim::Brace) + tw("Self"@) + topen(
        Delim::Brace,
    ) + tw("threads"@) + tp(':') + topen(Delim::Bracket) + pool_slots(thr, n) + tclose(
        Delim::Bracket,
    ) + tp(',') + tw("current"@) + tp(':') + core_path("thr"@, "Current"@) + tj(':', ':') + tw(
        "new"@,
    ) + topen(Delim::Paren) + tclose(Delim::Paren) + tp(',') + tclose(Delim::Brace) + tclose(
        Delim::Brace,
    ) + tclose(Delim::Brace)
}

/// The pool: its static, its structure with an array of `n` threads and
/// the current-thread cell, its constructor, and its `ThreadPool`.
pub open spec fn pool_items(toks: Seq<Tok>, inp: PoolInputV, st: Seq<char>) -> Seq<TokV> {
    let pname = span_toks(toks, one(inp.pool.ident));
    let thr = span_toks(toks, one(inp.thread.ident));
    pool_static(toks, inp.pool, st) + pool_struct(toks, inp.pool, thr, inp.threads.len()) + pool_new(
        pname,
        thr,
        inp.threads.len(),
    ) + pool_impl(pname, thr, st)
}

/// `#[inline] unsafe fn threads() -> &'static [Self::Thr] { &STATIC.threads }`
pub open spec fn threads_fn(st: Seq<char>) -> Seq<TokV> {
    inline_attr() + tw("unsafe"@) + tw("fn"@) + tw("threads"@) + topen(Delim::Paren) + tclose(
        Delim::Paren,
    ) + tj('-', '>') + static_ref() + topen(Delim::Bracket) + tw("Self"@) + tj(':', ':') + tw("Thr"@)
        + tclose(Delim::Bracket) + topen(Delim::Brace) + tp('&') + tw(st) + tp('.') + tw("threads"@)
        + tclose(Delim::Brace)
}

/// `#[inline] fn current() -> &'static ::drone_core::thr::Current {
/// &STATIC.current }`
pub open spec fn current_fn(st: Seq<char>) -> Seq<TokV> {
    inline_attr() + tw("fn"@) + tw("current"@) + topen(Delim::Paren) + tclose(Delim::Paren) + tj(
        '-',
        '>',
    ) + static_ref() + core_path("thr"@, "Current"@) + topen(Delim::Brace) + tp('&') + tw(st) + tp(
        '.',
    ) + tw("current"@) + tclose(Delim::Brace)
}

/// `impl ::drone_core::thr::ThreadPool for POOL { type Thr = THR; THREADS
/// CURRENT }`
pub open spec fn pool_impl(pname: Seq<TokV>, thr: Seq<TokV>, st: Seq<char>) -> Seq<TokV> {
    tw("impl"@) + core_path("thr"@, "ThreadPool"@) + tw("for"@) + pname + topen(Delim::Brace) + tw(
        "type"@,
    ) + tw("Thr"@) + tp('=') + thr + tp(';') + threads_fn(st) + current_fn(st) + tclose(Delim::Brace)
}

/// The token of the `k`-th thread `d`: its structure, its `Token`, and its
/// `ThrToken` whose `THR_IDX` is `k`.
pub open spec fn thread_token(toks: Seq<Tok>, thr: Seq<TokV>, d: NameDecl, k: nat) -> Seq<TokV> {
    let ty = thread_names(toks, d).1;
    span_toks(toks, d.attrs) + tp('#') + topen(Delim::Bracket) + tw("derive"@) + topen(Delim::Paren)
        + tw("Clone"@) + tp(',') + tw("Copy"@) + tclose(Delim::Paren) + tclose(Delim::Bracket)
        + span_toks(toks, d.vis.span) + tw("struct"@) + tw(ty) + topen(Delim::Brace) + priv_unit()
        + tclose(Delim::Brace) + tw("unsafe"@) + tw("impl"@) + token_path("Token"@) + tw("for"@) + tw(
        ty,
    ) + topen(Delim::Brace) + inline_attr() + tw("unsafe"@) + tw("fn"@) + tw("take"@) + topen(
        Delim::Paren,
    ) + tclose(Delim::Paren) + tj('-', '>') + tw("Self"@) + topen(Delim::Brace) + tw(ty) + topen(
        Delim::Brace,
    ) + priv_unit() + tclose(Delim::Brace) + tclose(Delim::Brace) + tclose(Delim::Brace) + tw(
        "unsafe"@,
    ) + tw("impl"@) + core_path("thr"@, "ThrToken"@) + tw("for"@) + tw(ty) + topen(Delim::Brace)
        + tw("type"@) + tw("Thr"@) + tp('=') + thr + tp(';') + tw("const"@) + tw("THR_IDX"@) + tp(
        ':',
    ) + tw("usize"@) + tp('=') + usize_lit(k) + tp(';') + tclose(Delim::Brace)
}

/// `__priv: (),`
pub open spec fn priv_unit() -> Seq<TokV> {
    tw("__priv"@) + tp(':') + topen(Delim::Paren) + tclose(Delim::Paren) + tp(',')
}

/// The tokens of the threads `ds`, the `k`-th with the index `k`.
pub open spec fn thread_tokens(toks: Seq<Tok>, thr: Seq<TokV>, ds: Seq<NameDecl>) -> Seq<TokV>
    decreases ds.len(),
{
    if ds.len() == 0 {
        Seq::empty()
    } else {
        thread_tokens(toks, thr, ds.drop_last()) + thread_token(
            toks,
            thr,
            ds.last(),
            (ds.len() - 1) as nat,
        )
    }
}

/// The index's fields `ATTRS VIS field: Type`, separated by commas.
pub open spec fn index_fields(toks: Seq<Tok>, ds: Seq<NameDecl>) -> Seq<TokV>
    decreases ds.len(),
{
    if ds.len() == 0 {
        Seq::empty()
    } else {
        let (field, ty) = thread_names(toks, ds.last());
        index_fields(toks, ds.drop_last()) + (if ds.len() > 1 {
            tp(',')
        } else {
            Seq::empty()
        }) + span_toks(toks, ds.last().attrs) + span_toks(toks, ds.last().vis.span) + tw(field) + tp(
            ':',
        ) + tw(ty)
    }
}

/// The index's constructor fields `field: ::drone_core::token::Token::take()`,
/// separated by commas.
pub open spec fn index_ctors(toks: Seq<Tok>, ds: Seq<NameDecl>) -> Seq<TokV>
    decreases ds.len(),
{
    if ds.len() == 0 {
        Seq::empty()
    } else {
        index_ctors(toks, ds.drop_last()) + (if ds.len() > 1 {
            tp(',')
        } else {
            Seq::empty()
        }) + tw(thread_names(toks, ds.last()).0) + tp(':') + token_path("Token"@) + tj(':', ':') + tw(
            "take"@,
        ) + topen(Delim::Paren) + tclose(Delim::Paren)
    }
}

/// `ATTRS VIS struct INDEX { FIELDS }`
pub open spec fn index_struct(toks: Seq<Tok>, inp: PoolInputV) -> Seq<TokV> {
    let i = inp.index;
    span_toks(toks, i.attrs) + span_toks(toks, i.vis.span) + tw("struct"@) + span_toks(toks, one(i.ident))
        + topen(Delim::Brace) + index_fields(toks, inp.threads) + tclose(Delim::Brace)
}

/// `unsafe impl ::drone_core::token::Token for INDEX { #[inline] unsafe fn
/// take() -> Self { Self { CTORS } } }`
pub open spec fn index_token(toks: Seq<Tok>, inp: PoolInputV) -> Seq<TokV> {
    tw("unsafe"@) + tw("impl"@) + token_path("Token"@) + tw("for"@) + span_toks(toks, one(inp.index.ident))
        + topen(Delim::Brace) + inline_attr() + tw("unsafe"@) + tw("fn"@) + tw("take"@) + topen(
        Delim::Paren,
    ) + tclose(Delim::Paren) + tj('-', '>') + tw("Self"@) + topen(Delim::Brace) + tw("Self"@) + topen(
        Delim::Brace,
    ) + index_ctors(toks, inp.threads) + tclose(Delim::Brace) + tclose(Delim::Brace) + tclose(
        Delim::Brace,
    )
}

/// The index structure with a token of each thread, its `Token`, and the
/// tokens of the threads.
pub open spec fn index_items(toks: Seq<Tok>, inp: PoolInputV) -> Seq<TokV> {
    index_struct(toks, inp) + index_token(toks, inp) + thread_tokens(
        toks,
        span_toks(toks, one(inp.thread.ident)),
        inp.threads,
    )
}

/// `impl ::drone_core::thr::Thread for THR { type Pool = POOL; type Local =
/// LOCAL; FIB_CHAIN LOCAL_FN }`
pub open spec fn pool_thr_impl(toks: Seq<Tok>, inp: PoolInputV) -> Seq<TokV> {
    tw("impl"@) + core_path("thr"@, "Thread"@) + tw("for"@) + span_toks(toks, one(inp.thread.ident))
        + topen(Delim::Brace) + tw("type"@) + tw("Pool"@) + tp('=') + span_toks(toks, one(inp.pool.ident))
        + tp(';') + tw("type"@) + tw("Local"@) + tp('=') + span_toks(toks, one(inp.local.ident)) + tp(';')
        + fib_chain_fn() + local_fn(toks, inp.local.ident) + tclose(Delim::Brace)
}

/// The thread structure, its constructor, and its `Thread`.
pub open spec fn pool_thr_items(toks: Seq<Tok>, inp: PoolInputV, wrapper: Seq<char>) -> Seq<TokV> {
    thr_struct(toks, inp.thread, wrapper) + thr_new(toks, inp.thread, inp.local, wrapper) + pool_thr_impl(
        toks,
        inp,
    )
}

/// `ATTRS VIS struct LOCAL { preempted: ::drone_core::thr::Preempted, FIELDS }
/// struct WRAPPER(LOCAL); unsafe impl ::core::marker::Sync for WRAPPER {}`
pub open spec fn pool_local_struct(toks: Seq<Tok>, l: ThrStructV, wrapper: Seq<char>) -> Seq<TokV> {
    let name = span_toks(toks, one(l.ident));
    span_toks(toks, l.attrs) + span_toks(toks, l.vis.span) + tw("struct"@) + name + topen(Delim::Brace)
        + tw("preempted"@) + tp(':') + core_path("thr"@, "Preempted"@) + tp(',') + thread_fields(
        toks,
        l.fields,
    ) + tclose(Delim::Brace) + tw("struct"@) + tw(wrapper) + topen(Delim::Paren) + name + tclose(
        Delim::Paren,
    ) + tp(';') + tw("unsafe"@) + tw("impl"@) + tj(':', ':') + tw("core"@) + tj(':', ':') + tw(
        "marker"@,
    ) + tj(':', ':') + tw("Sync"@) + tw("for"@) + tw(wrapper) + topen(Delim::Brace) + tclose(
        Delim::Brace,
    )
}

/// `impl LOCAL { const fn new(index: usize) -> Self { Self { preempted:
/// ::drone_core::thr::Preempted::new(), INITS } } }`
pub open spec fn pool_local_new(toks: Seq<Tok>, l: ThrStructV) -> Seq<TokV> {
    tw("impl"@) + span_toks(toks, one(l.ident)) + topen(Delim::Brace) + tw("const"@) + tw("fn"@) + tw(
        "new"@,
    ) + topen(Delim::Paren) + tw("index"@) + tp(':') + tw("usize"@) + tclose(Delim::Paren) + tj(
        '-',
        '>',
    ) + tw("Self"@) + topen(Delim::Brace) + tw("Self"@) + topen(Delim::Brace) + tw("preempted"@)
        + tp(':') + core_path("thr"@, "Preempted"@) + tj(':', ':') + tw("new"@) + topen(Delim::Paren)
        + tclose(Delim::Paren) + tp(',') + thread_inits(toks, l.fields) + tclose(Delim::Brace)
        + tclose(Delim::Brace) + tclose(Delim::Brace)
}

/// The thread-local structure of the pool declares its fields, `ATTRS VIS
/// NAME: TYPE,`, and its constructor gives each its declared initializer,
/// `NAME: INIT,`, in the order of declaration.
pub proof fn law_pool_local_declares_and_initializes_every_field(toks: Seq<Tok>, l: ThrStructV, wrapper: Seq<char>)
    ensures
        crate::thr::contains_run(pool_local_struct(toks, l, wrapper), thread_fields(toks, l.fields)),
        crate::thr::contains_run(pool_local_new(toks, l), thread_inits(toks, l.fields)),
{
    let s = pool_local_new(toks, l);
    let n = thread_inits(toks, l.fields);
    let c = tclose(Delim::Brace) + tclose(Delim::Brace) + tclose(Delim::Brace);
    let a = s.take(s.len() - n.len() - 3);
    assert(s =~= a + n + c);
    let s = pool_local_struct(toks, l, wrapper);
    let n = thread_fields(toks, l.fields);
    let name = span_toks(toks, one(l.ident));
    let a = span_toks(toks, l.attrs) + span_toks(toks, l.vis.span) + tw("struct"@) + name + topen(Delim::Brace)
        + tw("preempted"@) + tp(':') + core_path("thr"@, "Preempted"@) + tp(',');
    let c = s.skip((a.len() + n.len()) as int);
    assert(s =~= a + n + c);
}

/// `impl ::drone_core::thr::ThreadLocal for LOCAL { #[inline] fn
/// preempted(&self) -> &::drone_core::thr::Preempted { &self.preempted } }`
pub open spec fn pool_local_trait(toks: Seq<Tok>, l: ThrStructV) -> Seq<TokV> {
    tw("impl"@) + core_path("thr"@, "ThreadLocal"@) + tw("for"@) + span_toks(toks, one(l.ident)) + topen(
        Delim::Brace,
    ) + inline_attr() + tw("fn"@) + tw("preempted"@) + topen(Delim::Paren) + tp('&') + tw("self"@)
        + tclose(Delim::Paren) + tj('-', '>') + tp('&') + core_path("thr"@, "Preempted"@) + topen(
        Delim::Brace,
    ) + tp('&') + tw("self"@) + tp('.') + tw("preempted"@) + tclose(Delim::Brace) + tclose(
        Delim::Brace,
    )
}

/// The thread-local structure's constructor and its `ThreadLocal`.
pub open spec fn pool_local_impls(toks: Seq<Tok>, l: ThrStructV) -> Seq<TokV> {
    pool_local_new(toks, l) + pool_local_trait(toks, l)
}

/// What `thr_pool!` expands to on the input `toks`: the pool, the thread
/// structure, the thread-local structure, and the index with the threads'
/// tokens.
pub open spec fn spec_expand_thr_pool(toks: Seq<Tok>) -> Result<Seq<TokV>, MacroError> {
    match spec_pool_input(toks) {
        Err(e) => Err(e),
        Ok(inp) => {
            let wrapper = ident_text(toks, inp.local.ident as int) + "Wrapper"@;
            Ok(
                pool_items(toks, inp, inflector_screaming(ident_text(toks, inp.pool.ident as int)))
                    + pool_thr_items(toks, inp, wrapper) + pool_local_struct(toks, inp.local, wrapper)
                    + pool_local_impls(toks, inp.local) + index_items(toks, inp),
            )
        },
    }
}

/// The element `THR::new(Kusize)` of the pool's array.
pub open spec fn pool_slot(thr: Seq<TokV>, k: nat) -> Seq<TokV> {
    thr + tj(':', ':') + tw("new"@) + topen(Delim::Paren) + usize_lit(k) + tclose(Delim::Paren)
}

proof fn lemma_pool_slots_prefix(thr: Seq<TokV>, m: nat, n: nat)
    requires
        m <= n,
    ensures
        pool_slots(thr, m).is_prefix_of(pool_slots(thr, n)),
    decreases n,
{
    if n == m {
        assert(pool_slots(thr, m) =~= pool_slots(thr, n).subrange(0, pool_slots(thr, m).len() as int));
    } else {
        lemma_pool_slots_prefix(thr, m, (n - 1) as nat);
        let x = (if n > 1 {
            tp(',')
        } else {
            Seq::empty()
        }) + thr + tj(':', ':') + tw("new"@) + topen(Delim::Paren) + usize_lit((n - 1) as nat)
            + tclose(Delim::Paren);
        assert(pool_slots(thr, n) == pool_slots(thr, (n - 1) as nat) + x);
        assert(pool_slots(thr, m) =~= pool_slots(thr, n).subrange(0, pool_slots(thr, m).len() as int));
    }
}

#[verifier::spinoff_prover]
#[verifier::rlimit(50)]
proof fn lemma_thread_tokens_prefix(toks: Seq<Tok>, thr: Seq<TokV>, ds: Seq<NameDecl>, m: int)
    requires
        0 <= m <= ds.len(),
    ensures
        thread_tokens(toks, thr, ds.take(m)).is_prefix_of(thread_tokens(toks, thr, ds)),
    decreases ds.len(),
{
    let p = thread_tokens(toks, thr, ds.take(m));
    if m == ds.len() {
        assert(ds.take(m) =~= ds);
        assert(p =~= thread_tokens(toks, thr, ds).subrange(0, p.len() as int));
    } else {
        let d = ds.drop_last();
        lemma_thread_tokens_prefix(toks, thr, d, m);
        assert(d.take(m) =~= ds.take(m));
        let x = thread_token(toks, thr, ds.last(), (ds.len() - 1) as nat);
        assert(thread_tokens(toks, thr, ds) == thread_tokens(toks, thr, d) + x);
        assert(p =~= thread_tokens(toks, thr, ds).subrange(0, p.len() as int));
    }
}

/// In the expansion of `thr_pool!`, the thread at position `k` of the list
/// is made by `THR::new(k)`, the element of the pool's array that follows
/// the `k` elements of the threads before it; and its token, which follows
/// the tokens of the threads before it, has `THR_IDX` `k`.
pub proof fn law_thread_index_is_pool_position(toks: Seq<Tok>, k: nat)
    requires
        spec_pool_input(toks) matches Ok(inp) && k < inp.threads.len(),
    ensures
        spec_pool_input(toks) matches Ok(inp) ==> {
            let thr = span_toks(toks, one(inp.thread.ident));
            &&& (pool_slots(thr, k) + (if k > 0 {
                tp(',')
            } else {
                Seq::empty()
            }) + pool_slot(thr, k)).is_prefix_of(pool_slots(thr, inp.threads.len()))
            &&& (thread_tokens(toks, thr, inp.threads.take(k as int)) + thread_token(
                toks,
                thr,
                inp.threads[k as int],
                k,
            )).is_prefix_of(thread_tokens(toks, thr, inp.threads))
        },
{
    let inp = spec_pool_input(toks)->Ok_0;
    let thr = span_toks(toks, one(inp.thread.ident));
    let ds = inp.threads;
    lemma_pool_slots_prefix(thr, k + 1, ds.len());
    let sep = if k > 0 {
        tp(',')
    } else {
        Seq::<TokV>::empty()
    };
    assert(pool_slots(thr, k + 1) =~= pool_slots(thr, k) + sep + pool_slot(thr, k));
    lemma_thread_tokens_prefix(toks, thr, ds, (k + 1) as int);
    let t = ds.take((k + 1) as int);
    assert(t.drop_last() =~= ds.take(k as int));
    assert(t.last() == ds[k as int]);
    assert(thread_tokens(toks, thr, t) == thread_tokens(toks, thr, ds.take(k as int)) + thread_token(
        toks,
        thr,
        ds[k as int],
        k,
    ));
}

fn emit_usize_lit(out: &mut Vec<Tok>, k: usize)
    ensures
        toks_view(final(out)@) == toks_view(old(out)@) + usize_lit(k as nat),
{
    let ghost b = toks_view(old(out)@);
    let text = decimal_usize(k).concat("usize");
    push_tok(out, Tok::Literal(text));
    assert(toks_view(out@) =~= b + usize_lit(k as nat));
}

fn emit_static_ref(out: &mut Vec<Tok>)
    ensures
        toks_view(final(out)@) == toks_view(old(out)@) + static_ref(),
{
    let ghost b = toks_view(old(out)@);
    emit_punct(out, '&');
    push_tok(out, Tok::Punct('\'', true));
    emit_word(out, "static");
    assert(toks_view(out@) =~= b + static_ref());
}

fn emit_pool_slots(toks: &Vec<Tok>, thr: Span, n: usize, out: &mut Vec<Tok>)
    ensures
        toks_view(final(out)@) == toks_view(old(out)@) + pool_slots(span_toks(toks@, thr), n as nat),
{
    let ghost head = toks_view(old(out)@);
    let ghost t = span_toks(toks@, thr);
    let mut k: usize = 0;
    assert(head + pool_slots(t, 0) =~= head);
    while k < n
        invariant
            k <= n,
            t == span_toks(toks@, thr),
            toks_view(out@) == head + pool_slots(t, k as nat),
        decreases n - k,
    {
        let ghost before = toks_view(out@);
        if k > 0 {
            emit_punct(out, ',');
        }
        emit_span(toks, thr, out);
        emit_joint(out, ':', ':');
        emit_word(out, "new");
        emit_open(out, Delim::Paren);
        emit_usize_lit(out, k);
        emit_close(out, Delim::Paren);
        assert(toks_view(out@) =~= head + pool_slots(t, (k + 1) as nat));
        k = k + 1;
    }
}

fn emit_threads_fn(st: &String, out: &mut Vec<Tok>)
    ensures
        toks_view(final(out)@) == toks_view(old(out)@) + threads_fn(st@),
{
    let ghost b = toks_view(old(out)@);
    emit_inline_attr(out);
    emit_word(out, "unsafe");
    emit_word(out, "fn");
    emit_word(out, "threads");
    emit_open(out, Delim::Paren);
    emit_close(out, Delim::Paren);
    emit_joint(out, '-', '>');
    emit_static_ref(out);
    emit_open(out, Delim::Bracket);
    emit_word(out, "Self");
    emit_joint(out, ':', ':');
    emit_word(out, "Thr");
    emit_close(out, Delim::Bracket);
    emit_open(out, Delim::Brace);
    emit_punct(out, '&');
    emit_string(out, st);
    emit_punct(out, '.');
    emit_word(out, "threads");
    emit_close(out, Delim::Brace);
    assert(toks_view(out@) =~= b + threads_fn(st@));
}

fn emit_current_fn(st: &String, out: &mut Vec<Tok>)
    ensures
        toks_view(final(out)@) == toks_view(old(out)@) + current_fn(st@),
{
    let ghost b = toks_view(old(out)@);
    emit_inline_attr(out);
    emit_word(out, "fn");
    emit_word(out, "current");
    emit_open(out, Delim::Paren);
    emit_close(out, Delim::Paren);
    emit_joint(out, '-', '>');
    emit_static_ref(out);
    emit_core_path(out, "thr", "Current");
    emit_open(out, Delim::Brace);
    emit_punct(out, '&');
    emit_string(out, st);
    emit_punct(out, '.');
    emit_word(out, "current");
    emit_close(out, Delim::Brace);
    assert(toks_view(out@) =~= b + current_fn(st@));
}

fn emit_pool_impl(toks: &Vec<Tok>, pname: Span, thr: Span, st: &String, out: &mut Vec<Tok>)
    ensures
        toks_view(final(out)@) == toks_view(old(out)@) + pool_impl(
            span_toks(toks@, pname),
            span_toks(toks@, thr),
            st@,
        ),
{
    let ghost b = toks_view(old(out)@);
    emit_word(out, "impl");
    emit_core_path(out, "thr", "ThreadPool");
    emit_word(out, "for");
    emit_span(toks, pname, out);
    emit_open(out, Delim::Brace);
    emit_word(out, "type");
    emit_word(out, "Thr");
    emit_punct(out, '=');
    emit_span(toks, thr, out);
    emit_punct(out, ';');
    emit_threads_fn(st, out);
    emit_current_fn(st, out);
    emit_close(out, Delim::Brace);
    assert(toks_view(out@) =~= b + pool_impl(span_toks(toks@, pname), span_toks(toks@, thr), st@));
}

fn emit_pool_static(toks: &Vec<Tok>, pd: NameDecl, st: &String, out: &mut Vec<Tok>)
    ensures
        toks_view(final(out)@) == toks_view(old(out)@) + pool_static(toks@, pd, st@),
{
    let ghost b = toks_view(old(out)@);
    let pname = one_exec(pd.ident);
    emit_span(toks, pd.attrs, out);
    emit_span(toks, pd.vis.span, out);
    emit_word(out, "static");
    emit_string(out, st);
    emit_punct(out, ':');
    emit_span(toks, pname, out);
    emit_punct(out, '=');
    emit_span(toks, pname, out);
    emit_joint(out, ':', ':');
    emit_word(out, "new");
    emit_open(out, Delim::Paren);
    emit_close(out, Delim::Paren);
    emit_punct(out, ';');
    assert(toks_view(out@) =~= b + pool_static(toks@, pd, st@));
}

fn emit_pool_struct(toks: &Vec<Tok>, pd: NameDecl, thr: Span, n: usize, out: &mut Vec<Tok>)
    ensures
        toks_view(final(out)@) == toks_view(old(out)@) + pool_struct(toks@, pd, span_toks(toks@, thr), n as nat),
{
    let ghost b = toks_view(old(out)@);
    emit_span(toks, pd.attrs, out);
    emit_span(toks, pd.vis.span, out);
    emit_word(out, "struct");
    emit_span(toks, one_exec(pd.ident), out);
    emit_open(out, Delim::Brace);
    emit_word(out, "threads");
    emit_punct(out, ':');
    emit_open(out, Delim::Bracket);
    emit_span(toks, thr, out);
    emit_punct(out, ';');
    emit_usize_lit(out, n);
    emit_close(out, Delim::Bracket);
    emit_punct(out, ',');
    emit_word(out, "current");
    emit_punct(out, ':');
    emit_core_path(out, "thr", "Current");
    emit_punct(out, ',');
    emit_close(out, Delim::Brace);
    assert(toks_view(out@) =~= b + pool_struct(toks@, pd, span_toks(toks@, thr), n as nat));
}

#[verifier::spinoff_prover]
#[verifier::rlimit(50)]
fn emit_pool_new(toks: &Vec<Tok>, pname: Span, thr: Span, n: usize, out: &mut Vec<Tok>)
    ensures
        toks_view(final(out)@) == toks_view(old(out)@) + pool_new(
            span_toks(toks@, pname),
            span_toks(toks@, thr),
            n as nat,
        ),
{
    let ghost b = toks_view(old(out)@);
    emit_word(out, "impl");
    emit_span(toks, pname, out);
    emit_open(out, Delim::Brace);
    emit_word(out, "const");
    emit_word(out, "fn");
    emit_word(out, "new");
    emit_open(out, Delim::Paren);
    emit_close(out, Delim::Paren);
    emit_joint(out, '-', '>');
    emit_word(out, "Self");
    emit_open(out, Delim::Brace);
    emit_word(out, "Self");
    emit_open(out, Delim::Brace);
    emit_word(out, "threads");
    emit_punct(out, ':');
    emit_open(out, Delim::Bracket);
    emit_pool_slots(toks, thr, n, out);
    emit_close(out, Delim::Bracket);
    emit_punct(out, ',');
    emit_word(out, "current");
    emit_punct(out, ':');
    emit_core_path(out, "thr", "Current");
    emit_joint(out, ':', ':');
    emit_word(out, "new");
    emit_open(out, Delim::Paren);
    emit_close(out, Delim::Paren);
    emit_punct(out, ',');
    emit_close(out, Delim::Brace);
    emit_close(out, Delim::Brace);
    emit_close(out, Delim::Brace);
    assert(toks_view(out@) =~= b + pool_new(span_toks(toks@, pname), span_toks(toks@, thr), n as nat));
}

fn emit_pool_items(toks: &Vec<Tok>, p: &PoolPlan, out: &mut Vec<Tok>)
    ensures
        toks_view(final(out)@) == toks_view(old(out)@) + pool_items(
            toks@,
            pool_input_view(p.input),
            p.static_ident@,
        ),
{
    let ghost b = toks_view(old(out)@);
    let pd = p.input.pool;
    let pname = one_exec(pd.ident);
    let thr = one_exec(p.input.thread.ident);
    let n = p.input.threads.len();
    emit_pool_static(toks, pd, &p.static_ident, out);
    emit_pool_struct(toks, pd, thr, n, out);
    emit_pool_new(toks, pname, thr, n, out);
    emit_pool_impl(toks, pname, thr, &p.static_ident, out);
    assert(toks_view(out@) =~= b + pool_items(toks@, pool_input_view(p.input), p.static_ident@));
}

pub fn emit_priv_unit(out: &mut Vec<Tok>)
    ensures
        toks_view(final(out)@) == toks_view(old(out)@) + priv_unit(),
{
    let ghost b = toks_view(old(out)@);
    emit_word(out, "__priv");
    emit_punct(out, ':');
    emit_open(out, Delim::Paren);
    emit_close(out, Delim::Paren);
    emit_punct(out, ',');
    assert(toks_view(out@) =~= b + priv_unit());
}

#[verifier::spinoff_prover]
#[verifier::rlimit(80)]
fn emit_thread_token(toks: &Vec<Tok>, thr: Span, d: NameDecl, ty: &String, k: usize, out: &mut Vec<Tok>)
    requires
        ty@ == thread_names(toks@, d).1,
    ensures
        toks_view(final(out)@) == toks_view(old(out)@) + thread_token(
            toks@,
            span_toks(toks@, thr),
            d,
            k as nat,
        ),
{
    let ghost b = toks_view(old(out)@);
    emit_span(toks, d.attrs, out);
    emit_punct(out, '#');
    emit_open(out, Delim::Bracket);
    emit_word(out, "derive");
    emit_open(out, Delim::Paren);
    emit_word(out, "Clone");
    emit_punct(out, ',');
    emit_word(out, "Copy");
    emit_close(out, Delim::Paren);
    emit_close(out, Delim::Bracket);
    emit_span(toks, d.vis.span, out);
    emit_word(out, "struct");
    emit_string(out, ty);
    emit_open(out, Delim::Brace);
    emit_priv_unit(out);
    emit_close(out, Delim::Brace);
    let ghost m1 = toks_view(out@);
    emit_word(out, "unsafe");
    emit_word(out, "impl");
    emit_token_path(out, "Token");
    emit_word(out, "for");
    emit_string(out, ty);
    emit_open(out, Delim::Brace);
    emit_inline_attr(out);
    emit_word(out, "unsafe");
    emit_word(out, "fn");
    emit_word(out, "take");
    emit_open(out, Delim::Paren);
    emit_close(out, Delim::Paren);
    emit_joint(out, '-', '>');
    emit_word(out, "Self");
    emit_open(out, Delim::Brace);
    emit_string(out, ty);
    emit_open(out, Delim::Brace);
    emit_priv_unit(out);
    emit_close(out, Delim::Brace);
    emit_close(out, Delim::Brace);
    emit_close(out, Delim::Brace);
    let ghost m2 = toks_view(out@);
    emit_word(out, "unsafe");
    emit_word(out, "impl");
    emit_core_path(out, "thr", "ThrToken");
    emit_word(out, "for");
    emit_string(out, ty);
    emit_open(out, Delim::Brace);
    emit_word(out, "type");
    emit_word(out, "Thr");
    emit_punct(out, '=');
    emit_span(toks, thr, out);
    emit_punct(out, ';');
    emit_word(out, "const");
    emit_word(out, "THR_IDX");
    emit_punct(out, ':');
    emit_word(out, "usize");
    emit_punct(out, '=');
    emit_usize_lit(out, k);
    emit_punct(out, ';');
    emit_close(out, Delim::Brace);
    assert(toks_view(out@) =~= b + thread_token(toks@, span_toks(toks@, thr), d, k as nat));
}

#[verifier::spinoff_prover]
#[verifier::rlimit(80)]
fn emit_index_lists(toks: &Vec<Tok>, p: &PoolPlan, ctors: bool, out: &mut Vec<Tok>)
    requires
        p.tokens@.map_values(|t: (String, String)| (t.0@, t.1@)) == p.input.threads@.map_values(
            |d: NameDecl| thread_names(toks@, d),
        ),
    ensures
        !ctors ==> toks_view(final(out)@) == toks_view(old(out)@) + index_fields(toks@, p.input.threads@),
        ctors ==> toks_view(final(out)@) == toks_view(old(out)@) + index_ctors(toks@, p.input.threads@),
{
    let ghost head = toks_view(old(out)@);
    let ghost ds = p.input.threads@;
    let mut k: usize = 0;
    assert(ds.take(0) =~= Seq::<NameDecl>::empty());
    assert(head + Seq::<TokV>::empty() =~= head);
    while k < p.input.threads.len()
        invariant
            k <= ds.len(),
            ds == p.input.threads@,
            p.tokens@.map_values(|t: (String, String)| (t.0@, t.1@)) == ds.map_values(
                |d: NameDecl| thread_names(toks@, d),
            ),
            !ctors ==> toks_view(out@) == head + index_fields(toks@, ds.take(k as int)),
            ctors ==> toks_view(out@) == head + index_ctors(toks@, ds.take(k as int)),
        decreases ds.len() - k,
    {
        let d = p.input.threads[k];
        assert(p.tokens@.len() == ds.len()) by {
            assert(p.tokens@.map_values(|t: (String, String)| (t.0@, t.1@)).len() == p.tokens@.len());
        }
        let names = &p.tokens[k];
        proof {
            assert(p.tokens@.map_values(|t: (String, String)| (t.0@, t.1@))[k as int] == (names.0@, names.1@));
            assert(ds.map_values(|d: NameDecl| thread_names(toks@, d))[k as int] == thread_names(toks@, d));
        }
        let ghost before = toks_view(out@);
        if k > 0 {
            emit_punct(out, ',');
        }
        if ctors {
            emit_string(out, &names.0);
            emit_punct(out, ':');
            emit_token_path(out, "Token");
            emit_joint(out, ':', ':');
            emit_word(out, "take");
            emit_open(out, Delim::Paren);
            emit_close(out, Delim::Paren);
        } else {
            emit_span(toks, d.attrs, out);
            emit_span(toks, d.vis.span, out);
            emit_string(out, &names.0);
            emit_punct(out, ':');
            emit_string(out, &names.1);
        }
        proof {
            let t = ds.take(k + 1);
            assert(t.drop_last() =~= ds.take(k as int));
            assert(t.last() == d);
            if ctors {
                assert(toks_view(out@) =~= head + index_ctors(toks@, t));
            } else {
                assert(toks_view(out@) =~= head + index_fields(toks@, t));
            }
        }
        k = k + 1;
    }
    assert(ds.take(k as int) =~= ds);
}

fn emit_index_struct(toks: &Vec<Tok>, p: &PoolPlan, out: &mut Vec<Tok>)
    requires
        p.tokens@.map_values(|t: (String, String)| (t.0@, t.1@)) == p.input.threads@.map_values(
            |d: NameDecl| thread_names(toks@, d),
        ),
    ensures
        toks_view(final(out)@) == toks_view(old(out)@) + index_struct(toks@, pool_input_view(p.input)),
{
    let ghost b = toks_view(old(out)@);
    emit_span(toks, p.input.index.attrs, out);
    emit_span(toks, p.input.index.vis.span, out);
    emit_word(out, "struct");
    emit_span(toks, one_exec(p.input.index.ident), out);
    emit_open(out, Delim::Brace);
    emit_index_lists(toks, p, false, out);
    emit_close(out, Delim::Brace);
    assert(toks_view(out@) =~= b + index_struct(toks@, pool_input_view(p.input)));
}

#[verifier::spinoff_prover]
#[verifier::rlimit(50)]
fn emit_index_token(toks: &Vec<Tok>, p: &PoolPlan, out: &mut Vec<Tok>)
    requires
        p.tokens@.map_values(|t: (String, String)| (t.0@, t.1@)) == p.input.threads@.map_values(
            |d: NameDecl| thread_names(toks@, d),
        ),
    ensures
        toks_view(final(out)@) == toks_view(old(out)@) + index_token(toks@, pool_input_view(p.input)),
{
    let ghost b = toks_view(old(out)@);
    emit_word(out, "unsafe");
    emit_word(out, "impl");
    emit_token_path(out, "Token");
    emit_word(out, "for");
    emit_span(toks, one_exec(p.input.index.ident), out);
    emit_open(out, Delim::Brace);
    emit_inline_attr(out);
    emit_word(out, "unsafe");
    emit_word(out, "fn");
    emit_word(out, "take");
    emit_open(out, Delim::Paren);
    emit_close(out, Delim::Paren);
    emit_joint(out, '-', '>');
    emit_word(out, "Self");
    emit_open(out, Delim::Brace);
    emit_word(out, "Self");
    emit_open(out, Delim::Brace);
    emit_index_lists(toks, p, true, out);
    emit_close(out, Delim::Brace);
    emit_close(out, Delim::Brace);
    emit_close(out, Delim::Brace);
    assert(toks_view(out@) =~= b + index_token(toks@, pool_input_view(p.input)));
}

#[verifier::spinoff_prover]
#[verifier::rlimit(80)]
fn emit_thread_tokens(toks: &Vec<Tok>, p: &PoolPlan, out: &mut Vec<Tok>)
    requires
        p.tokens@.map_values(|t: (String, String)| (t.0@, t.1@)) == p.input.threads@.map_values(
            |d: NameDecl| thread_names(toks@, d),
        ),
    ensures
        toks_view(final(out)@) == toks_view(old(out)@) + thread_tokens(
            toks@,
            span_toks(toks@, one(p.input.thread.ident)),
            p.input.threads@,
        ),
{
    let ghost head = toks_view(old(out)@);
    let ghost ds = p.input.threads@;
    let thr = one_exec(p.input.thread.ident);
    let ghost tt = span_toks(toks@, thr);
    let mut k: usize = 0;
    assert(ds.take(0) =~= Seq::<NameDecl>::empty());
    assert(head + Seq::<TokV>::empty() =~= head);
    while k < p.input.threads.len()
        invariant
            k <= ds.len(),
            ds == p.input.threads@,
            thr == one(p.input.thread.ident),
            tt == span_toks(toks@, thr),
            p.tokens@.map_values(|t: (String, String)| (t.0@, t.1@)) == ds.map_values(
                |d: NameDecl| thread_names(toks@, d),
            ),
            toks_view(out@) == head + thread_tokens(toks@, tt, ds.take(k as int)),
        decreases ds.len() - k,
    {
        let d = p.input.threads[k];
        assert(p.tokens@.len() == ds.len()) by {
            assert(p.tokens@.map_values(|t: (String, String)| (t.0@, t.1@)).len() == p.tokens@.len());
        }
        let names = &p.tokens[k];
        proof {
            assert(p.tokens@.map_values(|t: (String, String)| (t.0@, t.1@))[k as int] == (names.0@, names.1@));
            assert(ds.map_values(|d: NameDecl| thread_names(toks@, d))[k as int] == thread_names(toks@, d));
        }
        emit_thread_token(toks, thr, d, &names.1, k, out);
        proof {
            let t = ds.take(k + 1);
            assert(t.drop_last() =~= ds.take(k as int));
            assert(t.last() == d);
            assert(t.len() - 1 == k);
            assert(toks_view(out@) =~= head + thread_tokens(toks@, tt, t));
        }
        k = k + 1;
    }
    assert(ds.take(k as int) =~= ds);
}

#[verifier::spinoff_prover]
#[verifier::rlimit(80)]
fn emit_pool_thr_impl(toks: &Vec<Tok>, p: &PoolPlan, out: &mut Vec<Tok>)
    ensures
        toks_view(final(out)@) == toks_view(old(out)@) + pool_thr_impl(toks@, pool_input_view(p.input)),
{
    let ghost b = toks_view(old(out)@);
    emit_word(out, "impl");
    emit_core_path(out, "thr", "Thread");
    emit_word(out, "for");
    emit_span(toks, one_exec(p.input.thread.ident), out);
    emit_open(out, Delim::Brace);
    emit_word(out, "type");
    emit_word(out, "Pool");
    emit_punct(out, '=');
    emit_span(toks, one_exec(p.input.pool.ident), out);
    emit_punct(out, ';');
    emit_word(out, "type");
    emit_word(out, "Local");
    emit_punct(out, '=');
    emit_span(toks, one_exec(p.input.local.ident), out);
    emit_punct(out, ';');
    emit_fib_chain_fn(out);
    emit_local_fn(toks, p.input.local.ident, out);
    emit_close(out, Delim::Brace);
    assert(toks_view(out@) =~= b + pool_thr_impl(toks@, pool_input_view(p.input)));
}

#[verifier::spinoff_prover]
#[verifier::rlimit(50)]
fn emit_pool_local_struct(toks: &Vec<Tok>, l: &ThrStruct, wrapper: &String, out: &mut Vec<Tok>)
    ensures
        toks_view(final(out)@) == toks_view(old(out)@) + pool_local_struct(toks@, struct_view(*l), wrapper@),
{
    let ghost b = toks_view(old(out)@);
    let name = one_exec(l.ident);
    emit_span(toks, l.attrs, out);
    emit_span(toks, l.vis.span, out);
    emit_word(out, "struct");
    emit_span(toks, name, out);
    emit_open(out, Delim::Brace);
    emit_word(out, "preempted");
    emit_punct(out, ':');
    emit_core_path(out, "thr", "Preempted");
    emit_punct(out, ',');
    emit_thread_fields(toks, &l.fields, out);
    emit_close(out, Delim::Brace);
    let ghost m = toks_view(out@);
    emit_word(out, "struct");
    emit_string(out, wrapper);
    emit_open(out, Delim::Paren);
    emit_span(toks, name, out);
    emit_close(out, Delim::Paren);
    emit_punct(out, ';');
    emit_word(out, "unsafe");
    emit_word(out, "impl");
    emit_joint(out, ':', ':');
    emit_word(out, "core");
    emit_joint(out, ':', ':');
    emit_word(out, "marker");
    emit_joint(out, ':', ':');
    emit_word(out, "Sync");
    emit_word(out, "for");
    emit_string(out, wrapper);
    emit_open(out, Delim::Brace);
    emit_close(out, Delim::Brace);
    assert(toks_view(out@) =~= b + pool_local_struct(toks@, struct_view(*l), wrapper@));
}

#[verifier::spinoff_prover]
#[verifier::rlimit(80)]
fn emit_pool_local_new(toks: &Vec<Tok>, l: &ThrStruct, out: &mut Vec<Tok>)
    ensures
        toks_view(final(out)@) == toks_view(old(out)@) + pool_local_new(toks@, struct_view(*l)),
{
    let ghost b = toks_view(old(out)@);
    emit_word(out, "impl");
    emit_span(toks, one_exec(l.ident), out);
    emit_open(out, Delim::Brace);
    emit_word(out, "const");
    emit_word(out, "fn");
    emit_word(out, "new");
    emit_open(out, Delim::Paren);
    emit_word(out, "index");
    emit_punct(out, ':');
    emit_word(out, "usize");
    emit_close(out, Delim::Paren);
    emit_joint(out, '-', '>');
    emit_word(out, "Self");
    emit_open(out, Delim::Brace);
    emit_word(out, "Self");
    emit_open(out, Delim::Brace);
    emit_word(out, "preempted");
    emit_punct(out, ':');
    emit_core_path(out, "thr", "Preempted");
    emit_joint(out, ':', ':');
    emit_word(out, "new");
    emit_open(out, Delim::Paren);
    emit_close(out, Delim::Paren);
    emit_punct(out, ',');
    emit_thread_inits(toks, &l.fields, out);
    emit_close(out, Delim::Brace);
    emit_close(out, Delim::Brace);
    emit_close(out, Delim::Brace);
    assert(toks_view(out@) =~= b + pool_local_new(toks@, struct_view(*l)));
}

#[verifier::spinoff_prover]
#[verifier::rlimit(80)]
fn emit_pool_local_trait(toks: &Vec<Tok>, l: &ThrStruct, out: &mut Vec<Tok>)
    ensures
        toks_view(final(out)@) == toks_view(old(out)@) + pool_local_trait(toks@, struct_view(*l)),
{
    let ghost b = toks_view(old(out)@);
    emit_word(out, "impl");
    emit_core_path(out, "thr", "ThreadLocal");
    emit_word(out, "for");
    emit_span(toks, one_exec(l.ident), out);
    emit_open(out, Delim::Brace);
    emit_inline_attr(out);
    emit_word(out, "fn");
    emit_word(out, "preempted");
    emit_open(out, Delim::Paren);
    emit_punct(out, '&');
    emit_word(out, "self");
    emit_close(out, Delim::Paren);
    emit_joint(out, '-', '>');
    emit_punct(out, '&');
    emit_core_path(out, "thr", "Preempted");
    emit_open(out, Delim::Brace);
    emit_punct(out, '&');
    emit_word(out, "self");
    emit_punct(out, '.');
    emit_word(out, "preempted");
    emit_close(out, Delim::Brace);
    emit_close(out, Delim::Brace);
    assert(toks_view(out@) =~= b + pool_local_trait(toks@, struct_view(*l)));
}

#[verifier::spinoff_prover]
#[verifier::rlimit(80)]
fn emit_thr_and_local(toks: &Vec<Tok>, p: &PoolPlan, out: &mut Vec<Tok>)
    ensures
        toks_view(final(out)@) == toks_view(old(out)@) + (pool_thr_items(toks@, pool_input_view(p.input), p.local_wrapper@)
            + pool_local_struct(toks@, struct_view(p.input.local), p.local_wrapper@) + pool_local_impls(
            toks@,
            struct_view(p.input.local),
        )),
{
    let ghost b = toks_view(old(out)@);
    let ghost inp = pool_input_view(p.input);
    let ghost w = p.local_wrapper@;
    emit_thr_struct(toks, &p.input.thread, &p.local_wrapper, out);
    emit_thr_new(toks, &p.input.thread, &p.input.local, &p.local_wrapper, out);
    emit_pool_thr_impl(toks, p, out);
    let ghost m1 = toks_view(out@);
    assert(m1 =~= b + pool_thr_items(toks@, inp, w));
    emit_pool_local_struct(toks, &p.input.local, &p.local_wrapper, out);
    let ghost m2 = toks_view(out@);
    emit_pool_local_new(toks, &p.input.local, out);
    emit_pool_local_trait(toks, &p.input.local, out);
    assert(toks_view(out@) =~= m2 + pool_local_impls(toks@, struct_view(p.input.local)));
    assert(toks_view(out@) =~= b + (pool_thr_items(toks@, inp, w) + pool_local_struct(toks@, struct_view(p.input.local), w)
        + pool_local_impls(toks@, struct_view(p.input.local))));
}

/// The tokens that `thr_pool!` expands to on the input `toks`: the pool's
/// array holds `THR::new(k)` at position `k`, and the token of the `k`-th
/// thread has `THR_IDX` `k`.
#[verifier::spinoff_prover]
#[verifier::rlimit(80)]
pub fn expand_thr_pool(toks: &Vec<Tok>) -> (r: Result<Vec<Tok>, MacroError>)
    ensures
        r matches Err(e) ==> spec_expand_thr_pool(toks@) == Err::<Seq<TokV>, MacroError>(e),
        r matches Ok(v) ==> spec_expand_thr_pool(toks@) == Ok::<Seq<TokV>, MacroError>(toks_view(v@)),
{
    let p = thr_pool(toks)?;
    let ghost inp = pool_input_view(p.input);
    let ghost w = p.local_wrapper@;
    let mut out: Vec<Tok> = Vec::new();
    assert(toks_view(out@) =~= Seq::<TokV>::empty());
    emit_pool_items(toks, &p, &mut out);
    let ghost m0 = toks_view(out@);
    emit_thr_and_local(toks, &p, &mut out);
    let ghost m1 = toks_view(out@);
    let ghost mid = pool_thr_items(toks@, inp, w) + pool_local_struct(toks@, inp.local, w) + pool_local_impls(toks@, inp.local);
    assert(m1 == m0 + mid);
    emit_index_struct(toks, &p, &mut out);
    emit_index_token(toks, &p, &mut out);
    emit_thread_tokens(toks, &p, &mut out);
    let ghost ix = index_items(toks@, inp);
    assert(toks_view(out@) =~= m1 + ix);
    let ghost pi = pool_items(toks@, inp, p.static_ident@);
    assert(m0 =~= pi);
    assert(toks_view(out@) =~= pi + pool_thr_items(toks@, inp, w) + pool_local_struct(toks@, inp.local, w)
        + pool_local_impls(toks@, inp.local) + ix);
    Ok(out)
}
} // verus!
