//! `heap!`: a heap's metadata structure and its instance, sized by the
//! heap's layout in the project's configuration.
//!
//! The input is a list of `key => value;` entries: `layout => name`,
//! `metadata => vis Name`, `instance => vis NAME` (these two may carry
//! attributes) and `enable_trace_stream => number`, each at most once, the
//! first three required.
//!
//! `heap!` also reads an inline form, the one its run-pass test writes:
//! inner attributes, then `size = N;` and `pools = [[block; capacity], ..];`.
//! The input is in that form where `size` follows its inner attributes.
//! Then `heap` answers the heap it describes: its size in bytes and each
//! pool's block size and capacity, in order. No project layout is read for
//! it.

use crate::case::{cat3, to_shouty_snake_heck, heck_shouty_snake};
use crate::token::{attr_named, attrs_by_name, IntLit, int_lit_at, int_lit_value, is_literal_tok, literal_text, Delim, expect_end, expect_word, expect_group, is_open, peek_open, spec_expect_end, spec_expect_group, spec_expect_word, ErrorKind, MacroError, Span, Tok, Vis, close_of, err, expect_ident, expect_int_lit, expect_punct, expect_punct2, find_close, ident_string, ident_text, is_punct, is_word, outer_attrs, parse_path, parse_vis, peek_punct, peek_word, spec_expect_ident, spec_expect_int_lit, spec_expect_punct, spec_expect_punct2, spec_outer_attrs, spec_path, spec_vis};
use vstd::prelude::*;

verus! {

/// An item declared in the input: its attributes, visibility and name.
#[derive(PartialEq, Eq, Structural, Clone, Copy, Debug)]
pub struct Decl {
    pub attrs: Span,
    pub vis: Vis,
    pub ident: usize,
}

/// The entries read so far.
#[derive(PartialEq, Eq, Clone, Copy, Debug)]
pub struct HeapEntries {
    pub layout: Option<usize>,
    pub metadata: Option<Decl>,
    pub instance: Option<Decl>,
    pub trace_stream: Option<usize>,
}

/// The input of `heap!`, by the positions of its tokens.
#[derive(PartialEq, Eq, Clone, Copy, Debug)]
pub struct HeapInput {
    /// The layout's name.
    pub layout: usize,
    pub metadata: Decl,
    pub instance: Decl,
    /// The stream number given to `enable_trace_stream`.
    pub trace_stream: Option<usize>,
}

/// `vis Name` at `i`, with the attributes `attrs` read before the key.
pub open spec fn spec_decl(toks: Seq<Tok>, attrs: Span, i: int, end: int) -> Result<
    (Decl, usize),
    MacroError,
> {
    let v = spec_vis(toks, i, end);
    match spec_expect_ident(toks, v.span.end as int, end) {
        Err(e) => Err(e),
        Ok(p) => Ok((Decl { attrs, vis: v, ident: v.span.end }, p)),
    }
}

fn parse_decl(toks: &Vec<Tok>, attrs: Span, i: usize, end: usize) -> (r: Result<
    (Decl, usize),
    MacroError,
>)
    requires
        end <= toks@.len(),
    ensures
        r == spec_decl(toks@, attrs, i as int, end as int),
        r matches Ok((_, n)) ==> i < n,
{
    let v = parse_vis(toks, i, end);
    let p = expect_ident(toks, v.span.end, end)?;
    Ok((Decl { attrs, vis: v, ident: v.span.end }, p))
}

/// One entry `attrs key => value` at `i`, given the entries `st` read before:
/// the entries with it, and the position after its value.
pub open spec fn spec_entry(toks: Seq<Tok>, i: int, end: int, st: HeapEntries) -> Result<
    (HeapEntries, usize),
    MacroError,
> {
    match spec_outer_attrs(toks, i, end) {
        Err(e) => Err(e),
        Ok(a) => match spec_expect_ident(toks, a as int, end) {
            Err(e) => Err(e),
            Ok(k) => match spec_expect_punct2(toks, k as int, end, '=', '>') {
                Err(e) => Err(e),
                Ok(p) => {
                    let key = a as int;
                    let no_attrs = a as int == i;
                    let attrs = Span { start: i as usize, end: a };
                    if no_attrs && is_word(toks, key, end, "layout"@) {
                        if st.layout is Some {
                            err(p as int, ErrorKind::MultipleKey("layout"))
                        } else {
                            match spec_expect_ident(toks, p as int, end) {
                                Err(e) => Err(e),
                                Ok(q) => Ok((HeapEntries { layout: Some(p), ..st }, q)),
                            }
                        }
                    } else if is_word(toks, key, end, "metadata"@) {
                        if st.metadata is Some {
                            err(p as int, ErrorKind::MultipleKey("metadata"))
                        } else {
                            match spec_decl(toks, attrs, p as int, end) {
                                Err(e) => Err(e),
                                Ok((d, q)) => Ok((HeapEntries { metadata: Some(d), ..st }, q)),
                            }
                        }
                    } else if is_word(toks, key, end, "instance"@) {
                        if st.instance is Some {
                            err(p as int, ErrorKind::MultipleKey("instance"))
                        } else {
                            match spec_decl(toks, attrs, p as int, end) {
                                Err(e) => Err(e),
                                Ok((d, q)) => Ok((HeapEntries { instance: Some(d), ..st }, q)),
                            }
                        }
                    } else if no_attrs && is_word(toks, key, end, "enable_trace_stream"@) {
                        if st.trace_stream is Some {
                            err(p as int, ErrorKind::MultipleKey("trace_stream"))
                        } else {
                            match spec_expect_int_lit(toks, p as int, end) {
                                Err(e) => Err(e),
                                Ok(q) => Ok((HeapEntries { trace_stream: Some(p), ..st }, q)),
                            }
                        }
                    } else {
                        err(p as int, ErrorKind::UnknownKey)
                    }
                },
            },
        },
    }
}

fn parse_entry(toks: &Vec<Tok>, i: usize, end: usize, st: HeapEntries) -> (r: Result<
    (HeapEntries, usize),
    MacroError,
>)
    requires
        end <= toks@.len(),
        i < end,
    ensures
        r == spec_entry(toks@, i as int, end as int, st),
        r matches Ok((_, n)) ==> i < n,
        r matches Ok((st2, _)) ==> ((st.instance matches Some(d) ==> d.attrs.start <= d.attrs.end
            <= end) ==> (st2.instance matches Some(d) ==> d.attrs.start <= d.attrs.end <= end)),
{
    let a = outer_attrs(toks, i, end)?;
    let k = expect_ident(toks, a, end)?;
    let p = expect_punct2(toks, k, end, '=', '>')?;
    let no_attrs = a == i;
    let attrs = Span { start: i, end: a };
    if no_attrs && peek_word(toks, a, end, "layout") {
        if st.layout.is_some() {
            Err(MacroError { at: p, kind: ErrorKind::MultipleKey("layout") })
        } else {
            let q = expect_ident(toks, p, end)?;
            Ok((HeapEntries { layout: Some(p), ..st }, q))
        }
    } else if peek_word(toks, a, end, "metadata") {
        if st.metadata.is_some() {
            Err(MacroError { at: p, kind: ErrorKind::MultipleKey("metadata") })
        } else {
            let (d, q) = parse_decl(toks, attrs, p, end)?;
            Ok((HeapEntries { metadata: Some(d), ..st }, q))
        }
    } else if peek_word(toks, a, end, "instance") {
        if st.instance.is_some() {
            Err(MacroError { at: p, kind: ErrorKind::MultipleKey("instance") })
        } else {
            let (d, q) = parse_decl(toks, attrs, p, end)?;
            Ok((HeapEntries { instance: Some(d), ..st }, q))
        }
    } else if no_attrs && peek_word(toks, a, end, "enable_trace_stream") {
        if st.trace_stream.is_some() {
            Err(MacroError { at: p, kind: ErrorKind::MultipleKey("trace_stream") })
        } else {
            let q = expect_int_lit(toks, p, end)?;
            Ok((HeapEntries { trace_stream: Some(p), ..st }, q))
        }
    } else {
        Err(MacroError { at: p, kind: ErrorKind::UnknownKey })
    }
}

/// The entries from `i` on, given those read before: after each entry but
/// the last comes a `;`.
pub open spec fn spec_entries(toks: Seq<Tok>, i: int, end: int, st: HeapEntries) -> Result<
    HeapEntries,
    MacroError,
>
    decreases end - i,
{
    if i >= end {
        Ok(st)
    } else {
        match spec_entry(toks, i, end, st) {
            Err(e) => Err(e),
            Ok((st2, q)) => if q < end {
                match spec_expect_punct(toks, q as int, end, ';') {
                    Err(e) => Err(e),
                    Ok(q2) => if q2 > i {
                        spec_entries(toks, q2 as int, end, st2)
                    } else {
                        Ok(st2)
                    },
                }
            } else if q > i {
                spec_entries(toks, q as int, end, st2)
            } else {
                Ok(st2)
            },
        }
    }
}

pub open spec fn no_entries() -> HeapEntries {
    HeapEntries { layout: None, metadata: None, instance: None, trace_stream: None }
}

/// The input of `heap!`: its entries, with the required ones given.
pub open spec fn spec_heap_input(toks: Seq<Tok>) -> Result<HeapInput, MacroError> {
    let end = toks.len() as int;
    match spec_entries(toks, 0, end, no_entries()) {
        Err(e) => Err(e),
        Ok(st) => match (st.layout, st.metadata, st.instance) {
            (None, _, _) => err(end, ErrorKind::MissingKey("layout")),
            (Some(_), None, _) => err(end, ErrorKind::MissingKey("metadata")),
            (Some(_), Some(_), None) => err(end, ErrorKind::MissingKey("instance")),
            (Some(l), Some(m), Some(n)) => Ok(
                HeapInput { layout: l, metadata: m, instance: n, trace_stream: st.trace_stream },
            ),
        },
    }
}

/// Reads the input of `heap!`.
pub fn parse_heap_input(toks: &Vec<Tok>) -> (r: Result<HeapInput, MacroError>)
    ensures
        r == spec_heap_input(toks@),
        r matches Ok(inp) ==> inp.instance.attrs.start <= inp.instance.attrs.end <= toks@.len(),
{
    let end = toks.len();
    let mut st = HeapEntries { layout: None, metadata: None, instance: None, trace_stream: None };
    let mut i: usize = 0;
    while i < end
        invariant
            end == toks@.len(),
            spec_entries(toks@, 0, end as int, no_entries()) == spec_entries(
                toks@,
                i as int,
                end as int,
                st,
            ),
            st.instance matches Some(d) ==> d.attrs.start <= d.attrs.end <= end,
        decreases end - i,
    {
        let (st2, q) = parse_entry(toks, i, end, st)?;
        st = st2;
        if q < end {
            i = expect_punct(toks, q, end, ';')?;
        } else {
            i = q;
        }
    }
    match (st.layout, st.metadata, st.instance) {
        (None, _, _) => Err(MacroError { at: end, kind: ErrorKind::MissingKey("layout") }),
        (Some(_), None, _) => Err(MacroError { at: end, kind: ErrorKind::MissingKey("metadata") }),
        (Some(_), Some(_), None) => Err(
            MacroError { at: end, kind: ErrorKind::MissingKey("instance") },
        ),
        (Some(l), Some(m), Some(n)) => Ok(
            HeapInput { layout: l, metadata: m, instance: n, trace_stream: st.trace_stream },
        ),
    }
}

// ---------------------------------------------------------------------------
// `#[global_allocator]`

/// The attribute whose `#` is at `a` and whose `]` is at `c` asks for a
/// global allocator: its path is the single word `global_allocator`, or that
/// word stands anywhere in the tokens after its path.
pub open spec fn attr_asks_global(toks: Seq<Tok>, a: int, c: int) -> bool {
    ||| is_word(toks, a + 2, c, "global_allocator"@) && attr_path_end(toks, a, c) == a + 3
    ||| exists|k: int|
        attr_path_end(toks, a, c) <= k < c && #[trigger] is_word(toks, k, c, "global_allocator"@)
}

/// Where the path of the attribute whose `#` is at `a` ends.
pub open spec fn attr_path_end(toks: Seq<Tok>, a: int, c: int) -> int {
    match spec_path(toks, a + 2, c) {
        Ok(e) => e as int,
        Err(_) => a + 2,
    }
}

/// One of the attributes in the run that starts at `i` asks for a global
/// allocator.
pub open spec fn attrs_ask_global(toks: Seq<Tok>, i: int, end: int) -> bool
    decreases end - i,
{
    if !is_punct(toks, i, end, '#') {
        false
    } else {
        match close_of(toks, i + 1, end) {
            Some(c) => attr_asks_global(toks, i, c) || (c + 1 > i && c + 1 <= end
                && attrs_ask_global(toks, c + 1, end)),
            None => false,
        }
    }
}

/// Any attribute of the run that starts at `i` that asks for a global
/// allocator makes the run ask for one, wherever it stands in the run, and
/// the run asks for one only through such an attribute: the attributes of
/// the run are listed by `attrs_by_name` (those named `name` and the others,
/// for any `name`).
pub proof fn law_any_attribute_asks_global(toks: Seq<Tok>, i: int, end: int, name: Seq<char>)
    requires
        toks.len() <= usize::MAX,
    ensures
        forall|named: bool, m: int|
            0 <= m < attrs_by_name(toks, i, end, name, named).len() ==> {
                let p = #[trigger] attrs_by_name(toks, i, end, name, named)[m] as int;
                (close_of(toks, p + 1, end) matches Some(c) && attr_asks_global(toks, p, c))
                    ==> attrs_ask_global(toks, i, end)
            },
        attrs_ask_global(toks, i, end) ==> exists|named: bool, m: int|
            0 <= m < attrs_by_name(toks, i, end, name, named).len() && {
                let p = #[trigger] attrs_by_name(toks, i, end, name, named)[m] as int;
                close_of(toks, p + 1, end) matches Some(c) && attr_asks_global(toks, p, c)
            },
    decreases end - i,
{
    if is_punct(toks, i, end, '#') {
        match close_of(toks, i + 1, end) {
            Some(c) => {
                let more = c + 1 > i && c + 1 <= end;
                if more {
                    law_any_attribute_asks_global(toks, c + 1, end, name);
                }
                assert forall|named: bool, m: int|
                    0 <= m < attrs_by_name(toks, i, end, name, named).len() implies {
                        let p = #[trigger] attrs_by_name(toks, i, end, name, named)[m] as int;
                        (close_of(toks, p + 1, end) matches Some(c) && attr_asks_global(toks, p, c))
                            ==> attrs_ask_global(toks, i, end)
                    } by {
                    let ps = attrs_by_name(toks, i, end, name, named);
                    let rest = if more {
                        attrs_by_name(toks, c + 1, end, name, named)
                    } else {
                        Seq::<usize>::empty()
                    };
                    if attr_named(toks, i, end, name) == named {
                        assert(ps == seq![i as usize] + rest);
                        assert((i as usize) as int == i);
                        if m > 0 {
                            assert(ps[m] == rest[m - 1]);
                        }
                    } else {
                        assert(ps == rest);
                    }
                }
                if attrs_ask_global(toks, i, end) {
                    let named = attr_named(toks, i, end, name);
                    let ps = attrs_by_name(toks, i, end, name, named);
                    if attr_asks_global(toks, i, c) {
                        assert(ps[0] == i as usize);
                        assert((i as usize) as int == i);
                        assert(0 < ps.len());
                    } else {
                        assert(more && attrs_ask_global(toks, c + 1, end));
                        let (nd, m) = choose|nd: bool, m: int|
                            0 <= m < attrs_by_name(toks, c + 1, end, name, nd).len() && {
                                let p = #[trigger] attrs_by_name(toks, c + 1, end, name, nd)[m] as int;
                                close_of(toks, p + 1, end) matches Some(c) && attr_asks_global(toks, p, c)
                            };
                        let rest = attrs_by_name(toks, c + 1, end, name, nd);
                        let all = attrs_by_name(toks, i, end, name, nd);
                        if attr_named(toks, i, end, name) == nd {
                            assert(all == seq![i as usize] + rest);
                            assert(all[m + 1] == rest[m]);
                        } else {
                            assert(all == rest);
                        }
                    }
                }
            },
            None => {},
        }
    }
}

fn attr_asks_global_exec(toks: &Vec<Tok>, a: usize, c: usize) -> (r: bool)
    requires
        c <= toks@.len(),
        a < c,
    ensures
        r == attr_asks_global(toks@, a as int, c as int),
{
    let ghost spe: int = attr_path_end(toks@, a as int, c as int);
    let path_end = if c >= 2 && a <= c - 2 {
        match parse_path(toks, a + 2, c) {
            Ok(e) => e,
            Err(_) => a + 2,
        }
    } else {
        c
    };
    assert(spe >= path_end);
    assert(c >= 2 && a <= c - 2 ==> spe == path_end);
    assert(path_end < c ==> spe == path_end);
    if c >= 3 && a <= c - 3 && peek_word(toks, a + 2, c, "global_allocator") && path_end == a + 3 {
        assert(is_word(toks@, a + 2, c as int, "global_allocator"@) && spe == a + 3);
        return true;
    }
    assert(!(is_word(toks@, a + 2, c as int, "global_allocator"@) && spe == a + 3));
    let mut k = path_end;
    while k < c
        invariant
            c <= toks@.len(),
            path_end <= k,
            spe == attr_path_end(toks@, a as int, c as int),
            spe >= path_end,
            path_end < c ==> spe == path_end,
            forall|m: int| path_end <= m < k ==> !is_word(toks@, m, c as int, "global_allocator"@),
        decreases c - k,
    {
        if peek_word(toks, k, c, "global_allocator") {
            assert(spe <= k < c && is_word(toks@, k as int, c as int, "global_allocator"@));
            assert(exists|k2: int|
                spe <= k2 < c && #[trigger] is_word(toks@, k2, c as int, "global_allocator"@));
            return true;
        }
        k = k + 1;
    }
    false
}

fn attrs_ask_global_exec(toks: &Vec<Tok>, i: usize, end: usize) -> (r: bool)
    requires
        end <= toks@.len(),
    ensures
        r == attrs_ask_global(toks@, i as int, end as int),
{
    let mut j = i;
    while peek_punct(toks, j, end, '#')
        invariant
            end <= toks@.len(),
            attrs_ask_global(toks@, i as int, end as int) == attrs_ask_global(
                toks@,
                j as int,
                end as int,
            ),
        decreases end - j,
    {
        if j + 1 >= end {
            return false;
        }
        match find_close(toks, j + 1, end) {
            Some(c) => {
                if attr_asks_global_exec(toks, j, c) {
                    return true;
                }
                j = c + 1;
            },
            None => {
                return false;
            },
        }
    }
    false
}

// ---------------------------------------------------------------------------
// The expansion

/// A heap of the project's layout: its name and the number of its pools.
#[derive(Debug)]
pub struct HeapLayout {
    pub name: String,
    pub pools: usize,
}

pub open spec fn layout_view(l: HeapLayout) -> (Seq<char>, usize) {
    (l.name@, l.pools)
}

/// The number of pools of the first heap named `name`.
pub open spec fn find_pools(layouts: Seq<(Seq<char>, usize)>, name: Seq<char>) -> Option<usize>
    decreases layouts.len(),
{
    if layouts.len() == 0 {
        None
    } else if layouts[0].0 == name {
        Some(layouts[0].1)
    } else {
        find_pools(layouts.drop_first(), name)
    }
}

/// The pools given for a heap are those of the first heap of the layout
/// with that name, and there are none exactly where the layout has no heap
/// of that name.
pub proof fn law_pools_of_first_named(layouts: Seq<(Seq<char>, usize)>, name: Seq<char>)
    ensures
        find_pools(layouts, name) is None <==> forall|k: int|
            0 <= k < layouts.len() ==> (#[trigger] layouts[k]).0 != name,
        find_pools(layouts, name) matches Some(n) ==> exists|k: int|
            0 <= k < layouts.len() && #[trigger] layouts[k] == (name, n) && forall|j: int|
                0 <= j < k ==> (#[trigger] layouts[j]).0 != name,
    decreases layouts.len(),
{
    if layouts.len() > 0 {
        let rest = layouts.drop_first();
        law_pools_of_first_named(rest, name);
        if layouts[0].0 == name {
            assert(layouts[0] == (name, layouts[0].1));
        } else {
            assert forall|k: int| 0 <= k < rest.len() implies rest[k] == layouts[k + 1] by {}
            if find_pools(rest, name) is None {
                assert forall|k: int| 0 <= k < layouts.len() implies (#[trigger] layouts[k]).0 != name by {
                    if k > 0 {
                        assert(layouts[k] == rest[k - 1]);
                    }
                }
            } else {
                let n = find_pools(rest, name)->0;
                let k = choose|k: int|
                    0 <= k < rest.len() && #[trigger] rest[k] == (name, n) && forall|j: int|
                        0 <= j < k ==> (#[trigger] rest[j]).0 != name;
                assert(layouts[k + 1] == (name, n));
                assert forall|j: int| 0 <= j < k + 1 implies (#[trigger] layouts[j]).0 != name by {
                    if j > 0 {
                        assert(layouts[j] == rest[j - 1]);
                    }
                }
                assert(rest[k].0 == name);
            }
        }
    }
}

fn find_pools_exec(layouts: &Vec<HeapLayout>, name: &String) -> (r: Option<usize>)
    ensures
        r == find_pools(layouts@.map_values(|l: HeapLayout| layout_view(l)), name@),
{
    let ghost view = layouts@.map_values(|l: HeapLayout| layout_view(l));
    let mut k: usize = 0;
    assert(view.skip(0) =~= view);
    while k < layouts.len()
        invariant
            k <= layouts@.len(),
            view == layouts@.map_values(|l: HeapLayout| layout_view(l)),
            find_pools(view, name@) == find_pools(view.skip(k as int), name@),
        decreases layouts@.len() - k,
    {
        let ghost rest = view.skip(k as int);
        assert(rest[0] == layout_view(layouts@[k as int]));
        assert(rest.drop_first() =~= view.skip(k + 1));
        if layouts[k].name == *name {
            return Some(layouts[k].pools);
        }
        k = k + 1;
    }
    assert(view.skip(k as int).len() == 0);
    None
}

/// What `heap!` expands to.
#[derive(Debug)]
pub struct HeapPlan {
    pub input: HeapInput,
    /// The number of pools of the heap.
    pub pools: usize,
    /// The link section of the instance: `.heap_{layout}_rt`.
    pub section: String,
    /// The linker symbols `HEAP_{LAYOUT}_RT_LOAD`, `_BASE` and `_END`.
    pub rt_load: String,
    pub rt_base: String,
    pub rt_end: String,
    /// Whether the metadata also implements `GlobalAlloc`.
    pub global_alloc: bool,
}

/// The project's layout as `heap!` reads it: `Ok` with its heaps, or `Err`
/// where it could not be read.
pub enum LayoutConfig {
    Read(Vec<HeapLayout>),
    Unreadable,
}

pub open spec fn config_view(c: LayoutConfig) -> Option<Seq<(Seq<char>, usize)>> {
    match c {
        LayoutConfig::Read(v) => Some(v@.map_values(|l: HeapLayout| layout_view(l))),
        LayoutConfig::Unreadable => None,
    }
}

/// The names `heap!` gives the linker symbols and the section.
pub open spec fn heap_symbol(layout: Seq<char>, suffix: Seq<char>) -> Seq<char> {
    "HEAP_"@ + heck_shouty_snake(layout) + suffix
}

/// The outcome of `heap!` on `toks`, the layout read as `config`: the input,
/// then the layout, then the heap it names.
pub open spec fn spec_heap(toks: Seq<Tok>, config: Option<Seq<(Seq<char>, usize)>>) -> Result<
    (HeapInput, usize),
    MacroError,
> {
    match spec_heap_input(toks) {
        Err(e) => Err(e),
        Ok(input) => match config {
            None => err(0, ErrorKind::Invalid("the layout could not be read")),
            Some(layouts) => match find_pools(layouts, ident_text(toks, input.layout as int)) {
                None => err(input.layout as int, ErrorKind::Invalid("no such heap in the layout")),
                Some(n) => Ok((input, n)),
            },
        },
    }
}

/// `heap!` in the form of `key => value;` entries on the input `toks`, the
/// project's layout read as `config`.
pub fn heap_layout(toks: &Vec<Tok>, config: &LayoutConfig) -> (r: Result<HeapPlan, MacroError>)
    ensures
        r matches Err(e) ==> spec_heap(toks@, config_view(*config)) == Err::<
            (HeapInput, usize),
            MacroError,
        >(e),
        r matches Ok(p) ==> {
            &&& spec_heap(toks@, config_view(*config)) == Ok::<(HeapInput, usize), MacroError>(
                (p.input, p.pools),
            )
            &&& p.section@ == ".heap_"@ + ident_text(toks@, p.input.layout as int) + "_rt"@
            &&& p.rt_load@ == heap_symbol(ident_text(toks@, p.input.layout as int), "_RT_LOAD"@)
            &&& p.rt_base@ == heap_symbol(ident_text(toks@, p.input.layout as int), "_RT_BASE"@)
            &&& p.rt_end@ == heap_symbol(ident_text(toks@, p.input.layout as int), "_RT_END"@)
            &&& p.global_alloc == attrs_ask_global(
                toks@,
                p.input.instance.attrs.start as int,
                p.input.instance.attrs.end as int,
            )
        },
{
    let input = parse_heap_input(toks)?;
    let layouts = match config {
        LayoutConfig::Read(v) => v,
        LayoutConfig::Unreadable => {
            return Err(MacroError { at: 0, kind: ErrorKind::Invalid("the layout could not be read") });
        },
    };
    let name = ident_string(toks, input.layout);
    let pools = match find_pools_exec(layouts, &name) {
        Some(n) => n,
        None => {
            return Err(
                MacroError { at: input.layout, kind: ErrorKind::Invalid("no such heap in the layout") },
            );
        },
    };
    let shouty = to_shouty_snake_heck(name.as_str());
    let section = cat3(".heap_", name.as_str(), "_rt");
    let rt_load = cat3("HEAP_", shouty.as_str(), "_RT_LOAD");
    let rt_base = cat3("HEAP_", shouty.as_str(), "_RT_BASE");
    let rt_end = cat3("HEAP_", shouty.as_str(), "_RT_END");
    let global_alloc = attrs_ask_global_exec(
        toks,
        input.instance.attrs.start,
        input.instance.attrs.end,
    );
    Ok(HeapPlan { input, pools, section, rt_load, rt_base, rt_end, global_alloc })
}


// ---------------------------------------------------------------------------
// The inline form

/// What the inline form gives: the inner attributes (each `#!` followed by
/// the group at this span), the position of the size, and for each pool the
/// positions of its block size and of its capacity, in order.
#[derive(Debug)]
pub struct InlineHeap {
    pub attrs: Vec<Span>,
    pub size: usize,
    pub pools: Vec<(usize, usize)>,
}

pub struct InlineHeapV {
    pub attrs: Seq<Span>,
    pub size: usize,
    pub pools: Seq<(usize, usize)>,
}

/// The inner attributes `#![..]` from `i` on, added to `acc`, and the
/// position after them.
pub open spec fn spec_inner_attrs(toks: Seq<Tok>, i: int, end: int, acc: Seq<Span>) -> (Seq<Span>, int)
    decreases end - i,
{
    if is_punct(toks, i, end, '#') && is_punct(toks, i + 1, end, '!') && is_open(
        toks,
        i + 2,
        end,
        Delim::Bracket,
    ) {
        match close_of(toks, i + 2, end) {
            Some(c) => if c + 1 > i && c + 1 <= end {
                spec_inner_attrs(toks, c + 1, end, acc.push(Span { start: (i + 2) as usize, end: (c + 1) as usize }))
            } else {
                (acc, i)
            },
            None => (acc, i),
        }
    } else {
        (acc, i)
    }
}

/// One pool `[block; capacity]` at `i`, before `c`: the positions of its two
/// numbers and the position after the pool.
pub open spec fn spec_pool(toks: Seq<Tok>, i: int, c: int) -> Result<((usize, usize), usize), MacroError> {
    match spec_expect_group(toks, i, c, Delim::Bracket) {
        Err(e) => Err(e),
        Ok(g) => match spec_expect_int_lit(toks, i + 1, g as int) {
            Err(e) => Err(e),
            Ok(_) => match spec_expect_punct(toks, i + 2, g as int, ';') {
                Err(e) => Err(e),
                Ok(_) => match spec_expect_int_lit(toks, i + 3, g as int) {
                    Err(e) => Err(e),
                    Ok(_) => match spec_expect_end(i + 4, g as int) {
                        Err(e) => Err(e),
                        Ok(_) => Ok((((i + 1) as usize, (i + 3) as usize), (g + 1) as usize)),
                    },
                },
            },
        },
    }
}

/// The pools from `i` on, before `c`, separated by commas (one may end
/// them), added to `acc`.
pub open spec fn spec_pools(toks: Seq<Tok>, i: int, c: int, acc: Seq<(usize, usize)>) -> Result<
    Seq<(usize, usize)>,
    MacroError,
>
    decreases c - i,
{
    if i >= c {
        Ok(acc)
    } else {
        match spec_pool(toks, i, c) {
            Err(e) => Err(e),
            Ok((p, n)) => if n >= c {
                Ok(acc.push(p))
            } else if is_punct(toks, n as int, c, ',') && n + 1 > i {
                spec_pools(toks, n + 1, c, acc.push(p))
            } else {
                err(n as int, ErrorKind::ExpectedPunct(','))
            },
        }
    }
}

/// The inline form on the input `toks`: inner attributes, `size = N;`,
/// `pools = [..];`, and nothing after.
pub open spec fn spec_heap_inline(toks: Seq<Tok>) -> Result<InlineHeapV, MacroError> {
    let end = toks.len() as int;
    let (attrs, i) = spec_inner_attrs(toks, 0, end, Seq::empty());
    match spec_expect_word(toks, i, end, "size") {
        Err(e) => Err(e),
        Ok(_) => match spec_expect_punct(toks, i + 1, end, '=') {
            Err(e) => Err(e),
            Ok(_) => match spec_expect_int_lit(toks, i + 2, end) {
                Err(e) => Err(e),
                Ok(_) => match spec_expect_punct(toks, i + 3, end, ';') {
                    Err(e) => Err(e),
                    Ok(_) => match spec_expect_word(toks, i + 4, end, "pools") {
                        Err(e) => Err(e),
                        Ok(_) => match spec_expect_punct(toks, i + 5, end, '=') {
                            Err(e) => Err(e),
                            Ok(_) => match spec_expect_group(toks, i + 6, end, Delim::Bracket) {
                                Err(e) => Err(e),
                                Ok(c) => match spec_pools(toks, i + 7, c as int, Seq::empty()) {
                                    Err(e) => Err(e),
                                    Ok(pools) => match spec_expect_punct(toks, c + 1, end, ';') {
                                        Err(e) => Err(e),
                                        Ok(_) => match spec_expect_end(c + 2, end) {
                                            Err(e) => Err(e),
                                            Ok(_) => Ok(InlineHeapV { attrs, size: (i + 2) as usize, pools }),
                                        },
                                    },
                                },
                            },
                        },
                    },
                },
            },
        },
    }
}

fn parse_pool(toks: &Vec<Tok>, i: usize, c: usize) -> (r: Result<((usize, usize), usize), MacroError>)
    ensures
        r == spec_pool(toks@, i as int, c as int),
        r matches Ok((_, n)) ==> i < n <= c,
{
    let g = expect_group(toks, i, c, Delim::Bracket)?;
    expect_int_lit(toks, i + 1, g)?;
    expect_punct(toks, i + 2, g, ';')?;
    expect_int_lit(toks, i + 3, g)?;
    expect_end(i + 4, g)?;
    Ok(((i + 1, i + 3), g + 1))
}

/// The inner attributes at the start of the input, and the position after
/// them.
#[verifier::loop_isolation(false)]
fn inner_attrs(toks: &Vec<Tok>) -> (r: (Vec<Span>, usize))
    ensures
        spec_inner_attrs(toks@, 0, toks@.len() as int, Seq::empty()) == (r.0@, r.1 as int),
        r.1 <= toks@.len(),
{
    let end = toks.len();
    let mut attrs: Vec<Span> = Vec::new();
    let mut i: usize = 0;
    loop
        invariant
            i <= end,
            end == toks@.len(),
            spec_inner_attrs(toks@, 0, end as int, Seq::empty()) == spec_inner_attrs(
                toks@,
                i as int,
                end as int,
                attrs@,
            ),
        decreases end - i,
    {
        if peek_punct(toks, i, end, '#') && peek_punct(toks, i + 1, end, '!') && peek_open(
            toks,
            i + 2,
            end,
            Delim::Bracket,
        ) {
            match find_close(toks, i + 2, end) {
                Some(c) => {
                    attrs.push(Span { start: i + 2, end: c + 1 });
                    i = c + 1;
                },
                None => {
                    break ;
                },
            }
        } else {
            break ;
        }
    }
    (attrs, i)
}

/// The inline form of `heap!` on the input `toks`.
#[verifier::loop_isolation(false)]
pub fn heap_inline(toks: &Vec<Tok>) -> (r: Result<InlineHeap, MacroError>)
    ensures
        r matches Err(e) ==> spec_heap_inline(toks@) == Err::<InlineHeapV, MacroError>(e),
        r matches Ok(h) ==> spec_heap_inline(toks@) == Ok::<InlineHeapV, MacroError>(
            InlineHeapV { attrs: h.attrs@, size: h.size, pools: h.pools@ },
        ),
{
    let end = toks.len();
    let (attrs, i) = inner_attrs(toks);
    expect_word(toks, i, end, "size")?;
    expect_punct(toks, i + 1, end, '=')?;
    expect_int_lit(toks, i + 2, end)?;
    expect_punct(toks, i + 3, end, ';')?;
    expect_word(toks, i + 4, end, "pools")?;
    expect_punct(toks, i + 5, end, '=')?;
    let c = expect_group(toks, i + 6, end, Delim::Bracket)?;
    let mut pools: Vec<(usize, usize)> = Vec::new();
    let mut j = i + 7;
    while j < c
        invariant
            i + 7 <= j,
            spec_pools(toks@, i + 7, c as int, Seq::empty()) == spec_pools(toks@, j as int, c as int, pools@),
        decreases c - j,
    {
        let (p, n) = parse_pool(toks, j, c)?;
        if n >= c {
            pools.push(p);
            j = n;
        } else if peek_punct(toks, n, c, ',') {
            pools.push(p);
            j = n + 1;
        } else {
            return Err(MacroError { at: n, kind: ErrorKind::ExpectedPunct(',') });
        }
    }
    expect_punct(toks, c + 1, end, ';')?;
    expect_end(c + 2, end)?;
    Ok(InlineHeap { attrs, size: i + 2, pools })
}

// ---------------------------------------------------------------------------
// Either form

/// The input is in the inline form: after its inner attributes comes
/// `size`.
pub open spec fn is_inline_form(toks: Seq<Tok>) -> bool {
    is_word(toks, spec_inner_attrs(toks, 0, toks.len() as int, Seq::empty()).1, toks.len() as int, "size"@)
}

/// The value of the integer literal at `p`, which must fit in a `u64`.
pub open spec fn spec_u64_at(toks: Seq<Tok>, p: int) -> Result<u64, MacroError> {
    if !is_literal_tok(toks, p, toks.len() as int) {
        err(p, ErrorKind::ExpectedIntLit)
    } else {
        match int_lit_value(literal_text(toks, p)) {
            Some(v) => if v <= u64::MAX {
                Ok(v as u64)
            } else {
                err(p, ErrorKind::IntOverflow)
            },
            None => err(p, ErrorKind::ExpectedIntLit),
        }
    }
}

/// The block size and the capacity of each pool at `ps`, in order; the
/// first number that does not fit in a `u64` is the error.
pub open spec fn spec_pool_values(toks: Seq<Tok>, ps: Seq<(usize, usize)>) -> Result<Seq<(u64, u64)>, MacroError>
    decreases ps.len(),
{
    if ps.len() == 0 {
        Ok(Seq::empty())
    } else {
        match spec_pool_values(toks, ps.drop_last()) {
            Err(e) => Err(e),
            Ok(vs) => match spec_u64_at(toks, ps.last().0 as int) {
                Err(e) => Err(e),
                Ok(b) => match spec_u64_at(toks, ps.last().1 as int) {
                    Err(e) => Err(e),
                    Ok(c) => Ok(vs.push((b, c))),
                },
            },
        }
    }
}

/// The heap that the inline form describes: what it reads, its size in
/// bytes, and each pool's block size and capacity.
pub open spec fn spec_inline_plan(toks: Seq<Tok>) -> Result<(InlineHeapV, u64, Seq<(u64, u64)>), MacroError> {
    match spec_heap_inline(toks) {
        Err(e) => Err(e),
        Ok(h) => match spec_u64_at(toks, h.size as int) {
            Err(e) => Err(e),
            Ok(size) => match spec_pool_values(toks, h.pools) {
                Err(e) => Err(e),
                Ok(pools) => Ok((h, size, pools)),
            },
        },
    }
}

/// The heap of the inline form.
#[derive(Debug)]
pub struct InlinePlan {
    pub heap: InlineHeap,
    /// The heap's size in bytes.
    pub size: u64,
    /// Each pool's block size and capacity, in order.
    pub pools: Vec<(u64, u64)>,
}

/// What `heap!` reads: a heap of the project's layout, or one described
/// inline.
#[derive(Debug)]
pub enum HeapForm {
    Layout(HeapPlan),
    Inline(InlinePlan),
}

fn u64_at(toks: &Vec<Tok>, p: usize) -> (r: Result<u64, MacroError>)
    ensures
        r == spec_u64_at(toks@, p as int),
{
    match int_lit_at(toks, p, toks.len()) {
        IntLit::Value(v) => Ok(v),
        IntLit::Huge => Err(MacroError { at: p, kind: ErrorKind::IntOverflow }),
        IntLit::NotInt => Err(MacroError { at: p, kind: ErrorKind::ExpectedIntLit }),
    }
}

/// The inline form of `heap!` on the input `toks`, with the values of its
/// numbers.
pub fn inline_plan(toks: &Vec<Tok>) -> (r: Result<InlinePlan, MacroError>)
    ensures
        r matches Err(e) ==> spec_inline_plan(toks@) == Err::<(InlineHeapV, u64, Seq<(u64, u64)>), MacroError>(e),
        r matches Ok(p) ==> spec_inline_plan(toks@) == Ok::<(InlineHeapV, u64, Seq<(u64, u64)>), MacroError>(
            (InlineHeapV { attrs: p.heap.attrs@, size: p.heap.size, pools: p.heap.pools@ }, p.size, p.pools@),
        ),
{
    let heap = heap_inline(toks)?;
    let size = u64_at(toks, heap.size)?;
    let ghost ps = heap.pools@;
    let mut pools: Vec<(u64, u64)> = Vec::new();
    let mut k: usize = 0;
    assert(ps.take(0) =~= Seq::<(usize, usize)>::empty());
    while k < heap.pools.len()
        invariant
            k <= ps.len(),
            ps == heap.pools@,
            spec_heap_inline(toks@) == Ok::<InlineHeapV, MacroError>(
                InlineHeapV { attrs: heap.attrs@, size: heap.size, pools: ps },
            ),
            spec_u64_at(toks@, heap.size as int) == Ok::<u64, MacroError>(size),
            spec_pool_values(toks@, ps.take(k as int)) == Ok::<Seq<(u64, u64)>, MacroError>(pools@),
        decreases ps.len() - k,
    {
        let (bp, cp) = heap.pools[k];
        let ghost t = ps.take(k + 1);
        assert(t.drop_last() =~= ps.take(k as int));
        assert(t.last() == (bp, cp));
        let b = match u64_at(toks, bp) {
            Ok(b) => b,
            Err(e) => {
                proof {
                    assert(spec_pool_values(toks@, t) == Err::<Seq<(u64, u64)>, MacroError>(e));
                    lemma_pool_values_error(toks@, ps, k + 1, e);
                }
                return Err(e);
            },
        };
        let c = match u64_at(toks, cp) {
            Ok(c) => c,
            Err(e) => {
                proof {
                    assert(spec_pool_values(toks@, t) == Err::<Seq<(u64, u64)>, MacroError>(e));
                    lemma_pool_values_error(toks@, ps, k + 1, e);
                }
                return Err(e);
            },
        };
        let ghost before = pools@;
        pools.push((b, c));
        assert(spec_pool_values(toks@, t) == Ok::<Seq<(u64, u64)>, MacroError>(before.push((b, c))));
        k = k + 1;
    }
    assert(ps.take(k as int) =~= ps);
    Ok(InlinePlan { heap, size, pools })
}

/// An error among the first `k` pools is the error of them all.
proof fn lemma_pool_values_error(toks: Seq<Tok>, ps: Seq<(usize, usize)>, k: int, e: MacroError)
    requires
        0 <= k <= ps.len(),
        spec_pool_values(toks, ps.take(k)) == Err::<Seq<(u64, u64)>, MacroError>(e),
    ensures
        spec_pool_values(toks, ps) == Err::<Seq<(u64, u64)>, MacroError>(e),
    decreases ps.len() - k,
{
    if k < ps.len() {
        let t = ps.take(k + 1);
        assert(t.drop_last() =~= ps.take(k));
        lemma_pool_values_error(toks, ps, k + 1, e);
    } else {
        assert(ps.take(k) =~= ps);
    }
}

/// `heap!` on the input `toks`, the project's layout read as `config`: the
/// inline form where the input is in it, else the `key => value;` form.
pub fn heap(toks: &Vec<Tok>, config: &LayoutConfig) -> (r: Result<HeapForm, MacroError>)
    ensures
        r matches Err(e) ==> if is_inline_form(toks@) {
            spec_inline_plan(toks@) == Err::<(InlineHeapV, u64, Seq<(u64, u64)>), MacroError>(e)
        } else {
            spec_heap(toks@, config_view(*config)) == Err::<(HeapInput, usize), MacroError>(e)
        },
        r matches Ok(HeapForm::Inline(p)) ==> {
            &&& is_inline_form(toks@)
            &&& spec_inline_plan(toks@) == Ok::<(InlineHeapV, u64, Seq<(u64, u64)>), MacroError>(
                (InlineHeapV { attrs: p.heap.attrs@, size: p.heap.size, pools: p.heap.pools@ }, p.size, p.pools@),
            )
        },
        r matches Ok(HeapForm::Layout(p)) ==> {
            &&& !is_inline_form(toks@)
            &&& spec_heap(toks@, config_view(*config)) == Ok::<(HeapInput, usize), MacroError>(
                (p.input, p.pools),
            )
            &&& p.section@ == ".heap_"@ + ident_text(toks@, p.input.layout as int) + "_rt"@
            &&& p.rt_load@ == heap_symbol(ident_text(toks@, p.input.layout as int), "_RT_LOAD"@)
            &&& p.rt_base@ == heap_symbol(ident_text(toks@, p.input.layout as int), "_RT_BASE"@)
            &&& p.rt_end@ == heap_symbol(ident_text(toks@, p.input.layout as int), "_RT_END"@)
            &&& p.global_alloc == attrs_ask_global(
                toks@,
                p.input.instance.attrs.start as int,
                p.input.instance.attrs.end as int,
            )
        },
{
    let (_, i) = inner_attrs(toks);
    if peek_word(toks, i, toks.len(), "size") {
        Ok(HeapForm::Inline(inline_plan(toks)?))
    } else {
        Ok(HeapForm::Layout(heap_layout(toks, config)?))
    }
}

} // verus!
