//! `stream!`: a Drone Stream runtime structure and its instance, sized by
//! the stream's section of the project's layout.
//!
//! The input is a list of `key => value;` entries: `layout => name`,
//! `metadata => vis Name`, `instance => vis NAME` (these two may carry
//! attributes) and `global => bool`, each at most once, the first three
//! required.

use crate::heap::Decl;
use crate::token::{
    ErrorKind, MacroError, Span, Tok, err, expect_ident, expect_punct, expect_punct2, ident_string,
    ident_text, is_word, outer_attrs, parse_vis, peek_word, spec_expect_ident, spec_expect_punct,
    spec_expect_punct2, spec_outer_attrs, spec_vis,
};
use vstd::prelude::*;

verus! {

pub const NOT_A_BOOL: &'static str = "expected boolean literal";

/// The entries read so far.
#[derive(PartialEq, Eq, Structural, Clone, Copy, Debug)]
pub struct StreamEntries {
    pub layout: Option<usize>,
    pub metadata: Option<Decl>,
    pub instance: Option<Decl>,
    pub global: Option<bool>,
}

/// `vis Name` at `i`, with the attributes `attrs` read before the key.
pub open spec fn spec_stream_decl(toks: Seq<Tok>, attrs: Span, i: int, end: int) -> Result<
    (Decl, usize),
    MacroError,
> {
    let v = spec_vis(toks, i, end);
    match spec_expect_ident(toks, v.span.end as int, end) {
        Err(e) => Err(e),
        Ok(p) => Ok((Decl { attrs, vis: v, ident: v.span.end }, p)),
    }
}

/// One entry at `i`, given the entries `st` read before.
pub open spec fn spec_stream_entry(toks: Seq<Tok>, i: int, end: int, st: StreamEntries) -> Result<
    (StreamEntries, usize),
    MacroError,
> {
    match spec_outer_attrs(toks, i, end) {
        Err(e) => Err(e),
        Ok(a) => match spec_expect_ident(toks, a as int, end) {
            Err(e) => Err(e),
            Ok(k) => match spec_expect_punct2(toks, k as int, end, '=', '>') {
                Err(e) => Err(e),
                Ok(p) => {
                    let bare = a as int == i;
                    let attrs = Span { start: i as usize, end: a };
                    if bare && is_word(toks, a as int, end, "layout"@) {
                        if st.layout is Some {
                            err(p as int, ErrorKind::MultipleKey("layout"))
                        } else {
                            match spec_expect_ident(toks, p as int, end) {
                                Err(e) => Err(e),
                                Ok(q) => Ok((StreamEntries { layout: Some(p), ..st }, q)),
                            }
                        }
                    } else if is_word(toks, a as int, end, "metadata"@) {
                        if st.metadata is Some {
                            err(p as int, ErrorKind::MultipleKey("metadata"))
                        } else {
                            match spec_stream_decl(toks, attrs, p as int, end) {
                                Err(e) => Err(e),
                                Ok((d, q)) => Ok((StreamEntries { metadata: Some(d), ..st }, q)),
                            }
                        }
                    } else if is_word(toks, a as int, end, "instance"@) {
                        if st.instance is Some {
                            err(p as int, ErrorKind::MultipleKey("instance"))
                        } else {
                            match spec_stream_decl(toks, attrs, p as int, end) {
                                Err(e) => Err(e),
                                Ok((d, q)) => Ok((StreamEntries { instance: Some(d), ..st }, q)),
                            }
                        }
                    } else if bare && is_word(toks, a as int, end, "global"@) {
                        if st.global is Some {
                            err(p as int, ErrorKind::MultipleKey("global"))
                        } else if is_word(toks, p as int, end, "true"@) {
                            Ok((StreamEntries { global: Some(true), ..st }, (p + 1) as usize))
                        } else if is_word(toks, p as int, end, "false"@) {
                            Ok((StreamEntries { global: Some(false), ..st }, (p + 1) as usize))
                        } else {
                            err(p as int, ErrorKind::Invalid(NOT_A_BOOL))
                        }
                    } else {
                        err(p as int, ErrorKind::UnknownKey)
                    }
                },
            },
        },
    }
}

fn parse_stream_entry(toks: &Vec<Tok>, i: usize, end: usize, st: StreamEntries) -> (r: Result<
    (StreamEntries, usize),
    MacroError,
>)
    ensures
        r == spec_stream_entry(toks@, i as int, end as int, st),
        r matches Ok((_, n)) ==> i < n,
{
    let a = outer_attrs(toks, i, end)?;
    let k = expect_ident(toks, a, end)?;
    let p = expect_punct2(toks, k, end, '=', '>')?;
    let bare = a == i;
    let attrs = Span { start: i, end: a };
    if bare && peek_word(toks, a, end, "layout") {
        if st.layout.is_some() {
            Err(MacroError { at: p, kind: ErrorKind::MultipleKey("layout") })
        } else {
            let q = expect_ident(toks, p, end)?;
            Ok((StreamEntries { layout: Some(p), ..st }, q))
        }
    } else if peek_word(toks, a, end, "metadata") {
        if st.metadata.is_some() {
            Err(MacroError { at: p, kind: ErrorKind::MultipleKey("metadata") })
        } else {
            let v = parse_vis(toks, p, end);
            let q = expect_ident(toks, v.span.end, end)?;
            Ok((StreamEntries { metadata: Some(Decl { attrs, vis: v, ident: v.span.end }), ..st }, q))
        }
    } else if peek_word(toks, a, end, "instance") {
        if st.instance.is_some() {
            Err(MacroError { at: p, kind: ErrorKind::MultipleKey("instance") })
        } else {
            let v = parse_vis(toks, p, end);
            let q = expect_ident(toks, v.span.end, end)?;
            Ok((StreamEntries { instance: Some(Decl { attrs, vis: v, ident: v.span.end }), ..st }, q))
        }
    } else if bare && peek_word(toks, a, end, "global") {
        if st.global.is_some() {
            Err(MacroError { at: p, kind: ErrorKind::MultipleKey("global") })
        } else if peek_word(toks, p, end, "true") {
            Ok((StreamEntries { global: Some(true), ..st }, p + 1))
        } else if peek_word(toks, p, end, "false") {
            Ok((StreamEntries { global: Some(false), ..st }, p + 1))
        } else {
            Err(MacroError { at: p, kind: ErrorKind::Invalid(NOT_A_BOOL) })
        }
    } else {
        Err(MacroError { at: p, kind: ErrorKind::UnknownKey })
    }
}

/// The entries from `i` on: after each entry but the last comes a `;`.
pub open spec fn spec_stream_entries(toks: Seq<Tok>, i: int, end: int, st: StreamEntries) -> Result<
    StreamEntries,
    MacroError,
>
    decreases end - i,
{
    if i >= end {
        Ok(st)
    } else {
        match spec_stream_entry(toks, i, end, st) {
            Err(e) => Err(e),
            Ok((st2, q)) => if q < end {
                match spec_expect_punct(toks, q as int, end, ';') {
                    Err(e) => Err(e),
                    Ok(q2) => if q2 > i {
                        spec_stream_entries(toks, q2 as int, end, st2)
                    } else {
                        Ok(st2)
                    },
                }
            } else {
                Ok(st2)
            },
        }
    }
}

/// The input of `stream!`.
#[derive(PartialEq, Eq, Structural, Clone, Copy, Debug)]
pub struct StreamInput {
    /// The position of the stream's name in the layout.
    pub layout: usize,
    pub metadata: Decl,
    pub instance: Decl,
    /// Whether the runtime is also exported for the debugger; `false` where
    /// not given.
    pub global: bool,
}

pub open spec fn no_stream_entries() -> StreamEntries {
    StreamEntries { layout: None, metadata: None, instance: None, global: None }
}

pub open spec fn spec_stream_input(toks: Seq<Tok>) -> Result<StreamInput, MacroError> {
    let end = toks.len() as int;
    match spec_stream_entries(toks, 0, end, no_stream_entries()) {
        Err(e) => Err(e),
        Ok(st) => match (st.layout, st.metadata, st.instance) {
            (None, _, _) => err(end, ErrorKind::MissingKey("layout")),
            (Some(_), None, _) => err(end, ErrorKind::MissingKey("metadata")),
            (Some(_), Some(_), None) => err(end, ErrorKind::MissingKey("instance")),
            (Some(l), Some(m), Some(n)) => Ok(
                StreamInput {
                    layout: l,
                    metadata: m,
                    instance: n,
                    global: match st.global {
                        Some(g) => g,
                        None => false,
                    },
                },
            ),
        },
    }
}

/// Reads the input of `stream!`.
pub fn parse_stream_input(toks: &Vec<Tok>) -> (r: Result<StreamInput, MacroError>)
    ensures
        r == spec_stream_input(toks@),
{
    let end = toks.len();
    let mut st = StreamEntries { layout: None, metadata: None, instance: None, global: None };
    let mut i: usize = 0;
    let mut done = false;
    while i < end && !done
        invariant
            end == toks@.len(),
            spec_stream_entries(toks@, 0, end as int, no_stream_entries()) == (if done {
                Ok(st)
            } else {
                spec_stream_entries(toks@, i as int, end as int, st)
            }),
        decreases end - i + (if done { 0int } else { 1int }),
    {
        let (st2, q) = parse_stream_entry(toks, i, end, st)?;
        st = st2;
        if q < end {
            i = expect_punct(toks, q, end, ';')?;
        } else {
            done = true;
        }
    }
    match (st.layout, st.metadata, st.instance) {
        (None, _, _) => Err(MacroError { at: end, kind: ErrorKind::MissingKey("layout") }),
        (Some(_), None, _) => Err(MacroError { at: end, kind: ErrorKind::MissingKey("metadata") }),
        (Some(_), Some(_), None) => Err(
            MacroError { at: end, kind: ErrorKind::MissingKey("instance") },
        ),
        (Some(l), Some(m), Some(n)) => Ok(
            StreamInput {
                layout: l,
                metadata: m,
                instance: n,
                global: match st.global {
                    Some(g) => g,
                    None => false,
                },
            },
        ),
    }
}

/// A stream section of the project's layout: its name, its buffer size
/// and whether it is initialized as the primary one (absent: no).
#[derive(Debug)]
pub struct StreamSection {
    pub name: String,
    pub size: u64,
    pub init_primary: Option<bool>,
}

pub open spec fn section_view(s: StreamSection) -> (Seq<char>, u64, Option<bool>) {
    (s.name@, s.size, s.init_primary)
}

/// The stream sections of the project's layout as `stream!` reads them
/// (none where the layout has no stream table), or `Unreadable` where the
/// layout could not be read.
pub enum StreamConfig {
    Read(Vec<StreamSection>),
    Unreadable,
}

pub open spec fn stream_config_view(c: StreamConfig) -> Option<Seq<(Seq<char>, u64, Option<bool>)>> {
    match c {
        StreamConfig::Read(v) => Some(v@.map_values(|s: StreamSection| section_view(s))),
        StreamConfig::Unreadable => None,
    }
}

/// The first section named `name`.
pub open spec fn find_section(
    sections: Seq<(Seq<char>, u64, Option<bool>)>,
    name: Seq<char>,
) -> Option<(u64, bool)>
    decreases sections.len(),
{
    if sections.len() == 0 {
        None
    } else if sections[0].0 == name {
        Some(
            (
                sections[0].1,
                match sections[0].2 {
                    Some(b) => b,
                    None => false,
                },
            ),
        )
    } else {
        find_section(sections.drop_first(), name)
    }
}

fn find_section_exec(sections: &Vec<StreamSection>, name: &String) -> (r: Option<(u64, bool)>)
    ensures
        r == find_section(sections@.map_values(|s: StreamSection| section_view(s)), name@),
{
    let ghost view = sections@.map_values(|s: StreamSection| section_view(s));
    let mut k: usize = 0;
    assert(view.skip(0) =~= view);
    while k < sections.len()
        invariant
            k <= sections@.len(),
            view == sections@.map_values(|s: StreamSection| section_view(s)),
            find_section(view, name@) == find_section(view.skip(k as int), name@),
        decreases sections@.len() - k,
    {
        let ghost rest = view.skip(k as int);
        assert(rest[0] == section_view(sections@[k as int]));
        assert(rest.drop_first() =~= view.skip(k + 1));
        if sections[k].name == *name {
            let primary = match sections[k].init_primary {
                Some(b) => b,
                None => false,
            };
            return Some((sections[k].size, primary));
        }
        k = k + 1;
    }
    assert(view.skip(k as int).len() == 0);
    None
}

pub const LAYOUT_UNREADABLE: &'static str = "the layout could not be read";

pub const NO_SUCH_STREAM: &'static str = "no such stream in the layout";

/// The outcome of `stream!` on `toks`, the layout read as `config`.
pub open spec fn spec_stream(
    toks: Seq<Tok>,
    config: Option<Seq<(Seq<char>, u64, Option<bool>)>>,
) -> Result<(StreamInput, (u64, bool)), MacroError> {
    match spec_stream_input(toks) {
        Err(e) => Err(e),
        Ok(input) => match config {
            None => err(0, ErrorKind::Invalid(LAYOUT_UNREADABLE)),
            Some(sections) => match find_section(sections, ident_text(toks, input.layout as int)) {
                None => err(input.layout as int, ErrorKind::Invalid(NO_SUCH_STREAM)),
                Some(s) => Ok((input, s)),
            },
        },
    }
}

/// What `stream!` expands to: the input, the buffer size, whether the
/// runtime is initialized as the primary one (its initializer is then
/// named `init_primary`, else `init`), and the link section of the
/// instance: `.stream_{layout}_rt`.
#[derive(Debug)]
pub struct StreamPlan {
    pub input: StreamInput,
    pub buffer_size: u64,
    pub init_primary: bool,
    pub section: String,
}

/// `stream!` on the input `toks`, the project's layout read as `config`.
pub fn stream(toks: &Vec<Tok>, config: &StreamConfig) -> (r: Result<StreamPlan, MacroError>)
    ensures
        r matches Err(e) ==> spec_stream(toks@, stream_config_view(*config)) == Err::<
            (StreamInput, (u64, bool)),
            MacroError,
        >(e),
        r matches Ok(p) ==> {
            &&& spec_stream(toks@, stream_config_view(*config)) == Ok::<
                (StreamInput, (u64, bool)),
                MacroError,
            >((p.input, (p.buffer_size, p.init_primary)))
            &&& p.section@ == ".stream_"@ + ident_text(toks@, p.input.layout as int) + "_rt"@
        },
{
    let input = parse_stream_input(toks)?;
    let sections = match config {
        StreamConfig::Read(v) => v,
        StreamConfig::Unreadable => {
            return Err(MacroError { at: 0, kind: ErrorKind::Invalid(LAYOUT_UNREADABLE) });
        },
    };
    let name = ident_string(toks, input.layout);
    let (buffer_size, init_primary) = match find_section_exec(sections, &name) {
        Some(s) => s,
        None => {
            return Err(MacroError { at: input.layout, kind: ErrorKind::Invalid(NO_SUCH_STREAM) });
        },
    };
    let section = crate::case::cat3(".stream_", name.as_str(), "_rt");
    Ok(StreamPlan { input, buffer_size, init_primary, section })
}

} // verus!
