//! `res_one!`: the resource structure of a peripheral that is not generic,
//! holding its registers (or their fields) by their paths under a root, and
//! the macro `res_name!` that takes it from the register tokens.
//!
//! The input is `attrs vis struct Name;`, the root path and `;`, an
//! optional path of the macro's root and `;`, then the blocks, read as
//! those of `periph_singular!`.

use crate::case::{inflector_snake, to_snake_inflector};
use crate::periph_singular::{SParts, SingularEntry, SingularEntryV, SingularParts, entries_view, no_sparts, parse_sblocks, singular_entries, spec_block_entries, spec_sblocks};
use crate::token::{MacroError, Span, Tok, Vis, expect_ident, expect_punct, expect_word, ident_string, ident_text, is_punct, outer_attrs, parse_path, parse_vis, peek_punct, spec_expect_ident, spec_expect_punct, spec_expect_word, spec_outer_attrs, spec_path, spec_vis};
use vstd::prelude::*;

verus! {

/// The input of `res_one!`, as read.
pub struct ResOneInputV {
    pub attrs: Span,
    pub vis: Vis,
    pub ident: usize,
    pub root_path: Span,
    pub macro_root_path: Option<Span>,
    pub parts: SParts,
}

/// The paths after the structure, from `i`: the root path, then the
/// optional macro root path; the position where the blocks begin.
pub open spec fn spec_res_paths(toks: Seq<Tok>, i: int, end: int) -> Result<
    (Span, Option<Span>, usize),
    MacroError,
> {
    match spec_path(toks, i, end) {
        Err(e) => Err(e),
        Ok(p) => match spec_expect_punct(toks, p as int, end, ';') {
            Err(e) => Err(e),
            Ok(_) => if is_punct(toks, p + 1, end, ';') {
                Ok((Span { start: i as usize, end: p }, None, (p + 2) as usize))
            } else {
                match spec_path(toks, p + 1, end) {
                    Err(e) => Err(e),
                    Ok(q) => match spec_expect_punct(toks, q as int, end, ';') {
                        Err(e) => Err(e),
                        Ok(_) => Ok(
                            (
                                Span { start: i as usize, end: p },
                                Some(Span { start: (p + 1) as usize, end: q }),
                                (q + 1) as usize,
                            ),
                        ),
                    },
                }
            },
        },
    }
}

pub open spec fn spec_res_one_input(toks: Seq<Tok>) -> Result<ResOneInputV, MacroError> {
    let end = toks.len() as int;
    match spec_outer_attrs(toks, 0, end) {
        Err(e) => Err(e),
        Ok(a) => {
            let v = spec_vis(toks, a as int, end);
            let s = v.span.end as int;
            match spec_expect_word(toks, s, end, "struct") {
                Err(e) => Err(e),
                Ok(_) => match spec_expect_ident(toks, s + 1, end) {
                    Err(e) => Err(e),
                    Ok(_) => match spec_expect_punct(toks, s + 2, end, ';') {
                        Err(e) => Err(e),
                        Ok(_) => match spec_res_paths(toks, s + 3, end) {
                            Err(e) => Err(e),
                            Ok((root, mroot, n)) => match spec_sblocks(toks, n as int, end, no_sparts()) {
                                Err(e) => Err(e),
                                Ok(parts) => Ok(
                                    ResOneInputV {
                                        attrs: Span { start: 0, end: a },
                                        vis: v,
                                        ident: (s + 1) as usize,
                                        root_path: root,
                                        macro_root_path: mroot,
                                        parts,
                                    },
                                ),
                            },
                        },
                    },
                },
            }
        },
    }
}

/// What `res_one!` expands to: the input, the name of the macro (`res_` and
/// the structure's name in snake case), the name of the resource structure
/// (the name followed by `Res`), and its fields in the order of the input.
#[derive(Debug)]
pub struct ResOnePlan {
    pub attrs: Span,
    pub vis: Vis,
    pub ident: usize,
    pub root_path: Span,
    pub macro_root_path: Option<Span>,
    pub parts: SingularParts,
    pub macro_name: String,
    pub struct_name: String,
    pub entries: Vec<SingularEntry>,
}

pub open spec fn spec_res_one(toks: Seq<Tok>) -> Result<
    (ResOneInputV, Seq<SingularEntryV>, Seq<char>, Seq<char>),
    MacroError,
> {
    match spec_res_one_input(toks) {
        Err(e) => Err(e),
        Ok(inp) => {
            let name = ident_text(toks, inp.ident as int);
            Ok(
                (
                    inp,
                    spec_block_entries(toks, inp.parts, 0, Seq::empty()),
                    "res_"@ + inflector_snake(name),
                    name + "Res"@,
                ),
            )
        },
    }
}

fn parse_res_paths(toks: &Vec<Tok>, i: usize, end: usize) -> (r: Result<(Span, Option<Span>, usize), MacroError>)
    ensures
        r == spec_res_paths(toks@, i as int, end as int),
{
    let p = parse_path(toks, i, end)?;
    expect_punct(toks, p, end, ';')?;
    if peek_punct(toks, p + 1, end, ';') {
        return Ok((Span { start: i, end: p }, None, p + 2));
    }
    let q = parse_path(toks, p + 1, end)?;
    expect_punct(toks, q, end, ';')?;
    Ok((Span { start: i, end: p }, Some(Span { start: p + 1, end: q }), q + 1))
}

/// `res_one!` on the input `toks`.
pub fn res_one(toks: &Vec<Tok>) -> (r: Result<ResOnePlan, MacroError>)
    ensures
        r matches Err(e) ==> spec_res_one(toks@) == Err::<
            (ResOneInputV, Seq<SingularEntryV>, Seq<char>, Seq<char>),
            MacroError,
        >(e),
        r matches Ok(p) ==> spec_res_one(toks@) == Ok::<
            (ResOneInputV, Seq<SingularEntryV>, Seq<char>, Seq<char>),
            MacroError,
        >(
            (
                ResOneInputV {
                    attrs: p.attrs,
                    vis: p.vis,
                    ident: p.ident,
                    root_path: p.root_path,
                    macro_root_path: p.macro_root_path,
                    parts: p.parts@,
                },
                entries_view(p.entries@),
                p.macro_name@,
                p.struct_name@,
            ),
        ),
{
    let end = toks.len();
    let a = outer_attrs(toks, 0, end)?;
    let v = parse_vis(toks, a, end);
    let s = v.span.end;
    expect_word(toks, s, end, "struct")?;
    expect_ident(toks, s + 1, end)?;
    expect_punct(toks, s + 2, end, ';')?;
    let (root, mroot, n) = parse_res_paths(toks, s + 3, end)?;
    let mut parts = SingularParts { blocks: Vec::new(), regs: Vec::new(), fields: Vec::new() };
    assert(parts@ == no_sparts());
    parse_sblocks(toks, n, &mut parts)?;
    let entries = singular_entries(toks, &parts);
    let name = ident_string(toks, s + 1);
    let snk = to_snake_inflector(name.as_str());
    let macro_name = String::from_str("res_").concat(snk.as_str());
    let struct_name = name.concat("Res");
    Ok(
        ResOnePlan {
            attrs: Span { start: 0, end: a },
            vis: v,
            ident: s + 1,
            root_path: root,
            macro_root_path: mroot,
            parts,
            macro_name,
            struct_name,
            entries,
        },
    )
}

} // verus!
