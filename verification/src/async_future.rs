//! `#[async_future]`: turns the body of the function it is attached to into
//! a closure run by `AsyncFuture::new(move || { .. })`.
//!
//! The attribute takes no arguments, and the item must be a function:
//! outer attributes, a visibility, the qualifiers `const`, `unsafe`,
//! `async` and `extern "abi"`, `fn`, and, as its last token tree, the
//! braced body.

use crate::token::{
    Delim, ErrorKind, MacroError, Tok, close_of, err, is_literal_tok, is_open, is_word, outer_attrs,
    parse_vis, peek_open, peek_word, skip_tree, spec_outer_attrs, spec_vis, tree_end,
};
use crate::token::{Span, TokV, emit_close, emit_joint, emit_open, emit_span, emit_word, lemma_close_scan_bounds, span_toks, tclose, tj, topen, toks_view, tw};
use vstd::prelude::*;

verus! {

pub const TAKES_NO_ARGUMENTS: &'static str = "#[async_future] attribute takes no arguments";

pub const ONLY_FUNCTIONS: &'static str = "#[async_future] can only be applied to functions";

/// The position after the qualifiers of a function from `i` on.
pub open spec fn skip_qualifiers(toks: Seq<Tok>, i: int, end: int) -> int
    decreases end - i,
{
    if i >= end || i < 0 {
        i
    } else if is_word(toks, i, end, "const"@) || is_word(toks, i, end, "unsafe"@) || is_word(
        toks,
        i,
        end,
        "async"@,
    ) {
        skip_qualifiers(toks, i + 1, end)
    } else if is_word(toks, i, end, "extern"@) {
        if is_literal_tok(toks, i + 1, end) {
            skip_qualifiers(toks, i + 2, end)
        } else {
            skip_qualifiers(toks, i + 1, end)
        }
    } else {
        i
    }
}

/// The start of the last token tree from `i` on.
pub open spec fn last_tree(toks: Seq<Tok>, i: int, end: int) -> Option<int>
    decreases end - i,
{
    match tree_end(toks, i, end) {
        None => None,
        Some(n) => if n >= end || n <= i {
            Some(i)
        } else {
            last_tree(toks, n, end)
        },
    }
}

/// The braces of the body of the function `item`, or the error.
pub open spec fn spec_async_future(args: Seq<Tok>, item: Seq<Tok>) -> Result<(int, int), MacroError> {
    let end = item.len() as int;
    if args.len() > 0 {
        err(0, ErrorKind::Invalid(TAKES_NO_ARGUMENTS))
    } else {
        match spec_outer_attrs(item, 0, end) {
            Err(e) => Err(e),
            Ok(a) => {
                let q = skip_qualifiers(item, spec_vis(item, a as int, end).span.end as int, end);
                if !is_word(item, q, end, "fn"@) {
                    err(q, ErrorKind::Invalid(ONLY_FUNCTIONS))
                } else {
                    match last_tree(item, q + 1, end) {
                        Some(o) => if is_open(item, o, end, Delim::Brace) {
                            match close_of(item, o, end) {
                                Some(c) => Ok((o, c)),
                                None => err(o, ErrorKind::Invalid(ONLY_FUNCTIONS)),
                            }
                        } else {
                            err(o, ErrorKind::Invalid(ONLY_FUNCTIONS))
                        },
                        None => err(q + 1, ErrorKind::Invalid(ONLY_FUNCTIONS)),
                    }
                }
            },
        }
    }
}

fn peek_literal(toks: &Vec<Tok>, i: usize, end: usize) -> (r: bool)
    ensures
        r == is_literal_tok(toks@, i as int, end as int),
{
    i < end && i < toks.len() && matches!(toks[i], Tok::Literal(_))
}

/// `#[async_future]` with the arguments `args` on the item `item`: the
/// positions of the braces of the function's body, whose statements go
/// into the closure.
#[verifier::loop_isolation(false)]
#[verifier::spinoff_prover]
#[verifier::rlimit(50)]
pub fn async_future(args: &Vec<Tok>, item: &Vec<Tok>) -> (r: Result<(usize, usize), MacroError>)
    ensures
        r matches Ok((o, c)) ==> spec_async_future(args@, item@) == Ok::<(int, int), MacroError>(
            (o as int, c as int),
        ),
        r matches Err(e) ==> spec_async_future(args@, item@) == Err::<(int, int), MacroError>(e),
{
    let end = item.len();
    if args.len() > 0 {
        return Err(MacroError { at: 0, kind: ErrorKind::Invalid(TAKES_NO_ARGUMENTS) });
    }
    let a = outer_attrs(item, 0, end)?;
    let mut q = parse_vis(item, a, end).span.end;
    while q < end && (peek_word(item, q, end, "const") || peek_word(item, q, end, "unsafe")
        || peek_word(item, q, end, "async") || peek_word(item, q, end, "extern"))
        invariant
            end == item@.len(),
            skip_qualifiers(item@, spec_vis(item@, a as int, end as int).span.end as int, end as int)
                == skip_qualifiers(item@, q as int, end as int),
        decreases end - q,
    {
        let ghost before = q;
        proof {
            reveal_strlit("const");
            reveal_strlit("unsafe");
            reveal_strlit("async");
            reveal_strlit("extern");
            assert("extern"@ != "unsafe"@) by {
                assert("extern"@[0] != "unsafe"@[0]);
            }
            assert("extern"@ != "async"@) by {
                assert("extern"@.len() != "async"@.len());
            }
        }
        if peek_word(item, q, end, "extern") {
            if peek_literal(item, q + 1, end) {
                q = q + 2;
            } else {
                q = q + 1;
            }
        } else {
            q = q + 1;
        }
        assert(skip_qualifiers(item@, before as int, end as int) == skip_qualifiers(
            item@,
            q as int,
            end as int,
        ));
    }
    if !peek_word(item, q, end, "fn") {
        return Err(MacroError { at: q, kind: ErrorKind::Invalid(ONLY_FUNCTIONS) });
    }
    let mut j = q + 1;
    let mut found = false;
    while !found
        invariant
            end == item@.len(),
            q + 1 <= j,
            !found ==> last_tree(item@, q + 1, end as int) == last_tree(item@, j as int, end as int),
            found ==> last_tree(item@, q + 1, end as int) == Some(j as int),
        decreases end - j + (if found { 0int } else { 1int }),
    {
        match skip_tree(item, j, end) {
            None => {
                return Err(MacroError { at: q + 1, kind: ErrorKind::Invalid(ONLY_FUNCTIONS) });
            },
            Some(n) => {
                if n >= end {
                    found = true;
                } else {
                    j = n;
                }
            },
        }
    }
    let last = j;
    if !peek_open(item, last, end, Delim::Brace) {
        return Err(MacroError { at: last, kind: ErrorKind::Invalid(ONLY_FUNCTIONS) });
    }
    match crate::token::find_close(item, last, end) {
        Some(c) => Ok((last, c)),
        None => Err(MacroError { at: last, kind: ErrorKind::Invalid(ONLY_FUNCTIONS) }),
    }
}

// ---------------------------------------------------------------------------
// The expansion

/// What `#[async_future]` expands to: the item up to its body, then the
/// body `{ AsyncFuture::new(move || { STATEMENTS }) }`.
pub open spec fn spec_expand_async_future(args: Seq<Tok>, item: Seq<Tok>) -> Result<Seq<TokV>, MacroError> {
    match spec_async_future(args, item) {
        Err(e) => Err(e),
        Ok((o, c)) => Ok(
            span_toks(item, Span { start: 0, end: o as usize }) + topen(Delim::Brace) + tw(
                "AsyncFuture"@,
            ) + tj(':', ':') + tw("new"@) + topen(Delim::Paren) + tw("move"@) + tj('|', '|') + topen(
                Delim::Brace,
            ) + span_toks(item, Span { start: (o + 1) as usize, end: c as usize }) + tclose(
                Delim::Brace,
            ) + tclose(Delim::Paren) + tclose(Delim::Brace) + span_toks(
                item,
                Span { start: (c + 1) as usize, end: item.len() as usize },
            ),
        ),
    }
}

proof fn lemma_body_in_item(args: Seq<Tok>, item: Seq<Tok>)
    ensures
        spec_async_future(args, item) matches Ok((o, c)) ==> 0 <= o < c < item.len(),
{
    if let Ok((o, c)) = spec_async_future(args, item) {
        lemma_close_scan_bounds(item, o + 1, item.len() as int, 1);
    }
}

/// The tokens that `#[async_future]` with the arguments `args` expands to
/// on the item `item`.
pub fn expand_async_future(args: &Vec<Tok>, item: &Vec<Tok>) -> (r: Result<Vec<Tok>, MacroError>)
    ensures
        r matches Err(e) ==> spec_expand_async_future(args@, item@) == Err::<Seq<TokV>, MacroError>(e),
        r matches Ok(v) ==> spec_expand_async_future(args@, item@) == Ok::<Seq<TokV>, MacroError>(
            toks_view(v@),
        ),
{
    let (o, c) = async_future(args, item)?;
    proof {
        lemma_body_in_item(args@, item@);
        assert(spec_async_future(args@, item@) == Ok::<(int, int), MacroError>((o as int, c as int)));
        assert(c < item.len());
    }
    let mut v: Vec<Tok> = Vec::new();
    let out = &mut v;
    assert(toks_view(out@) =~= Seq::<TokV>::empty());
    emit_span(item, Span { start: 0, end: o }, out);
    emit_open(out, Delim::Brace);
    emit_word(out, "AsyncFuture");
    emit_joint(out, ':', ':');
    emit_word(out, "new");
    emit_open(out, Delim::Paren);
    emit_word(out, "move");
    emit_joint(out, '|', '|');
    emit_open(out, Delim::Brace);
    emit_span(item, Span { start: o + 1, end: c }, out);
    emit_close(out, Delim::Brace);
    emit_close(out, Delim::Paren);
    emit_close(out, Delim::Brace);
    emit_span(item, Span { start: c + 1, end: item.len() }, out);
    Ok(v)
}

} // verus!
