//! `reg_assert_taken!`: a symbol that marks a register block as taken, so
//! that taking it twice fails to link.
//!
//! The input is a string literal, or a macro call (`concat!`) on string
//! literals separated by commas, and nothing after it; the symbol is
//! `__assert_register_block_taken_` followed by the strings' values.

use crate::token::{Delim, MacroError, Tok, expect_end, spec_expect_end, expect_group, expect_ident, expect_punct, is_str_lit, literal_text, peek_str_lit, spec_expect_group, spec_expect_ident, spec_expect_punct};
use crate::token::{TokV, emit_close, emit_open, emit_punct, emit_string, emit_word, tclose, topen, toks_view, tp, tw};
use vstd::prelude::*;

verus! {

/// The value that `syn` gives a string literal written `text`.
pub uninterp spec fn syn_str_value(text: Seq<char>) -> Seq<char>;

/// Calls `syn::LitStr::value` on the literal written `text`, read by
/// `syn::parse_str`; its result is a function of the text alone, named
/// `syn_str_value` (the empty string where the text is no string literal).
#[verifier::external_body]
pub(crate) fn str_lit_value(text: &str) -> (r: String)
    ensures
        r@ == syn_str_value(text@),
{
    match syn::parse_str::<syn::LitStr>(text) {
        Ok(lit) => lit.value(),
        Err(_) => String::new(),
    }
}

pub const NO_STRING: &'static str = "expected string literal";

/// The string literals in `[i, end)`, separated by commas with an optional
/// comma after the last: their positions.
pub open spec fn spec_str_list(toks: Seq<Tok>, i: int, end: int) -> Result<Seq<usize>, MacroError>
    decreases end - i,
{
    if i >= end {
        Ok(Seq::empty())
    } else if !is_str_lit(toks, i, end) {
        Err(MacroError { at: i as usize, kind: crate::token::ErrorKind::ExpectedStrLit })
    } else if i + 1 >= end {
        Ok(seq![i as usize])
    } else {
        match spec_expect_punct(toks, i + 1, end, ',') {
            Err(e) => Err(e),
            Ok(q) => if q > i && q <= end {
                match spec_str_list(toks, q as int, end) {
                    Err(e) => Err(e),
                    Ok(rest) => Ok(seq![i as usize] + rest),
                }
            } else {
                Ok(seq![i as usize])
            },
        }
    }
}

fn parse_str_list(toks: &Vec<Tok>, i: usize, end: usize) -> (r: Result<Vec<usize>, MacroError>)
    ensures
        r matches Ok(v) ==> spec_str_list(toks@, i as int, end as int) == Ok::<
            Seq<usize>,
            MacroError,
        >(v@),
        r matches Err(e) ==> spec_str_list(toks@, i as int, end as int) == Err::<
            Seq<usize>,
            MacroError,
        >(e),
{
    let mut out: Vec<usize> = Vec::new();
    let mut j = i;
    let mut done = false;
    while j < end && !done
        invariant
            i <= j,
            spec_str_list(toks@, i as int, end as int) == (if done {
                Ok(out@)
            } else {
                match spec_str_list(toks@, j as int, end as int) {
                    Ok(rest) => Ok(out@ + rest),
                    Err(e) => Err(e),
                }
            }),
        decreases end - j + (if done { 0int } else { 1int }),
    {
        if !peek_str_lit(toks, j, end) {
            return Err(MacroError { at: j, kind: crate::token::ErrorKind::ExpectedStrLit });
        }
        let ghost before = out@;
        out.push(j);
        if j + 1 >= end {
            assert(before + seq![j as usize] =~= out@);
            done = true;
        } else {
            let q = expect_punct(toks, j + 1, end, ',')?;
            proof {
                match spec_str_list(toks@, q as int, end as int) {
                    Ok(rest) => {
                        assert(before + (seq![j as usize] + rest) =~= out@ + rest);
                    },
                    Err(_) => {},
                }
            }
            j = q;
        }
    }
    if !done {
        assert(out@ + Seq::<usize>::empty() =~= out@);
    }
    Ok(out)
}

/// The string literals of the input: one, or those of the macro call.
pub open spec fn spec_taken_input(toks: Seq<Tok>) -> Result<Seq<usize>, MacroError> {
    let end = toks.len() as int;
    if is_str_lit(toks, 0, end) {
        match spec_expect_end(1, end) {
            Err(e) => Err(e),
            Ok(_) => Ok(seq![0usize]),
        }
    } else {
        match spec_expect_ident(toks, 0, end) {
            Err(e) => Err(e),
            Ok(_) => match spec_expect_punct(toks, 1, end, '!') {
                Err(e) => Err(e),
                Ok(_) => match spec_expect_group(toks, 2, end, Delim::Paren) {
                    Err(e) => Err(e),
                    Ok(c) => match spec_str_list(toks, 3, c as int) {
                        Err(e) => Err(e),
                        Ok(v) => match spec_expect_end(c + 1, end) {
                            Err(e) => Err(e),
                            Ok(_) => Ok(v),
                        },
                    },
                },
            },
        }
    }
}

/// The strings of `parts` one after another.
pub open spec fn concat_all(parts: Seq<Seq<char>>) -> Seq<char>
    decreases parts.len(),
{
    if parts.len() == 0 {
        Seq::empty()
    } else {
        concat_all(parts.drop_last()) + parts.last()
    }
}

/// The values of the string literals at `ps`.
pub open spec fn literal_values(toks: Seq<Tok>, ps: Seq<usize>) -> Seq<Seq<char>> {
    ps.map_values(|p: usize| syn_str_value(literal_text(toks, p as int)))
}

/// The name of the symbol for the string values `values`:
/// `__assert_register_block_taken_` followed by the values one after another.
pub fn taken_symbol(values: &Vec<String>) -> (r: String)
    ensures
        r@ == "__assert_register_block_taken_"@ + concat_all(values@.map_values(|v: String| v@)),
{
    let ghost parts = values@.map_values(|v: String| v@);
    let mut symbol = String::from_str("__assert_register_block_taken_");
    let mut k: usize = 0;
    while k < values.len()
        invariant
            k <= values@.len(),
            parts == values@.map_values(|v: String| v@),
            symbol@ == "__assert_register_block_taken_"@ + concat_all(parts.take(k as int)),
        decreases values@.len() - k,
    {
        symbol.append(values[k].as_str());
        proof {
            assert(parts.take(k + 1).drop_last() =~= parts.take(k as int));
            assert(parts.take(k + 1).last() == values@[k as int]@);
            assert(symbol@ =~= "__assert_register_block_taken_"@ + concat_all(parts.take(k + 1)));
        }
        k = k + 1;
    }
    assert(parts.take(k as int) =~= parts);
    symbol
}

/// What `reg_assert_taken!` expands to: the symbol's name.
#[derive(Debug)]
pub struct TakenPlan {
    pub strings: Vec<usize>,
    pub symbol: String,
}

/// `reg_assert_taken!` on the input `toks`.
pub fn reg_assert_taken(toks: &Vec<Tok>) -> (r: Result<TakenPlan, MacroError>)
    ensures
        r matches Err(e) ==> spec_taken_input(toks@) == Err::<Seq<usize>, MacroError>(e),
        r matches Ok(p) ==> {
            &&& spec_taken_input(toks@) == Ok::<Seq<usize>, MacroError>(p.strings@)
            &&& p.symbol@ == "__assert_register_block_taken_"@ + concat_all(
                literal_values(toks@, p.strings@),
            )
        },
{
    let end = toks.len();
    let strings = if peek_str_lit(toks, 0, end) {
        expect_end(1, end)?;
        let mut v: Vec<usize> = Vec::new();
        v.push(0);
        assert(v@ =~= seq![0usize]);
        v
    } else {
        expect_ident(toks, 0, end)?;
        expect_punct(toks, 1, end, '!')?;
        let c = expect_group(toks, 2, end, Delim::Paren)?;
        let v = parse_str_list(toks, 3, c)?;
        expect_end(c + 1, end)?;
        v
    };
    let mut values: Vec<String> = Vec::new();
    let mut k: usize = 0;
    while k < strings.len()
        invariant
            k <= strings@.len(),
            values@.map_values(|v: String| v@) == literal_values(toks@, strings@.take(k as int)),
        decreases strings@.len() - k,
    {
        let p = strings[k];
        let text = if p < toks.len() {
            match &toks[p] {
                Tok::Literal(t) => t.clone(),
                _ => String::new(),
            }
        } else {
            String::new()
        };
        assert(text@ == literal_text(toks@, p as int));
        let value = str_lit_value(text.as_str());
        let ghost before = values@.map_values(|v: String| v@);
        let ghost vv = value@;
        values.push(value);
        proof {
            assert(values@.map_values(|v: String| v@) =~= before.push(vv));
            assert(strings@.take(k + 1) =~= strings@.take(k as int).push(p));
            assert(literal_values(toks@, strings@.take(k + 1)) =~= literal_values(
                toks@,
                strings@.take(k as int),
            ).push(vv));
        }
        k = k + 1;
    }
    assert(strings@.take(k as int) =~= strings@);
    let symbol = taken_symbol(&values);
    Ok(TakenPlan { strings, symbol })
}

/// What `reg_assert_taken!` expands to on the input `toks`:
/// `#[no_mangle] fn SYMBOL() {}`.
pub open spec fn spec_expand_reg_assert_taken(toks: Seq<Tok>) -> Result<Seq<TokV>, MacroError> {
    match spec_taken_input(toks) {
        Err(e) => Err(e),
        Ok(ps) => Ok(
            tp('#') + topen(Delim::Bracket) + tw("no_mangle"@) + tclose(Delim::Bracket) + tw("fn"@)
                + tw("__assert_register_block_taken_"@ + concat_all(literal_values(toks, ps)))
                + topen(Delim::Paren) + tclose(Delim::Paren) + topen(Delim::Brace) + tclose(
                Delim::Brace,
            ),
        ),
    }
}

/// The tokens that `reg_assert_taken!` expands to on the input `toks`.
pub fn expand_reg_assert_taken(toks: &Vec<Tok>) -> (r: Result<Vec<Tok>, MacroError>)
    ensures
        r matches Err(e) ==> spec_expand_reg_assert_taken(toks@) == Err::<Seq<TokV>, MacroError>(e),
        r matches Ok(v) ==> spec_expand_reg_assert_taken(toks@) == Ok::<Seq<TokV>, MacroError>(
            toks_view(v@),
        ),
{
    let p = reg_assert_taken(toks)?;
    let mut out: Vec<Tok> = Vec::new();
    assert(toks_view(out@) =~= Seq::<TokV>::empty());
    emit_punct(&mut out, '#');
    emit_open(&mut out, Delim::Bracket);
    emit_word(&mut out, "no_mangle");
    emit_close(&mut out, Delim::Bracket);
    emit_word(&mut out, "fn");
    emit_string(&mut out, &p.symbol);
    emit_open(&mut out, Delim::Paren);
    emit_close(&mut out, Delim::Paren);
    emit_open(&mut out, Delim::Brace);
    emit_close(&mut out, Delim::Brace);
    assert(toks_view(out@) =~= tp('#') + topen(Delim::Bracket) + tw("no_mangle"@) + tclose(Delim::Bracket) + tw("fn"@)
        + tw(p.symbol@) + topen(Delim::Paren) + tclose(Delim::Paren) + topen(Delim::Brace) + tclose(Delim::Brace));
    Ok(out)
}

} // verus!
