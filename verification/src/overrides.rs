//! `config_override!` and `override_layout!`: each takes one string
//! literal, whose value is set as an environment variable of the build (the
//! contents of the configuration, or of the layout, that later macros read
//! in place of the files).

use crate::reg_assert_taken::{str_lit_value, syn_str_value};
use crate::token::{ErrorKind, MacroError, Tok, err, is_str_lit, literal_text, peek_str_lit};
use vstd::prelude::*;

verus! {

/// The name of the variable that `config_override!` sets.
pub const CONFIG_OVERRIDE_VAR: &'static str = "CARGO_MANIFEST_DIR_OVERRIDE";

/// The name of the variable that `override_layout!` sets.
pub const LAYOUT_OVERRIDE_VAR: &'static str = "DRONE_LAYOUT_CONFIG";

/// The input is one string literal: its value.
pub open spec fn spec_override_value(toks: Seq<Tok>) -> Result<Seq<char>, MacroError> {
    if !is_str_lit(toks, 0, toks.len() as int) {
        err(0, ErrorKind::ExpectedStrLit)
    } else if toks.len() > 1 {
        err(1, ErrorKind::Unexpected)
    } else {
        Ok(syn_str_value(literal_text(toks, 0)))
    }
}

/// The value of the one string literal of the input `toks`.
pub fn override_value(toks: &Vec<Tok>) -> (r: Result<String, MacroError>)
    ensures
        r matches Ok(v) ==> spec_override_value(toks@) == Ok::<Seq<char>, MacroError>(v@),
        r matches Err(e) ==> spec_override_value(toks@) == Err::<Seq<char>, MacroError>(e),
{
    if !peek_str_lit(toks, 0, toks.len()) {
        return Err(MacroError { at: 0, kind: ErrorKind::ExpectedStrLit });
    }
    if toks.len() > 1 {
        return Err(MacroError { at: 1, kind: ErrorKind::Unexpected });
    }
    let text = match &toks[0] {
        Tok::Literal(t) => t.clone(),
        _ => String::new(),
    };
    assert(text@ == literal_text(toks@, 0));
    Ok(str_lit_value(text.as_str()))
}

} // verus!
