//! The tokens of `reg!`: for each variant of the register, its module (the
//! value, the register token, its holder, and a token of each field with
//! its accessors), then the conversions between the variants' tokens.

use crate::case::cat3;
use crate::reg::{
    Conversion, FieldPlan, FieldPlanV, RegField, RegFieldV, Variant, VariantPlan, VariantPlanV,
    VariantV, conversion_rows, conversion_view, reg, spec_variants, variant_plan, variants_view,
};
use crate::reg_tokens_expansion::{attrs_toks, emit_attrs};
use crate::thr_static::{one, one_exec};
use crate::token::{
    Delim, MacroError, Tok, TokV, emit_close, first_use_after, emit_joint, emit_open, emit_punct, emit_span, emit_string,
    emit_word, push_tok, span_toks, tclose, tj, tl, topen, toks_view, tp, tw,
};
use vstd::prelude::*;

verus! {

/// `ATTRS #[derive(Clone, Copy)] pub struct PSC<_T: RegTag>(_T);`
#[verifier::opaque]
pub open spec fn field_struct(toks: Seq<Tok>, f: RegFieldV, fp: FieldPlanV, val: Seq<char>) -> Seq<TokV> {
    span_toks(toks, f.attrs) + tp('#') + topen(Delim::Bracket) + tw("derive"@) + topen(Delim::Paren) + tw("Clone"@) + tp(',') + tw("Copy"@) + tclose(Delim::Paren) + tclose(Delim::Bracket) + tw("pub"@) + tw("struct"@) + tw(fp.psc) + tp('<') + tw("_T"@) + tp(':') + tj(':', ':') + tw("drone_core"@) + tj(':', ':') + tw("reg"@) + tj(':', ':') + tw("tag"@) + tj(':', ':') + tw("RegTag"@) + tp('>') + topen(Delim::Paren) + tw("_T"@) + tclose(Delim::Paren) + tp(';')
}

#[verifier::spinoff_prover]
#[verifier::rlimit(80)]
fn emit_field_struct(toks: &Vec<Tok>, f: &RegField, fp: &FieldPlan, val: &String, out: &mut Vec<Tok>)
    ensures
        toks_view(final(out)@) == toks_view(old(out)@) + field_struct(toks@, f@, fp@, val@),
{
    let ghost b = toks_view(old(out)@);
    emit_span(toks, f.attrs, out);
    emit_punct(out, '#');
    emit_open(out, Delim::Bracket);
    emit_word(out, "derive");
    emit_open(out, Delim::Paren);
    emit_word(out, "Clone");
    emit_punct(out, ',');
    emit_word(out, "Copy");
    emit_close(out, Delim::Paren);
    emit_close(out, Delim::Bracket);
    emit_word(out, "pub");
    emit_word(out, "struct");
    emit_string(out, &fp.psc);
    emit_punct(out, '<');
    emit_word(out, "_T");
    emit_punct(out, ':');
    emit_joint(out, ':', ':');
    emit_word(out, "drone_core");
    emit_joint(out, ':', ':');
    emit_word(out, "reg");
    emit_joint(out, ':', ':');
    emit_word(out, "tag");
    emit_joint(out, ':', ':');
    emit_word(out, "RegTag");
    emit_punct(out, '>');
    emit_open(out, Delim::Paren);
    emit_word(out, "_T");
    emit_close(out, Delim::Paren);
    emit_punct(out, ';');
    proof {
        reveal(field_struct);
    }
    assert(toks_view(out@) =~= b + field_struct(toks@, f@, fp@, val@));
}

/// A part of `field_token`.
#[verifier::opaque]
pub open spec fn field_token_1(toks: Seq<Tok>, f: RegFieldV, fp: FieldPlanV, val: Seq<char>) -> Seq<TokV> {
    attrs_toks(toks, fp.cfg_attrs, f.attrs.end as int) + tw("unsafe"@) + tw("impl"@) + tp('<') + tw("_T"@) + tp('>') + tj(':', ':') + tw("drone_core"@) + tj(':', ':') + tw("token"@) + tj(':', ':') + tw("Token"@) + tw("for"@) + tw(fp.psc) + tp('<') + tw("_T"@) + tp('>') + tw("where"@) + tw("_T"@) + tp(':') + tj(':', ':') + tw("drone_core"@) + tj(':', ':') + tw("reg"@) + tj(':', ':') + tw("tag"@) + tj(':', ':') + tw("RegTag"@) + tp(',') + topen(Delim::Brace)
}

#[verifier::spinoff_prover]
#[verifier::rlimit(80)]
fn emit_field_token_1(toks: &Vec<Tok>, f: &RegField, fp: &FieldPlan, val: &String, out: &mut Vec<Tok>)
    ensures
        toks_view(final(out)@) == toks_view(old(out)@) + field_token_1(toks@, f@, fp@, val@),
{
    let ghost b = toks_view(old(out)@);
    emit_attrs(toks, &fp.cfg_attrs, f.attrs.end, out);
    emit_word(out, "unsafe");
    emit_word(out, "impl");
    emit_punct(out, '<');
    emit_word(out, "_T");
    emit_punct(out, '>');
    emit_joint(out, ':', ':');
    emit_word(out, "drone_core");
    emit_joint(out, ':', ':');
    emit_word(out, "token");
    emit_joint(out, ':', ':');
    emit_word(out, "Token");
    emit_word(out, "for");
    emit_string(out, &fp.psc);
    emit_punct(out, '<');
    emit_word(out, "_T");
    emit_punct(out, '>');
    emit_word(out, "where");
    emit_word(out, "_T");
    emit_punct(out, ':');
    emit_joint(out, ':', ':');
    emit_word(out, "drone_core");
    emit_joint(out, ':', ':');
    emit_word(out, "reg");
    emit_joint(out, ':', ':');
    emit_word(out, "tag");
    emit_joint(out, ':', ':');
    emit_word(out, "RegTag");
    emit_punct(out, ',');
    emit_open(out, Delim::Brace);
    proof {
        reveal(field_token_1);
    }
    assert(toks_view(out@) =~= b + field_token_1(toks@, f@, fp@, val@));
}

/// A part of `field_token`.
#[verifier::opaque]
pub open spec fn field_token_2(toks: Seq<Tok>, f: RegFieldV, fp: FieldPlanV, val: Seq<char>) -> Seq<TokV> {
    tp('#') + topen(Delim::Bracket) + tw("inline"@) + tclose(Delim::Bracket) + tw("unsafe"@) + tw("fn"@) + tw("take"@) + topen(Delim::Paren) + tclose(Delim::Paren) + tj('-', '>') + tw("Self"@) + topen(Delim::Brace) + tw(fp.psc) + topen(Delim::Paren) + tw("_T"@) + tj(':', ':') + tw("default"@) + topen(Delim::Paren) + tclose(Delim::Paren) + tclose(Delim::Paren) + tclose(Delim::Brace) + tclose(Delim::Brace)
}

#[verifier::spinoff_prover]
#[verifier::rlimit(80)]
fn emit_field_token_2(toks: &Vec<Tok>, f: &RegField, fp: &FieldPlan, val: &String, out: &mut Vec<Tok>)
    ensures
        toks_view(final(out)@) == toks_view(old(out)@) + field_token_2(toks@, f@, fp@, val@),
{
    let ghost b = toks_view(old(out)@);
    emit_punct(out, '#');
    emit_open(out, Delim::Bracket);
    emit_word(out, "inline");
    emit_close(out, Delim::Bracket);
    emit_word(out, "unsafe");
    emit_word(out, "fn");
    emit_word(out, "take");
    emit_open(out, Delim::Paren);
    emit_close(out, Delim::Paren);
    emit_joint(out, '-', '>');
    emit_word(out, "Self");
    emit_open(out, Delim::Brace);
    emit_string(out, &fp.psc);
    emit_open(out, Delim::Paren);
    emit_word(out, "_T");
    emit_joint(out, ':', ':');
    emit_word(out, "default");
    emit_open(out, Delim::Paren);
    emit_close(out, Delim::Paren);
    emit_close(out, Delim::Paren);
    emit_close(out, Delim::Brace);
    emit_close(out, Delim::Brace);
    proof {
        reveal(field_token_2);
    }
    assert(toks_view(out@) =~= b + field_token_2(toks@, f@, fp@, val@));
}

/// `CFGS unsafe impl<_T> ::drone_core::token::Token for PSC<_T> where .. { #[inline] unsafe fn take() -> Self { PSC(_T::default()) } }`
#[verifier::opaque]
pub open spec fn field_token(toks: Seq<Tok>, f: RegFieldV, fp: FieldPlanV, val: Seq<char>) -> Seq<TokV> {
    field_token_1(toks, f, fp, val) + field_token_2(toks, f, fp, val)
}

#[verifier::spinoff_prover]
#[verifier::rlimit(80)]
fn emit_field_token(toks: &Vec<Tok>, f: &RegField, fp: &FieldPlan, val: &String, out: &mut Vec<Tok>)
    ensures
        toks_view(final(out)@) == toks_view(old(out)@) + field_token(toks@, f@, fp@, val@),
{
    let ghost b = toks_view(old(out)@);
    emit_field_token_1(toks, f, fp, val, out);
    emit_field_token_2(toks, f, fp, val, out);
    proof {
        reveal(field_token);
    }
    assert(toks_view(out@) =~= b + field_token(toks@, f@, fp@, val@));
}

/// A part of `field_regfield`.
#[verifier::opaque]
pub open spec fn field_regfield_1(toks: Seq<Tok>, f: RegFieldV, fp: FieldPlanV, val: Seq<char>) -> Seq<TokV> {
    attrs_toks(toks, fp.cfg_attrs, f.attrs.end as int) + tw("impl"@) + tp('<') + tw("_T"@) + tp('>') + tj(':', ':') + tw("drone_core"@) + tj(':', ':') + tw("reg"@) + tj(':', ':') + tw("field"@) + tj(':', ':') + tw("RegField"@) + tp('<') + tw("_T"@) + tp('>') + tw("for"@) + tw(fp.psc) + tp('<') + tw("_T"@) + tp('>') + tw("where"@) + tw("_T"@) + tp(':') + tj(':', ':') + tw("drone_core"@) + tj(':', ':') + tw("reg"@) + tj(':', ':') + tw("tag"@)
}

#[verifier::spinoff_prover]
#[verifier::rlimit(80)]
fn emit_field_regfield_1(toks: &Vec<Tok>, f: &RegField, fp: &FieldPlan, val: &String, out: &mut Vec<Tok>)
    ensures
        toks_view(final(out)@) == toks_view(old(out)@) + field_regfield_1(toks@, f@, fp@, val@),
{
    let ghost b = toks_view(old(out)@);
    emit_attrs(toks, &fp.cfg_attrs, f.attrs.end, out);
    emit_word(out, "impl");
    emit_punct(out, '<');
    emit_word(out, "_T");
    emit_punct(out, '>');
    emit_joint(out, ':', ':');
    emit_word(out, "drone_core");
    emit_joint(out, ':', ':');
    emit_word(out, "reg");
    emit_joint(out, ':', ':');
    emit_word(out, "field");
    emit_joint(out, ':', ':');
    emit_word(out, "RegField");
    emit_punct(out, '<');
    emit_word(out, "_T");
    emit_punct(out, '>');
    emit_word(out, "for");
    emit_string(out, &fp.psc);
    emit_punct(out, '<');
    emit_word(out, "_T");
    emit_punct(out, '>');
    emit_word(out, "where");
    emit_word(out, "_T");
    emit_punct(out, ':');
    emit_joint(out, ':', ':');
    emit_word(out, "drone_core");
    emit_joint(out, ':', ':');
    emit_word(out, "reg");
    emit_joint(out, ':', ':');
    emit_word(out, "tag");
    proof {
        reveal(field_regfield_1);
    }
    assert(toks_view(out@) =~= b + field_regfield_1(toks@, f@, fp@, val@));
}

/// A part of `field_regfield`.
#[verifier::opaque]
pub open spec fn field_regfield_2(toks: Seq<Tok>, f: RegFieldV, fp: FieldPlanV, val: Seq<char>) -> Seq<TokV> {
    tj(':', ':') + tw("RegTag"@) + tp(',') + topen(Delim::Brace) + tw("type"@) + tw("Reg"@) + tp('=') + tw("Reg"@) + tp('<') + tw("_T"@) + tp('>') + tp(';') + tw("type"@) + tw("URegField"@) + tp('=') + tw(fp.psc) + tp('<') + tj(':', ':') + tw("drone_core"@) + tj(':', ':') + tw("reg"@) + tj(':', ':') + tw("tag"@) + tj(':', ':') + tw("Urt"@) + tp('>') + tp(';') + tw("type"@) + tw("SRegField"@) + tp('=')
}

#[verifier::spinoff_prover]
#[verifier::rlimit(80)]
fn emit_field_regfield_2(toks: &Vec<Tok>, f: &RegField, fp: &FieldPlan, val: &String, out: &mut Vec<Tok>)
    ensures
        toks_view(final(out)@) == toks_view(old(out)@) + field_regfield_2(toks@, f@, fp@, val@),
{
    let ghost b = toks_view(old(out)@);
    emit_joint(out, ':', ':');
    emit_word(out, "RegTag");
    emit_punct(out, ',');
    emit_open(out, Delim::Brace);
    emit_word(out, "type");
    emit_word(out, "Reg");
    emit_punct(out, '=');
    emit_word(out, "Reg");
    emit_punct(out, '<');
    emit_word(out, "_T");
    emit_punct(out, '>');
    emit_punct(out, ';');
    emit_word(out, "type");
    emit_word(out, "URegField");
    emit_punct(out, '=');
    emit_string(out, &fp.psc);
    emit_punct(out, '<');
    emit_joint(out, ':', ':');
    emit_word(out, "drone_core");
    emit_joint(out, ':', ':');
    emit_word(out, "reg");
    emit_joint(out, ':', ':');
    emit_word(out, "tag");
    emit_joint(out, ':', ':');
    emit_word(out, "Urt");
    emit_punct(out, '>');
    emit_punct(out, ';');
    emit_word(out, "type");
    emit_word(out, "SRegField");
    emit_punct(out, '=');
    proof {
        reveal(field_regfield_2);
    }
    assert(toks_view(out@) =~= b + field_regfield_2(toks@, f@, fp@, val@));
}

/// A part of `field_regfield`.
#[verifier::opaque]
pub open spec fn field_regfield_3(toks: Seq<Tok>, f: RegFieldV, fp: FieldPlanV, val: Seq<char>) -> Seq<TokV> {
    tw(fp.psc) + tp('<') + tj(':', ':') + tw("drone_core"@) + tj(':', ':') + tw("reg"@) + tj(':', ':') + tw("tag"@) + tj(':', ':') + tw("Srt"@) + tp('>') + tp(';') + tw("type"@) + tw("CRegField"@) + tp('=') + tw(fp.psc) + tp('<') + tj(':', ':') + tw("drone_core"@) + tj(':', ':') + tw("reg"@) + tj(':', ':') + tw("tag"@) + tj(':', ':') + tw("Crt"@) + tp('>') + tp(';') + tw("const"@) + tw("OFFSET"@) + tp(':')
}

#[verifier::spinoff_prover]
#[verifier::rlimit(80)]
fn emit_field_regfield_3(toks: &Vec<Tok>, f: &RegField, fp: &FieldPlan, val: &String, out: &mut Vec<Tok>)
    ensures
        toks_view(final(out)@) == toks_view(old(out)@) + field_regfield_3(toks@, f@, fp@, val@),
{
    let ghost b = toks_view(old(out)@);
    emit_string(out, &fp.psc);
    emit_punct(out, '<');
    emit_joint(out, ':', ':');
    emit_word(out, "drone_core");
    emit_joint(out, ':', ':');
    emit_word(out, "reg");
    emit_joint(out, ':', ':');
    emit_word(out, "tag");
    emit_joint(out, ':', ':');
    emit_word(out, "Srt");
    emit_punct(out, '>');
    emit_punct(out, ';');
    emit_word(out, "type");
    emit_word(out, "CRegField");
    emit_punct(out, '=');
    emit_string(out, &fp.psc);
    emit_punct(out, '<');
    emit_joint(out, ':', ':');
    emit_word(out, "drone_core");
    emit_joint(out, ':', ':');
    emit_word(out, "reg");
    emit_joint(out, ':', ':');
    emit_word(out, "tag");
    emit_joint(out, ':', ':');
    emit_word(out, "Crt");
    emit_punct(out, '>');
    emit_punct(out, ';');
    emit_word(out, "const");
    emit_word(out, "OFFSET");
    emit_punct(out, ':');
    proof {
        reveal(field_regfield_3);
    }
    assert(toks_view(out@) =~= b + field_regfield_3(toks@, f@, fp@, val@));
}

/// A part of `field_regfield`.
#[verifier::opaque]
pub open spec fn field_regfield_4(toks: Seq<Tok>, f: RegFieldV, fp: FieldPlanV, val: Seq<char>) -> Seq<TokV> {
    tw("usize"@) + tp('=') + span_toks(toks, one(f.offset)) + tp(';') + tw("const"@) + tw("WIDTH"@) + tp(':') + tw("usize"@) + tp('=') + span_toks(toks, one(f.width)) + tp(';') + tclose(Delim::Brace)
}

#[verifier::spinoff_prover]
#[verifier::rlimit(80)]
fn emit_field_regfield_4(toks: &Vec<Tok>, f: &RegField, fp: &FieldPlan, val: &String, out: &mut Vec<Tok>)
    ensures
        toks_view(final(out)@) == toks_view(old(out)@) + field_regfield_4(toks@, f@, fp@, val@),
{
    let ghost b = toks_view(old(out)@);
    emit_word(out, "usize");
    emit_punct(out, '=');
    emit_span(toks, one_exec(f.offset), out);
    emit_punct(out, ';');
    emit_word(out, "const");
    emit_word(out, "WIDTH");
    emit_punct(out, ':');
    emit_word(out, "usize");
    emit_punct(out, '=');
    emit_span(toks, one_exec(f.width), out);
    emit_punct(out, ';');
    emit_close(out, Delim::Brace);
    proof {
        reveal(field_regfield_4);
    }
    assert(toks_view(out@) =~= b + field_regfield_4(toks@, f@, fp@, val@));
}

/// `CFGS impl<_T> ::drone_core::reg::field::RegField<_T> for PSC<_T> where .. { type Reg = Reg<_T>; .. const OFFSET: usize = OFFSET; const WIDTH: usize = WIDTH; }`
#[verifier::opaque]
pub open spec fn field_regfield(toks: Seq<Tok>, f: RegFieldV, fp: FieldPlanV, val: Seq<char>) -> Seq<TokV> {
    field_regfield_1(toks, f, fp, val) + field_regfield_2(toks, f, fp, val) + field_regfield_3(toks, f, fp, val) + field_regfield_4(toks, f, fp, val)
}

#[verifier::spinoff_prover]
#[verifier::rlimit(80)]
fn emit_field_regfield(toks: &Vec<Tok>, f: &RegField, fp: &FieldPlan, val: &String, out: &mut Vec<Tok>)
    ensures
        toks_view(final(out)@) == toks_view(old(out)@) + field_regfield(toks@, f@, fp@, val@),
{
    let ghost b = toks_view(old(out)@);
    emit_field_regfield_1(toks, f, fp, val, out);
    emit_field_regfield_2(toks, f, fp, val, out);
    emit_field_regfield_3(toks, f, fp, val, out);
    emit_field_regfield_4(toks, f, fp, val, out);
    proof {
        reveal(field_regfield);
    }
    assert(toks_view(out@) =~= b + field_regfield(toks@, f@, fp@, val@));
}

/// `CFGS impl<_T: RegTag> TRAIT<_T> for PSC<_T> {}`
#[verifier::opaque]
pub open spec fn field_trait(toks: Seq<Tok>, f: RegFieldV, fp: FieldPlanV, val: Seq<char>, tr: usize) -> Seq<TokV> {
    attrs_toks(toks, fp.cfg_attrs, f.attrs.end as int) + tw("impl"@) + tp('<') + tw("_T"@) + tp(':') + tj(':', ':') + tw("drone_core"@) + tj(':', ':') + tw("reg"@) + tj(':', ':') + tw("tag"@) + tj(':', ':') + tw("RegTag"@) + tp('>') + span_toks(toks, one(tr)) + tp('<') + tw("_T"@) + tp('>') + tw("for"@) + tw(fp.psc) + tp('<') + tw("_T"@) + tp('>') + topen(Delim::Brace) + tclose(Delim::Brace)
}

#[verifier::spinoff_prover]
#[verifier::rlimit(80)]
fn emit_field_trait(toks: &Vec<Tok>, f: &RegField, fp: &FieldPlan, val: &String, tr: usize, out: &mut Vec<Tok>)
    ensures
        toks_view(final(out)@) == toks_view(old(out)@) + field_trait(toks@, f@, fp@, val@, tr),
{
    let ghost b = toks_view(old(out)@);
    emit_attrs(toks, &fp.cfg_attrs, f.attrs.end, out);
    emit_word(out, "impl");
    emit_punct(out, '<');
    emit_word(out, "_T");
    emit_punct(out, ':');
    emit_joint(out, ':', ':');
    emit_word(out, "drone_core");
    emit_joint(out, ':', ':');
    emit_word(out, "reg");
    emit_joint(out, ':', ':');
    emit_word(out, "tag");
    emit_joint(out, ':', ':');
    emit_word(out, "RegTag");
    emit_punct(out, '>');
    emit_span(toks, one_exec(tr), out);
    emit_punct(out, '<');
    emit_word(out, "_T");
    emit_punct(out, '>');
    emit_word(out, "for");
    emit_string(out, &fp.psc);
    emit_punct(out, '<');
    emit_word(out, "_T");
    emit_punct(out, '>');
    emit_open(out, Delim::Brace);
    emit_close(out, Delim::Brace);
    proof {
        reveal(field_trait);
    }
    assert(toks_view(out@) =~= b + field_trait(toks@, f@, fp@, val@, tr));
}

/// A part of `field_bit`.
#[verifier::opaque]
pub open spec fn field_bit_1(toks: Seq<Tok>, f: RegFieldV, fp: FieldPlanV, val: Seq<char>) -> Seq<TokV> {
    attrs_toks(toks, fp.cfg_attrs, f.attrs.end as int) + tw("impl"@) + tp('<') + tw("_T"@) + tp('>') + tj(':', ':') + tw("drone_core"@) + tj(':', ':') + tw("reg"@) + tj(':', ':') + tw("field"@) + tj(':', ':') + tw("RegFieldBit"@) + tp('<') + tw("_T"@) + tp('>') + tw("for"@) + tw(fp.psc) + tp('<') + tw("_T"@) + tp('>') + tw("where"@) + tw("_T"@) + tp(':') + tj(':', ':') + tw("drone_core"@) + tj(':', ':') + tw("reg"@) + tj(':', ':') + tw("tag"@)
}

#[verifier::spinoff_prover]
#[verifier::rlimit(80)]
fn emit_field_bit_1(toks: &Vec<Tok>, f: &RegField, fp: &FieldPlan, val: &String, out: &mut Vec<Tok>)
    ensures
        toks_view(final(out)@) == toks_view(old(out)@) + field_bit_1(toks@, f@, fp@, val@),
{
    let ghost b = toks_view(old(out)@);
    emit_attrs(toks, &fp.cfg_attrs, f.attrs.end, out);
    emit_word(out, "impl");
    emit_punct(out, '<');
    emit_word(out, "_T");
    emit_punct(out, '>');
    emit_joint(out, ':', ':');
    emit_word(out, "drone_core");
    emit_joint(out, ':', ':');
    emit_word(out, "reg");
    emit_joint(out, ':', ':');
    emit_word(out, "field");
    emit_joint(out, ':', ':');
    emit_word(out, "RegFieldBit");
    emit_punct(out, '<');
    emit_word(out, "_T");
    emit_punct(out, '>');
    emit_word(out, "for");
    emit_string(out, &fp.psc);
    emit_punct(out, '<');
    emit_word(out, "_T");
    emit_punct(out, '>');
    emit_word(out, "where");
    emit_word(out, "_T");
    emit_punct(out, ':');
    emit_joint(out, ':', ':');
    emit_word(out, "drone_core");
    emit_joint(out, ':', ':');
    emit_word(out, "reg");
    emit_joint(out, ':', ':');
    emit_word(out, "tag");
    proof {
        reveal(field_bit_1);
    }
    assert(toks_view(out@) =~= b + field_bit_1(toks@, f@, fp@, val@));
}

/// A part of `field_bit`.
#[verifier::opaque]
pub open spec fn field_bit_2(toks: Seq<Tok>, f: RegFieldV, fp: FieldPlanV, val: Seq<char>) -> Seq<TokV> {
    tj(':', ':') + tw("RegTag"@) + tp(',') + topen(Delim::Brace) + tclose(Delim::Brace)
}

#[verifier::spinoff_prover]
#[verifier::rlimit(80)]
fn emit_field_bit_2(toks: &Vec<Tok>, f: &RegField, fp: &FieldPlan, val: &String, out: &mut Vec<Tok>)
    ensures
        toks_view(final(out)@) == toks_view(old(out)@) + field_bit_2(toks@, f@, fp@, val@),
{
    let ghost b = toks_view(old(out)@);
    emit_joint(out, ':', ':');
    emit_word(out, "RegTag");
    emit_punct(out, ',');
    emit_open(out, Delim::Brace);
    emit_close(out, Delim::Brace);
    proof {
        reveal(field_bit_2);
    }
    assert(toks_view(out@) =~= b + field_bit_2(toks@, f@, fp@, val@));
}

/// `CFGS impl<_T> ::drone_core::reg::field::RegFieldBit<_T> for PSC<_T> where .. {}`
#[verifier::opaque]
pub open spec fn field_bit(toks: Seq<Tok>, f: RegFieldV, fp: FieldPlanV, val: Seq<char>) -> Seq<TokV> {
    field_bit_1(toks, f, fp, val) + field_bit_2(toks, f, fp, val)
}

#[verifier::spinoff_prover]
#[verifier::rlimit(80)]
fn emit_field_bit(toks: &Vec<Tok>, f: &RegField, fp: &FieldPlan, val: &String, out: &mut Vec<Tok>)
    ensures
        toks_view(final(out)@) == toks_view(old(out)@) + field_bit(toks@, f@, fp@, val@),
{
    let ghost b = toks_view(old(out)@);
    emit_field_bit_1(toks, f, fp, val, out);
    emit_field_bit_2(toks, f, fp, val, out);
    proof {
        reveal(field_bit);
    }
    assert(toks_view(out@) =~= b + field_bit(toks@, f@, fp@, val@));
}

/// A part of `field_bits`.
#[verifier::opaque]
pub open spec fn field_bits_1(toks: Seq<Tok>, f: RegFieldV, fp: FieldPlanV, val: Seq<char>) -> Seq<TokV> {
    tw("impl"@) + tp('<') + tw("_T"@) + tp('>') + tj(':', ':') + tw("drone_core"@) + tj(':', ':') + tw("reg"@) + tj(':', ':') + tw("field"@) + tj(':', ':') + tw("RegFieldBits"@) + tp('<') + tw("_T"@) + tp('>') + tw("for"@) + tw(fp.psc) + tp('<') + tw("_T"@) + tp('>') + tw("where"@) + tw("_T"@) + tp(':') + tj(':', ':') + tw("drone_core"@) + tj(':', ':') + tw("reg"@) + tj(':', ':') + tw("tag"@) + tj(':', ':')
}

#[verifier::spinoff_prover]
#[verifier::rlimit(80)]
fn emit_field_bits_1(toks: &Vec<Tok>, f: &RegField, fp: &FieldPlan, val: &String, out: &mut Vec<Tok>)
    ensures
        toks_view(final(out)@) == toks_view(old(out)@) + field_bits_1(toks@, f@, fp@, val@),
{
    let ghost b = toks_view(old(out)@);
    emit_word(out, "impl");
    emit_punct(out, '<');
    emit_word(out, "_T");
    emit_punct(out, '>');
    emit_joint(out, ':', ':');
    emit_word(out, "drone_core");
    emit_joint(out, ':', ':');
    emit_word(out, "reg");
    emit_joint(out, ':', ':');
    emit_word(out, "field");
    emit_joint(out, ':', ':');
    emit_word(out, "RegFieldBits");
    emit_punct(out, '<');
    emit_word(out, "_T");
    emit_punct(out, '>');
    emit_word(out, "for");
    emit_string(out, &fp.psc);
    emit_punct(out, '<');
    emit_word(out, "_T");
    emit_punct(out, '>');
    emit_word(out, "where");
    emit_word(out, "_T");
    emit_punct(out, ':');
    emit_joint(out, ':', ':');
    emit_word(out, "drone_core");
    emit_joint(out, ':', ':');
    emit_word(out, "reg");
    emit_joint(out, ':', ':');
    emit_word(out, "tag");
    emit_joint(out, ':', ':');
    proof {
        reveal(field_bits_1);
    }
    assert(toks_view(out@) =~= b + field_bits_1(toks@, f@, fp@, val@));
}

/// A part of `field_bits`.
#[verifier::opaque]
pub open spec fn field_bits_2(toks: Seq<Tok>, f: RegFieldV, fp: FieldPlanV, val: Seq<char>) -> Seq<TokV> {
    tw("RegTag"@) + tp(',') + topen(Delim::Brace) + tclose(Delim::Brace)
}

#[verifier::spinoff_prover]
#[verifier::rlimit(80)]
fn emit_field_bits_2(toks: &Vec<Tok>, f: &RegField, fp: &FieldPlan, val: &String, out: &mut Vec<Tok>)
    ensures
        toks_view(final(out)@) == toks_view(old(out)@) + field_bits_2(toks@, f@, fp@, val@),
{
    let ghost b = toks_view(old(out)@);
    emit_word(out, "RegTag");
    emit_punct(out, ',');
    emit_open(out, Delim::Brace);
    emit_close(out, Delim::Brace);
    proof {
        reveal(field_bits_2);
    }
    assert(toks_view(out@) =~= b + field_bits_2(toks@, f@, fp@, val@));
}

/// `impl<_T> ::drone_core::reg::field::RegFieldBits<_T> for PSC<_T> where .. {}`
#[verifier::opaque]
pub open spec fn field_bits(toks: Seq<Tok>, f: RegFieldV, fp: FieldPlanV, val: Seq<char>) -> Seq<TokV> {
    field_bits_1(toks, f, fp, val) + field_bits_2(toks, f, fp, val)
}

#[verifier::spinoff_prover]
#[verifier::rlimit(80)]
fn emit_field_bits(toks: &Vec<Tok>, f: &RegField, fp: &FieldPlan, val: &String, out: &mut Vec<Tok>)
    ensures
        toks_view(final(out)@) == toks_view(old(out)@) + field_bits(toks@, f@, fp@, val@),
{
    let ghost b = toks_view(old(out)@);
    emit_field_bits_1(toks, f, fp, val, out);
    emit_field_bits_2(toks, f, fp, val, out);
    proof {
        reveal(field_bits);
    }
    assert(toks_view(out@) =~= b + field_bits(toks@, f@, fp@, val@));
}

/// A part of `field_bit_read`.
#[verifier::opaque]
pub open spec fn field_bit_read_1(toks: Seq<Tok>, f: RegFieldV, fp: FieldPlanV, val: Seq<char>) -> Seq<TokV> {
    tp('#') + topen(Delim::Bracket) + tw("allow"@) + topen(Delim::Paren) + tw("clippy"@) + tj(':', ':') + tw("len_without_is_empty"@) + tclose(Delim::Paren) + tclose(Delim::Bracket) + tw("impl"@) + tp('<') + seq![TokV::Punct('\'', true)] + tw("a"@) + tp(',') + tw("_T"@) + tp(':') + tj(':', ':') + tw("drone_core"@) + tj(':', ':') + tw("reg"@) + tj(':', ':') + tw("tag"@) + tj(':', ':') + tw("RegTag"@) + tp('>') + tw("Hold"@) + tp('<') + seq![TokV::Punct('\'', true)] + tw("a"@) + tp(',')
}

#[verifier::spinoff_prover]
#[verifier::rlimit(80)]
fn emit_field_bit_read_1(toks: &Vec<Tok>, f: &RegField, fp: &FieldPlan, val: &String, out: &mut Vec<Tok>)
    ensures
        toks_view(final(out)@) == toks_view(old(out)@) + field_bit_read_1(toks@, f@, fp@, val@),
{
    let ghost b = toks_view(old(out)@);
    emit_punct(out, '#');
    emit_open(out, Delim::Bracket);
    emit_word(out, "allow");
    emit_open(out, Delim::Paren);
    emit_word(out, "clippy");
    emit_joint(out, ':', ':');
    emit_word(out, "len_without_is_empty");
    emit_close(out, Delim::Paren);
    emit_close(out, Delim::Bracket);
    emit_word(out, "impl");
    emit_punct(out, '<');
    push_tok(out, Tok::Punct('\'', true));
    emit_word(out, "a");
    emit_punct(out, ',');
    emit_word(out, "_T");
    emit_punct(out, ':');
    emit_joint(out, ':', ':');
    emit_word(out, "drone_core");
    emit_joint(out, ':', ':');
    emit_word(out, "reg");
    emit_joint(out, ':', ':');
    emit_word(out, "tag");
    emit_joint(out, ':', ':');
    emit_word(out, "RegTag");
    emit_punct(out, '>');
    emit_word(out, "Hold");
    emit_punct(out, '<');
    push_tok(out, Tok::Punct('\'', true));
    emit_word(out, "a");
    emit_punct(out, ',');
    proof {
        reveal(field_bit_read_1);
    }
    assert(toks_view(out@) =~= b + field_bit_read_1(toks@, f@, fp@, val@));
}

/// A part of `field_bit_read`.
#[verifier::opaque]
pub open spec fn field_bit_read_2(toks: Seq<Tok>, f: RegFieldV, fp: FieldPlanV, val: Seq<char>) -> Seq<TokV> {
    tw("_T"@) + tp('>') + topen(Delim::Brace) + span_toks(toks, f.attrs) + tp('#') + topen(Delim::Bracket) + tw("inline"@) + tclose(Delim::Bracket) + tw("pub"@) + tw("fn"@) + tw(fp.ident) + topen(Delim::Paren) + tp('&') + tw("self"@) + tclose(Delim::Paren) + tj('-', '>') + tw("bool"@) + topen(Delim::Brace) + tj(':', ':') + tw("drone_core"@) + tj(':', ':') + tw("reg"@) + tj(':', ':') + tw("field"@) + tj(':', ':') + tw("RRRegFieldBit"@) + tj(':', ':') + tw("read"@) + topen(Delim::Paren) + tp('&')
}

#[verifier::spinoff_prover]
#[verifier::rlimit(80)]
fn emit_field_bit_read_2(toks: &Vec<Tok>, f: &RegField, fp: &FieldPlan, val: &String, out: &mut Vec<Tok>)
    ensures
        toks_view(final(out)@) == toks_view(old(out)@) + field_bit_read_2(toks@, f@, fp@, val@),
{
    let ghost b = toks_view(old(out)@);
    emit_word(out, "_T");
    emit_punct(out, '>');
    emit_open(out, Delim::Brace);
    emit_span(toks, f.attrs, out);
    emit_punct(out, '#');
    emit_open(out, Delim::Bracket);
    emit_word(out, "inline");
    emit_close(out, Delim::Bracket);
    emit_word(out, "pub");
    emit_word(out, "fn");
    emit_string(out, &fp.ident);
    emit_open(out, Delim::Paren);
    emit_punct(out, '&');
    emit_word(out, "self");
    emit_close(out, Delim::Paren);
    emit_joint(out, '-', '>');
    emit_word(out, "bool");
    emit_open(out, Delim::Brace);
    emit_joint(out, ':', ':');
    emit_word(out, "drone_core");
    emit_joint(out, ':', ':');
    emit_word(out, "reg");
    emit_joint(out, ':', ':');
    emit_word(out, "field");
    emit_joint(out, ':', ':');
    emit_word(out, "RRRegFieldBit");
    emit_joint(out, ':', ':');
    emit_word(out, "read");
    emit_open(out, Delim::Paren);
    emit_punct(out, '&');
    proof {
        reveal(field_bit_read_2);
    }
    assert(toks_view(out@) =~= b + field_bit_read_2(toks@, f@, fp@, val@));
}

/// A part of `field_bit_read`.
#[verifier::opaque]
pub open spec fn field_bit_read_3(toks: Seq<Tok>, f: RegFieldV, fp: FieldPlanV, val: Seq<char>) -> Seq<TokV> {
    tw("self"@) + tp('.') + tw("reg"@) + tp('.') + tw(fp.ident) + tp(',') + tp('&') + tw("self"@) + tp('.') + tw("val"@) + tp(',') + tclose(Delim::Paren) + tclose(Delim::Brace) + tclose(Delim::Brace)
}

#[verifier::spinoff_prover]
#[verifier::rlimit(80)]
fn emit_field_bit_read_3(toks: &Vec<Tok>, f: &RegField, fp: &FieldPlan, val: &String, out: &mut Vec<Tok>)
    ensures
        toks_view(final(out)@) == toks_view(old(out)@) + field_bit_read_3(toks@, f@, fp@, val@),
{
    let ghost b = toks_view(old(out)@);
    emit_word(out, "self");
    emit_punct(out, '.');
    emit_word(out, "reg");
    emit_punct(out, '.');
    emit_string(out, &fp.ident);
    emit_punct(out, ',');
    emit_punct(out, '&');
    emit_word(out, "self");
    emit_punct(out, '.');
    emit_word(out, "val");
    emit_punct(out, ',');
    emit_close(out, Delim::Paren);
    emit_close(out, Delim::Brace);
    emit_close(out, Delim::Brace);
    proof {
        reveal(field_bit_read_3);
    }
    assert(toks_view(out@) =~= b + field_bit_read_3(toks@, f@, fp@, val@));
}

/// The getter of a one-bit field.
#[verifier::opaque]
pub open spec fn field_bit_read(toks: Seq<Tok>, f: RegFieldV, fp: FieldPlanV, val: Seq<char>) -> Seq<TokV> {
    field_bit_read_1(toks, f, fp, val) + field_bit_read_2(toks, f, fp, val) + field_bit_read_3(toks, f, fp, val)
}

#[verifier::spinoff_prover]
#[verifier::rlimit(80)]
fn emit_field_bit_read(toks: &Vec<Tok>, f: &RegField, fp: &FieldPlan, val: &String, out: &mut Vec<Tok>)
    ensures
        toks_view(final(out)@) == toks_view(old(out)@) + field_bit_read(toks@, f@, fp@, val@),
{
    let ghost b = toks_view(old(out)@);
    emit_field_bit_read_1(toks, f, fp, val, out);
    emit_field_bit_read_2(toks, f, fp, val, out);
    emit_field_bit_read_3(toks, f, fp, val, out);
    proof {
        reveal(field_bit_read);
    }
    assert(toks_view(out@) =~= b + field_bit_read(toks@, f@, fp@, val@));
}

/// A part of `field_bit_write`.
#[verifier::opaque]
pub open spec fn field_bit_write_1(toks: Seq<Tok>, f: RegFieldV, fp: FieldPlanV, val: Seq<char>) -> Seq<TokV> {
    tp('#') + topen(Delim::Bracket) + tw("allow"@) + topen(Delim::Paren) + tw("clippy"@) + tj(':', ':') + tw("len_without_is_empty"@) + tclose(Delim::Paren) + tclose(Delim::Bracket) + tw("impl"@) + tp('<') + seq![TokV::Punct('\'', true)] + tw("a"@) + tp(',') + tw("_T"@) + tp(':') + tj(':', ':') + tw("drone_core"@) + tj(':', ':') + tw("reg"@) + tj(':', ':') + tw("tag"@) + tj(':', ':') + tw("RegTag"@) + tp('>') + tw("Hold"@) + tp('<') + seq![TokV::Punct('\'', true)] + tw("a"@) + tp(',')
}

#[verifier::spinoff_prover]
#[verifier::rlimit(80)]
fn emit_field_bit_write_1(toks: &Vec<Tok>, f: &RegField, fp: &FieldPlan, val: &String, out: &mut Vec<Tok>)
    ensures
        toks_view(final(out)@) == toks_view(old(out)@) + field_bit_write_1(toks@, f@, fp@, val@),
{
    let ghost b = toks_view(old(out)@);
    emit_punct(out, '#');
    emit_open(out, Delim::Bracket);
    emit_word(out, "allow");
    emit_open(out, Delim::Paren);
    emit_word(out, "clippy");
    emit_joint(out, ':', ':');
    emit_word(out, "len_without_is_empty");
    emit_close(out, Delim::Paren);
    emit_close(out, Delim::Bracket);
    emit_word(out, "impl");
    emit_punct(out, '<');
    push_tok(out, Tok::Punct('\'', true));
    emit_word(out, "a");
    emit_punct(out, ',');
    emit_word(out, "_T");
    emit_punct(out, ':');
    emit_joint(out, ':', ':');
    emit_word(out, "drone_core");
    emit_joint(out, ':', ':');
    emit_word(out, "reg");
    emit_joint(out, ':', ':');
    emit_word(out, "tag");
    emit_joint(out, ':', ':');
    emit_word(out, "RegTag");
    emit_punct(out, '>');
    emit_word(out, "Hold");
    emit_punct(out, '<');
    push_tok(out, Tok::Punct('\'', true));
    emit_word(out, "a");
    emit_punct(out, ',');
    proof {
        reveal(field_bit_write_1);
    }
    assert(toks_view(out@) =~= b + field_bit_write_1(toks@, f@, fp@, val@));
}

/// A part of `field_bit_write`.
#[verifier::opaque]
pub open spec fn field_bit_write_2(toks: Seq<Tok>, f: RegFieldV, fp: FieldPlanV, val: Seq<char>) -> Seq<TokV> {
    tw("_T"@) + tp('>') + topen(Delim::Brace) + span_toks(toks, f.attrs) + tp('#') + topen(Delim::Bracket) + tw("inline"@) + tclose(Delim::Bracket) + tw("pub"@) + tw("fn"@) + tw(fp.set_name) + topen(Delim::Paren) + tp('&') + tw("mut"@) + tw("self"@) + tclose(Delim::Paren) + tj('-', '>') + tp('&') + tw("mut"@) + tw("Self"@) + topen(Delim::Brace) + tj(':', ':') + tw("drone_core"@) + tj(':', ':') + tw("reg"@) + tj(':', ':') + tw("field"@) + tj(':', ':') + tw("WWRegFieldBit"@) + tj(':', ':')
}

#[verifier::spinoff_prover]
#[verifier::rlimit(80)]
fn emit_field_bit_write_2(toks: &Vec<Tok>, f: &RegField, fp: &FieldPlan, val: &String, out: &mut Vec<Tok>)
    ensures
        toks_view(final(out)@) == toks_view(old(out)@) + field_bit_write_2(toks@, f@, fp@, val@),
{
    let ghost b = toks_view(old(out)@);
    emit_word(out, "_T");
    emit_punct(out, '>');
    emit_open(out, Delim::Brace);
    emit_span(toks, f.attrs, out);
    emit_punct(out, '#');
    emit_open(out, Delim::Bracket);
    emit_word(out, "inline");
    emit_close(out, Delim::Bracket);
    emit_word(out, "pub");
    emit_word(out, "fn");
    emit_string(out, &fp.set_name);
    emit_open(out, Delim::Paren);
    emit_punct(out, '&');
    emit_word(out, "mut");
    emit_word(out, "self");
    emit_close(out, Delim::Paren);
    emit_joint(out, '-', '>');
    emit_punct(out, '&');
    emit_word(out, "mut");
    emit_word(out, "Self");
    emit_open(out, Delim::Brace);
    emit_joint(out, ':', ':');
    emit_word(out, "drone_core");
    emit_joint(out, ':', ':');
    emit_word(out, "reg");
    emit_joint(out, ':', ':');
    emit_word(out, "field");
    emit_joint(out, ':', ':');
    emit_word(out, "WWRegFieldBit");
    emit_joint(out, ':', ':');
    proof {
        reveal(field_bit_write_2);
    }
    assert(toks_view(out@) =~= b + field_bit_write_2(toks@, f@, fp@, val@));
}

/// A part of `field_bit_write`.
#[verifier::opaque]
pub open spec fn field_bit_write_3(toks: Seq<Tok>, f: RegFieldV, fp: FieldPlanV, val: Seq<char>) -> Seq<TokV> {
    tw("set"@) + topen(Delim::Paren) + tp('&') + tw("self"@) + tp('.') + tw("reg"@) + tp('.') + tw(fp.ident) + tp(',') + tp('&') + tw("mut"@) + tw("self"@) + tp('.') + tw("val"@) + tp(',') + tclose(Delim::Paren) + tp(';') + tw("self"@) + tclose(Delim::Brace) + span_toks(toks, f.attrs) + tp('#') + topen(Delim::Bracket) + tw("inline"@) + tclose(Delim::Bracket) + tw("pub"@) + tw("fn"@) + tw(fp.clear_name) + topen(Delim::Paren) + tp('&') + tw("mut"@)
}

#[verifier::spinoff_prover]
#[verifier::rlimit(80)]
fn emit_field_bit_write_3(toks: &Vec<Tok>, f: &RegField, fp: &FieldPlan, val: &String, out: &mut Vec<Tok>)
    ensures
        toks_view(final(out)@) == toks_view(old(out)@) + field_bit_write_3(toks@, f@, fp@, val@),
{
    let ghost b = toks_view(old(out)@);
    emit_word(out, "set");
    emit_open(out, Delim::Paren);
    emit_punct(out, '&');
    emit_word(out, "self");
    emit_punct(out, '.');
    emit_word(out, "reg");
    emit_punct(out, '.');
    emit_string(out, &fp.ident);
    emit_punct(out, ',');
    emit_punct(out, '&');
    emit_word(out, "mut");
    emit_word(out, "self");
    emit_punct(out, '.');
    emit_word(out, "val");
    emit_punct(out, ',');
    emit_close(out, Delim::Paren);
    emit_punct(out, ';');
    emit_word(out, "self");
    emit_close(out, Delim::Brace);
    emit_span(toks, f.attrs, out);
    emit_punct(out, '#');
    emit_open(out, Delim::Bracket);
    emit_word(out, "inline");
    emit_close(out, Delim::Bracket);
    emit_word(out, "pub");
    emit_word(out, "fn");
    emit_string(out, &fp.clear_name);
    emit_open(out, Delim::Paren);
    emit_punct(out, '&');
    emit_word(out, "mut");
    proof {
        reveal(field_bit_write_3);
    }
    assert(toks_view(out@) =~= b + field_bit_write_3(toks@, f@, fp@, val@));
}

/// A part of `field_bit_write`.
#[verifier::opaque]
pub open spec fn field_bit_write_4(toks: Seq<Tok>, f: RegFieldV, fp: FieldPlanV, val: Seq<char>) -> Seq<TokV> {
    tw("self"@) + tclose(Delim::Paren) + tj('-', '>') + tp('&') + tw("mut"@) + tw("Self"@) + topen(Delim::Brace) + tj(':', ':') + tw("drone_core"@) + tj(':', ':') + tw("reg"@) + tj(':', ':') + tw("field"@) + tj(':', ':') + tw("WWRegFieldBit"@) + tj(':', ':') + tw("clear"@) + topen(Delim::Paren) + tp('&') + tw("self"@) + tp('.') + tw("reg"@) + tp('.') + tw(fp.ident) + tp(',') + tp('&') + tw("mut"@) + tw("self"@) + tp('.') + tw("val"@)
}

#[verifier::spinoff_prover]
#[verifier::rlimit(80)]
fn emit_field_bit_write_4(toks: &Vec<Tok>, f: &RegField, fp: &FieldPlan, val: &String, out: &mut Vec<Tok>)
    ensures
        toks_view(final(out)@) == toks_view(old(out)@) + field_bit_write_4(toks@, f@, fp@, val@),
{
    let ghost b = toks_view(old(out)@);
    emit_word(out, "self");
    emit_close(out, Delim::Paren);
    emit_joint(out, '-', '>');
    emit_punct(out, '&');
    emit_word(out, "mut");
    emit_word(out, "Self");
    emit_open(out, Delim::Brace);
    emit_joint(out, ':', ':');
    emit_word(out, "drone_core");
    emit_joint(out, ':', ':');
    emit_word(out, "reg");
    emit_joint(out, ':', ':');
    emit_word(out, "field");
    emit_joint(out, ':', ':');
    emit_word(out, "WWRegFieldBit");
    emit_joint(out, ':', ':');
    emit_word(out, "clear");
    emit_open(out, Delim::Paren);
    emit_punct(out, '&');
    emit_word(out, "self");
    emit_punct(out, '.');
    emit_word(out, "reg");
    emit_punct(out, '.');
    emit_string(out, &fp.ident);
    emit_punct(out, ',');
    emit_punct(out, '&');
    emit_word(out, "mut");
    emit_word(out, "self");
    emit_punct(out, '.');
    emit_word(out, "val");
    proof {
        reveal(field_bit_write_4);
    }
    assert(toks_view(out@) =~= b + field_bit_write_4(toks@, f@, fp@, val@));
}

/// A part of `field_bit_write`.
#[verifier::opaque]
pub open spec fn field_bit_write_5(toks: Seq<Tok>, f: RegFieldV, fp: FieldPlanV, val: Seq<char>) -> Seq<TokV> {
    tp(',') + tclose(Delim::Paren) + tp(';') + tw("self"@) + tclose(Delim::Brace) + span_toks(toks, f.attrs) + tp('#') + topen(Delim::Bracket) + tw("inline"@) + tclose(Delim::Bracket) + tw("pub"@) + tw("fn"@) + tw(fp.toggle_name) + topen(Delim::Paren) + tp('&') + tw("mut"@) + tw("self"@) + tclose(Delim::Paren) + tj('-', '>') + tp('&') + tw("mut"@) + tw("Self"@) + topen(Delim::Brace) + tj(':', ':') + tw("drone_core"@) + tj(':', ':') + tw("reg"@) + tj(':', ':') + tw("field"@) + tj(':', ':')
}

#[verifier::spinoff_prover]
#[verifier::rlimit(80)]
fn emit_field_bit_write_5(toks: &Vec<Tok>, f: &RegField, fp: &FieldPlan, val: &String, out: &mut Vec<Tok>)
    ensures
        toks_view(final(out)@) == toks_view(old(out)@) + field_bit_write_5(toks@, f@, fp@, val@),
{
    let ghost b = toks_view(old(out)@);
    emit_punct(out, ',');
    emit_close(out, Delim::Paren);
    emit_punct(out, ';');
    emit_word(out, "self");
    emit_close(out, Delim::Brace);
    emit_span(toks, f.attrs, out);
    emit_punct(out, '#');
    emit_open(out, Delim::Bracket);
    emit_word(out, "inline");
    emit_close(out, Delim::Bracket);
    emit_word(out, "pub");
    emit_word(out, "fn");
    emit_string(out, &fp.toggle_name);
    emit_open(out, Delim::Paren);
    emit_punct(out, '&');
    emit_word(out, "mut");
    emit_word(out, "self");
    emit_close(out, Delim::Paren);
    emit_joint(out, '-', '>');
    emit_punct(out, '&');
    emit_word(out, "mut");
    emit_word(out, "Self");
    emit_open(out, Delim::Brace);
    emit_joint(out, ':', ':');
    emit_word(out, "drone_core");
    emit_joint(out, ':', ':');
    emit_word(out, "reg");
    emit_joint(out, ':', ':');
    emit_word(out, "field");
    emit_joint(out, ':', ':');
    proof {
        reveal(field_bit_write_5);
    }
    assert(toks_view(out@) =~= b + field_bit_write_5(toks@, f@, fp@, val@));
}

/// A part of `field_bit_write`.
#[verifier::opaque]
pub open spec fn field_bit_write_6(toks: Seq<Tok>, f: RegFieldV, fp: FieldPlanV, val: Seq<char>) -> Seq<TokV> {
    tw("WWRegFieldBit"@) + tj(':', ':') + tw("toggle"@) + topen(Delim::Paren) + tp('&') + tw("self"@) + tp('.') + tw("reg"@) + tp('.') + tw(fp.ident) + tp(',') + tp('&') + tw("mut"@) + tw("self"@) + tp('.') + tw("val"@) + tp(',') + tclose(Delim::Paren) + tp(';') + tw("self"@) + tclose(Delim::Brace) + tclose(Delim::Brace)
}

#[verifier::spinoff_prover]
#[verifier::rlimit(80)]
fn emit_field_bit_write_6(toks: &Vec<Tok>, f: &RegField, fp: &FieldPlan, val: &String, out: &mut Vec<Tok>)
    ensures
        toks_view(final(out)@) == toks_view(old(out)@) + field_bit_write_6(toks@, f@, fp@, val@),
{
    let ghost b = toks_view(old(out)@);
    emit_word(out, "WWRegFieldBit");
    emit_joint(out, ':', ':');
    emit_word(out, "toggle");
    emit_open(out, Delim::Paren);
    emit_punct(out, '&');
    emit_word(out, "self");
    emit_punct(out, '.');
    emit_word(out, "reg");
    emit_punct(out, '.');
    emit_string(out, &fp.ident);
    emit_punct(out, ',');
    emit_punct(out, '&');
    emit_word(out, "mut");
    emit_word(out, "self");
    emit_punct(out, '.');
    emit_word(out, "val");
    emit_punct(out, ',');
    emit_close(out, Delim::Paren);
    emit_punct(out, ';');
    emit_word(out, "self");
    emit_close(out, Delim::Brace);
    emit_close(out, Delim::Brace);
    proof {
        reveal(field_bit_write_6);
    }
    assert(toks_view(out@) =~= b + field_bit_write_6(toks@, f@, fp@, val@));
}

/// The setter, clearer and toggler of a one-bit field.
#[verifier::opaque]
pub open spec fn field_bit_write(toks: Seq<Tok>, f: RegFieldV, fp: FieldPlanV, val: Seq<char>) -> Seq<TokV> {
    field_bit_write_1(toks, f, fp, val) + field_bit_write_2(toks, f, fp, val) + field_bit_write_3(toks, f, fp, val) + field_bit_write_4(toks, f, fp, val) + field_bit_write_5(toks, f, fp, val) + field_bit_write_6(toks, f, fp, val)
}

#[verifier::spinoff_prover]
#[verifier::rlimit(80)]
fn emit_field_bit_write(toks: &Vec<Tok>, f: &RegField, fp: &FieldPlan, val: &String, out: &mut Vec<Tok>)
    ensures
        toks_view(final(out)@) == toks_view(old(out)@) + field_bit_write(toks@, f@, fp@, val@),
{
    let ghost b = toks_view(old(out)@);
    emit_field_bit_write_1(toks, f, fp, val, out);
    emit_field_bit_write_2(toks, f, fp, val, out);
    emit_field_bit_write_3(toks, f, fp, val, out);
    emit_field_bit_write_4(toks, f, fp, val, out);
    emit_field_bit_write_5(toks, f, fp, val, out);
    emit_field_bit_write_6(toks, f, fp, val, out);
    proof {
        reveal(field_bit_write);
    }
    assert(toks_view(out@) =~= b + field_bit_write(toks@, f@, fp@, val@));
}

/// A part of `field_bits_read`.
#[verifier::opaque]
pub open spec fn field_bits_read_1(toks: Seq<Tok>, f: RegFieldV, fp: FieldPlanV, val: Seq<char>) -> Seq<TokV> {
    tp('#') + topen(Delim::Bracket) + tw("allow"@) + topen(Delim::Paren) + tw("clippy"@) + tj(':', ':') + tw("len_without_is_empty"@) + tclose(Delim::Paren) + tclose(Delim::Bracket) + tw("impl"@) + tp('<') + seq![TokV::Punct('\'', true)] + tw("a"@) + tp(',') + tw("_T"@) + tp(':') + tj(':', ':') + tw("drone_core"@) + tj(':', ':') + tw("reg"@) + tj(':', ':') + tw("tag"@) + tj(':', ':') + tw("RegTag"@) + tp('>') + tw("Hold"@) + tp('<') + seq![TokV::Punct('\'', true)] + tw("a"@) + tp(',')
}

#[verifier::spinoff_prover]
#[verifier::rlimit(80)]
fn emit_field_bits_read_1(toks: &Vec<Tok>, f: &RegField, fp: &FieldPlan, val: &String, out: &mut Vec<Tok>)
    ensures
        toks_view(final(out)@) == toks_view(old(out)@) + field_bits_read_1(toks@, f@, fp@, val@),
{
    let ghost b = toks_view(old(out)@);
    emit_punct(out, '#');
    emit_open(out, Delim::Bracket);
    emit_word(out, "allow");
    emit_open(out, Delim::Paren);
    emit_word(out, "clippy");
    emit_joint(out, ':', ':');
    emit_word(out, "len_without_is_empty");
    emit_close(out, Delim::Paren);
    emit_close(out, Delim::Bracket);
    emit_word(out, "impl");
    emit_punct(out, '<');
    push_tok(out, Tok::Punct('\'', true));
    emit_word(out, "a");
    emit_punct(out, ',');
    emit_word(out, "_T");
    emit_punct(out, ':');
    emit_joint(out, ':', ':');
    emit_word(out, "drone_core");
    emit_joint(out, ':', ':');
    emit_word(out, "reg");
    emit_joint(out, ':', ':');
    emit_word(out, "tag");
    emit_joint(out, ':', ':');
    emit_word(out, "RegTag");
    emit_punct(out, '>');
    emit_word(out, "Hold");
    emit_punct(out, '<');
    push_tok(out, Tok::Punct('\'', true));
    emit_word(out, "a");
    emit_punct(out, ',');
    proof {
        reveal(field_bits_read_1);
    }
    assert(toks_view(out@) =~= b + field_bits_read_1(toks@, f@, fp@, val@));
}

/// A part of `field_bits_read`.
#[verifier::opaque]
pub open spec fn field_bits_read_2(toks: Seq<Tok>, f: RegFieldV, fp: FieldPlanV, val: Seq<char>) -> Seq<TokV> {
    tw("_T"@) + tp('>') + topen(Delim::Brace) + span_toks(toks, f.attrs) + tp('#') + topen(Delim::Bracket) + tw("inline"@) + tclose(Delim::Bracket) + tw("pub"@) + tw("fn"@) + tw(fp.ident) + topen(Delim::Paren) + tp('&') + tw("self"@) + tclose(Delim::Paren) + tj('-', '>') + tw(val) + topen(Delim::Brace) + tj(':', ':') + tw("drone_core"@) + tj(':', ':') + tw("reg"@) + tj(':', ':') + tw("field"@) + tj(':', ':') + tw("RRRegFieldBits"@) + tj(':', ':') + tw("read"@) + topen(Delim::Paren) + tp('&')
}

#[verifier::spinoff_prover]
#[verifier::rlimit(80)]
fn emit_field_bits_read_2(toks: &Vec<Tok>, f: &RegField, fp: &FieldPlan, val: &String, out: &mut Vec<Tok>)
    ensures
        toks_view(final(out)@) == toks_view(old(out)@) + field_bits_read_2(toks@, f@, fp@, val@),
{
    let ghost b = toks_view(old(out)@);
    emit_word(out, "_T");
    emit_punct(out, '>');
    emit_open(out, Delim::Brace);
    emit_span(toks, f.attrs, out);
    emit_punct(out, '#');
    emit_open(out, Delim::Bracket);
    emit_word(out, "inline");
    emit_close(out, Delim::Bracket);
    emit_word(out, "pub");
    emit_word(out, "fn");
    emit_string(out, &fp.ident);
    emit_open(out, Delim::Paren);
    emit_punct(out, '&');
    emit_word(out, "self");
    emit_close(out, Delim::Paren);
    emit_joint(out, '-', '>');
    emit_string(out, val);
    emit_open(out, Delim::Brace);
    emit_joint(out, ':', ':');
    emit_word(out, "drone_core");
    emit_joint(out, ':', ':');
    emit_word(out, "reg");
    emit_joint(out, ':', ':');
    emit_word(out, "field");
    emit_joint(out, ':', ':');
    emit_word(out, "RRRegFieldBits");
    emit_joint(out, ':', ':');
    emit_word(out, "read");
    emit_open(out, Delim::Paren);
    emit_punct(out, '&');
    proof {
        reveal(field_bits_read_2);
    }
    assert(toks_view(out@) =~= b + field_bits_read_2(toks@, f@, fp@, val@));
}

/// A part of `field_bits_read`.
#[verifier::opaque]
pub open spec fn field_bits_read_3(toks: Seq<Tok>, f: RegFieldV, fp: FieldPlanV, val: Seq<char>) -> Seq<TokV> {
    tw("self"@) + tp('.') + tw("reg"@) + tp('.') + tw(fp.ident) + tp(',') + tp('&') + tw("self"@) + tp('.') + tw("val"@) + tp(',') + tclose(Delim::Paren) + tclose(Delim::Brace) + tclose(Delim::Brace)
}

#[verifier::spinoff_prover]
#[verifier::rlimit(80)]
fn emit_field_bits_read_3(toks: &Vec<Tok>, f: &RegField, fp: &FieldPlan, val: &String, out: &mut Vec<Tok>)
    ensures
        toks_view(final(out)@) == toks_view(old(out)@) + field_bits_read_3(toks@, f@, fp@, val@),
{
    let ghost b = toks_view(old(out)@);
    emit_word(out, "self");
    emit_punct(out, '.');
    emit_word(out, "reg");
    emit_punct(out, '.');
    emit_string(out, &fp.ident);
    emit_punct(out, ',');
    emit_punct(out, '&');
    emit_word(out, "self");
    emit_punct(out, '.');
    emit_word(out, "val");
    emit_punct(out, ',');
    emit_close(out, Delim::Paren);
    emit_close(out, Delim::Brace);
    emit_close(out, Delim::Brace);
    proof {
        reveal(field_bits_read_3);
    }
    assert(toks_view(out@) =~= b + field_bits_read_3(toks@, f@, fp@, val@));
}

/// The getter of a field of several bits.
#[verifier::opaque]
pub open spec fn field_bits_read(toks: Seq<Tok>, f: RegFieldV, fp: FieldPlanV, val: Seq<char>) -> Seq<TokV> {
    field_bits_read_1(toks, f, fp, val) + field_bits_read_2(toks, f, fp, val) + field_bits_read_3(toks, f, fp, val)
}

#[verifier::spinoff_prover]
#[verifier::rlimit(80)]
fn emit_field_bits_read(toks: &Vec<Tok>, f: &RegField, fp: &FieldPlan, val: &String, out: &mut Vec<Tok>)
    ensures
        toks_view(final(out)@) == toks_view(old(out)@) + field_bits_read(toks@, f@, fp@, val@),
{
    let ghost b = toks_view(old(out)@);
    emit_field_bits_read_1(toks, f, fp, val, out);
    emit_field_bits_read_2(toks, f, fp, val, out);
    emit_field_bits_read_3(toks, f, fp, val, out);
    proof {
        reveal(field_bits_read);
    }
    assert(toks_view(out@) =~= b + field_bits_read(toks@, f@, fp@, val@));
}

/// A part of `field_bits_write`.
#[verifier::opaque]
pub open spec fn field_bits_write_1(toks: Seq<Tok>, f: RegFieldV, fp: FieldPlanV, val: Seq<char>) -> Seq<TokV> {
    tp('#') + topen(Delim::Bracket) + tw("allow"@) + topen(Delim::Paren) + tw("clippy"@) + tj(':', ':') + tw("len_without_is_empty"@) + tclose(Delim::Paren) + tclose(Delim::Bracket) + tw("impl"@) + tp('<') + seq![TokV::Punct('\'', true)] + tw("a"@) + tp(',') + tw("_T"@) + tp(':') + tj(':', ':') + tw("drone_core"@) + tj(':', ':') + tw("reg"@) + tj(':', ':') + tw("tag"@) + tj(':', ':') + tw("RegTag"@) + tp('>') + tw("Hold"@) + tp('<') + seq![TokV::Punct('\'', true)] + tw("a"@) + tp(',')
}

#[verifier::spinoff_prover]
#[verifier::rlimit(80)]
fn emit_field_bits_write_1(toks: &Vec<Tok>, f: &RegField, fp: &FieldPlan, val: &String, out: &mut Vec<Tok>)
    ensures
        toks_view(final(out)@) == toks_view(old(out)@) + field_bits_write_1(toks@, f@, fp@, val@),
{
    let ghost b = toks_view(old(out)@);
    emit_punct(out, '#');
    emit_open(out, Delim::Bracket);
    emit_word(out, "allow");
    emit_open(out, Delim::Paren);
    emit_word(out, "clippy");
    emit_joint(out, ':', ':');
    emit_word(out, "len_without_is_empty");
    emit_close(out, Delim::Paren);
    emit_close(out, Delim::Bracket);
    emit_word(out, "impl");
    emit_punct(out, '<');
    push_tok(out, Tok::Punct('\'', true));
    emit_word(out, "a");
    emit_punct(out, ',');
    emit_word(out, "_T");
    emit_punct(out, ':');
    emit_joint(out, ':', ':');
    emit_word(out, "drone_core");
    emit_joint(out, ':', ':');
    emit_word(out, "reg");
    emit_joint(out, ':', ':');
    emit_word(out, "tag");
    emit_joint(out, ':', ':');
    emit_word(out, "RegTag");
    emit_punct(out, '>');
    emit_word(out, "Hold");
    emit_punct(out, '<');
    push_tok(out, Tok::Punct('\'', true));
    emit_word(out, "a");
    emit_punct(out, ',');
    proof {
        reveal(field_bits_write_1);
    }
    assert(toks_view(out@) =~= b + field_bits_write_1(toks@, f@, fp@, val@));
}

/// A part of `field_bits_write`.
#[verifier::opaque]
pub open spec fn field_bits_write_2(toks: Seq<Tok>, f: RegFieldV, fp: FieldPlanV, val: Seq<char>) -> Seq<TokV> {
    tw("_T"@) + tp('>') + topen(Delim::Brace) + span_toks(toks, f.attrs) + tp('#') + topen(Delim::Bracket) + tw("inline"@) + tclose(Delim::Bracket) + tw("pub"@) + tw("fn"@) + tw(fp.write_name) + topen(Delim::Paren) + tp('&') + tw("mut"@) + tw("self"@) + tp(',') + tw("bits"@) + tp(':') + tw(val) + tclose(Delim::Paren) + tj('-', '>') + tp('&') + tw("mut"@) + tw("Self"@) + topen(Delim::Brace) + tj(':', ':') + tw("drone_core"@) + tj(':', ':') + tw("reg"@) + tj(':', ':')
}

#[verifier::spinoff_prover]
#[verifier::rlimit(80)]
fn emit_field_bits_write_2(toks: &Vec<Tok>, f: &RegField, fp: &FieldPlan, val: &String, out: &mut Vec<Tok>)
    ensures
        toks_view(final(out)@) == toks_view(old(out)@) + field_bits_write_2(toks@, f@, fp@, val@),
{
    let ghost b = toks_view(old(out)@);
    emit_word(out, "_T");
    emit_punct(out, '>');
    emit_open(out, Delim::Brace);
    emit_span(toks, f.attrs, out);
    emit_punct(out, '#');
    emit_open(out, Delim::Bracket);
    emit_word(out, "inline");
    emit_close(out, Delim::Bracket);
    emit_word(out, "pub");
    emit_word(out, "fn");
    emit_string(out, &fp.write_name);
    emit_open(out, Delim::Paren);
    emit_punct(out, '&');
    emit_word(out, "mut");
    emit_word(out, "self");
    emit_punct(out, ',');
    emit_word(out, "bits");
    emit_punct(out, ':');
    emit_string(out, val);
    emit_close(out, Delim::Paren);
    emit_joint(out, '-', '>');
    emit_punct(out, '&');
    emit_word(out, "mut");
    emit_word(out, "Self");
    emit_open(out, Delim::Brace);
    emit_joint(out, ':', ':');
    emit_word(out, "drone_core");
    emit_joint(out, ':', ':');
    emit_word(out, "reg");
    emit_joint(out, ':', ':');
    proof {
        reveal(field_bits_write_2);
    }
    assert(toks_view(out@) =~= b + field_bits_write_2(toks@, f@, fp@, val@));
}

/// A part of `field_bits_write`.
#[verifier::opaque]
pub open spec fn field_bits_write_3(toks: Seq<Tok>, f: RegFieldV, fp: FieldPlanV, val: Seq<char>) -> Seq<TokV> {
    tw("field"@) + tj(':', ':') + tw("WWRegFieldBits"@) + tj(':', ':') + tw("write"@) + topen(Delim::Paren) + tp('&') + tw("self"@) + tp('.') + tw("reg"@) + tp('.') + tw(fp.ident) + tp(',') + tp('&') + tw("mut"@) + tw("self"@) + tp('.') + tw("val"@) + tp(',') + tw("bits"@) + tp(',') + tclose(Delim::Paren) + tp(';') + tw("self"@) + tclose(Delim::Brace) + tclose(Delim::Brace)
}

#[verifier::spinoff_prover]
#[verifier::rlimit(80)]
fn emit_field_bits_write_3(toks: &Vec<Tok>, f: &RegField, fp: &FieldPlan, val: &String, out: &mut Vec<Tok>)
    ensures
        toks_view(final(out)@) == toks_view(old(out)@) + field_bits_write_3(toks@, f@, fp@, val@),
{
    let ghost b = toks_view(old(out)@);
    emit_word(out, "field");
    emit_joint(out, ':', ':');
    emit_word(out, "WWRegFieldBits");
    emit_joint(out, ':', ':');
    emit_word(out, "write");
    emit_open(out, Delim::Paren);
    emit_punct(out, '&');
    emit_word(out, "self");
    emit_punct(out, '.');
    emit_word(out, "reg");
    emit_punct(out, '.');
    emit_string(out, &fp.ident);
    emit_punct(out, ',');
    emit_punct(out, '&');
    emit_word(out, "mut");
    emit_word(out, "self");
    emit_punct(out, '.');
    emit_word(out, "val");
    emit_punct(out, ',');
    emit_word(out, "bits");
    emit_punct(out, ',');
    emit_close(out, Delim::Paren);
    emit_punct(out, ';');
    emit_word(out, "self");
    emit_close(out, Delim::Brace);
    emit_close(out, Delim::Brace);
    proof {
        reveal(field_bits_write_3);
    }
    assert(toks_view(out@) =~= b + field_bits_write_3(toks@, f@, fp@, val@));
}

/// The writer of a field of several bits.
#[verifier::opaque]
pub open spec fn field_bits_write(toks: Seq<Tok>, f: RegFieldV, fp: FieldPlanV, val: Seq<char>) -> Seq<TokV> {
    field_bits_write_1(toks, f, fp, val) + field_bits_write_2(toks, f, fp, val) + field_bits_write_3(toks, f, fp, val)
}

#[verifier::spinoff_prover]
#[verifier::rlimit(80)]
fn emit_field_bits_write(toks: &Vec<Tok>, f: &RegField, fp: &FieldPlan, val: &String, out: &mut Vec<Tok>)
    ensures
        toks_view(final(out)@) == toks_view(old(out)@) + field_bits_write(toks@, f@, fp@, val@),
{
    let ghost b = toks_view(old(out)@);
    emit_field_bits_write_1(toks, f, fp, val, out);
    emit_field_bits_write_2(toks, f, fp, val, out);
    emit_field_bits_write_3(toks, f, fp, val, out);
    proof {
        reveal(field_bits_write);
    }
    assert(toks_view(out@) =~= b + field_bits_write(toks@, f@, fp@, val@));
}

/// `ATTRS VIS mod REG_FULL {`
#[verifier::opaque]
pub open spec fn module_head(toks: Seq<Tok>, v: VariantV, vp: VariantPlanV) -> Seq<TokV> {
    span_toks(toks, v.attrs) + span_toks(toks, v.vis.span) + tw("mod"@) + tw(vp.reg_full) + topen(Delim::Brace)
}

#[verifier::spinoff_prover]
#[verifier::rlimit(80)]
fn emit_module_head(toks: &Vec<Tok>, v: &Variant, vp: &VariantPlan, out: &mut Vec<Tok>)
    ensures
        toks_view(final(out)@) == toks_view(old(out)@) + module_head(toks@, v@, vp@),
{
    let ghost b = toks_view(old(out)@);
    emit_span(toks, v.attrs, out);
    emit_span(toks, v.vis.span, out);
    emit_word(out, "mod");
    emit_string(out, &vp.reg_full);
    emit_open(out, Delim::Brace);
    proof {
        reveal(module_head);
    }
    assert(toks_view(out@) =~= b + module_head(toks@, v@, vp@));
}

/// A part of `val_struct`.
#[verifier::opaque]
pub open spec fn val_struct_1(toks: Seq<Tok>, v: VariantV, vp: VariantPlanV) -> Seq<TokV> {
    tw("use"@) + tj(':', ':') + tw("drone_core"@) + tj(':', ':') + tw("bitfield"@) + tj(':', ':') + tw("Bitfield"@) + tp(';') + span_toks(toks, v.attrs) + tp('#') + topen(Delim::Bracket) + tw("derive"@) + topen(Delim::Paren) + tw("Bitfield"@) + tp(',') + tw("Clone"@) + tp(',') + tw("Copy"@) + tclose(Delim::Paren) + tclose(Delim::Bracket) + tw("pub"@) + tw("struct"@) + tw("Val"@) + topen(Delim::Paren) + tw(vp.val_ty) + tclose(Delim::Paren) + tp(';') + span_toks(toks, v.attrs) + tp('#') + topen(Delim::Bracket)
}

#[verifier::spinoff_prover]
#[verifier::rlimit(80)]
fn emit_val_struct_1(toks: &Vec<Tok>, v: &Variant, vp: &VariantPlan, out: &mut Vec<Tok>)
    ensures
        toks_view(final(out)@) == toks_view(old(out)@) + val_struct_1(toks@, v@, vp@),
{
    let ghost b = toks_view(old(out)@);
    emit_word(out, "use");
    emit_joint(out, ':', ':');
    emit_word(out, "drone_core");
    emit_joint(out, ':', ':');
    emit_word(out, "bitfield");
    emit_joint(out, ':', ':');
    emit_word(out, "Bitfield");
    emit_punct(out, ';');
    emit_span(toks, v.attrs, out);
    emit_punct(out, '#');
    emit_open(out, Delim::Bracket);
    emit_word(out, "derive");
    emit_open(out, Delim::Paren);
    emit_word(out, "Bitfield");
    emit_punct(out, ',');
    emit_word(out, "Clone");
    emit_punct(out, ',');
    emit_word(out, "Copy");
    emit_close(out, Delim::Paren);
    emit_close(out, Delim::Bracket);
    emit_word(out, "pub");
    emit_word(out, "struct");
    emit_word(out, "Val");
    emit_open(out, Delim::Paren);
    emit_string(out, &vp.val_ty);
    emit_close(out, Delim::Paren);
    emit_punct(out, ';');
    emit_span(toks, v.attrs, out);
    emit_punct(out, '#');
    emit_open(out, Delim::Bracket);
    proof {
        reveal(val_struct_1);
    }
    assert(toks_view(out@) =~= b + val_struct_1(toks@, v@, vp@));
}

/// A part of `val_struct`.
#[verifier::opaque]
pub open spec fn val_struct_2(toks: Seq<Tok>, v: VariantV, vp: VariantPlanV) -> Seq<TokV> {
    tw("derive"@) + topen(Delim::Paren) + tw("Clone"@) + tp(',') + tw("Copy"@) + tclose(Delim::Paren) + tclose(Delim::Bracket) + tw("pub"@) + tw("struct"@) + tw("Reg"@) + tp('<') + tw("_T"@) + tp(':') + tj(':', ':') + tw("drone_core"@) + tj(':', ':') + tw("reg"@) + tj(':', ':') + tw("tag"@) + tj(':', ':') + tw("RegTag"@) + tp('>') + topen(Delim::Brace)
}

#[verifier::spinoff_prover]
#[verifier::rlimit(80)]
fn emit_val_struct_2(toks: &Vec<Tok>, v: &Variant, vp: &VariantPlan, out: &mut Vec<Tok>)
    ensures
        toks_view(final(out)@) == toks_view(old(out)@) + val_struct_2(toks@, v@, vp@),
{
    let ghost b = toks_view(old(out)@);
    emit_word(out, "derive");
    emit_open(out, Delim::Paren);
    emit_word(out, "Clone");
    emit_punct(out, ',');
    emit_word(out, "Copy");
    emit_close(out, Delim::Paren);
    emit_close(out, Delim::Bracket);
    emit_word(out, "pub");
    emit_word(out, "struct");
    emit_word(out, "Reg");
    emit_punct(out, '<');
    emit_word(out, "_T");
    emit_punct(out, ':');
    emit_joint(out, ':', ':');
    emit_word(out, "drone_core");
    emit_joint(out, ':', ':');
    emit_word(out, "reg");
    emit_joint(out, ':', ':');
    emit_word(out, "tag");
    emit_joint(out, ':', ':');
    emit_word(out, "RegTag");
    emit_punct(out, '>');
    emit_open(out, Delim::Brace);
    proof {
        reveal(val_struct_2);
    }
    assert(toks_view(out@) =~= b + val_struct_2(toks@, v@, vp@));
}

/// `use ::drone_core::bitfield::Bitfield; ATTRS #[derive(Bitfield, Clone, Copy)] pub struct Val(VAL); ATTRS #[derive(Clone, Copy)] pub struct Reg<_T: RegTag> {`
#[verifier::opaque]
pub open spec fn val_struct(toks: Seq<Tok>, v: VariantV, vp: VariantPlanV) -> Seq<TokV> {
    val_struct_1(toks, v, vp) + val_struct_2(toks, v, vp)
}

#[verifier::spinoff_prover]
#[verifier::rlimit(80)]
fn emit_val_struct(toks: &Vec<Tok>, v: &Variant, vp: &VariantPlan, out: &mut Vec<Tok>)
    ensures
        toks_view(final(out)@) == toks_view(old(out)@) + val_struct(toks@, v@, vp@),
{
    let ghost b = toks_view(old(out)@);
    emit_val_struct_1(toks, v, vp, out);
    emit_val_struct_2(toks, v, vp, out);
    proof {
        reveal(val_struct);
    }
    assert(toks_view(out@) =~= b + val_struct(toks@, v@, vp@));
}

/// A part of `token_head`.
#[verifier::opaque]
pub open spec fn token_head_1(toks: Seq<Tok>, v: VariantV, vp: VariantPlanV) -> Seq<TokV> {
    tclose(Delim::Brace) + tw("unsafe"@) + tw("impl"@) + tp('<') + tw("_T"@) + tp(':') + tj(':', ':') + tw("drone_core"@) + tj(':', ':') + tw("reg"@) + tj(':', ':') + tw("tag"@) + tj(':', ':') + tw("RegTag"@) + tp('>') + tj(':', ':') + tw("drone_core"@) + tj(':', ':') + tw("token"@) + tj(':', ':') + tw("Token"@) + tw("for"@) + tw("Reg"@) + tp('<') + tw("_T"@) + tp('>') + topen(Delim::Brace) + tp('#') + topen(Delim::Bracket) + tw("inline"@)
}

#[verifier::spinoff_prover]
#[verifier::rlimit(80)]
fn emit_token_head_1(toks: &Vec<Tok>, v: &Variant, vp: &VariantPlan, out: &mut Vec<Tok>)
    ensures
        toks_view(final(out)@) == toks_view(old(out)@) + token_head_1(toks@, v@, vp@),
{
    let ghost b = toks_view(old(out)@);
    emit_close(out, Delim::Brace);
    emit_word(out, "unsafe");
    emit_word(out, "impl");
    emit_punct(out, '<');
    emit_word(out, "_T");
    emit_punct(out, ':');
    emit_joint(out, ':', ':');
    emit_word(out, "drone_core");
    emit_joint(out, ':', ':');
    emit_word(out, "reg");
    emit_joint(out, ':', ':');
    emit_word(out, "tag");
    emit_joint(out, ':', ':');
    emit_word(out, "RegTag");
    emit_punct(out, '>');
    emit_joint(out, ':', ':');
    emit_word(out, "drone_core");
    emit_joint(out, ':', ':');
    emit_word(out, "token");
    emit_joint(out, ':', ':');
    emit_word(out, "Token");
    emit_word(out, "for");
    emit_word(out, "Reg");
    emit_punct(out, '<');
    emit_word(out, "_T");
    emit_punct(out, '>');
    emit_open(out, Delim::Brace);
    emit_punct(out, '#');
    emit_open(out, Delim::Bracket);
    emit_word(out, "inline");
    proof {
        reveal(token_head_1);
    }
    assert(toks_view(out@) =~= b + token_head_1(toks@, v@, vp@));
}

/// A part of `token_head`.
#[verifier::opaque]
pub open spec fn token_head_2(toks: Seq<Tok>, v: VariantV, vp: VariantPlanV) -> Seq<TokV> {
    tclose(Delim::Bracket) + tw("unsafe"@) + tw("fn"@) + tw("take"@) + topen(Delim::Paren) + tclose(Delim::Paren) + tj('-', '>') + tw("Self"@) + topen(Delim::Brace) + tw("Self"@) + topen(Delim::Brace)
}

#[verifier::spinoff_prover]
#[verifier::rlimit(80)]
fn emit_token_head_2(toks: &Vec<Tok>, v: &Variant, vp: &VariantPlan, out: &mut Vec<Tok>)
    ensures
        toks_view(final(out)@) == toks_view(old(out)@) + token_head_2(toks@, v@, vp@),
{
    let ghost b = toks_view(old(out)@);
    emit_close(out, Delim::Bracket);
    emit_word(out, "unsafe");
    emit_word(out, "fn");
    emit_word(out, "take");
    emit_open(out, Delim::Paren);
    emit_close(out, Delim::Paren);
    emit_joint(out, '-', '>');
    emit_word(out, "Self");
    emit_open(out, Delim::Brace);
    emit_word(out, "Self");
    emit_open(out, Delim::Brace);
    proof {
        reveal(token_head_2);
    }
    assert(toks_view(out@) =~= b + token_head_2(toks@, v@, vp@));
}

/// `} unsafe impl<_T: RegTag> ::drone_core::token::Token for Reg<_T> { #[inline] unsafe fn take() -> Self { Self {`
#[verifier::opaque]
pub open spec fn token_head(toks: Seq<Tok>, v: VariantV, vp: VariantPlanV) -> Seq<TokV> {
    token_head_1(toks, v, vp) + token_head_2(toks, v, vp)
}

#[verifier::spinoff_prover]
#[verifier::rlimit(80)]
fn emit_token_head(toks: &Vec<Tok>, v: &Variant, vp: &VariantPlan, out: &mut Vec<Tok>)
    ensures
        toks_view(final(out)@) == toks_view(old(out)@) + token_head(toks@, v@, vp@),
{
    let ghost b = toks_view(old(out)@);
    emit_token_head_1(toks, v, vp, out);
    emit_token_head_2(toks, v, vp, out);
    proof {
        reveal(token_head);
    }
    assert(toks_view(out@) =~= b + token_head(toks@, v@, vp@));
}

/// A part of `reg_impl`.
#[verifier::opaque]
pub open spec fn reg_impl_1(toks: Seq<Tok>, v: VariantV, vp: VariantPlanV) -> Seq<TokV> {
    tclose(Delim::Brace) + tclose(Delim::Brace) + tclose(Delim::Brace) + tw("impl"@) + tp('<') + tw("_T"@) + tp(':') + tj(':', ':') + tw("drone_core"@) + tj(':', ':') + tw("reg"@) + tj(':', ':') + tw("tag"@) + tj(':', ':') + tw("RegTag"@) + tp('>') + tj(':', ':') + tw("drone_core"@) + tj(':', ':') + tw("reg"@) + tj(':', ':') + tw("Reg"@) + tp('<') + tw("_T"@) + tp('>') + tw("for"@) + tw("Reg"@) + tp('<') + tw("_T"@) + tp('>')
}

#[verifier::spinoff_prover]
#[verifier::rlimit(80)]
fn emit_reg_impl_1(toks: &Vec<Tok>, v: &Variant, vp: &VariantPlan, out: &mut Vec<Tok>)
    ensures
        toks_view(final(out)@) == toks_view(old(out)@) + reg_impl_1(toks@, v@, vp@),
{
    let ghost b = toks_view(old(out)@);
    emit_close(out, Delim::Brace);
    emit_close(out, Delim::Brace);
    emit_close(out, Delim::Brace);
    emit_word(out, "impl");
    emit_punct(out, '<');
    emit_word(out, "_T");
    emit_punct(out, ':');
    emit_joint(out, ':', ':');
    emit_word(out, "drone_core");
    emit_joint(out, ':', ':');
    emit_word(out, "reg");
    emit_joint(out, ':', ':');
    emit_word(out, "tag");
    emit_joint(out, ':', ':');
    emit_word(out, "RegTag");
    emit_punct(out, '>');
    emit_joint(out, ':', ':');
    emit_word(out, "drone_core");
    emit_joint(out, ':', ':');
    emit_word(out, "reg");
    emit_joint(out, ':', ':');
    emit_word(out, "Reg");
    emit_punct(out, '<');
    emit_word(out, "_T");
    emit_punct(out, '>');
    emit_word(out, "for");
    emit_word(out, "Reg");
    emit_punct(out, '<');
    emit_word(out, "_T");
    emit_punct(out, '>');
    proof {
        reveal(reg_impl_1);
    }
    assert(toks_view(out@) =~= b + reg_impl_1(toks@, v@, vp@));
}

/// A part of `reg_impl`.
#[verifier::opaque]
pub open spec fn reg_impl_2(toks: Seq<Tok>, v: VariantV, vp: VariantPlanV) -> Seq<TokV> {
    topen(Delim::Brace) + tw("type"@) + tw("Val"@) + tp('=') + tw("Val"@) + tp(';') + tw("type"@) + tw("UReg"@) + tp('=') + tw("Reg"@) + tp('<') + tj(':', ':') + tw("drone_core"@) + tj(':', ':') + tw("reg"@) + tj(':', ':') + tw("tag"@) + tj(':', ':') + tw("Urt"@) + tp('>') + tp(';') + tw("type"@) + tw("SReg"@) + tp('=') + tw("Reg"@) + tp('<') + tj(':', ':') + tw("drone_core"@) + tj(':', ':') + tw("reg"@)
}

#[verifier::spinoff_prover]
#[verifier::rlimit(80)]
fn emit_reg_impl_2(toks: &Vec<Tok>, v: &Variant, vp: &VariantPlan, out: &mut Vec<Tok>)
    ensures
        toks_view(final(out)@) == toks_view(old(out)@) + reg_impl_2(toks@, v@, vp@),
{
    let ghost b = toks_view(old(out)@);
    emit_open(out, Delim::Brace);
    emit_word(out, "type");
    emit_word(out, "Val");
    emit_punct(out, '=');
    emit_word(out, "Val");
    emit_punct(out, ';');
    emit_word(out, "type");
    emit_word(out, "UReg");
    emit_punct(out, '=');
    emit_word(out, "Reg");
    emit_punct(out, '<');
    emit_joint(out, ':', ':');
    emit_word(out, "drone_core");
    emit_joint(out, ':', ':');
    emit_word(out, "reg");
    emit_joint(out, ':', ':');
    emit_word(out, "tag");
    emit_joint(out, ':', ':');
    emit_word(out, "Urt");
    emit_punct(out, '>');
    emit_punct(out, ';');
    emit_word(out, "type");
    emit_word(out, "SReg");
    emit_punct(out, '=');
    emit_word(out, "Reg");
    emit_punct(out, '<');
    emit_joint(out, ':', ':');
    emit_word(out, "drone_core");
    emit_joint(out, ':', ':');
    emit_word(out, "reg");
    proof {
        reveal(reg_impl_2);
    }
    assert(toks_view(out@) =~= b + reg_impl_2(toks@, v@, vp@));
}

/// A part of `reg_impl`.
#[verifier::opaque]
pub open spec fn reg_impl_3(toks: Seq<Tok>, v: VariantV, vp: VariantPlanV) -> Seq<TokV> {
    tj(':', ':') + tw("tag"@) + tj(':', ':') + tw("Srt"@) + tp('>') + tp(';') + tw("type"@) + tw("CReg"@) + tp('=') + tw("Reg"@) + tp('<') + tj(':', ':') + tw("drone_core"@) + tj(':', ':') + tw("reg"@) + tj(':', ':') + tw("tag"@) + tj(':', ':') + tw("Crt"@) + tp('>') + tp(';') + tw("const"@) + tw("ADDRESS"@) + tp(':') + tw("usize"@) + tp('=') + span_toks(toks, one(v.address)) + tp(';') + tw("const"@) + tw("RESET"@)
}

#[verifier::spinoff_prover]
#[verifier::rlimit(80)]
fn emit_reg_impl_3(toks: &Vec<Tok>, v: &Variant, vp: &VariantPlan, out: &mut Vec<Tok>)
    ensures
        toks_view(final(out)@) == toks_view(old(out)@) + reg_impl_3(toks@, v@, vp@),
{
    let ghost b = toks_view(old(out)@);
    emit_joint(out, ':', ':');
    emit_word(out, "tag");
    emit_joint(out, ':', ':');
    emit_word(out, "Srt");
    emit_punct(out, '>');
    emit_punct(out, ';');
    emit_word(out, "type");
    emit_word(out, "CReg");
    emit_punct(out, '=');
    emit_word(out, "Reg");
    emit_punct(out, '<');
    emit_joint(out, ':', ':');
    emit_word(out, "drone_core");
    emit_joint(out, ':', ':');
    emit_word(out, "reg");
    emit_joint(out, ':', ':');
    emit_word(out, "tag");
    emit_joint(out, ':', ':');
    emit_word(out, "Crt");
    emit_punct(out, '>');
    emit_punct(out, ';');
    emit_word(out, "const");
    emit_word(out, "ADDRESS");
    emit_punct(out, ':');
    emit_word(out, "usize");
    emit_punct(out, '=');
    emit_span(toks, one_exec(v.address), out);
    emit_punct(out, ';');
    emit_word(out, "const");
    emit_word(out, "RESET");
    proof {
        reveal(reg_impl_3);
    }
    assert(toks_view(out@) =~= b + reg_impl_3(toks@, v@, vp@));
}

/// A part of `reg_impl`.
#[verifier::opaque]
pub open spec fn reg_impl_4(toks: Seq<Tok>, v: VariantV, vp: VariantPlanV) -> Seq<TokV> {
    tp(':') + tw(vp.val_ty) + tp('=') + span_toks(toks, one(v.reset)) + tp(';') + tp('#') + topen(Delim::Bracket) + tw("inline"@) + tclose(Delim::Bracket) + tw("unsafe"@) + tw("fn"@) + tw("val_from"@) + topen(Delim::Paren) + tw("bits"@) + tp(':') + tw(vp.val_ty) + tclose(Delim::Paren) + tj('-', '>') + tw("Val"@) + topen(Delim::Brace) + tw("Val"@) + topen(Delim::Paren) + tw("bits"@) + tclose(Delim::Paren) + tclose(Delim::Brace) + tclose(Delim::Brace)
}

#[verifier::spinoff_prover]
#[verifier::rlimit(80)]
fn emit_reg_impl_4(toks: &Vec<Tok>, v: &Variant, vp: &VariantPlan, out: &mut Vec<Tok>)
    ensures
        toks_view(final(out)@) == toks_view(old(out)@) + reg_impl_4(toks@, v@, vp@),
{
    let ghost b = toks_view(old(out)@);
    emit_punct(out, ':');
    emit_string(out, &vp.val_ty);
    emit_punct(out, '=');
    emit_span(toks, one_exec(v.reset), out);
    emit_punct(out, ';');
    emit_punct(out, '#');
    emit_open(out, Delim::Bracket);
    emit_word(out, "inline");
    emit_close(out, Delim::Bracket);
    emit_word(out, "unsafe");
    emit_word(out, "fn");
    emit_word(out, "val_from");
    emit_open(out, Delim::Paren);
    emit_word(out, "bits");
    emit_punct(out, ':');
    emit_string(out, &vp.val_ty);
    emit_close(out, Delim::Paren);
    emit_joint(out, '-', '>');
    emit_word(out, "Val");
    emit_open(out, Delim::Brace);
    emit_word(out, "Val");
    emit_open(out, Delim::Paren);
    emit_word(out, "bits");
    emit_close(out, Delim::Paren);
    emit_close(out, Delim::Brace);
    emit_close(out, Delim::Brace);
    proof {
        reveal(reg_impl_4);
    }
    assert(toks_view(out@) =~= b + reg_impl_4(toks@, v@, vp@));
}

/// `} } } impl<_T: RegTag> ::drone_core::reg::Reg<_T> for Reg<_T> { .. }`
#[verifier::opaque]
pub open spec fn reg_impl(toks: Seq<Tok>, v: VariantV, vp: VariantPlanV) -> Seq<TokV> {
    reg_impl_1(toks, v, vp) + reg_impl_2(toks, v, vp) + reg_impl_3(toks, v, vp) + reg_impl_4(toks, v, vp)
}

#[verifier::spinoff_prover]
#[verifier::rlimit(80)]
fn emit_reg_impl(toks: &Vec<Tok>, v: &Variant, vp: &VariantPlan, out: &mut Vec<Tok>)
    ensures
        toks_view(final(out)@) == toks_view(old(out)@) + reg_impl(toks@, v@, vp@),
{
    let ghost b = toks_view(old(out)@);
    emit_reg_impl_1(toks, v, vp, out);
    emit_reg_impl_2(toks, v, vp, out);
    emit_reg_impl_3(toks, v, vp, out);
    emit_reg_impl_4(toks, v, vp, out);
    proof {
        reveal(reg_impl);
    }
    assert(toks_view(out@) =~= b + reg_impl(toks@, v@, vp@));
}

/// A part of `regref_impl`.
#[verifier::opaque]
pub open spec fn regref_impl_1(toks: Seq<Tok>, v: VariantV, vp: VariantPlanV) -> Seq<TokV> {
    tw("impl"@) + tp('<') + seq![TokV::Punct('\'', true)] + tw("a"@) + tp(',') + tw("_T"@) + tp('>') + tj(':', ':') + tw("drone_core"@) + tj(':', ':') + tw("reg"@) + tj(':', ':') + tw("RegRef"@) + tp('<') + seq![TokV::Punct('\'', true)] + tw("a"@) + tp(',') + tw("_T"@) + tp('>') + tw("for"@) + tw("Reg"@) + tp('<') + tw("_T"@) + tp('>') + tw("where"@) + tw("_T"@) + tp(':') + tj(':', ':') + tw("drone_core"@) + tj(':', ':')
}

#[verifier::spinoff_prover]
#[verifier::rlimit(80)]
fn emit_regref_impl_1(toks: &Vec<Tok>, v: &Variant, vp: &VariantPlan, out: &mut Vec<Tok>)
    ensures
        toks_view(final(out)@) == toks_view(old(out)@) + regref_impl_1(toks@, v@, vp@),
{
    let ghost b = toks_view(old(out)@);
    emit_word(out, "impl");
    emit_punct(out, '<');
    push_tok(out, Tok::Punct('\'', true));
    emit_word(out, "a");
    emit_punct(out, ',');
    emit_word(out, "_T");
    emit_punct(out, '>');
    emit_joint(out, ':', ':');
    emit_word(out, "drone_core");
    emit_joint(out, ':', ':');
    emit_word(out, "reg");
    emit_joint(out, ':', ':');
    emit_word(out, "RegRef");
    emit_punct(out, '<');
    push_tok(out, Tok::Punct('\'', true));
    emit_word(out, "a");
    emit_punct(out, ',');
    emit_word(out, "_T");
    emit_punct(out, '>');
    emit_word(out, "for");
    emit_word(out, "Reg");
    emit_punct(out, '<');
    emit_word(out, "_T");
    emit_punct(out, '>');
    emit_word(out, "where");
    emit_word(out, "_T");
    emit_punct(out, ':');
    emit_joint(out, ':', ':');
    emit_word(out, "drone_core");
    emit_joint(out, ':', ':');
    proof {
        reveal(regref_impl_1);
    }
    assert(toks_view(out@) =~= b + regref_impl_1(toks@, v@, vp@));
}

/// A part of `regref_impl`.
#[verifier::opaque]
pub open spec fn regref_impl_2(toks: Seq<Tok>, v: VariantV, vp: VariantPlanV) -> Seq<TokV> {
    tw("reg"@) + tj(':', ':') + tw("tag"@) + tj(':', ':') + tw("RegTag"@) + tp('+') + seq![TokV::Punct('\'', true)] + tw("a"@) + tp(',') + topen(Delim::Brace) + tw("type"@) + tw("Hold"@) + tp('=') + tw("Hold"@) + tp('<') + seq![TokV::Punct('\'', true)] + tw("a"@) + tp(',') + tw("_T"@) + tp('>') + tp(';') + tp('#') + topen(Delim::Bracket) + tw("inline"@) + tclose(Delim::Bracket) + tw("fn"@) + tw("hold"@) + topen(Delim::Paren) + tp('&') + seq![TokV::Punct('\'', true)]
}

#[verifier::spinoff_prover]
#[verifier::rlimit(80)]
fn emit_regref_impl_2(toks: &Vec<Tok>, v: &Variant, vp: &VariantPlan, out: &mut Vec<Tok>)
    ensures
        toks_view(final(out)@) == toks_view(old(out)@) + regref_impl_2(toks@, v@, vp@),
{
    let ghost b = toks_view(old(out)@);
    emit_word(out, "reg");
    emit_joint(out, ':', ':');
    emit_word(out, "tag");
    emit_joint(out, ':', ':');
    emit_word(out, "RegTag");
    emit_punct(out, '+');
    push_tok(out, Tok::Punct('\'', true));
    emit_word(out, "a");
    emit_punct(out, ',');
    emit_open(out, Delim::Brace);
    emit_word(out, "type");
    emit_word(out, "Hold");
    emit_punct(out, '=');
    emit_word(out, "Hold");
    emit_punct(out, '<');
    push_tok(out, Tok::Punct('\'', true));
    emit_word(out, "a");
    emit_punct(out, ',');
    emit_word(out, "_T");
    emit_punct(out, '>');
    emit_punct(out, ';');
    emit_punct(out, '#');
    emit_open(out, Delim::Bracket);
    emit_word(out, "inline");
    emit_close(out, Delim::Bracket);
    emit_word(out, "fn");
    emit_word(out, "hold");
    emit_open(out, Delim::Paren);
    emit_punct(out, '&');
    push_tok(out, Tok::Punct('\'', true));
    proof {
        reveal(regref_impl_2);
    }
    assert(toks_view(out@) =~= b + regref_impl_2(toks@, v@, vp@));
}

/// A part of `regref_impl`.
#[verifier::opaque]
pub open spec fn regref_impl_3(toks: Seq<Tok>, v: VariantV, vp: VariantPlanV) -> Seq<TokV> {
    tw("a"@) + tw("self"@) + tp(',') + tw("val"@) + tp(':') + tw("Self"@) + tj(':', ':') + tw("Val"@) + tclose(Delim::Paren) + tj('-', '>') + tw("Self"@) + tj(':', ':') + tw("Hold"@) + topen(Delim::Brace) + tw("Hold"@) + topen(Delim::Brace) + tw("reg"@) + tp(':') + tw("self"@) + tp(',') + tw("val"@) + tclose(Delim::Brace) + tclose(Delim::Brace) + tclose(Delim::Brace)
}

#[verifier::spinoff_prover]
#[verifier::rlimit(80)]
fn emit_regref_impl_3(toks: &Vec<Tok>, v: &Variant, vp: &VariantPlan, out: &mut Vec<Tok>)
    ensures
        toks_view(final(out)@) == toks_view(old(out)@) + regref_impl_3(toks@, v@, vp@),
{
    let ghost b = toks_view(old(out)@);
    emit_word(out, "a");
    emit_word(out, "self");
    emit_punct(out, ',');
    emit_word(out, "val");
    emit_punct(out, ':');
    emit_word(out, "Self");
    emit_joint(out, ':', ':');
    emit_word(out, "Val");
    emit_close(out, Delim::Paren);
    emit_joint(out, '-', '>');
    emit_word(out, "Self");
    emit_joint(out, ':', ':');
    emit_word(out, "Hold");
    emit_open(out, Delim::Brace);
    emit_word(out, "Hold");
    emit_open(out, Delim::Brace);
    emit_word(out, "reg");
    emit_punct(out, ':');
    emit_word(out, "self");
    emit_punct(out, ',');
    emit_word(out, "val");
    emit_close(out, Delim::Brace);
    emit_close(out, Delim::Brace);
    emit_close(out, Delim::Brace);
    proof {
        reveal(regref_impl_3);
    }
    assert(toks_view(out@) =~= b + regref_impl_3(toks@, v@, vp@));
}

/// `impl<'a, _T> ::drone_core::reg::RegRef<'a, _T> for Reg<_T> where .. { type Hold = Hold<'a, _T>; #[inline] fn hold(&'a self, val: Self::Val) -> Self::Hold { Hold { reg: self, val } } }`
#[verifier::opaque]
pub open spec fn regref_impl(toks: Seq<Tok>, v: VariantV, vp: VariantPlanV) -> Seq<TokV> {
    regref_impl_1(toks, v, vp) + regref_impl_2(toks, v, vp) + regref_impl_3(toks, v, vp)
}

#[verifier::spinoff_prover]
#[verifier::rlimit(80)]
fn emit_regref_impl(toks: &Vec<Tok>, v: &Variant, vp: &VariantPlan, out: &mut Vec<Tok>)
    ensures
        toks_view(final(out)@) == toks_view(old(out)@) + regref_impl(toks@, v@, vp@),
{
    let ghost b = toks_view(old(out)@);
    emit_regref_impl_1(toks, v, vp, out);
    emit_regref_impl_2(toks, v, vp, out);
    emit_regref_impl_3(toks, v, vp, out);
    proof {
        reveal(regref_impl);
    }
    assert(toks_view(out@) =~= b + regref_impl(toks@, v@, vp@));
}

/// A part of `hold_items`.
#[verifier::opaque]
pub open spec fn hold_items_1(toks: Seq<Tok>, v: VariantV, vp: VariantPlanV) -> Seq<TokV> {
    span_toks(toks, v.attrs) + tw("pub"@) + tw("struct"@) + tw("Hold"@) + tp('<') + seq![TokV::Punct('\'', true)] + tw("a"@) + tp(',') + tw("_T"@) + tp(':') + tj(':', ':') + tw("drone_core"@) + tj(':', ':') + tw("reg"@) + tj(':', ':') + tw("tag"@) + tj(':', ':') + tw("RegTag"@) + tp('>') + topen(Delim::Brace) + tw("reg"@) + tp(':') + tp('&') + seq![TokV::Punct('\'', true)] + tw("a"@) + tw("Reg"@) + tp('<') + tw("_T"@) + tp('>') + tp(',')
}

#[verifier::spinoff_prover]
#[verifier::rlimit(80)]
fn emit_hold_items_1(toks: &Vec<Tok>, v: &Variant, vp: &VariantPlan, out: &mut Vec<Tok>)
    ensures
        toks_view(final(out)@) == toks_view(old(out)@) + hold_items_1(toks@, v@, vp@),
{
    let ghost b = toks_view(old(out)@);
    emit_span(toks, v.attrs, out);
    emit_word(out, "pub");
    emit_word(out, "struct");
    emit_word(out, "Hold");
    emit_punct(out, '<');
    push_tok(out, Tok::Punct('\'', true));
    emit_word(out, "a");
    emit_punct(out, ',');
    emit_word(out, "_T");
    emit_punct(out, ':');
    emit_joint(out, ':', ':');
    emit_word(out, "drone_core");
    emit_joint(out, ':', ':');
    emit_word(out, "reg");
    emit_joint(out, ':', ':');
    emit_word(out, "tag");
    emit_joint(out, ':', ':');
    emit_word(out, "RegTag");
    emit_punct(out, '>');
    emit_open(out, Delim::Brace);
    emit_word(out, "reg");
    emit_punct(out, ':');
    emit_punct(out, '&');
    push_tok(out, Tok::Punct('\'', true));
    emit_word(out, "a");
    emit_word(out, "Reg");
    emit_punct(out, '<');
    emit_word(out, "_T");
    emit_punct(out, '>');
    emit_punct(out, ',');
    proof {
        reveal(hold_items_1);
    }
    assert(toks_view(out@) =~= b + hold_items_1(toks@, v@, vp@));
}

/// A part of `hold_items`.
#[verifier::opaque]
pub open spec fn hold_items_2(toks: Seq<Tok>, v: VariantV, vp: VariantPlanV) -> Seq<TokV> {
    tw("val"@) + tp(':') + tw("Val"@) + tp(',') + tclose(Delim::Brace) + tw("impl"@) + tp('<') + seq![TokV::Punct('\'', true)] + tw("a"@) + tp(',') + tw("_T"@) + tp('>') + tj(':', ':') + tw("drone_core"@) + tj(':', ':') + tw("reg"@) + tj(':', ':') + tw("RegHold"@) + tp('<') + seq![TokV::Punct('\'', true)] + tw("a"@) + tp(',') + tw("_T"@) + tp(',') + tw("Reg"@) + tp('<') + tw("_T"@) + tp('>') + tp('>') + tw("for"@)
}

#[verifier::spinoff_prover]
#[verifier::rlimit(80)]
fn emit_hold_items_2(toks: &Vec<Tok>, v: &Variant, vp: &VariantPlan, out: &mut Vec<Tok>)
    ensures
        toks_view(final(out)@) == toks_view(old(out)@) + hold_items_2(toks@, v@, vp@),
{
    let ghost b = toks_view(old(out)@);
    emit_word(out, "val");
    emit_punct(out, ':');
    emit_word(out, "Val");
    emit_punct(out, ',');
    emit_close(out, Delim::Brace);
    emit_word(out, "impl");
    emit_punct(out, '<');
    push_tok(out, Tok::Punct('\'', true));
    emit_word(out, "a");
    emit_punct(out, ',');
    emit_word(out, "_T");
    emit_punct(out, '>');
    emit_joint(out, ':', ':');
    emit_word(out, "drone_core");
    emit_joint(out, ':', ':');
    emit_word(out, "reg");
    emit_joint(out, ':', ':');
    emit_word(out, "RegHold");
    emit_punct(out, '<');
    push_tok(out, Tok::Punct('\'', true));
    emit_word(out, "a");
    emit_punct(out, ',');
    emit_word(out, "_T");
    emit_punct(out, ',');
    emit_word(out, "Reg");
    emit_punct(out, '<');
    emit_word(out, "_T");
    emit_punct(out, '>');
    emit_punct(out, '>');
    emit_word(out, "for");
    proof {
        reveal(hold_items_2);
    }
    assert(toks_view(out@) =~= b + hold_items_2(toks@, v@, vp@));
}

/// A part of `hold_items`.
#[verifier::opaque]
pub open spec fn hold_items_3(toks: Seq<Tok>, v: VariantV, vp: VariantPlanV) -> Seq<TokV> {
    tw("Hold"@) + tp('<') + seq![TokV::Punct('\'', true)] + tw("a"@) + tp(',') + tw("_T"@) + tp('>') + tw("where"@) + tw("_T"@) + tp(':') + tj(':', ':') + tw("drone_core"@) + tj(':', ':') + tw("reg"@) + tj(':', ':') + tw("tag"@) + tj(':', ':') + tw("RegTag"@) + tp(',') + topen(Delim::Brace) + tp('#') + topen(Delim::Bracket) + tw("inline"@) + tclose(Delim::Bracket) + tw("fn"@) + tw("val"@) + topen(Delim::Paren) + tp('&') + tw("self"@) + tclose(Delim::Paren)
}

#[verifier::spinoff_prover]
#[verifier::rlimit(80)]
fn emit_hold_items_3(toks: &Vec<Tok>, v: &Variant, vp: &VariantPlan, out: &mut Vec<Tok>)
    ensures
        toks_view(final(out)@) == toks_view(old(out)@) + hold_items_3(toks@, v@, vp@),
{
    let ghost b = toks_view(old(out)@);
    emit_word(out, "Hold");
    emit_punct(out, '<');
    push_tok(out, Tok::Punct('\'', true));
    emit_word(out, "a");
    emit_punct(out, ',');
    emit_word(out, "_T");
    emit_punct(out, '>');
    emit_word(out, "where");
    emit_word(out, "_T");
    emit_punct(out, ':');
    emit_joint(out, ':', ':');
    emit_word(out, "drone_core");
    emit_joint(out, ':', ':');
    emit_word(out, "reg");
    emit_joint(out, ':', ':');
    emit_word(out, "tag");
    emit_joint(out, ':', ':');
    emit_word(out, "RegTag");
    emit_punct(out, ',');
    emit_open(out, Delim::Brace);
    emit_punct(out, '#');
    emit_open(out, Delim::Bracket);
    emit_word(out, "inline");
    emit_close(out, Delim::Bracket);
    emit_word(out, "fn");
    emit_word(out, "val");
    emit_open(out, Delim::Paren);
    emit_punct(out, '&');
    emit_word(out, "self");
    emit_close(out, Delim::Paren);
    proof {
        reveal(hold_items_3);
    }
    assert(toks_view(out@) =~= b + hold_items_3(toks@, v@, vp@));
}

/// A part of `hold_items`.
#[verifier::opaque]
pub open spec fn hold_items_4(toks: Seq<Tok>, v: VariantV, vp: VariantPlanV) -> Seq<TokV> {
    tj('-', '>') + tw("Val"@) + topen(Delim::Brace) + tw("self"@) + tp('.') + tw("val"@) + tclose(Delim::Brace) + tp('#') + topen(Delim::Bracket) + tw("inline"@) + tclose(Delim::Bracket) + tw("fn"@) + tw("set_val"@) + topen(Delim::Paren) + tp('&') + tw("mut"@) + tw("self"@) + tp(',') + tw("val"@) + tp(':') + tw("Val"@) + tclose(Delim::Paren) + topen(Delim::Brace) + tw("self"@) + tp('.') + tw("val"@) + tp('=') + tw("val"@) + tp(';') + tclose(Delim::Brace)
}

#[verifier::spinoff_prover]
#[verifier::rlimit(80)]
fn emit_hold_items_4(toks: &Vec<Tok>, v: &Variant, vp: &VariantPlan, out: &mut Vec<Tok>)
    ensures
        toks_view(final(out)@) == toks_view(old(out)@) + hold_items_4(toks@, v@, vp@),
{
    let ghost b = toks_view(old(out)@);
    emit_joint(out, '-', '>');
    emit_word(out, "Val");
    emit_open(out, Delim::Brace);
    emit_word(out, "self");
    emit_punct(out, '.');
    emit_word(out, "val");
    emit_close(out, Delim::Brace);
    emit_punct(out, '#');
    emit_open(out, Delim::Bracket);
    emit_word(out, "inline");
    emit_close(out, Delim::Bracket);
    emit_word(out, "fn");
    emit_word(out, "set_val");
    emit_open(out, Delim::Paren);
    emit_punct(out, '&');
    emit_word(out, "mut");
    emit_word(out, "self");
    emit_punct(out, ',');
    emit_word(out, "val");
    emit_punct(out, ':');
    emit_word(out, "Val");
    emit_close(out, Delim::Paren);
    emit_open(out, Delim::Brace);
    emit_word(out, "self");
    emit_punct(out, '.');
    emit_word(out, "val");
    emit_punct(out, '=');
    emit_word(out, "val");
    emit_punct(out, ';');
    emit_close(out, Delim::Brace);
    proof {
        reveal(hold_items_4);
    }
    assert(toks_view(out@) =~= b + hold_items_4(toks@, v@, vp@));
}

/// A part of `hold_items`.
#[verifier::opaque]
pub open spec fn hold_items_5(toks: Seq<Tok>, v: VariantV, vp: VariantPlanV) -> Seq<TokV> {
    tclose(Delim::Brace)
}

#[verifier::spinoff_prover]
#[verifier::rlimit(80)]
fn emit_hold_items_5(toks: &Vec<Tok>, v: &Variant, vp: &VariantPlan, out: &mut Vec<Tok>)
    ensures
        toks_view(final(out)@) == toks_view(old(out)@) + hold_items_5(toks@, v@, vp@),
{
    let ghost b = toks_view(old(out)@);
    emit_close(out, Delim::Brace);
    proof {
        reveal(hold_items_5);
    }
    assert(toks_view(out@) =~= b + hold_items_5(toks@, v@, vp@));
}

/// `ATTRS pub struct Hold<'a, _T: RegTag> { reg: &'a Reg<_T>, val: Val, } impl<'a, _T> ::drone_core::reg::RegHold<'a, _T, Reg<_T>> for Hold<'a, _T> where .. { .. }`
#[verifier::opaque]
pub open spec fn hold_items(toks: Seq<Tok>, v: VariantV, vp: VariantPlanV) -> Seq<TokV> {
    hold_items_1(toks, v, vp) + hold_items_2(toks, v, vp) + hold_items_3(toks, v, vp) + hold_items_4(toks, v, vp) + hold_items_5(toks, v, vp)
}

#[verifier::spinoff_prover]
#[verifier::rlimit(80)]
fn emit_hold_items(toks: &Vec<Tok>, v: &Variant, vp: &VariantPlan, out: &mut Vec<Tok>)
    ensures
        toks_view(final(out)@) == toks_view(old(out)@) + hold_items(toks@, v@, vp@),
{
    let ghost b = toks_view(old(out)@);
    emit_hold_items_1(toks, v, vp, out);
    emit_hold_items_2(toks, v, vp, out);
    emit_hold_items_3(toks, v, vp, out);
    emit_hold_items_4(toks, v, vp, out);
    emit_hold_items_5(toks, v, vp, out);
    proof {
        reveal(hold_items);
    }
    assert(toks_view(out@) =~= b + hold_items(toks@, v@, vp@));
}

/// `impl<_T: RegTag> TRAIT<_T> for Reg<_T> {}`
#[verifier::opaque]
pub open spec fn reg_trait(toks: Seq<Tok>, tr: usize) -> Seq<TokV> {
    tw("impl"@) + tp('<') + tw("_T"@) + tp(':') + tj(':', ':') + tw("drone_core"@) + tj(':', ':') + tw("reg"@) + tj(':', ':') + tw("tag"@) + tj(':', ':') + tw("RegTag"@) + tp('>') + span_toks(toks, one(tr)) + tp('<') + tw("_T"@) + tp('>') + tw("for"@) + tw("Reg"@) + tp('<') + tw("_T"@) + tp('>') + topen(Delim::Brace) + tclose(Delim::Brace)
}

#[verifier::spinoff_prover]
#[verifier::rlimit(80)]
fn emit_reg_trait(toks: &Vec<Tok>, tr: usize, out: &mut Vec<Tok>)
    ensures
        toks_view(final(out)@) == toks_view(old(out)@) + reg_trait(toks@, tr),
{
    let ghost b = toks_view(old(out)@);
    emit_word(out, "impl");
    emit_punct(out, '<');
    emit_word(out, "_T");
    emit_punct(out, ':');
    emit_joint(out, ':', ':');
    emit_word(out, "drone_core");
    emit_joint(out, ':', ':');
    emit_word(out, "reg");
    emit_joint(out, ':', ':');
    emit_word(out, "tag");
    emit_joint(out, ':', ':');
    emit_word(out, "RegTag");
    emit_punct(out, '>');
    emit_span(toks, one_exec(tr), out);
    emit_punct(out, '<');
    emit_word(out, "_T");
    emit_punct(out, '>');
    emit_word(out, "for");
    emit_word(out, "Reg");
    emit_punct(out, '<');
    emit_word(out, "_T");
    emit_punct(out, '>');
    emit_open(out, Delim::Brace);
    emit_close(out, Delim::Brace);
    proof {
        reveal(reg_trait);
    }
    assert(toks_view(out@) =~= b + reg_trait(toks@, tr));
}

/// A part of `conversion_item`.
#[verifier::opaque]
pub open spec fn conversion_item_1(src: Seq<char>, dst: Seq<char>, name: Seq<char>, doc: Seq<char>) -> Seq<TokV> {
    tw("impl"@) + tp('<') + tw("_T"@) + tp(':') + tj(':', ':') + tw("drone_core"@) + tj(':', ':') + tw("reg"@) + tj(':', ':') + tw("tag"@) + tj(':', ':') + tw("RegTag"@) + tp('>') + tw(src) + tj(':', ':') + tw("Reg"@) + tp('<') + tw("_T"@) + tp('>') + topen(Delim::Brace) + tp('#') + topen(Delim::Bracket) + tw("doc"@) + tp('=') + tl("\""@ + doc + "\""@) + tclose(Delim::Bracket) + tw("pub"@) + tw("fn"@) + tw(name) + topen(Delim::Paren)
}

#[verifier::spinoff_prover]
#[verifier::rlimit(80)]
fn emit_conversion_item_1(src: &String, dst: &String, name: &String, doc: &String, out: &mut Vec<Tok>)
    ensures
        toks_view(final(out)@) == toks_view(old(out)@) + conversion_item_1(src@, dst@, name@, doc@),
{
    let ghost b = toks_view(old(out)@);
    emit_word(out, "impl");
    emit_punct(out, '<');
    emit_word(out, "_T");
    emit_punct(out, ':');
    emit_joint(out, ':', ':');
    emit_word(out, "drone_core");
    emit_joint(out, ':', ':');
    emit_word(out, "reg");
    emit_joint(out, ':', ':');
    emit_word(out, "tag");
    emit_joint(out, ':', ':');
    emit_word(out, "RegTag");
    emit_punct(out, '>');
    emit_string(out, src);
    emit_joint(out, ':', ':');
    emit_word(out, "Reg");
    emit_punct(out, '<');
    emit_word(out, "_T");
    emit_punct(out, '>');
    emit_open(out, Delim::Brace);
    emit_punct(out, '#');
    emit_open(out, Delim::Bracket);
    emit_word(out, "doc");
    emit_punct(out, '=');
    emit_quoted(out, doc);
    emit_close(out, Delim::Bracket);
    emit_word(out, "pub");
    emit_word(out, "fn");
    emit_string(out, name);
    emit_open(out, Delim::Paren);
    proof {
        reveal(conversion_item_1);
    }
    assert(toks_view(out@) =~= b + conversion_item_1(src@, dst@, name@, doc@));
}

/// A part of `conversion_item`.
#[verifier::opaque]
pub open spec fn conversion_item_2(src: Seq<char>, dst: Seq<char>, name: Seq<char>, doc: Seq<char>) -> Seq<TokV> {
    tw("self"@) + tclose(Delim::Paren) + tj('-', '>') + tw(dst) + tj(':', ':') + tw("Reg"@) + tp('<') + tw("_T"@) + tp('>') + topen(Delim::Brace) + tw("unsafe"@) + topen(Delim::Brace) + tj(':', ':') + tw("drone_core"@) + tj(':', ':') + tw("token"@) + tj(':', ':') + tw("Token"@) + tj(':', ':') + tw("take"@) + topen(Delim::Paren) + tclose(Delim::Paren) + tclose(Delim::Brace) + tclose(Delim::Brace) + tclose(Delim::Brace)
}

#[verifier::spinoff_prover]
#[verifier::rlimit(80)]
fn emit_conversion_item_2(src: &String, dst: &String, name: &String, doc: &String, out: &mut Vec<Tok>)
    ensures
        toks_view(final(out)@) == toks_view(old(out)@) + conversion_item_2(src@, dst@, name@, doc@),
{
    let ghost b = toks_view(old(out)@);
    emit_word(out, "self");
    emit_close(out, Delim::Paren);
    emit_joint(out, '-', '>');
    emit_string(out, dst);
    emit_joint(out, ':', ':');
    emit_word(out, "Reg");
    emit_punct(out, '<');
    emit_word(out, "_T");
    emit_punct(out, '>');
    emit_open(out, Delim::Brace);
    emit_word(out, "unsafe");
    emit_open(out, Delim::Brace);
    emit_joint(out, ':', ':');
    emit_word(out, "drone_core");
    emit_joint(out, ':', ':');
    emit_word(out, "token");
    emit_joint(out, ':', ':');
    emit_word(out, "Token");
    emit_joint(out, ':', ':');
    emit_word(out, "take");
    emit_open(out, Delim::Paren);
    emit_close(out, Delim::Paren);
    emit_close(out, Delim::Brace);
    emit_close(out, Delim::Brace);
    emit_close(out, Delim::Brace);
    proof {
        reveal(conversion_item_2);
    }
    assert(toks_view(out@) =~= b + conversion_item_2(src@, dst@, name@, doc@));
}

/// `impl<_T: RegTag> SRC::Reg<_T> { #[doc = DOC] pub fn NAME(self) -> DST::Reg<_T> { unsafe { ::drone_core::token::Token::take() } } }`
#[verifier::opaque]
pub open spec fn conversion_item(src: Seq<char>, dst: Seq<char>, name: Seq<char>, doc: Seq<char>) -> Seq<TokV> {
    conversion_item_1(src, dst, name, doc) + conversion_item_2(src, dst, name, doc)
}

#[verifier::spinoff_prover]
#[verifier::rlimit(80)]
fn emit_conversion_item(src: &String, dst: &String, name: &String, doc: &String, out: &mut Vec<Tok>)
    ensures
        toks_view(final(out)@) == toks_view(old(out)@) + conversion_item(src@, dst@, name@, doc@),
{
    let ghost b = toks_view(old(out)@);
    emit_conversion_item_1(src, dst, name, doc, out);
    emit_conversion_item_2(src, dst, name, doc, out);
    proof {
        reveal(conversion_item);
    }
    assert(toks_view(out@) =~= b + conversion_item(src@, dst@, name@, doc@));
}

/// After the name `method` in `s`, the first call through `path` is
/// `path::op`: `s` is `.. method .. path::op ..` with no `path` between the
/// method's name and that call.
pub open spec fn first_call_after(s: Seq<TokV>, method: Seq<char>, path: Seq<char>, op: Seq<char>) -> bool {
    exists|a: Seq<TokV>, b: Seq<TokV>, c: Seq<TokV>|
        #[trigger] (a + tw(method) + b + tw(path) + tj(':', ':') + tw(op) + c) == s && !b.contains(
            TokV::Ident(path),
        )
}

/// `( &mut self ) -> &mut Self { ::drone_core::reg::field::`
pub open spec fn setter_head() -> Seq<TokV> {
    topen(Delim::Paren) + tp('&') + tw("mut"@) + tw("self"@) + tclose(Delim::Paren) + tj('-', '>') + tp('&')
        + tw("mut"@) + tw("Self"@) + topen(Delim::Brace) + tj(':', ':') + tw("drone_core"@) + tj(':', ':')
        + tw("reg"@) + tj(':', ':') + tw("field"@) + tj(':', ':')
}

proof fn lemma_setter_head_has_no_path()
    ensures
        !setter_head().contains(TokV::Ident("WWRegFieldBit"@)),
{
    reveal_strlit("WWRegFieldBit");
    reveal_strlit("mut");
    reveal_strlit("self");
    reveal_strlit("Self");
    reveal_strlit("drone_core");
    reveal_strlit("reg");
    reveal_strlit("field");
    let h = setter_head();
    let w = TokV::Ident("WWRegFieldBit"@);
    let e = seq![
        TokV::Open(Delim::Paren),
        TokV::Punct('&', false),
        TokV::Ident("mut"@),
        TokV::Ident("self"@),
        TokV::Close(Delim::Paren),
        TokV::Punct('-', true),
        TokV::Punct('>', false),
        TokV::Punct('&', false),
        TokV::Ident("mut"@),
        TokV::Ident("Self"@),
        TokV::Open(Delim::Brace),
        TokV::Punct(':', true),
        TokV::Punct(':', false),
        TokV::Ident("drone_core"@),
        TokV::Punct(':', true),
        TokV::Punct(':', false),
        TokV::Ident("reg"@),
        TokV::Punct(':', true),
        TokV::Punct(':', false),
        TokV::Ident("field"@),
        TokV::Punct(':', true),
        TokV::Punct(':', false),
    ];
    assert(h =~= e);
    assert("mut"@ != "WWRegFieldBit"@) by { assert("mut"@.len() != "WWRegFieldBit"@.len()); }
    assert("self"@ != "WWRegFieldBit"@) by { assert("self"@.len() != "WWRegFieldBit"@.len()); }
    assert("Self"@ != "WWRegFieldBit"@) by { assert("Self"@.len() != "WWRegFieldBit"@.len()); }
    assert("drone_core"@ != "WWRegFieldBit"@) by { assert("drone_core"@.len() != "WWRegFieldBit"@.len()); }
    assert("reg"@ != "WWRegFieldBit"@) by { assert("reg"@.len() != "WWRegFieldBit"@.len()); }
    assert("field"@ != "WWRegFieldBit"@) by { assert("field"@.len() != "WWRegFieldBit"@.len()); }
    assert forall|k: int| 0 <= k < e.len() implies e[k] != w by {}
}

#[verifier::spinoff_prover]
#[verifier::rlimit(100)]
proof fn lemma_set_calls_set(toks: Seq<Tok>, f: RegFieldV, fp: FieldPlanV, val: Seq<char>)
    ensures
        first_call_after(field_bit_write(toks, f, fp, val), fp.set_name, "WWRegFieldBit"@, "set"@),
{
    reveal(field_bit_write);
    reveal(field_bit_write_2);
    reveal(field_bit_write_3);
    lemma_setter_head_has_no_path();
    let w1 = field_bit_write_1(toks, f, fp, val);
    let w2 = field_bit_write_2(toks, f, fp, val);
    let w3 = field_bit_write_3(toks, f, fp, val);
    let w4 = field_bit_write_4(toks, f, fp, val);
    let w5 = field_bit_write_5(toks, f, fp, val);
    let w6 = field_bit_write_6(toks, f, fp, val);
    let s = field_bit_write(toks, f, fp, val);
    let h = setter_head();
    let a2 = w2.take(w2.len() - 26);
    assert(w2 =~= a2 + tw(fp.set_name) + h + tw("WWRegFieldBit"@) + tj(':', ':'));
    assert(w3 =~= tw("set"@) + w3.drop_first());
    let a = w1 + a2;
    let c = w3.drop_first() + w4 + w5 + w6;
    assert(s =~= a + tw(fp.set_name) + h + tw("WWRegFieldBit"@) + tj(':', ':') + tw("set"@) + c);
}

#[verifier::spinoff_prover]
#[verifier::rlimit(100)]
proof fn lemma_clear_calls_clear(toks: Seq<Tok>, f: RegFieldV, fp: FieldPlanV, val: Seq<char>)
    ensures
        first_call_after(field_bit_write(toks, f, fp, val), fp.clear_name, "WWRegFieldBit"@, "clear"@),
{
    reveal(field_bit_write);
    reveal(field_bit_write_3);
    reveal(field_bit_write_4);
    lemma_setter_head_has_no_path();
    let w1 = field_bit_write_1(toks, f, fp, val);
    let w2 = field_bit_write_2(toks, f, fp, val);
    let w3 = field_bit_write_3(toks, f, fp, val);
    let w4 = field_bit_write_4(toks, f, fp, val);
    let w5 = field_bit_write_5(toks, f, fp, val);
    let w6 = field_bit_write_6(toks, f, fp, val);
    let s = field_bit_write(toks, f, fp, val);
    let h = setter_head();
    let a3 = w3.take(w3.len() - 4);
    let t3 = w3.skip(w3.len() - 3);
    assert(w3 =~= a3 + tw(fp.clear_name) + t3);
    let h4 = w4.take(19);
    let c4 = w4.skip(23);
    assert(w4 =~= h4 + tw("WWRegFieldBit"@) + tj(':', ':') + tw("clear"@) + c4);
    assert(t3 + h4 =~= h);
    let a = w1 + w2 + a3;
    let c = c4 + w5 + w6;
    assert(s =~= a + tw(fp.clear_name) + h + tw("WWRegFieldBit"@) + tj(':', ':') + tw("clear"@) + c);
}

#[verifier::spinoff_prover]
#[verifier::rlimit(100)]
proof fn lemma_toggle_calls_toggle(toks: Seq<Tok>, f: RegFieldV, fp: FieldPlanV, val: Seq<char>)
    ensures
        first_call_after(field_bit_write(toks, f, fp, val), fp.toggle_name, "WWRegFieldBit"@, "toggle"@),
{
    reveal(field_bit_write);
    reveal(field_bit_write_5);
    reveal(field_bit_write_6);
    lemma_setter_head_has_no_path();
    let w1 = field_bit_write_1(toks, f, fp, val);
    let w2 = field_bit_write_2(toks, f, fp, val);
    let w3 = field_bit_write_3(toks, f, fp, val);
    let w4 = field_bit_write_4(toks, f, fp, val);
    let w5 = field_bit_write_5(toks, f, fp, val);
    let w6 = field_bit_write_6(toks, f, fp, val);
    let s = field_bit_write(toks, f, fp, val);
    let h = setter_head();
    let a5 = w5.take(w5.len() - 23);
    assert(w5 =~= a5 + tw(fp.toggle_name) + h);
    let c = w6.skip(4);
    assert(w6 =~= tw("WWRegFieldBit"@) + tj(':', ':') + tw("toggle"@) + c);
    let a = w1 + w2 + w3 + w4 + a5;
    assert(s =~= a + tw(fp.toggle_name) + h + tw("WWRegFieldBit"@) + tj(':', ':') + tw("toggle"@) + c);
}

/// The writers of a one-bit field do what their names say: `set_NAME` calls
/// `WWRegFieldBit::set`, `clear_NAME` calls `WWRegFieldBit::clear` and
/// `toggle_NAME` calls `WWRegFieldBit::toggle`.
pub proof fn law_bit_writers_call_their_operation(toks: Seq<Tok>, f: RegFieldV, fp: FieldPlanV, val: Seq<char>)
    ensures
        first_call_after(field_bit_write(toks, f, fp, val), fp.set_name, "WWRegFieldBit"@, "set"@),
        first_call_after(field_bit_write(toks, f, fp, val), fp.clear_name, "WWRegFieldBit"@, "clear"@),
        first_call_after(field_bit_write(toks, f, fp, val), fp.toggle_name, "WWRegFieldBit"@, "toggle"@),
{
    lemma_set_calls_set(toks, f, fp, val);
    lemma_clear_calls_clear(toks, f, fp, val);
    lemma_toggle_calls_toggle(toks, f, fp, val);
}

/// Adds the string literal whose contents are `doc` to `out`.
fn emit_quoted(out: &mut Vec<Tok>, doc: &String)
    ensures
        toks_view(final(out)@) == toks_view(old(out)@) + tl("\""@ + doc@ + "\""@),
{
    let ghost b = toks_view(old(out)@);
    let s = cat3("\"", doc.as_str(), "\"");
    push_tok(out, Tok::Literal(s));
    assert(toks_view(out@) =~= b + tl("\""@ + doc@ + "\""@));
}

/// The implementations of the first `k` traits of a field.
pub open spec fn field_traits(toks: Seq<Tok>, f: RegFieldV, fp: FieldPlanV, val: Seq<char>, k: nat) -> Seq<TokV>
    decreases k,
{
    if k == 0 || k > f.traits.len() {
        Seq::empty()
    } else {
        field_traits(toks, f, fp, val, (k - 1) as nat) + field_trait(toks, f, fp, val, f.traits[k - 1])
    }
}

/// The accessors of a field that its width and its traits call for.
pub open spec fn field_access(toks: Seq<Tok>, f: RegFieldV, fp: FieldPlanV, val: Seq<char>) -> Seq<TokV> {
    if fp.bit {
        field_bit(toks, f, fp, val) + (if fp.read {
            field_bit_read(toks, f, fp, val)
        } else {
            Seq::empty()
        }) + (if fp.write {
            field_bit_write(toks, f, fp, val)
        } else {
            Seq::empty()
        })
    } else {
        field_bits(toks, f, fp, val) + (if fp.read {
            field_bits_read(toks, f, fp, val)
        } else {
            Seq::empty()
        }) + (if fp.write {
            field_bits_write(toks, f, fp, val)
        } else {
            Seq::empty()
        })
    }
}

/// The items of a field: its token, the token's traits, and its accessors.
pub open spec fn field_items(toks: Seq<Tok>, f: RegFieldV, fp: FieldPlanV, val: Seq<char>) -> Seq<TokV> {
    field_struct(toks, f, fp, val) + field_token(toks, f, fp, val) + field_regfield(toks, f, fp, val)
        + field_traits(toks, f, fp, val, f.traits.len()) + field_access(toks, f, fp, val)
}

#[verifier::spinoff_prover]
#[verifier::rlimit(50)]
fn emit_field_traits(toks: &Vec<Tok>, f: &RegField, fp: &FieldPlan, val: &String, out: &mut Vec<Tok>)
    ensures
        toks_view(final(out)@) == toks_view(old(out)@) + field_traits(toks@, f@, fp@, val@, f.traits@.len()),
{
    let ghost head = toks_view(old(out)@);
    let mut k: usize = 0;
    assert(head + Seq::<TokV>::empty() =~= head);
    while k < f.traits.len()
        invariant
            k <= f.traits@.len(),
            toks_view(out@) == head + field_traits(toks@, f@, fp@, val@, k as nat),
        decreases f.traits@.len() - k,
    {
        emit_field_trait(toks, f, fp, val, f.traits[k], out);
        assert(toks_view(out@) =~= head + field_traits(toks@, f@, fp@, val@, (k + 1) as nat));
        k = k + 1;
    }
}

#[verifier::spinoff_prover]
#[verifier::rlimit(50)]
fn emit_field_access(toks: &Vec<Tok>, f: &RegField, fp: &FieldPlan, val: &String, out: &mut Vec<Tok>)
    ensures
        toks_view(final(out)@) == toks_view(old(out)@) + field_access(toks@, f@, fp@, val@),
{
    let ghost b = toks_view(old(out)@);
    if fp.bit {
        emit_field_bit(toks, f, fp, val, out);
        let ghost m1 = toks_view(out@);
        if fp.read {
            emit_field_bit_read(toks, f, fp, val, out);
        } else {
            assert(toks_view(out@) =~= m1 + Seq::<TokV>::empty());
        }
        let ghost m2 = toks_view(out@);
        if fp.write {
            emit_field_bit_write(toks, f, fp, val, out);
        } else {
            assert(toks_view(out@) =~= m2 + Seq::<TokV>::empty());
        }
    } else {
        emit_field_bits(toks, f, fp, val, out);
        let ghost m1 = toks_view(out@);
        if fp.read {
            emit_field_bits_read(toks, f, fp, val, out);
        } else {
            assert(toks_view(out@) =~= m1 + Seq::<TokV>::empty());
        }
        let ghost m2 = toks_view(out@);
        if fp.write {
            emit_field_bits_write(toks, f, fp, val, out);
        } else {
            assert(toks_view(out@) =~= m2 + Seq::<TokV>::empty());
        }
    }
    assert(toks_view(out@) =~= b + field_access(toks@, f@, fp@, val@));
}

#[verifier::spinoff_prover]
#[verifier::rlimit(80)]
fn emit_field_items(toks: &Vec<Tok>, f: &RegField, fp: &FieldPlan, val: &String, out: &mut Vec<Tok>)
    ensures
        toks_view(final(out)@) == toks_view(old(out)@) + field_items(toks@, f@, fp@, val@),
{
    let ghost b = toks_view(old(out)@);
    emit_field_struct(toks, f, fp, val, out);
    emit_field_token(toks, f, fp, val, out);
    emit_field_regfield(toks, f, fp, val, out);
    emit_field_traits(toks, f, fp, val, out);
    let ghost m = toks_view(out@);
    emit_field_access(toks, f, fp, val, out);
    assert(toks_view(out@) =~= b + field_items(toks@, f@, fp@, val@));
}

/// `::core::marker::PhantomData`
pub open spec fn phantom() -> Seq<TokV> {
    tj(':', ':') + tw("core"@) + tj(':', ':') + tw("marker"@) + tj(':', ':') + tw("PhantomData"@)
}

/// The first `k` fields of the register structure, separated by commas:
/// `ATTRS pub IDENT: PSC<_T>` each.
pub open spec fn struct_fields(toks: Seq<Tok>, v: VariantV, vp: VariantPlanV, k: nat) -> Seq<TokV>
    decreases k,
{
    if k == 0 || k > v.fields.len() || k > vp.fields.len() {
        Seq::empty()
    } else {
        let f = v.fields[k - 1];
        let fp = vp.fields[k - 1];
        struct_fields(toks, v, vp, (k - 1) as nat) + (if k > 1 {
            tp(',')
        } else {
            Seq::empty()
        }) + span_toks(toks, f.attrs) + tw("pub"@) + tw(fp.ident) + tp(':') + tw(fp.psc) + tp('<') + tw(
            "_T"@,
        ) + tp('>')
    }
}

/// The fields of the register structure, or `_marker: PhantomData<_T>`
/// where it has none.
pub open spec fn struct_body(toks: Seq<Tok>, v: VariantV, vp: VariantPlanV) -> Seq<TokV> {
    if v.fields.len() == 0 {
        tw("_marker"@) + tp(':') + phantom() + tp('<') + tw("_T"@) + tp('>')
    } else {
        struct_fields(toks, v, vp, v.fields.len())
    }
}

/// The first `k` fields of the register token's constructor: `CFGS IDENT:
/// ::drone_core::token::Token::take(),` each.
pub open spec fn ctor_fields(toks: Seq<Tok>, v: VariantV, vp: VariantPlanV, k: nat) -> Seq<TokV>
    decreases k,
{
    if k == 0 || k > v.fields.len() || k > vp.fields.len() {
        Seq::empty()
    } else {
        let f = v.fields[k - 1];
        let fp = vp.fields[k - 1];
        ctor_fields(toks, v, vp, (k - 1) as nat) + attrs_toks(toks, fp.cfg_attrs, f.attrs.end as int) + tw(
            fp.ident,
        ) + tp(':') + tj(':', ':') + tw("drone_core"@) + tj(':', ':') + tw("token"@) + tj(':', ':') + tw(
            "Token"@,
        ) + tj(':', ':') + tw("take"@) + topen(Delim::Paren) + tclose(Delim::Paren) + tp(',')
    }
}

/// The constructor's fields, or `_marker: PhantomData,` where there are
/// none.
pub open spec fn ctor_body(toks: Seq<Tok>, v: VariantV, vp: VariantPlanV) -> Seq<TokV> {
    if v.fields.len() == 0 {
        tw("_marker"@) + tp(':') + phantom() + tp(',')
    } else {
        ctor_fields(toks, v, vp, v.fields.len())
    }
}

/// The items of the first `k` fields.
pub open spec fn fields_items(toks: Seq<Tok>, v: VariantV, vp: VariantPlanV, k: nat) -> Seq<TokV>
    decreases k,
{
    if k == 0 || k > v.fields.len() || k > vp.fields.len() {
        Seq::empty()
    } else {
        fields_items(toks, v, vp, (k - 1) as nat) + field_items(toks, v.fields[k - 1], vp.fields[k - 1], vp.val_ty)
    }
}

/// The imported traits, separated by commas.
pub open spec fn import_list(toks: Seq<Tok>, is: Seq<usize>) -> Seq<TokV>
    decreases is.len(),
{
    if is.len() == 0 {
        Seq::empty()
    } else {
        import_list(toks, is.drop_last()) + (if is.len() > 1 {
            tp(',')
        } else {
            Seq::empty()
        }) + span_toks(toks, one(is.last()))
    }
}

/// `use super::{TRAITS};`, none where no trait is imported.
pub open spec fn imports(toks: Seq<Tok>, is: Seq<usize>) -> Seq<TokV> {
    if is.len() == 0 {
        Seq::empty()
    } else {
        tw("use"@) + tw("super"@) + tj(':', ':') + topen(Delim::Brace) + import_list(toks, is) + tclose(
            Delim::Brace,
        ) + tp(';')
    }
}

/// The implementations of the variant's traits for its register token.
pub open spec fn reg_traits(toks: Seq<Tok>, ts: Seq<usize>) -> Seq<TokV>
    decreases ts.len(),
{
    if ts.len() == 0 {
        Seq::empty()
    } else {
        reg_traits(toks, ts.drop_last()) + reg_trait(toks, ts.last())
    }
}

/// The module of a variant.
pub open spec fn reg_module(toks: Seq<Tok>, v: VariantV, vp: VariantPlanV) -> Seq<TokV> {
    module_head(toks, v, vp) + imports(toks, vp.imports) + val_struct(toks, v, vp) + struct_body(toks, v, vp)
        + token_head(toks, v, vp) + ctor_body(toks, v, vp) + reg_impl(toks, v, vp) + regref_impl(toks, v, vp)
        + hold_items(toks, v, vp) + fields_items(toks, v, vp, v.fields.len()) + reg_traits(toks, v.traits)
        + tclose(Delim::Brace)
}

/// The modules of the first `k` variants.
pub open spec fn reg_modules(toks: Seq<Tok>, vs: Seq<VariantV>, vps: Seq<VariantPlanV>, k: nat) -> Seq<TokV>
    decreases k,
{
    if k == 0 || k > vs.len() || k > vps.len() {
        Seq::empty()
    } else {
        reg_modules(toks, vs, vps, (k - 1) as nat) + reg_module(toks, vs[k - 1], vps[k - 1])
    }
}

/// The conversions `cs` between the variants' tokens.
pub open spec fn reg_conversions(cs: Seq<(usize, usize, Seq<char>, Seq<char>)>, vps: Seq<VariantPlanV>) -> Seq<TokV>
    decreases cs.len(),
{
    if cs.len() == 0 {
        Seq::empty()
    } else {
        let c = cs.last();
        reg_conversions(cs.drop_last(), vps) + (if c.0 < vps.len() && c.1 < vps.len() {
            conversion_item(vps[c.0 as int].reg_full, vps[c.1 as int].reg_full, c.2, c.3)
        } else {
            Seq::empty()
        })
    }
}

/// What `reg!` expands to on the input `toks`: the module of each variant,
/// then the conversions between them.
pub open spec fn spec_expand_reg(toks: Seq<Tok>) -> Result<Seq<TokV>, MacroError> {
    match spec_variants(toks, 0, toks.len() as int) {
        Err(e) => Err(e),
        Ok(vs) => {
            let vps = vs.map_values(|v: VariantV| variant_plan(toks, v));
            Ok(
                reg_modules(toks, vs, vps, vs.len()) + reg_conversions(
                    conversion_rows(toks, vs, vs.len() as int),
                    vps,
                ),
            )
        },
    }
}

proof fn lemma_plan_fields(toks: Seq<Tok>, v: Variant, vp: VariantPlan, k: int)
    requires
        vp@ == variant_plan(toks, v@),
        0 <= k < v.fields@.len(),
    ensures
        vp.fields@.len() == v.fields@.len(),
        v@.fields[k] == v.fields@[k]@,
        vp@.fields[k] == vp.fields@[k]@,
        v@.fields.len() == v.fields@.len(),
        vp@.fields.len() == v.fields@.len(),
{
    assert(vp@.fields.len() == vp.fields@.len());
    assert(v@.fields.len() == v.fields@.len());
}

#[verifier::spinoff_prover]
#[verifier::rlimit(80)]
fn emit_struct_body(toks: &Vec<Tok>, v: &Variant, vp: &VariantPlan, out: &mut Vec<Tok>)
    requires
        vp@ == variant_plan(toks@, v@),
    ensures
        toks_view(final(out)@) == toks_view(old(out)@) + struct_body(toks@, v@, vp@),
{
    let ghost head = toks_view(old(out)@);
    assert(v@.fields.len() == v.fields@.len());
    assert(vp@.fields.len() == vp.fields@.len());
    if v.fields.len() == 0 {
        emit_word(out, "_marker");
        emit_punct(out, ':');
        emit_joint(out, ':', ':');
        emit_word(out, "core");
        emit_joint(out, ':', ':');
        emit_word(out, "marker");
        emit_joint(out, ':', ':');
        emit_word(out, "PhantomData");
        emit_punct(out, '<');
        emit_word(out, "_T");
        emit_punct(out, '>');
        assert(toks_view(out@) =~= head + struct_body(toks@, v@, vp@));
    } else {
        let mut k: usize = 0;
        assert(head + Seq::<TokV>::empty() =~= head);
        while k < v.fields.len()
            invariant
                k <= v.fields@.len(),
                vp@ == variant_plan(toks@, v@),
                v@.fields.len() == v.fields@.len(),
                vp@.fields.len() == vp.fields@.len(),
                toks_view(out@) == head + struct_fields(toks@, v@, vp@, k as nat),
            decreases v.fields@.len() - k,
        {
            proof {
                lemma_plan_fields(toks@, *v, *vp, k as int);
            }
            let f = &v.fields[k];
            let fp = &vp.fields[k];
            let ghost before = toks_view(out@);
            if k > 0 {
                emit_punct(out, ',');
            }
            emit_span(toks, f.attrs, out);
            emit_word(out, "pub");
            emit_string(out, &fp.ident);
            emit_punct(out, ':');
            emit_string(out, &fp.psc);
            emit_punct(out, '<');
            emit_word(out, "_T");
            emit_punct(out, '>');
            assert(toks_view(out@) =~= head + struct_fields(toks@, v@, vp@, (k + 1) as nat));
            k = k + 1;
        }
    }
}

#[verifier::spinoff_prover]
#[verifier::rlimit(80)]
fn emit_ctor_body(toks: &Vec<Tok>, v: &Variant, vp: &VariantPlan, out: &mut Vec<Tok>)
    requires
        vp@ == variant_plan(toks@, v@),
    ensures
        toks_view(final(out)@) == toks_view(old(out)@) + ctor_body(toks@, v@, vp@),
{
    let ghost head = toks_view(old(out)@);
    assert(v@.fields.len() == v.fields@.len());
    assert(vp@.fields.len() == vp.fields@.len());
    if v.fields.len() == 0 {
        emit_word(out, "_marker");
        emit_punct(out, ':');
        emit_joint(out, ':', ':');
        emit_word(out, "core");
        emit_joint(out, ':', ':');
        emit_word(out, "marker");
        emit_joint(out, ':', ':');
        emit_word(out, "PhantomData");
        emit_punct(out, ',');
        assert(toks_view(out@) =~= head + ctor_body(toks@, v@, vp@));
    } else {
        let mut k: usize = 0;
        assert(head + Seq::<TokV>::empty() =~= head);
        while k < v.fields.len()
            invariant
                k <= v.fields@.len(),
                vp@ == variant_plan(toks@, v@),
                v@.fields.len() == v.fields@.len(),
                vp@.fields.len() == vp.fields@.len(),
                toks_view(out@) == head + ctor_fields(toks@, v@, vp@, k as nat),
            decreases v.fields@.len() - k,
        {
            proof {
                lemma_plan_fields(toks@, *v, *vp, k as int);
            }
            let f = &v.fields[k];
            let fp = &vp.fields[k];
            emit_attrs(toks, &fp.cfg_attrs, f.attrs.end, out);
            emit_string(out, &fp.ident);
            emit_punct(out, ':');
            emit_joint(out, ':', ':');
            emit_word(out, "drone_core");
            emit_joint(out, ':', ':');
            emit_word(out, "token");
            emit_joint(out, ':', ':');
            emit_word(out, "Token");
            emit_joint(out, ':', ':');
            emit_word(out, "take");
            emit_open(out, Delim::Paren);
            emit_close(out, Delim::Paren);
            emit_punct(out, ',');
            assert(toks_view(out@) =~= head + ctor_fields(toks@, v@, vp@, (k + 1) as nat));
            k = k + 1;
        }
    }
}

#[verifier::spinoff_prover]
#[verifier::rlimit(50)]
fn emit_fields_items(toks: &Vec<Tok>, v: &Variant, vp: &VariantPlan, out: &mut Vec<Tok>)
    requires
        vp@ == variant_plan(toks@, v@),
    ensures
        toks_view(final(out)@) == toks_view(old(out)@) + fields_items(toks@, v@, vp@, v@.fields.len()),
{
    let ghost head = toks_view(old(out)@);
    assert(v@.fields.len() == v.fields@.len());
    assert(vp@.fields.len() == vp.fields@.len());
    let mut k: usize = 0;
    assert(head + Seq::<TokV>::empty() =~= head);
    while k < v.fields.len()
        invariant
            k <= v.fields@.len(),
            vp@ == variant_plan(toks@, v@),
            v@.fields.len() == v.fields@.len(),
            vp@.fields.len() == vp.fields@.len(),
            toks_view(out@) == head + fields_items(toks@, v@, vp@, k as nat),
        decreases v.fields@.len() - k,
    {
        proof {
            lemma_plan_fields(toks@, *v, *vp, k as int);
        }
        emit_field_items(toks, &v.fields[k], &vp.fields[k], &vp.val_ty, out);
        assert(toks_view(out@) =~= head + fields_items(toks@, v@, vp@, (k + 1) as nat));
        k = k + 1;
    }
}

fn emit_imports(toks: &Vec<Tok>, is: &Vec<usize>, out: &mut Vec<Tok>)
    ensures
        toks_view(final(out)@) == toks_view(old(out)@) + imports(toks@, is@),
{
    let ghost b = toks_view(old(out)@);
    if is.len() == 0 {
        assert(toks_view(out@) =~= b + imports(toks@, is@));
        return ;
    }
    emit_word(out, "use");
    emit_word(out, "super");
    emit_joint(out, ':', ':');
    emit_open(out, Delim::Brace);
    let ghost head = toks_view(out@);
    let mut k: usize = 0;
    assert(is@.take(0) =~= Seq::<usize>::empty());
    assert(head + Seq::<TokV>::empty() =~= head);
    while k < is.len()
        invariant
            k <= is@.len(),
            toks_view(out@) == head + import_list(toks@, is@.take(k as int)),
        decreases is@.len() - k,
    {
        if k > 0 {
            emit_punct(out, ',');
        }
        emit_span(toks, one_exec(is[k]), out);
        proof {
            let s = is@.take(k + 1);
            assert(s.drop_last() =~= is@.take(k as int));
            assert(toks_view(out@) =~= head + import_list(toks@, s));
        }
        k = k + 1;
    }
    assert(is@.take(k as int) =~= is@);
    emit_close(out, Delim::Brace);
    emit_punct(out, ';');
    assert(toks_view(out@) =~= b + imports(toks@, is@));
}

fn emit_reg_traits(toks: &Vec<Tok>, ts: &Vec<usize>, out: &mut Vec<Tok>)
    ensures
        toks_view(final(out)@) == toks_view(old(out)@) + reg_traits(toks@, ts@),
{
    let ghost head = toks_view(old(out)@);
    let mut k: usize = 0;
    assert(ts@.take(0) =~= Seq::<usize>::empty());
    assert(head + Seq::<TokV>::empty() =~= head);
    while k < ts.len()
        invariant
            k <= ts@.len(),
            toks_view(out@) == head + reg_traits(toks@, ts@.take(k as int)),
        decreases ts@.len() - k,
    {
        emit_reg_trait(toks, ts[k], out);
        proof {
            let s = ts@.take(k + 1);
            assert(s.drop_last() =~= ts@.take(k as int));
            assert(toks_view(out@) =~= head + reg_traits(toks@, s));
        }
        k = k + 1;
    }
    assert(ts@.take(k as int) =~= ts@);
}

#[verifier::spinoff_prover]
#[verifier::rlimit(80)]
fn emit_reg_module(toks: &Vec<Tok>, v: &Variant, vp: &VariantPlan, out: &mut Vec<Tok>)
    requires
        vp@ == variant_plan(toks@, v@),
    ensures
        toks_view(final(out)@) == toks_view(old(out)@) + reg_module(toks@, v@, vp@),
{
    let ghost b = toks_view(old(out)@);
    emit_module_head(toks, v, vp, out);
    emit_imports(toks, &vp.imports, out);
    emit_val_struct(toks, v, vp, out);
    emit_struct_body(toks, v, vp, out);
    emit_token_head(toks, v, vp, out);
    emit_ctor_body(toks, v, vp, out);
    emit_reg_impl(toks, v, vp, out);
    emit_regref_impl(toks, v, vp, out);
    emit_hold_items(toks, v, vp, out);
    emit_fields_items(toks, v, vp, out);
    emit_reg_traits(toks, &v.traits, out);
    emit_close(out, Delim::Brace);
    assert(toks_view(out@) =~= b + reg_module(toks@, v@, vp@));
}

/// The tokens that `reg!` expands to on the input `toks`.
#[verifier::spinoff_prover]
#[verifier::rlimit(80)]
pub fn expand_reg(toks: &Vec<Tok>) -> (r: Result<Vec<Tok>, MacroError>)
    ensures
        r matches Err(e) ==> spec_expand_reg(toks@) == Err::<Seq<TokV>, MacroError>(e),
        r matches Ok(v) ==> spec_expand_reg(toks@) == Ok::<Seq<TokV>, MacroError>(toks_view(v@)),
{
    let p = reg(toks)?;
    let ghost vs = variants_view(p.variants@);
    let ghost vps = vs.map_values(|v: VariantV| variant_plan(toks@, v));
    let ghost cs = conversion_rows(toks@, vs, vs.len() as int);
    assert(p.plans@.map_values(|v: VariantPlan| v@).len() == p.plans@.len());
    assert(vs.len() == p.variants@.len());
    let mut out: Vec<Tok> = Vec::new();
    assert(toks_view(out@) =~= Seq::<TokV>::empty());
    let mut k: usize = 0;
    while k < p.variants.len()
        invariant
            k <= p.variants@.len(),
            vs == variants_view(p.variants@),
            vps == vs.map_values(|v: VariantV| variant_plan(toks@, v)),
            vs.len() == p.variants@.len(),
            p.plans@.len() == p.variants@.len(),
            p.plans@.map_values(|v: VariantPlan| v@) == vps,
            toks_view(out@) == reg_modules(toks@, vs, vps, k as nat),
        decreases p.variants@.len() - k,
    {
        assert(p.plans@.map_values(|v: VariantPlan| v@)[k as int] == p.plans@[k as int]@);
        assert(vs[k as int] == p.variants@[k as int]@);
        emit_reg_module(toks, &p.variants[k], &p.plans[k], &mut out);
        assert(toks_view(out@) =~= reg_modules(toks@, vs, vps, (k + 1) as nat));
        k = k + 1;
    }
    let ghost m = toks_view(out@);
    let ghost cv = p.conversions@.map_values(|c: Conversion| conversion_view(c));
    assert(cv == cs);
    let mut j: usize = 0;
    assert(cv.take(0) =~= Seq::<(usize, usize, Seq<char>, Seq<char>)>::empty());
    assert(m + Seq::<TokV>::empty() =~= m);
    while j < p.conversions.len()
        invariant
            j <= p.conversions@.len(),
            cv == p.conversions@.map_values(|c: Conversion| conversion_view(c)),
            p.plans@.len() == p.variants@.len(),
            p.plans@.map_values(|v: VariantPlan| v@) == vps,
            vps.len() == p.plans@.len(),
            toks_view(out@) == m + reg_conversions(cv.take(j as int), vps),
        decreases p.conversions@.len() - j,
    {
        let c = &p.conversions[j];
        assert(cv[j as int] == conversion_view(*c));
        let ghost before = toks_view(out@);
        if c.src < p.plans.len() && c.dst < p.plans.len() {
            assert(p.plans@.map_values(|v: VariantPlan| v@)[c.src as int] == p.plans@[c.src as int]@);
            assert(p.plans@.map_values(|v: VariantPlan| v@)[c.dst as int] == p.plans@[c.dst as int]@);
            emit_conversion_item(&p.plans[c.src].reg_full, &p.plans[c.dst].reg_full, &c.name, &c.doc, &mut out);
        } else {
            assert(toks_view(out@) =~= before + Seq::<TokV>::empty());
        }
        proof {
            let s = cv.take(j + 1);
            assert(s.drop_last() =~= cv.take(j as int));
            assert(s.last() == cv[j as int]);
            assert(toks_view(out@) =~= m + reg_conversions(s, vps));
        }
        j = j + 1;
    }
    assert(cv.take(j as int) =~= cv);
    assert(cv.len() == p.conversions@.len());
    Ok(out)
}

/// The reader of a one-bit field, named as the field, calls the
/// register's `read` of that field.
#[verifier::spinoff_prover]
#[verifier::rlimit(100)]
pub proof fn law_field_bit_read_reads_its_field(toks: Seq<Tok>, f: RegFieldV, fp: FieldPlanV, val: Seq<char>)
    ensures
        first_use_after(field_bit_read(toks, f, fp, val), fp.ident, tw("RRRegFieldBit"@) + tj(':', ':'), "read"@),
{
    reveal(field_bit_read);
    reveal(field_bit_read_2);
    reveal_strlit("RRRegFieldBit");
    reveal_strlit("self");
    reveal_strlit("bool");
    reveal_strlit("drone_core");
    reveal_strlit("reg");
    reveal_strlit("field");
    let w0 = field_bit_read_1(toks, f, fp, val);
    let w1 = field_bit_read_2(toks, f, fp, val);
    let w2 = field_bit_read_3(toks, f, fp, val);
    assert(w1 =~= tw("_T"@) + tp('>') + topen(Delim::Brace) + span_toks(toks, f.attrs) + tp('#') + topen(Delim::Bracket) + tw("inline"@) + tclose(Delim::Bracket) + tw("pub"@) + tw("fn"@) + tw(fp.ident) + topen(Delim::Paren) + tp('&') + tw("self"@) + tclose(Delim::Paren) + tj('-', '>') + tw("bool"@) + topen(Delim::Brace) + tj(':', ':') + tw("drone_core"@) + tj(':', ':') + tw("reg"@) + tj(':', ':') + tw("field"@) + tj(':', ':') + tw("RRRegFieldBit"@) + tj(':', ':') + tw("read"@) + topen(Delim::Paren) + tp('&'));
    let a = w0 + tw("_T"@) + tp('>') + topen(Delim::Brace) + span_toks(toks, f.attrs) + tp('#') + topen(Delim::Bracket) + tw("inline"@) + tclose(Delim::Bracket) + tw("pub"@) + tw("fn"@);
    let b = topen(Delim::Paren) + tp('&') + tw("self"@) + tclose(Delim::Paren) + tj('-', '>') + tw("bool"@) + topen(Delim::Brace) + tj(':', ':') + tw("drone_core"@) + tj(':', ':') + tw("reg"@) + tj(':', ':') + tw("field"@) + tj(':', ':');
    let c = topen(Delim::Paren) + tp('&') + w2;
    let mk = tw("RRRegFieldBit"@) + tj(':', ':');
    let e = seq![TokV::Open(Delim::Paren), TokV::Punct('&', false), TokV::Ident("self"@), TokV::Close(Delim::Paren), TokV::Punct('-', true), TokV::Punct('>', false), TokV::Ident("bool"@), TokV::Open(Delim::Brace), TokV::Punct(':', true), TokV::Punct(':', false), TokV::Ident("drone_core"@), TokV::Punct(':', true), TokV::Punct(':', false), TokV::Ident("reg"@), TokV::Punct(':', true), TokV::Punct(':', false), TokV::Ident("field"@), TokV::Punct(':', true), TokV::Punct(':', false)];
    assert(b =~= e);
    assert("bool"@ != "RRRegFieldBit"@) by { assert("bool"@.len() != "RRRegFieldBit"@.len()); }
    assert("drone_core"@ != "RRRegFieldBit"@) by { assert("drone_core"@.len() != "RRRegFieldBit"@.len()); }
    assert("field"@ != "RRRegFieldBit"@) by { assert("field"@.len() != "RRRegFieldBit"@.len()); }
    assert("reg"@ != "RRRegFieldBit"@) by { assert("reg"@.len() != "RRRegFieldBit"@.len()); }
    assert("self"@ != "RRRegFieldBit"@) by { assert("self"@.len() != "RRRegFieldBit"@.len()); }
    assert(forall|k: int| 0 <= k < e.len() ==> e[k] != mk[0]);
    assert(!b.contains(mk[0]));
    assert(w0 + w1 + w2 =~= a + tw(fp.ident) + b + mk + tw("read"@) + c);
    assert(field_bit_read(toks, f, fp, val) == w0 + w1 + w2);
}

} // verus!
