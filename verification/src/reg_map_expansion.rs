//! The tokens of `reg_map!`: the block's module with a module for each
//! register (its fields' tokens and accessors, its runtime names, the
//! value, the register token and its holder), then an alias of each
//! register outside the block.

use crate::case::{inflector_snake, unkeywordize};
use crate::reg_map::{
    MapField, MapFieldPlan, MapFieldPlanV, MapFieldV, MapReg, MapRegPlan, MapRegPlanV, MapRegV,
    map_field_plan_view, map_field_view, map_input_view, map_reg_plan, map_reg_plan_view, map_reg_view,
    reg_map, spec_reg_map_input,
};
use crate::thr_static::{one, one_exec};
use crate::token::{
    Delim, MacroError, Tok, TokV, emit_close, emit_joint, emit_open, emit_punct, emit_span, emit_string,
    emit_word, first_use_after, ident_text, push_tok, span_toks, tclose, tj, topen, toks_view, tp, tw,
};
use vstd::prelude::*;

verus! {

/// A part of `map_field_struct`.
#[verifier::opaque]
pub open spec fn map_field_struct_1(toks: Seq<Tok>, f: MapFieldV, fp: MapFieldPlanV, val: Seq<char>) -> Seq<TokV> {
    span_toks(toks, f.attrs) + tp('#') + topen(Delim::Bracket) + tw("derive"@) + topen(Delim::Paren) + tw("Clone"@) + tp(',') + tw("Copy"@) + tclose(Delim::Paren) + tclose(Delim::Bracket) + tw("pub"@) + tw("struct"@) + tw(fp.ty) + tp('<') + tw("T"@) + tp(':') + tw("__rt"@) + tj(':', ':') + tw("RegTag"@) + tp('>') + topen(Delim::Paren) + tw("T"@) + tclose(Delim::Paren) + tp(';') + tw("impl"@) + tp('<') + tw("T"@) + tp(':') + tw("__rt"@) + tj(':', ':')
}

#[verifier::spinoff_prover]
#[verifier::rlimit(80)]
fn emit_map_field_struct_1(toks: &Vec<Tok>, f: &MapField, fp: &MapFieldPlan, val: &String, out: &mut Vec<Tok>)
    ensures
        toks_view(final(out)@) == toks_view(old(out)@) + map_field_struct_1(toks@, map_field_view(*f), map_field_plan_view(*fp), val@),
{
    let ghost b = toks_view(old(out)@);
    emit_span(toks, f.attrs, out);
    emit_punct(out, '#');
    emit_open(out, Delim::Bracket);
    emit_word(out, "derive");
    emit_open(out, Delim::Paren);
    emit_word(out, "Clone");
    emit_punct(out, ',');
    emit_word(out, "Copy");
    emit_close(out, Delim::Paren);
    emit_close(out, Delim::Bracket);
    emit_word(out, "pub");
    emit_word(out, "struct");
    emit_string(out, &fp.ty);
    emit_punct(out, '<');
    emit_word(out, "T");
    emit_punct(out, ':');
    emit_word(out, "__rt");
    emit_joint(out, ':', ':');
    emit_word(out, "RegTag");
    emit_punct(out, '>');
    emit_open(out, Delim::Paren);
    emit_word(out, "T");
    emit_close(out, Delim::Paren);
    emit_punct(out, ';');
    emit_word(out, "impl");
    emit_punct(out, '<');
    emit_word(out, "T");
    emit_punct(out, ':');
    emit_word(out, "__rt");
    emit_joint(out, ':', ':');
    proof {
        reveal(map_field_struct_1);
    }
    assert(toks_view(out@) =~= b + map_field_struct_1(toks@, map_field_view(*f), map_field_plan_view(*fp), val@));
}

/// A part of `map_field_struct`.
#[verifier::opaque]
pub open spec fn map_field_struct_2(toks: Seq<Tok>, f: MapFieldV, fp: MapFieldPlanV, val: Seq<char>) -> Seq<TokV> {
    tw("RegTag"@) + tp('>') + tw("__rt"@) + tj(':', ':') + tw("RegField"@) + tp('<') + tw("T"@) + tp('>') + tw("for"@) + tw(fp.ty) + tp('<') + tw("T"@) + tp('>') + topen(Delim::Brace) + tw("type"@) + tw("Reg"@) + tp('=') + tw("Reg"@) + tp('<') + tw("T"@) + tp('>') + tp(';') + tw("type"@) + tw("URegField"@) + tp('=') + tw(fp.ty) + tp('<') + tw("__rt"@) + tj(':', ':') + tw("Urt"@)
}

#[verifier::spinoff_prover]
#[verifier::rlimit(80)]
fn emit_map_field_struct_2(toks: &Vec<Tok>, f: &MapField, fp: &MapFieldPlan, val: &String, out: &mut Vec<Tok>)
    ensures
        toks_view(final(out)@) == toks_view(old(out)@) + map_field_struct_2(toks@, map_field_view(*f), map_field_plan_view(*fp), val@),
{
    let ghost b = toks_view(old(out)@);
    emit_word(out, "RegTag");
    emit_punct(out, '>');
    emit_word(out, "__rt");
    emit_joint(out, ':', ':');
    emit_word(out, "RegField");
    emit_punct(out, '<');
    emit_word(out, "T");
    emit_punct(out, '>');
    emit_word(out, "for");
    emit_string(out, &fp.ty);
    emit_punct(out, '<');
    emit_word(out, "T");
    emit_punct(out, '>');
    emit_open(out, Delim::Brace);
    emit_word(out, "type");
    emit_word(out, "Reg");
    emit_punct(out, '=');
    emit_word(out, "Reg");
    emit_punct(out, '<');
    emit_word(out, "T");
    emit_punct(out, '>');
    emit_punct(out, ';');
    emit_word(out, "type");
    emit_word(out, "URegField");
    emit_punct(out, '=');
    emit_string(out, &fp.ty);
    emit_punct(out, '<');
    emit_word(out, "__rt");
    emit_joint(out, ':', ':');
    emit_word(out, "Urt");
    proof {
        reveal(map_field_struct_2);
    }
    assert(toks_view(out@) =~= b + map_field_struct_2(toks@, map_field_view(*f), map_field_plan_view(*fp), val@));
}

/// A part of `map_field_struct`.
#[verifier::opaque]
pub open spec fn map_field_struct_3(toks: Seq<Tok>, f: MapFieldV, fp: MapFieldPlanV, val: Seq<char>) -> Seq<TokV> {
    tp('>') + tp(';') + tw("type"@) + tw("SRegField"@) + tp('=') + tw(fp.ty) + tp('<') + tw("__rt"@) + tj(':', ':') + tw("Srt"@) + tp('>') + tp(';') + tw("type"@) + tw("CRegField"@) + tp('=') + tw(fp.ty) + tp('<') + tw("__rt"@) + tj(':', ':') + tw("Crt"@) + tp('>') + tp(';') + tw("const"@) + tw("OFFSET"@) + tp(':') + tw("usize"@) + tp('=') + span_toks(toks, one(f.offset)) + tp(';') + tw("const"@)
}

#[verifier::spinoff_prover]
#[verifier::rlimit(80)]
fn emit_map_field_struct_3(toks: &Vec<Tok>, f: &MapField, fp: &MapFieldPlan, val: &String, out: &mut Vec<Tok>)
    ensures
        toks_view(final(out)@) == toks_view(old(out)@) + map_field_struct_3(toks@, map_field_view(*f), map_field_plan_view(*fp), val@),
{
    let ghost b = toks_view(old(out)@);
    emit_punct(out, '>');
    emit_punct(out, ';');
    emit_word(out, "type");
    emit_word(out, "SRegField");
    emit_punct(out, '=');
    emit_string(out, &fp.ty);
    emit_punct(out, '<');
    emit_word(out, "__rt");
    emit_joint(out, ':', ':');
    emit_word(out, "Srt");
    emit_punct(out, '>');
    emit_punct(out, ';');
    emit_word(out, "type");
    emit_word(out, "CRegField");
    emit_punct(out, '=');
    emit_string(out, &fp.ty);
    emit_punct(out, '<');
    emit_word(out, "__rt");
    emit_joint(out, ':', ':');
    emit_word(out, "Crt");
    emit_punct(out, '>');
    emit_punct(out, ';');
    emit_word(out, "const");
    emit_word(out, "OFFSET");
    emit_punct(out, ':');
    emit_word(out, "usize");
    emit_punct(out, '=');
    emit_span(toks, one_exec(f.offset), out);
    emit_punct(out, ';');
    emit_word(out, "const");
    proof {
        reveal(map_field_struct_3);
    }
    assert(toks_view(out@) =~= b + map_field_struct_3(toks@, map_field_view(*f), map_field_plan_view(*fp), val@));
}

/// A part of `map_field_struct`.
#[verifier::opaque]
pub open spec fn map_field_struct_4(toks: Seq<Tok>, f: MapFieldV, fp: MapFieldPlanV, val: Seq<char>) -> Seq<TokV> {
    tw("WIDTH"@) + tp(':') + tw("usize"@) + tp('=') + span_toks(toks, one(f.width)) + tp(';') + tp('#') + topen(Delim::Bracket) + tw("inline"@) + topen(Delim::Paren) + tw("always"@) + tclose(Delim::Paren) + tclose(Delim::Bracket) + tw("unsafe"@) + tw("fn"@) + tw("new"@) + topen(Delim::Paren) + tclose(Delim::Paren) + tj('-', '>') + tw("Self"@) + topen(Delim::Brace) + tw(fp.ty) + topen(Delim::Paren) + tw("T"@) + tj(':', ':') + tw("default"@) + topen(Delim::Paren) + tclose(Delim::Paren) + tclose(Delim::Paren) + tclose(Delim::Brace)
}

#[verifier::spinoff_prover]
#[verifier::rlimit(80)]
fn emit_map_field_struct_4(toks: &Vec<Tok>, f: &MapField, fp: &MapFieldPlan, val: &String, out: &mut Vec<Tok>)
    ensures
        toks_view(final(out)@) == toks_view(old(out)@) + map_field_struct_4(toks@, map_field_view(*f), map_field_plan_view(*fp), val@),
{
    let ghost b = toks_view(old(out)@);
    emit_word(out, "WIDTH");
    emit_punct(out, ':');
    emit_word(out, "usize");
    emit_punct(out, '=');
    emit_span(toks, one_exec(f.width), out);
    emit_punct(out, ';');
    emit_punct(out, '#');
    emit_open(out, Delim::Bracket);
    emit_word(out, "inline");
    emit_open(out, Delim::Paren);
    emit_word(out, "always");
    emit_close(out, Delim::Paren);
    emit_close(out, Delim::Bracket);
    emit_word(out, "unsafe");
    emit_word(out, "fn");
    emit_word(out, "new");
    emit_open(out, Delim::Paren);
    emit_close(out, Delim::Paren);
    emit_joint(out, '-', '>');
    emit_word(out, "Self");
    emit_open(out, Delim::Brace);
    emit_string(out, &fp.ty);
    emit_open(out, Delim::Paren);
    emit_word(out, "T");
    emit_joint(out, ':', ':');
    emit_word(out, "default");
    emit_open(out, Delim::Paren);
    emit_close(out, Delim::Paren);
    emit_close(out, Delim::Paren);
    emit_close(out, Delim::Brace);
    proof {
        reveal(map_field_struct_4);
    }
    assert(toks_view(out@) =~= b + map_field_struct_4(toks@, map_field_view(*f), map_field_plan_view(*fp), val@));
}

/// A part of `map_field_struct`.
#[verifier::opaque]
pub open spec fn map_field_struct_5(toks: Seq<Tok>, f: MapFieldV, fp: MapFieldPlanV, val: Seq<char>) -> Seq<TokV> {
    tclose(Delim::Brace)
}

#[verifier::spinoff_prover]
#[verifier::rlimit(80)]
fn emit_map_field_struct_5(toks: &Vec<Tok>, f: &MapField, fp: &MapFieldPlan, val: &String, out: &mut Vec<Tok>)
    ensures
        toks_view(final(out)@) == toks_view(old(out)@) + map_field_struct_5(toks@, map_field_view(*f), map_field_plan_view(*fp), val@),
{
    let ghost b = toks_view(old(out)@);
    emit_close(out, Delim::Brace);
    proof {
        reveal(map_field_struct_5);
    }
    assert(toks_view(out@) =~= b + map_field_struct_5(toks@, map_field_view(*f), map_field_plan_view(*fp), val@));
}

/// The field's token and its `RegField`.
#[verifier::opaque]
pub open spec fn map_field_struct(toks: Seq<Tok>, f: MapFieldV, fp: MapFieldPlanV, val: Seq<char>) -> Seq<TokV> {
    map_field_struct_1(toks, f, fp, val) + map_field_struct_2(toks, f, fp, val) + map_field_struct_3(toks, f, fp, val) + map_field_struct_4(toks, f, fp, val) + map_field_struct_5(toks, f, fp, val)
}

#[verifier::spinoff_prover]
#[verifier::rlimit(80)]
fn emit_map_field_struct(toks: &Vec<Tok>, f: &MapField, fp: &MapFieldPlan, val: &String, out: &mut Vec<Tok>)
    ensures
        toks_view(final(out)@) == toks_view(old(out)@) + map_field_struct(toks@, map_field_view(*f), map_field_plan_view(*fp), val@),
{
    let ghost b = toks_view(old(out)@);
    emit_map_field_struct_1(toks, f, fp, val, out);
    emit_map_field_struct_2(toks, f, fp, val, out);
    emit_map_field_struct_3(toks, f, fp, val, out);
    emit_map_field_struct_4(toks, f, fp, val, out);
    emit_map_field_struct_5(toks, f, fp, val, out);
    proof {
        reveal(map_field_struct);
    }
    assert(toks_view(out@) =~= b + map_field_struct(toks@, map_field_view(*f), map_field_plan_view(*fp), val@));
}

/// `impl<T: __rt::RegTag> TRAIT<T> for FTY<T> {}`
#[verifier::opaque]
pub open spec fn map_field_trait(toks: Seq<Tok>, f: MapFieldV, fp: MapFieldPlanV, val: Seq<char>, tr: usize) -> Seq<TokV> {
    tw("impl"@) + tp('<') + tw("T"@) + tp(':') + tw("__rt"@) + tj(':', ':') + tw("RegTag"@) + tp('>') + span_toks(toks, one(tr)) + tp('<') + tw("T"@) + tp('>') + tw("for"@) + tw(fp.ty) + tp('<') + tw("T"@) + tp('>') + topen(Delim::Brace) + tclose(Delim::Brace)
}

#[verifier::spinoff_prover]
#[verifier::rlimit(80)]
fn emit_map_field_trait(toks: &Vec<Tok>, f: &MapField, fp: &MapFieldPlan, val: &String, tr: usize, out: &mut Vec<Tok>)
    ensures
        toks_view(final(out)@) == toks_view(old(out)@) + map_field_trait(toks@, map_field_view(*f), map_field_plan_view(*fp), val@, tr),
{
    let ghost b = toks_view(old(out)@);
    emit_word(out, "impl");
    emit_punct(out, '<');
    emit_word(out, "T");
    emit_punct(out, ':');
    emit_word(out, "__rt");
    emit_joint(out, ':', ':');
    emit_word(out, "RegTag");
    emit_punct(out, '>');
    emit_span(toks, one_exec(tr), out);
    emit_punct(out, '<');
    emit_word(out, "T");
    emit_punct(out, '>');
    emit_word(out, "for");
    emit_string(out, &fp.ty);
    emit_punct(out, '<');
    emit_word(out, "T");
    emit_punct(out, '>');
    emit_open(out, Delim::Brace);
    emit_close(out, Delim::Brace);
    proof {
        reveal(map_field_trait);
    }
    assert(toks_view(out@) =~= b + map_field_trait(toks@, map_field_view(*f), map_field_plan_view(*fp), val@, tr));
}

/// `impl<T: __rt::RegTag> __rt::RegFieldBit<T> for FTY<T> {}`, or `RegFieldBits` for a field of several bits.
#[verifier::opaque]
pub open spec fn map_field_width(toks: Seq<Tok>, f: MapFieldV, fp: MapFieldPlanV, val: Seq<char>) -> Seq<TokV> {
    tw("impl"@) + tp('<') + tw("T"@) + tp(':') + tw("__rt"@) + tj(':', ':') + tw("RegTag"@) + tp('>') + tw("__rt"@) + tj(':', ':') + (if fp.bit { tw("RegFieldBit"@) } else { tw("RegFieldBits"@) }) + tp('<') + tw("T"@) + tp('>') + tw("for"@) + tw(fp.ty) + tp('<') + tw("T"@) + tp('>') + topen(Delim::Brace) + tclose(Delim::Brace)
}

#[verifier::spinoff_prover]
#[verifier::rlimit(80)]
fn emit_map_field_width(toks: &Vec<Tok>, f: &MapField, fp: &MapFieldPlan, val: &String, out: &mut Vec<Tok>)
    ensures
        toks_view(final(out)@) == toks_view(old(out)@) + map_field_width(toks@, map_field_view(*f), map_field_plan_view(*fp), val@),
{
    let ghost b = toks_view(old(out)@);
    emit_word(out, "impl");
    emit_punct(out, '<');
    emit_word(out, "T");
    emit_punct(out, ':');
    emit_word(out, "__rt");
    emit_joint(out, ':', ':');
    emit_word(out, "RegTag");
    emit_punct(out, '>');
    emit_word(out, "__rt");
    emit_joint(out, ':', ':');
    if fp.bit { emit_word(out, "RegFieldBit"); } else { emit_word(out, "RegFieldBits"); }
    emit_punct(out, '<');
    emit_word(out, "T");
    emit_punct(out, '>');
    emit_word(out, "for");
    emit_string(out, &fp.ty);
    emit_punct(out, '<');
    emit_word(out, "T");
    emit_punct(out, '>');
    emit_open(out, Delim::Brace);
    emit_close(out, Delim::Brace);
    proof {
        reveal(map_field_width);
    }
    assert(toks_view(out@) =~= b + map_field_width(toks@, map_field_view(*f), map_field_plan_view(*fp), val@));
}

/// A part of `map_field_bit_read`.
#[verifier::opaque]
pub open spec fn map_field_bit_read_1(toks: Seq<Tok>, f: MapFieldV, fp: MapFieldPlanV, val: Seq<char>) -> Seq<TokV> {
    tw("impl"@) + tp('<') + seq![TokV::Punct('\'', true)] + tw("a"@) + tp(',') + tw("T"@) + tp(':') + tw("__rt"@) + tj(':', ':') + tw("RegTag"@) + tp('>') + tw("Hold"@) + tp('<') + seq![TokV::Punct('\'', true)] + tw("a"@) + tp(',') + tw("T"@) + tp('>') + topen(Delim::Brace) + span_toks(toks, f.attrs) + tp('#') + topen(Delim::Bracket) + tw("inline"@) + topen(Delim::Paren) + tw("always"@) + tclose(Delim::Paren) + tclose(Delim::Bracket) + tw("pub"@) + tw("fn"@) + tw(fp.ident)
}

#[verifier::spinoff_prover]
#[verifier::rlimit(80)]
fn emit_map_field_bit_read_1(toks: &Vec<Tok>, f: &MapField, fp: &MapFieldPlan, val: &String, out: &mut Vec<Tok>)
    ensures
        toks_view(final(out)@) == toks_view(old(out)@) + map_field_bit_read_1(toks@, map_field_view(*f), map_field_plan_view(*fp), val@),
{
    let ghost b = toks_view(old(out)@);
    emit_word(out, "impl");
    emit_punct(out, '<');
    push_tok(out, Tok::Punct('\'', true));
    emit_word(out, "a");
    emit_punct(out, ',');
    emit_word(out, "T");
    emit_punct(out, ':');
    emit_word(out, "__rt");
    emit_joint(out, ':', ':');
    emit_word(out, "RegTag");
    emit_punct(out, '>');
    emit_word(out, "Hold");
    emit_punct(out, '<');
    push_tok(out, Tok::Punct('\'', true));
    emit_word(out, "a");
    emit_punct(out, ',');
    emit_word(out, "T");
    emit_punct(out, '>');
    emit_open(out, Delim::Brace);
    emit_span(toks, f.attrs, out);
    emit_punct(out, '#');
    emit_open(out, Delim::Bracket);
    emit_word(out, "inline");
    emit_open(out, Delim::Paren);
    emit_word(out, "always");
    emit_close(out, Delim::Paren);
    emit_close(out, Delim::Bracket);
    emit_word(out, "pub");
    emit_word(out, "fn");
    emit_string(out, &fp.ident);
    proof {
        reveal(map_field_bit_read_1);
    }
    assert(toks_view(out@) =~= b + map_field_bit_read_1(toks@, map_field_view(*f), map_field_plan_view(*fp), val@));
}

/// A part of `map_field_bit_read`.
#[verifier::opaque]
pub open spec fn map_field_bit_read_2(toks: Seq<Tok>, f: MapFieldV, fp: MapFieldPlanV, val: Seq<char>) -> Seq<TokV> {
    topen(Delim::Paren) + tp('&') + tw("self"@) + tclose(Delim::Paren) + tj('-', '>') + tw("bool"@) + topen(Delim::Brace) + tw("__rt"@) + tj(':', ':') + tw("RRRegFieldBit"@) + tj(':', ':') + tw("read"@) + topen(Delim::Paren) + tp('&') + tw("self"@) + tp('.') + tw("reg"@) + tp('.') + tw(fp.ident) + tp(',') + tp('&') + tw("self"@) + tp('.') + tw("val"@) + tclose(Delim::Paren) + tclose(Delim::Brace) + tclose(Delim::Brace)
}

#[verifier::spinoff_prover]
#[verifier::rlimit(80)]
fn emit_map_field_bit_read_2(toks: &Vec<Tok>, f: &MapField, fp: &MapFieldPlan, val: &String, out: &mut Vec<Tok>)
    ensures
        toks_view(final(out)@) == toks_view(old(out)@) + map_field_bit_read_2(toks@, map_field_view(*f), map_field_plan_view(*fp), val@),
{
    let ghost b = toks_view(old(out)@);
    emit_open(out, Delim::Paren);
    emit_punct(out, '&');
    emit_word(out, "self");
    emit_close(out, Delim::Paren);
    emit_joint(out, '-', '>');
    emit_word(out, "bool");
    emit_open(out, Delim::Brace);
    emit_word(out, "__rt");
    emit_joint(out, ':', ':');
    emit_word(out, "RRRegFieldBit");
    emit_joint(out, ':', ':');
    emit_word(out, "read");
    emit_open(out, Delim::Paren);
    emit_punct(out, '&');
    emit_word(out, "self");
    emit_punct(out, '.');
    emit_word(out, "reg");
    emit_punct(out, '.');
    emit_string(out, &fp.ident);
    emit_punct(out, ',');
    emit_punct(out, '&');
    emit_word(out, "self");
    emit_punct(out, '.');
    emit_word(out, "val");
    emit_close(out, Delim::Paren);
    emit_close(out, Delim::Brace);
    emit_close(out, Delim::Brace);
    proof {
        reveal(map_field_bit_read_2);
    }
    assert(toks_view(out@) =~= b + map_field_bit_read_2(toks@, map_field_view(*f), map_field_plan_view(*fp), val@));
}

/// The getter of a one-bit field.
#[verifier::opaque]
pub open spec fn map_field_bit_read(toks: Seq<Tok>, f: MapFieldV, fp: MapFieldPlanV, val: Seq<char>) -> Seq<TokV> {
    map_field_bit_read_1(toks, f, fp, val) + map_field_bit_read_2(toks, f, fp, val)
}

#[verifier::spinoff_prover]
#[verifier::rlimit(80)]
fn emit_map_field_bit_read(toks: &Vec<Tok>, f: &MapField, fp: &MapFieldPlan, val: &String, out: &mut Vec<Tok>)
    ensures
        toks_view(final(out)@) == toks_view(old(out)@) + map_field_bit_read(toks@, map_field_view(*f), map_field_plan_view(*fp), val@),
{
    let ghost b = toks_view(old(out)@);
    emit_map_field_bit_read_1(toks, f, fp, val, out);
    emit_map_field_bit_read_2(toks, f, fp, val, out);
    proof {
        reveal(map_field_bit_read);
    }
    assert(toks_view(out@) =~= b + map_field_bit_read(toks@, map_field_view(*f), map_field_plan_view(*fp), val@));
}

/// A part of `map_field_bit_write`.
#[verifier::opaque]
pub open spec fn map_field_bit_write_1(toks: Seq<Tok>, f: MapFieldV, fp: MapFieldPlanV, val: Seq<char>) -> Seq<TokV> {
    tw("impl"@) + tp('<') + seq![TokV::Punct('\'', true)] + tw("a"@) + tp(',') + tw("T"@) + tp(':') + tw("__rt"@) + tj(':', ':') + tw("RegTag"@) + tp('>') + tw("Hold"@) + tp('<') + seq![TokV::Punct('\'', true)] + tw("a"@) + tp(',') + tw("T"@) + tp('>') + topen(Delim::Brace) + span_toks(toks, f.attrs) + tp('#') + topen(Delim::Bracket) + tw("inline"@) + topen(Delim::Paren) + tw("always"@) + tclose(Delim::Paren) + tclose(Delim::Bracket) + tw("pub"@) + tw("fn"@) + tw(fp.set_name)
}

#[verifier::spinoff_prover]
#[verifier::rlimit(80)]
fn emit_map_field_bit_write_1(toks: &Vec<Tok>, f: &MapField, fp: &MapFieldPlan, val: &String, out: &mut Vec<Tok>)
    ensures
        toks_view(final(out)@) == toks_view(old(out)@) + map_field_bit_write_1(toks@, map_field_view(*f), map_field_plan_view(*fp), val@),
{
    let ghost b = toks_view(old(out)@);
    emit_word(out, "impl");
    emit_punct(out, '<');
    push_tok(out, Tok::Punct('\'', true));
    emit_word(out, "a");
    emit_punct(out, ',');
    emit_word(out, "T");
    emit_punct(out, ':');
    emit_word(out, "__rt");
    emit_joint(out, ':', ':');
    emit_word(out, "RegTag");
    emit_punct(out, '>');
    emit_word(out, "Hold");
    emit_punct(out, '<');
    push_tok(out, Tok::Punct('\'', true));
    emit_word(out, "a");
    emit_punct(out, ',');
    emit_word(out, "T");
    emit_punct(out, '>');
    emit_open(out, Delim::Brace);
    emit_span(toks, f.attrs, out);
    emit_punct(out, '#');
    emit_open(out, Delim::Bracket);
    emit_word(out, "inline");
    emit_open(out, Delim::Paren);
    emit_word(out, "always");
    emit_close(out, Delim::Paren);
    emit_close(out, Delim::Bracket);
    emit_word(out, "pub");
    emit_word(out, "fn");
    emit_string(out, &fp.set_name);
    proof {
        reveal(map_field_bit_write_1);
    }
    assert(toks_view(out@) =~= b + map_field_bit_write_1(toks@, map_field_view(*f), map_field_plan_view(*fp), val@));
}

/// A part of `map_field_bit_write`.
#[verifier::opaque]
pub open spec fn map_field_bit_write_2(toks: Seq<Tok>, f: MapFieldV, fp: MapFieldPlanV, val: Seq<char>) -> Seq<TokV> {
    topen(Delim::Paren) + tp('&') + tw("mut"@) + tw("self"@) + tclose(Delim::Paren) + tj('-', '>') + tp('&') + tw("mut"@) + tw("Self"@) + topen(Delim::Brace) + tw("__rt"@) + tj(':', ':') + tw("WWRegFieldBit"@) + tj(':', ':') + tw("set"@) + topen(Delim::Paren) + tp('&') + tw("self"@) + tp('.') + tw("reg"@) + tp('.') + tw(fp.ident) + tp(',') + tp('&') + tw("mut"@) + tw("self"@) + tp('.') + tw("val"@) + tclose(Delim::Paren) + tp(';')
}

#[verifier::spinoff_prover]
#[verifier::rlimit(80)]
fn emit_map_field_bit_write_2(toks: &Vec<Tok>, f: &MapField, fp: &MapFieldPlan, val: &String, out: &mut Vec<Tok>)
    ensures
        toks_view(final(out)@) == toks_view(old(out)@) + map_field_bit_write_2(toks@, map_field_view(*f), map_field_plan_view(*fp), val@),
{
    let ghost b = toks_view(old(out)@);
    emit_open(out, Delim::Paren);
    emit_punct(out, '&');
    emit_word(out, "mut");
    emit_word(out, "self");
    emit_close(out, Delim::Paren);
    emit_joint(out, '-', '>');
    emit_punct(out, '&');
    emit_word(out, "mut");
    emit_word(out, "Self");
    emit_open(out, Delim::Brace);
    emit_word(out, "__rt");
    emit_joint(out, ':', ':');
    emit_word(out, "WWRegFieldBit");
    emit_joint(out, ':', ':');
    emit_word(out, "set");
    emit_open(out, Delim::Paren);
    emit_punct(out, '&');
    emit_word(out, "self");
    emit_punct(out, '.');
    emit_word(out, "reg");
    emit_punct(out, '.');
    emit_string(out, &fp.ident);
    emit_punct(out, ',');
    emit_punct(out, '&');
    emit_word(out, "mut");
    emit_word(out, "self");
    emit_punct(out, '.');
    emit_word(out, "val");
    emit_close(out, Delim::Paren);
    emit_punct(out, ';');
    proof {
        reveal(map_field_bit_write_2);
    }
    assert(toks_view(out@) =~= b + map_field_bit_write_2(toks@, map_field_view(*f), map_field_plan_view(*fp), val@));
}

/// A part of `map_field_bit_write`.
#[verifier::opaque]
pub open spec fn map_field_bit_write_3(toks: Seq<Tok>, f: MapFieldV, fp: MapFieldPlanV, val: Seq<char>) -> Seq<TokV> {
    tw("self"@) + tclose(Delim::Brace) + span_toks(toks, f.attrs) + tp('#') + topen(Delim::Bracket) + tw("inline"@) + topen(Delim::Paren) + tw("always"@) + tclose(Delim::Paren) + tclose(Delim::Bracket) + tw("pub"@) + tw("fn"@) + tw(fp.clear_name) + topen(Delim::Paren) + tp('&') + tw("mut"@) + tw("self"@) + tclose(Delim::Paren) + tj('-', '>') + tp('&') + tw("mut"@) + tw("Self"@) + topen(Delim::Brace) + tw("__rt"@) + tj(':', ':') + tw("WWRegFieldBit"@) + tj(':', ':') + tw("clear"@) + topen(Delim::Paren) + tp('&')
}

#[verifier::spinoff_prover]
#[verifier::rlimit(80)]
fn emit_map_field_bit_write_3(toks: &Vec<Tok>, f: &MapField, fp: &MapFieldPlan, val: &String, out: &mut Vec<Tok>)
    ensures
        toks_view(final(out)@) == toks_view(old(out)@) + map_field_bit_write_3(toks@, map_field_view(*f), map_field_plan_view(*fp), val@),
{
    let ghost b = toks_view(old(out)@);
    emit_word(out, "self");
    emit_close(out, Delim::Brace);
    emit_span(toks, f.attrs, out);
    emit_punct(out, '#');
    emit_open(out, Delim::Bracket);
    emit_word(out, "inline");
    emit_open(out, Delim::Paren);
    emit_word(out, "always");
    emit_close(out, Delim::Paren);
    emit_close(out, Delim::Bracket);
    emit_word(out, "pub");
    emit_word(out, "fn");
    emit_string(out, &fp.clear_name);
    emit_open(out, Delim::Paren);
    emit_punct(out, '&');
    emit_word(out, "mut");
    emit_word(out, "self");
    emit_close(out, Delim::Paren);
    emit_joint(out, '-', '>');
    emit_punct(out, '&');
    emit_word(out, "mut");
    emit_word(out, "Self");
    emit_open(out, Delim::Brace);
    emit_word(out, "__rt");
    emit_joint(out, ':', ':');
    emit_word(out, "WWRegFieldBit");
    emit_joint(out, ':', ':');
    emit_word(out, "clear");
    emit_open(out, Delim::Paren);
    emit_punct(out, '&');
    proof {
        reveal(map_field_bit_write_3);
    }
    assert(toks_view(out@) =~= b + map_field_bit_write_3(toks@, map_field_view(*f), map_field_plan_view(*fp), val@));
}

/// A part of `map_field_bit_write`.
#[verifier::opaque]
pub open spec fn map_field_bit_write_4(toks: Seq<Tok>, f: MapFieldV, fp: MapFieldPlanV, val: Seq<char>) -> Seq<TokV> {
    tw("self"@) + tp('.') + tw("reg"@) + tp('.') + tw(fp.ident) + tp(',') + tp('&') + tw("mut"@) + tw("self"@) + tp('.') + tw("val"@) + tclose(Delim::Paren) + tp(';') + tw("self"@) + tclose(Delim::Brace) + span_toks(toks, f.attrs) + tp('#') + topen(Delim::Bracket) + tw("inline"@) + topen(Delim::Paren) + tw("always"@) + tclose(Delim::Paren) + tclose(Delim::Bracket) + tw("pub"@) + tw("fn"@) + tw(fp.toggle_name) + topen(Delim::Paren) + tp('&') + tw("mut"@) + tw("self"@)
}

#[verifier::spinoff_prover]
#[verifier::rlimit(80)]
fn emit_map_field_bit_write_4(toks: &Vec<Tok>, f: &MapField, fp: &MapFieldPlan, val: &String, out: &mut Vec<Tok>)
    ensures
        toks_view(final(out)@) == toks_view(old(out)@) + map_field_bit_write_4(toks@, map_field_view(*f), map_field_plan_view(*fp), val@),
{
    let ghost b = toks_view(old(out)@);
    emit_word(out, "self");
    emit_punct(out, '.');
    emit_word(out, "reg");
    emit_punct(out, '.');
    emit_string(out, &fp.ident);
    emit_punct(out, ',');
    emit_punct(out, '&');
    emit_word(out, "mut");
    emit_word(out, "self");
    emit_punct(out, '.');
    emit_word(out, "val");
    emit_close(out, Delim::Paren);
    emit_punct(out, ';');
    emit_word(out, "self");
    emit_close(out, Delim::Brace);
    emit_span(toks, f.attrs, out);
    emit_punct(out, '#');
    emit_open(out, Delim::Bracket);
    emit_word(out, "inline");
    emit_open(out, Delim::Paren);
    emit_word(out, "always");
    emit_close(out, Delim::Paren);
    emit_close(out, Delim::Bracket);
    emit_word(out, "pub");
    emit_word(out, "fn");
    emit_string(out, &fp.toggle_name);
    emit_open(out, Delim::Paren);
    emit_punct(out, '&');
    emit_word(out, "mut");
    emit_word(out, "self");
    proof {
        reveal(map_field_bit_write_4);
    }
    assert(toks_view(out@) =~= b + map_field_bit_write_4(toks@, map_field_view(*f), map_field_plan_view(*fp), val@));
}

/// A part of `map_field_bit_write`.
#[verifier::opaque]
pub open spec fn map_field_bit_write_5(toks: Seq<Tok>, f: MapFieldV, fp: MapFieldPlanV, val: Seq<char>) -> Seq<TokV> {
    tclose(Delim::Paren) + tj('-', '>') + tp('&') + tw("mut"@) + tw("Self"@) + topen(Delim::Brace) + tw("__rt"@) + tj(':', ':') + tw("WWRegFieldBit"@) + tj(':', ':') + tw("toggle"@) + topen(Delim::Paren) + tp('&') + tw("self"@) + tp('.') + tw("reg"@) + tp('.') + tw(fp.ident) + tp(',') + tp('&') + tw("mut"@) + tw("self"@) + tp('.') + tw("val"@) + tclose(Delim::Paren) + tp(';') + tw("self"@) + tclose(Delim::Brace) + tclose(Delim::Brace)
}

#[verifier::spinoff_prover]
#[verifier::rlimit(80)]
fn emit_map_field_bit_write_5(toks: &Vec<Tok>, f: &MapField, fp: &MapFieldPlan, val: &String, out: &mut Vec<Tok>)
    ensures
        toks_view(final(out)@) == toks_view(old(out)@) + map_field_bit_write_5(toks@, map_field_view(*f), map_field_plan_view(*fp), val@),
{
    let ghost b = toks_view(old(out)@);
    emit_close(out, Delim::Paren);
    emit_joint(out, '-', '>');
    emit_punct(out, '&');
    emit_word(out, "mut");
    emit_word(out, "Self");
    emit_open(out, Delim::Brace);
    emit_word(out, "__rt");
    emit_joint(out, ':', ':');
    emit_word(out, "WWRegFieldBit");
    emit_joint(out, ':', ':');
    emit_word(out, "toggle");
    emit_open(out, Delim::Paren);
    emit_punct(out, '&');
    emit_word(out, "self");
    emit_punct(out, '.');
    emit_word(out, "reg");
    emit_punct(out, '.');
    emit_string(out, &fp.ident);
    emit_punct(out, ',');
    emit_punct(out, '&');
    emit_word(out, "mut");
    emit_word(out, "self");
    emit_punct(out, '.');
    emit_word(out, "val");
    emit_close(out, Delim::Paren);
    emit_punct(out, ';');
    emit_word(out, "self");
    emit_close(out, Delim::Brace);
    emit_close(out, Delim::Brace);
    proof {
        reveal(map_field_bit_write_5);
    }
    assert(toks_view(out@) =~= b + map_field_bit_write_5(toks@, map_field_view(*f), map_field_plan_view(*fp), val@));
}

/// The setter, clearer and toggler of a one-bit field.
#[verifier::opaque]
pub open spec fn map_field_bit_write(toks: Seq<Tok>, f: MapFieldV, fp: MapFieldPlanV, val: Seq<char>) -> Seq<TokV> {
    map_field_bit_write_1(toks, f, fp, val) + map_field_bit_write_2(toks, f, fp, val) + map_field_bit_write_3(toks, f, fp, val) + map_field_bit_write_4(toks, f, fp, val) + map_field_bit_write_5(toks, f, fp, val)
}

#[verifier::spinoff_prover]
#[verifier::rlimit(80)]
fn emit_map_field_bit_write(toks: &Vec<Tok>, f: &MapField, fp: &MapFieldPlan, val: &String, out: &mut Vec<Tok>)
    ensures
        toks_view(final(out)@) == toks_view(old(out)@) + map_field_bit_write(toks@, map_field_view(*f), map_field_plan_view(*fp), val@),
{
    let ghost b = toks_view(old(out)@);
    emit_map_field_bit_write_1(toks, f, fp, val, out);
    emit_map_field_bit_write_2(toks, f, fp, val, out);
    emit_map_field_bit_write_3(toks, f, fp, val, out);
    emit_map_field_bit_write_4(toks, f, fp, val, out);
    emit_map_field_bit_write_5(toks, f, fp, val, out);
    proof {
        reveal(map_field_bit_write);
    }
    assert(toks_view(out@) =~= b + map_field_bit_write(toks@, map_field_view(*f), map_field_plan_view(*fp), val@));
}

/// A part of `map_field_bits_read`.
#[verifier::opaque]
pub open spec fn map_field_bits_read_1(toks: Seq<Tok>, f: MapFieldV, fp: MapFieldPlanV, val: Seq<char>) -> Seq<TokV> {
    tw("impl"@) + tp('<') + seq![TokV::Punct('\'', true)] + tw("a"@) + tp(',') + tw("T"@) + tp(':') + tw("__rt"@) + tj(':', ':') + tw("RegTag"@) + tp('>') + tw("Hold"@) + tp('<') + seq![TokV::Punct('\'', true)] + tw("a"@) + tp(',') + tw("T"@) + tp('>') + topen(Delim::Brace) + span_toks(toks, f.attrs) + tp('#') + topen(Delim::Bracket) + tw("inline"@) + topen(Delim::Paren) + tw("always"@) + tclose(Delim::Paren) + tclose(Delim::Bracket) + tw("pub"@) + tw("fn"@) + tw(fp.ident)
}

#[verifier::spinoff_prover]
#[verifier::rlimit(80)]
fn emit_map_field_bits_read_1(toks: &Vec<Tok>, f: &MapField, fp: &MapFieldPlan, val: &String, out: &mut Vec<Tok>)
    ensures
        toks_view(final(out)@) == toks_view(old(out)@) + map_field_bits_read_1(toks@, map_field_view(*f), map_field_plan_view(*fp), val@),
{
    let ghost b = toks_view(old(out)@);
    emit_word(out, "impl");
    emit_punct(out, '<');
    push_tok(out, Tok::Punct('\'', true));
    emit_word(out, "a");
    emit_punct(out, ',');
    emit_word(out, "T");
    emit_punct(out, ':');
    emit_word(out, "__rt");
    emit_joint(out, ':', ':');
    emit_word(out, "RegTag");
    emit_punct(out, '>');
    emit_word(out, "Hold");
    emit_punct(out, '<');
    push_tok(out, Tok::Punct('\'', true));
    emit_word(out, "a");
    emit_punct(out, ',');
    emit_word(out, "T");
    emit_punct(out, '>');
    emit_open(out, Delim::Brace);
    emit_span(toks, f.attrs, out);
    emit_punct(out, '#');
    emit_open(out, Delim::Bracket);
    emit_word(out, "inline");
    emit_open(out, Delim::Paren);
    emit_word(out, "always");
    emit_close(out, Delim::Paren);
    emit_close(out, Delim::Bracket);
    emit_word(out, "pub");
    emit_word(out, "fn");
    emit_string(out, &fp.ident);
    proof {
        reveal(map_field_bits_read_1);
    }
    assert(toks_view(out@) =~= b + map_field_bits_read_1(toks@, map_field_view(*f), map_field_plan_view(*fp), val@));
}

/// A part of `map_field_bits_read`.
#[verifier::opaque]
pub open spec fn map_field_bits_read_2(toks: Seq<Tok>, f: MapFieldV, fp: MapFieldPlanV, val: Seq<char>) -> Seq<TokV> {
    topen(Delim::Paren) + tp('&') + tw("self"@) + tclose(Delim::Paren) + tj('-', '>') + tw(val) + topen(Delim::Brace) + tw("__rt"@) + tj(':', ':') + tw("RRRegFieldBits"@) + tj(':', ':') + tw("read"@) + topen(Delim::Paren) + tp('&') + tw("self"@) + tp('.') + tw("reg"@) + tp('.') + tw(fp.ident) + tp(',') + tp('&') + tw("self"@) + tp('.') + tw("val"@) + tclose(Delim::Paren) + tclose(Delim::Brace) + tclose(Delim::Brace)
}

#[verifier::spinoff_prover]
#[verifier::rlimit(80)]
fn emit_map_field_bits_read_2(toks: &Vec<Tok>, f: &MapField, fp: &MapFieldPlan, val: &String, out: &mut Vec<Tok>)
    ensures
        toks_view(final(out)@) == toks_view(old(out)@) + map_field_bits_read_2(toks@, map_field_view(*f), map_field_plan_view(*fp), val@),
{
    let ghost b = toks_view(old(out)@);
    emit_open(out, Delim::Paren);
    emit_punct(out, '&');
    emit_word(out, "self");
    emit_close(out, Delim::Paren);
    emit_joint(out, '-', '>');
    emit_string(out, val);
    emit_open(out, Delim::Brace);
    emit_word(out, "__rt");
    emit_joint(out, ':', ':');
    emit_word(out, "RRRegFieldBits");
    emit_joint(out, ':', ':');
    emit_word(out, "read");
    emit_open(out, Delim::Paren);
    emit_punct(out, '&');
    emit_word(out, "self");
    emit_punct(out, '.');
    emit_word(out, "reg");
    emit_punct(out, '.');
    emit_string(out, &fp.ident);
    emit_punct(out, ',');
    emit_punct(out, '&');
    emit_word(out, "self");
    emit_punct(out, '.');
    emit_word(out, "val");
    emit_close(out, Delim::Paren);
    emit_close(out, Delim::Brace);
    emit_close(out, Delim::Brace);
    proof {
        reveal(map_field_bits_read_2);
    }
    assert(toks_view(out@) =~= b + map_field_bits_read_2(toks@, map_field_view(*f), map_field_plan_view(*fp), val@));
}

/// The getter of a field of several bits.
#[verifier::opaque]
pub open spec fn map_field_bits_read(toks: Seq<Tok>, f: MapFieldV, fp: MapFieldPlanV, val: Seq<char>) -> Seq<TokV> {
    map_field_bits_read_1(toks, f, fp, val) + map_field_bits_read_2(toks, f, fp, val)
}

#[verifier::spinoff_prover]
#[verifier::rlimit(80)]
fn emit_map_field_bits_read(toks: &Vec<Tok>, f: &MapField, fp: &MapFieldPlan, val: &String, out: &mut Vec<Tok>)
    ensures
        toks_view(final(out)@) == toks_view(old(out)@) + map_field_bits_read(toks@, map_field_view(*f), map_field_plan_view(*fp), val@),
{
    let ghost b = toks_view(old(out)@);
    emit_map_field_bits_read_1(toks, f, fp, val, out);
    emit_map_field_bits_read_2(toks, f, fp, val, out);
    proof {
        reveal(map_field_bits_read);
    }
    assert(toks_view(out@) =~= b + map_field_bits_read(toks@, map_field_view(*f), map_field_plan_view(*fp), val@));
}

/// A part of `map_field_bits_write`.
#[verifier::opaque]
pub open spec fn map_field_bits_write_1(toks: Seq<Tok>, f: MapFieldV, fp: MapFieldPlanV, val: Seq<char>) -> Seq<TokV> {
    tw("impl"@) + tp('<') + seq![TokV::Punct('\'', true)] + tw("a"@) + tp(',') + tw("T"@) + tp(':') + tw("__rt"@) + tj(':', ':') + tw("RegTag"@) + tp('>') + tw("Hold"@) + tp('<') + seq![TokV::Punct('\'', true)] + tw("a"@) + tp(',') + tw("T"@) + tp('>') + topen(Delim::Brace) + span_toks(toks, f.attrs) + tp('#') + topen(Delim::Bracket) + tw("inline"@) + topen(Delim::Paren) + tw("always"@) + tclose(Delim::Paren) + tclose(Delim::Bracket) + tw("pub"@) + tw("fn"@) + tw(fp.write_name)
}

#[verifier::spinoff_prover]
#[verifier::rlimit(80)]
fn emit_map_field_bits_write_1(toks: &Vec<Tok>, f: &MapField, fp: &MapFieldPlan, val: &String, out: &mut Vec<Tok>)
    ensures
        toks_view(final(out)@) == toks_view(old(out)@) + map_field_bits_write_1(toks@, map_field_view(*f), map_field_plan_view(*fp), val@),
{
    let ghost b = toks_view(old(out)@);
    emit_word(out, "impl");
    emit_punct(out, '<');
    push_tok(out, Tok::Punct('\'', true));
    emit_word(out, "a");
    emit_punct(out, ',');
    emit_word(out, "T");
    emit_punct(out, ':');
    emit_word(out, "__rt");
    emit_joint(out, ':', ':');
    emit_word(out, "RegTag");
    emit_punct(out, '>');
    emit_word(out, "Hold");
    emit_punct(out, '<');
    push_tok(out, Tok::Punct('\'', true));
    emit_word(out, "a");
    emit_punct(out, ',');
    emit_word(out, "T");
    emit_punct(out, '>');
    emit_open(out, Delim::Brace);
    emit_span(toks, f.attrs, out);
    emit_punct(out, '#');
    emit_open(out, Delim::Bracket);
    emit_word(out, "inline");
    emit_open(out, Delim::Paren);
    emit_word(out, "always");
    emit_close(out, Delim::Paren);
    emit_close(out, Delim::Bracket);
    emit_word(out, "pub");
    emit_word(out, "fn");
    emit_string(out, &fp.write_name);
    proof {
        reveal(map_field_bits_write_1);
    }
    assert(toks_view(out@) =~= b + map_field_bits_write_1(toks@, map_field_view(*f), map_field_plan_view(*fp), val@));
}

/// A part of `map_field_bits_write`.
#[verifier::opaque]
pub open spec fn map_field_bits_write_2(toks: Seq<Tok>, f: MapFieldV, fp: MapFieldPlanV, val: Seq<char>) -> Seq<TokV> {
    topen(Delim::Paren) + tp('&') + tw("mut"@) + tw("self"@) + tp(',') + tw("bits"@) + tp(':') + tw(val) + tclose(Delim::Paren) + tj('-', '>') + tp('&') + tw("mut"@) + tw("Self"@) + topen(Delim::Brace) + tw("__rt"@) + tj(':', ':') + tw("WWRegFieldBits"@) + tj(':', ':') + tw("write"@) + topen(Delim::Paren) + tp('&') + tw("self"@) + tp('.') + tw("reg"@) + tp('.') + tw(fp.ident) + tp(',') + tp('&') + tw("mut"@) + tw("self"@)
}

#[verifier::spinoff_prover]
#[verifier::rlimit(80)]
fn emit_map_field_bits_write_2(toks: &Vec<Tok>, f: &MapField, fp: &MapFieldPlan, val: &String, out: &mut Vec<Tok>)
    ensures
        toks_view(final(out)@) == toks_view(old(out)@) + map_field_bits_write_2(toks@, map_field_view(*f), map_field_plan_view(*fp), val@),
{
    let ghost b = toks_view(old(out)@);
    emit_open(out, Delim::Paren);
    emit_punct(out, '&');
    emit_word(out, "mut");
    emit_word(out, "self");
    emit_punct(out, ',');
    emit_word(out, "bits");
    emit_punct(out, ':');
    emit_string(out, val);
    emit_close(out, Delim::Paren);
    emit_joint(out, '-', '>');
    emit_punct(out, '&');
    emit_word(out, "mut");
    emit_word(out, "Self");
    emit_open(out, Delim::Brace);
    emit_word(out, "__rt");
    emit_joint(out, ':', ':');
    emit_word(out, "WWRegFieldBits");
    emit_joint(out, ':', ':');
    emit_word(out, "write");
    emit_open(out, Delim::Paren);
    emit_punct(out, '&');
    emit_word(out, "self");
    emit_punct(out, '.');
    emit_word(out, "reg");
    emit_punct(out, '.');
    emit_string(out, &fp.ident);
    emit_punct(out, ',');
    emit_punct(out, '&');
    emit_word(out, "mut");
    emit_word(out, "self");
    proof {
        reveal(map_field_bits_write_2);
    }
    assert(toks_view(out@) =~= b + map_field_bits_write_2(toks@, map_field_view(*f), map_field_plan_view(*fp), val@));
}

/// A part of `map_field_bits_write`.
#[verifier::opaque]
pub open spec fn map_field_bits_write_3(toks: Seq<Tok>, f: MapFieldV, fp: MapFieldPlanV, val: Seq<char>) -> Seq<TokV> {
    tp('.') + tw("val"@) + tp(',') + tw("bits"@) + tp(',') + tclose(Delim::Paren) + tp(';') + tw("self"@) + tclose(Delim::Brace) + tclose(Delim::Brace)
}

#[verifier::spinoff_prover]
#[verifier::rlimit(80)]
fn emit_map_field_bits_write_3(toks: &Vec<Tok>, f: &MapField, fp: &MapFieldPlan, val: &String, out: &mut Vec<Tok>)
    ensures
        toks_view(final(out)@) == toks_view(old(out)@) + map_field_bits_write_3(toks@, map_field_view(*f), map_field_plan_view(*fp), val@),
{
    let ghost b = toks_view(old(out)@);
    emit_punct(out, '.');
    emit_word(out, "val");
    emit_punct(out, ',');
    emit_word(out, "bits");
    emit_punct(out, ',');
    emit_close(out, Delim::Paren);
    emit_punct(out, ';');
    emit_word(out, "self");
    emit_close(out, Delim::Brace);
    emit_close(out, Delim::Brace);
    proof {
        reveal(map_field_bits_write_3);
    }
    assert(toks_view(out@) =~= b + map_field_bits_write_3(toks@, map_field_view(*f), map_field_plan_view(*fp), val@));
}

/// The writer of a field of several bits.
#[verifier::opaque]
pub open spec fn map_field_bits_write(toks: Seq<Tok>, f: MapFieldV, fp: MapFieldPlanV, val: Seq<char>) -> Seq<TokV> {
    map_field_bits_write_1(toks, f, fp, val) + map_field_bits_write_2(toks, f, fp, val) + map_field_bits_write_3(toks, f, fp, val)
}

#[verifier::spinoff_prover]
#[verifier::rlimit(80)]
fn emit_map_field_bits_write(toks: &Vec<Tok>, f: &MapField, fp: &MapFieldPlan, val: &String, out: &mut Vec<Tok>)
    ensures
        toks_view(final(out)@) == toks_view(old(out)@) + map_field_bits_write(toks@, map_field_view(*f), map_field_plan_view(*fp), val@),
{
    let ghost b = toks_view(old(out)@);
    emit_map_field_bits_write_1(toks, f, fp, val, out);
    emit_map_field_bits_write_2(toks, f, fp, val, out);
    emit_map_field_bits_write_3(toks, f, fp, val, out);
    proof {
        reveal(map_field_bits_write);
    }
    assert(toks_view(out@) =~= b + map_field_bits_write(toks@, map_field_view(*f), map_field_plan_view(*fp), val@));
}

/// A part of `map_rt_module`.
#[verifier::opaque]
pub open spec fn map_rt_module_1() -> Seq<TokV> {
    tw("mod"@) + tw("__rt"@) + topen(Delim::Brace) + tw("extern"@) + tw("crate"@) + tw("core"@) + tp(';') + tw("extern"@) + tw("crate"@) + tw("drone_core"@) + tp(';') + tw("pub"@) + tw("use"@) + tw("self"@) + tj(':', ':') + tw("drone_core"@) + tj(':', ':') + tw("reg"@) + tj(':', ':') + tw("prelude"@) + tj(':', ':') + tp('*') + tp(';') + tw("pub"@) + tw("use"@) + tw("self"@) + tj(':', ':') + tw("core"@) + tj(':', ':') + tw("marker"@)
}

#[verifier::spinoff_prover]
#[verifier::rlimit(80)]
fn emit_map_rt_module_1(out: &mut Vec<Tok>)
    ensures
        toks_view(final(out)@) == toks_view(old(out)@) + map_rt_module_1(),
{
    let ghost b = toks_view(old(out)@);
    emit_word(out, "mod");
    emit_word(out, "__rt");
    emit_open(out, Delim::Brace);
    emit_word(out, "extern");
    emit_word(out, "crate");
    emit_word(out, "core");
    emit_punct(out, ';');
    emit_word(out, "extern");
    emit_word(out, "crate");
    emit_word(out, "drone_core");
    emit_punct(out, ';');
    emit_word(out, "pub");
    emit_word(out, "use");
    emit_word(out, "self");
    emit_joint(out, ':', ':');
    emit_word(out, "drone_core");
    emit_joint(out, ':', ':');
    emit_word(out, "reg");
    emit_joint(out, ':', ':');
    emit_word(out, "prelude");
    emit_joint(out, ':', ':');
    emit_punct(out, '*');
    emit_punct(out, ';');
    emit_word(out, "pub");
    emit_word(out, "use");
    emit_word(out, "self");
    emit_joint(out, ':', ':');
    emit_word(out, "core");
    emit_joint(out, ':', ':');
    emit_word(out, "marker");
    proof {
        reveal(map_rt_module_1);
    }
    assert(toks_view(out@) =~= b + map_rt_module_1());
}

/// A part of `map_rt_module`.
#[verifier::opaque]
pub open spec fn map_rt_module_2() -> Seq<TokV> {
    tj(':', ':') + tw("PhantomData"@) + tp(';') + tclose(Delim::Brace)
}

#[verifier::spinoff_prover]
#[verifier::rlimit(80)]
fn emit_map_rt_module_2(out: &mut Vec<Tok>)
    ensures
        toks_view(final(out)@) == toks_view(old(out)@) + map_rt_module_2(),
{
    let ghost b = toks_view(old(out)@);
    emit_joint(out, ':', ':');
    emit_word(out, "PhantomData");
    emit_punct(out, ';');
    emit_close(out, Delim::Brace);
    proof {
        reveal(map_rt_module_2);
    }
    assert(toks_view(out@) =~= b + map_rt_module_2());
}

/// `mod __rt { extern crate core; extern crate drone_core; pub use self::drone_core::reg::prelude::*; pub use self::core::marker::PhantomData; }`
#[verifier::opaque]
pub open spec fn map_rt_module() -> Seq<TokV> {
    map_rt_module_1() + map_rt_module_2()
}

#[verifier::spinoff_prover]
#[verifier::rlimit(80)]
fn emit_map_rt_module(out: &mut Vec<Tok>)
    ensures
        toks_view(final(out)@) == toks_view(old(out)@) + map_rt_module(),
{
    let ghost b = toks_view(old(out)@);
    emit_map_rt_module_1(out);
    emit_map_rt_module_2(out);
    proof {
        reveal(map_rt_module);
    }
    assert(toks_view(out@) =~= b + map_rt_module());
}

/// `impl<T: __rt::RegTag> TRAIT<T> for Reg<T> {}`
#[verifier::opaque]
pub open spec fn map_reg_trait(toks: Seq<Tok>, tr: usize) -> Seq<TokV> {
    tw("impl"@) + tp('<') + tw("T"@) + tp(':') + tw("__rt"@) + tj(':', ':') + tw("RegTag"@) + tp('>') + span_toks(toks, one(tr)) + tp('<') + tw("T"@) + tp('>') + tw("for"@) + tw("Reg"@) + tp('<') + tw("T"@) + tp('>') + topen(Delim::Brace) + tclose(Delim::Brace)
}

#[verifier::spinoff_prover]
#[verifier::rlimit(80)]
fn emit_map_reg_trait(toks: &Vec<Tok>, tr: usize, out: &mut Vec<Tok>)
    ensures
        toks_view(final(out)@) == toks_view(old(out)@) + map_reg_trait(toks@, tr),
{
    let ghost b = toks_view(old(out)@);
    emit_word(out, "impl");
    emit_punct(out, '<');
    emit_word(out, "T");
    emit_punct(out, ':');
    emit_word(out, "__rt");
    emit_joint(out, ':', ':');
    emit_word(out, "RegTag");
    emit_punct(out, '>');
    emit_span(toks, one_exec(tr), out);
    emit_punct(out, '<');
    emit_word(out, "T");
    emit_punct(out, '>');
    emit_word(out, "for");
    emit_word(out, "Reg");
    emit_punct(out, '<');
    emit_word(out, "T");
    emit_punct(out, '>');
    emit_open(out, Delim::Brace);
    emit_close(out, Delim::Brace);
    proof {
        reveal(map_reg_trait);
    }
    assert(toks_view(out@) =~= b + map_reg_trait(toks@, tr));
}

/// A part of `map_reg_val`.
#[verifier::opaque]
pub open spec fn map_reg_val_1(toks: Seq<Tok>, g: MapRegV, gp: MapRegPlanV) -> Seq<TokV> {
    span_toks(toks, g.attrs) + tp('#') + topen(Delim::Bracket) + tw("derive"@) + topen(Delim::Paren) + tw("Bitfield"@) + tp(',') + tw("Clone"@) + tp(',') + tw("Copy"@) + tclose(Delim::Paren) + tclose(Delim::Bracket) + tp('#') + topen(Delim::Bracket) + tw("bitfield"@) + topen(Delim::Paren) + tw("default"@) + tp('=') + span_toks(toks, one(g.reset)) + tclose(Delim::Paren) + tclose(Delim::Bracket) + tw("pub"@) + tw("struct"@) + tw("Val"@) + topen(Delim::Paren) + tw(gp.val_ty) + tclose(Delim::Paren) + tp(';') + span_toks(toks, g.attrs) + tp('#')
}

#[verifier::spinoff_prover]
#[verifier::rlimit(80)]
fn emit_map_reg_val_1(toks: &Vec<Tok>, g: &MapReg, gp: &MapRegPlan, out: &mut Vec<Tok>)
    ensures
        toks_view(final(out)@) == toks_view(old(out)@) + map_reg_val_1(toks@, map_reg_view(*g), map_reg_plan_view(*gp)),
{
    let ghost b = toks_view(old(out)@);
    emit_span(toks, g.attrs, out);
    emit_punct(out, '#');
    emit_open(out, Delim::Bracket);
    emit_word(out, "derive");
    emit_open(out, Delim::Paren);
    emit_word(out, "Bitfield");
    emit_punct(out, ',');
    emit_word(out, "Clone");
    emit_punct(out, ',');
    emit_word(out, "Copy");
    emit_close(out, Delim::Paren);
    emit_close(out, Delim::Bracket);
    emit_punct(out, '#');
    emit_open(out, Delim::Bracket);
    emit_word(out, "bitfield");
    emit_open(out, Delim::Paren);
    emit_word(out, "default");
    emit_punct(out, '=');
    emit_span(toks, one_exec(g.reset), out);
    emit_close(out, Delim::Paren);
    emit_close(out, Delim::Bracket);
    emit_word(out, "pub");
    emit_word(out, "struct");
    emit_word(out, "Val");
    emit_open(out, Delim::Paren);
    emit_string(out, &gp.val_ty);
    emit_close(out, Delim::Paren);
    emit_punct(out, ';');
    emit_span(toks, g.attrs, out);
    emit_punct(out, '#');
    proof {
        reveal(map_reg_val_1);
    }
    assert(toks_view(out@) =~= b + map_reg_val_1(toks@, map_reg_view(*g), map_reg_plan_view(*gp)));
}

/// A part of `map_reg_val`.
#[verifier::opaque]
pub open spec fn map_reg_val_2(toks: Seq<Tok>, g: MapRegV, gp: MapRegPlanV) -> Seq<TokV> {
    topen(Delim::Bracket) + tw("derive"@) + topen(Delim::Paren) + tw("Clone"@) + tp(',') + tw("Copy"@) + tclose(Delim::Paren) + tclose(Delim::Bracket) + tw("pub"@) + tw("struct"@) + tw("Reg"@) + tp('<') + tw("T"@) + tp(':') + tw("__rt"@) + tj(':', ':') + tw("RegTag"@) + tp('>') + topen(Delim::Brace)
}

#[verifier::spinoff_prover]
#[verifier::rlimit(80)]
fn emit_map_reg_val_2(toks: &Vec<Tok>, g: &MapReg, gp: &MapRegPlan, out: &mut Vec<Tok>)
    ensures
        toks_view(final(out)@) == toks_view(old(out)@) + map_reg_val_2(toks@, map_reg_view(*g), map_reg_plan_view(*gp)),
{
    let ghost b = toks_view(old(out)@);
    emit_open(out, Delim::Bracket);
    emit_word(out, "derive");
    emit_open(out, Delim::Paren);
    emit_word(out, "Clone");
    emit_punct(out, ',');
    emit_word(out, "Copy");
    emit_close(out, Delim::Paren);
    emit_close(out, Delim::Bracket);
    emit_word(out, "pub");
    emit_word(out, "struct");
    emit_word(out, "Reg");
    emit_punct(out, '<');
    emit_word(out, "T");
    emit_punct(out, ':');
    emit_word(out, "__rt");
    emit_joint(out, ':', ':');
    emit_word(out, "RegTag");
    emit_punct(out, '>');
    emit_open(out, Delim::Brace);
    proof {
        reveal(map_reg_val_2);
    }
    assert(toks_view(out@) =~= b + map_reg_val_2(toks@, map_reg_view(*g), map_reg_plan_view(*gp)));
}

/// `ATTRS #[derive(Bitfield, Clone, Copy)] #[bitfield(default = RESET)] pub struct Val(VAL); ATTRS #[derive(Clone, Copy)] pub struct Reg<T: __rt::RegTag> {`
#[verifier::opaque]
pub open spec fn map_reg_val(toks: Seq<Tok>, g: MapRegV, gp: MapRegPlanV) -> Seq<TokV> {
    map_reg_val_1(toks, g, gp) + map_reg_val_2(toks, g, gp)
}

#[verifier::spinoff_prover]
#[verifier::rlimit(80)]
fn emit_map_reg_val(toks: &Vec<Tok>, g: &MapReg, gp: &MapRegPlan, out: &mut Vec<Tok>)
    ensures
        toks_view(final(out)@) == toks_view(old(out)@) + map_reg_val(toks@, map_reg_view(*g), map_reg_plan_view(*gp)),
{
    let ghost b = toks_view(old(out)@);
    emit_map_reg_val_1(toks, g, gp, out);
    emit_map_reg_val_2(toks, g, gp, out);
    proof {
        reveal(map_reg_val);
    }
    assert(toks_view(out@) =~= b + map_reg_val(toks@, map_reg_view(*g), map_reg_plan_view(*gp)));
}

/// A part of `map_reg_impl_head`.
#[verifier::opaque]
pub open spec fn map_reg_impl_head_1(toks: Seq<Tok>, g: MapRegV, gp: MapRegPlanV) -> Seq<TokV> {
    tclose(Delim::Brace) + tw("impl"@) + tp('<') + tw("T"@) + tp(':') + tw("__rt"@) + tj(':', ':') + tw("RegTag"@) + tp('>') + tw("__rt"@) + tj(':', ':') + tw("Reg"@) + tp('<') + tw("T"@) + tp('>') + tw("for"@) + tw("Reg"@) + tp('<') + tw("T"@) + tp('>') + topen(Delim::Brace) + tw("type"@) + tw("Val"@) + tp('=') + tw("Val"@) + tp(';') + tw("type"@) + tw("UReg"@) + tp('=') + tw("Reg"@)
}

#[verifier::spinoff_prover]
#[verifier::rlimit(80)]
fn emit_map_reg_impl_head_1(toks: &Vec<Tok>, g: &MapReg, gp: &MapRegPlan, out: &mut Vec<Tok>)
    ensures
        toks_view(final(out)@) == toks_view(old(out)@) + map_reg_impl_head_1(toks@, map_reg_view(*g), map_reg_plan_view(*gp)),
{
    let ghost b = toks_view(old(out)@);
    emit_close(out, Delim::Brace);
    emit_word(out, "impl");
    emit_punct(out, '<');
    emit_word(out, "T");
    emit_punct(out, ':');
    emit_word(out, "__rt");
    emit_joint(out, ':', ':');
    emit_word(out, "RegTag");
    emit_punct(out, '>');
    emit_word(out, "__rt");
    emit_joint(out, ':', ':');
    emit_word(out, "Reg");
    emit_punct(out, '<');
    emit_word(out, "T");
    emit_punct(out, '>');
    emit_word(out, "for");
    emit_word(out, "Reg");
    emit_punct(out, '<');
    emit_word(out, "T");
    emit_punct(out, '>');
    emit_open(out, Delim::Brace);
    emit_word(out, "type");
    emit_word(out, "Val");
    emit_punct(out, '=');
    emit_word(out, "Val");
    emit_punct(out, ';');
    emit_word(out, "type");
    emit_word(out, "UReg");
    emit_punct(out, '=');
    emit_word(out, "Reg");
    proof {
        reveal(map_reg_impl_head_1);
    }
    assert(toks_view(out@) =~= b + map_reg_impl_head_1(toks@, map_reg_view(*g), map_reg_plan_view(*gp)));
}

/// A part of `map_reg_impl_head`.
#[verifier::opaque]
pub open spec fn map_reg_impl_head_2(toks: Seq<Tok>, g: MapRegV, gp: MapRegPlanV) -> Seq<TokV> {
    tp('<') + tw("__rt"@) + tj(':', ':') + tw("Urt"@) + tp('>') + tp(';') + tw("type"@) + tw("SReg"@) + tp('=') + tw("Reg"@) + tp('<') + tw("__rt"@) + tj(':', ':') + tw("Srt"@) + tp('>') + tp(';') + tw("type"@) + tw("CReg"@) + tp('=') + tw("Reg"@) + tp('<') + tw("__rt"@) + tj(':', ':') + tw("Crt"@) + tp('>') + tp(';') + tw("const"@) + tw("ADDRESS"@) + tp(':') + tw("usize"@)
}

#[verifier::spinoff_prover]
#[verifier::rlimit(80)]
fn emit_map_reg_impl_head_2(toks: &Vec<Tok>, g: &MapReg, gp: &MapRegPlan, out: &mut Vec<Tok>)
    ensures
        toks_view(final(out)@) == toks_view(old(out)@) + map_reg_impl_head_2(toks@, map_reg_view(*g), map_reg_plan_view(*gp)),
{
    let ghost b = toks_view(old(out)@);
    emit_punct(out, '<');
    emit_word(out, "__rt");
    emit_joint(out, ':', ':');
    emit_word(out, "Urt");
    emit_punct(out, '>');
    emit_punct(out, ';');
    emit_word(out, "type");
    emit_word(out, "SReg");
    emit_punct(out, '=');
    emit_word(out, "Reg");
    emit_punct(out, '<');
    emit_word(out, "__rt");
    emit_joint(out, ':', ':');
    emit_word(out, "Srt");
    emit_punct(out, '>');
    emit_punct(out, ';');
    emit_word(out, "type");
    emit_word(out, "CReg");
    emit_punct(out, '=');
    emit_word(out, "Reg");
    emit_punct(out, '<');
    emit_word(out, "__rt");
    emit_joint(out, ':', ':');
    emit_word(out, "Crt");
    emit_punct(out, '>');
    emit_punct(out, ';');
    emit_word(out, "const");
    emit_word(out, "ADDRESS");
    emit_punct(out, ':');
    emit_word(out, "usize");
    proof {
        reveal(map_reg_impl_head_2);
    }
    assert(toks_view(out@) =~= b + map_reg_impl_head_2(toks@, map_reg_view(*g), map_reg_plan_view(*gp)));
}

/// A part of `map_reg_impl_head`.
#[verifier::opaque]
pub open spec fn map_reg_impl_head_3(toks: Seq<Tok>, g: MapRegV, gp: MapRegPlanV) -> Seq<TokV> {
    tp('=') + span_toks(toks, one(g.address)) + tp(';') + tp('#') + topen(Delim::Bracket) + tw("inline"@) + topen(Delim::Paren) + tw("always"@) + tclose(Delim::Paren) + tclose(Delim::Bracket) + tw("unsafe"@) + tw("fn"@) + tw("new"@) + topen(Delim::Paren) + tclose(Delim::Paren) + tj('-', '>') + tw("Self"@) + topen(Delim::Brace) + tw("Self"@) + topen(Delim::Brace)
}

#[verifier::spinoff_prover]
#[verifier::rlimit(80)]
fn emit_map_reg_impl_head_3(toks: &Vec<Tok>, g: &MapReg, gp: &MapRegPlan, out: &mut Vec<Tok>)
    ensures
        toks_view(final(out)@) == toks_view(old(out)@) + map_reg_impl_head_3(toks@, map_reg_view(*g), map_reg_plan_view(*gp)),
{
    let ghost b = toks_view(old(out)@);
    emit_punct(out, '=');
    emit_span(toks, one_exec(g.address), out);
    emit_punct(out, ';');
    emit_punct(out, '#');
    emit_open(out, Delim::Bracket);
    emit_word(out, "inline");
    emit_open(out, Delim::Paren);
    emit_word(out, "always");
    emit_close(out, Delim::Paren);
    emit_close(out, Delim::Bracket);
    emit_word(out, "unsafe");
    emit_word(out, "fn");
    emit_word(out, "new");
    emit_open(out, Delim::Paren);
    emit_close(out, Delim::Paren);
    emit_joint(out, '-', '>');
    emit_word(out, "Self");
    emit_open(out, Delim::Brace);
    emit_word(out, "Self");
    emit_open(out, Delim::Brace);
    proof {
        reveal(map_reg_impl_head_3);
    }
    assert(toks_view(out@) =~= b + map_reg_impl_head_3(toks@, map_reg_view(*g), map_reg_plan_view(*gp)));
}

/// `} impl<T: __rt::RegTag> __rt::Reg<T> for Reg<T> { .. unsafe fn new() -> Self { Self {`
#[verifier::opaque]
pub open spec fn map_reg_impl_head(toks: Seq<Tok>, g: MapRegV, gp: MapRegPlanV) -> Seq<TokV> {
    map_reg_impl_head_1(toks, g, gp) + map_reg_impl_head_2(toks, g, gp) + map_reg_impl_head_3(toks, g, gp)
}

#[verifier::spinoff_prover]
#[verifier::rlimit(80)]
fn emit_map_reg_impl_head(toks: &Vec<Tok>, g: &MapReg, gp: &MapRegPlan, out: &mut Vec<Tok>)
    ensures
        toks_view(final(out)@) == toks_view(old(out)@) + map_reg_impl_head(toks@, map_reg_view(*g), map_reg_plan_view(*gp)),
{
    let ghost b = toks_view(old(out)@);
    emit_map_reg_impl_head_1(toks, g, gp, out);
    emit_map_reg_impl_head_2(toks, g, gp, out);
    emit_map_reg_impl_head_3(toks, g, gp, out);
    proof {
        reveal(map_reg_impl_head);
    }
    assert(toks_view(out@) =~= b + map_reg_impl_head(toks@, map_reg_view(*g), map_reg_plan_view(*gp)));
}

/// A part of `map_reg_hold`.
#[verifier::opaque]
pub open spec fn map_reg_hold_1(toks: Seq<Tok>, g: MapRegV, gp: MapRegPlanV) -> Seq<TokV> {
    tclose(Delim::Brace) + tclose(Delim::Brace) + tclose(Delim::Brace) + tw("impl"@) + tp('<') + seq![TokV::Punct('\'', true)] + tw("a"@) + tp(',') + tw("T"@) + tp(':') + tw("__rt"@) + tj(':', ':') + tw("RegTag"@) + tp('+') + seq![TokV::Punct('\'', true)] + tw("a"@) + tp('>') + tw("__rt"@) + tj(':', ':') + tw("RegRef"@) + tp('<') + seq![TokV::Punct('\'', true)] + tw("a"@) + tp(',') + tw("T"@) + tp('>') + tw("for"@) + tw("Reg"@) + tp('<') + tw("T"@) + tp('>') + topen(Delim::Brace) + tw("type"@) + tw("Hold"@) + tp('=') + tw("Hold"@) + tp('<') + seq![TokV::Punct('\'', true)] + tw("a"@) + tp(',')
}

#[verifier::spinoff_prover]
#[verifier::rlimit(80)]
fn emit_map_reg_hold_1(toks: &Vec<Tok>, g: &MapReg, gp: &MapRegPlan, out: &mut Vec<Tok>)
    ensures
        toks_view(final(out)@) == toks_view(old(out)@) + map_reg_hold_1(toks@, map_reg_view(*g), map_reg_plan_view(*gp)),
{
    let ghost b = toks_view(old(out)@);
    emit_close(out, Delim::Brace);
    emit_close(out, Delim::Brace);
    emit_close(out, Delim::Brace);
    emit_word(out, "impl");
    emit_punct(out, '<');
    push_tok(out, Tok::Punct('\'', true));
    emit_word(out, "a");
    emit_punct(out, ',');
    emit_word(out, "T");
    emit_punct(out, ':');
    emit_word(out, "__rt");
    emit_joint(out, ':', ':');
    emit_word(out, "RegTag");
    emit_punct(out, '+');
    push_tok(out, Tok::Punct('\'', true));
    emit_word(out, "a");
    emit_punct(out, '>');
    emit_word(out, "__rt");
    emit_joint(out, ':', ':');
    emit_word(out, "RegRef");
    emit_punct(out, '<');
    push_tok(out, Tok::Punct('\'', true));
    emit_word(out, "a");
    emit_punct(out, ',');
    emit_word(out, "T");
    emit_punct(out, '>');
    emit_word(out, "for");
    emit_word(out, "Reg");
    emit_punct(out, '<');
    emit_word(out, "T");
    emit_punct(out, '>');
    emit_open(out, Delim::Brace);
    emit_word(out, "type");
    emit_word(out, "Hold");
    emit_punct(out, '=');
    emit_word(out, "Hold");
    emit_punct(out, '<');
    push_tok(out, Tok::Punct('\'', true));
    emit_word(out, "a");
    emit_punct(out, ',');
    proof {
        reveal(map_reg_hold_1);
    }
    assert(toks_view(out@) =~= b + map_reg_hold_1(toks@, map_reg_view(*g), map_reg_plan_view(*gp)));
}

/// A part of `map_reg_hold`.
#[verifier::opaque]
pub open spec fn map_reg_hold_2(toks: Seq<Tok>, g: MapRegV, gp: MapRegPlanV) -> Seq<TokV> {
    tw("T"@) + tp('>') + tp(';') + tclose(Delim::Brace) + span_toks(toks, g.attrs) + tw("pub"@) + tw("struct"@) + tw("Hold"@) + tp('<') + seq![TokV::Punct('\'', true)] + tw("a"@) + tp(',') + tw("T"@) + tp(':') + tw("__rt"@) + tj(':', ':') + tw("RegTag"@) + tp('+') + seq![TokV::Punct('\'', true)] + tw("a"@) + tp('>') + topen(Delim::Brace) + tw("reg"@) + tp(':') + tp('&') + seq![TokV::Punct('\'', true)] + tw("a"@) + tw("Reg"@) + tp('<') + tw("T"@) + tp('>') + tp(',') + tw("val"@) + tp(':') + tw("Val"@) + tp(',') + tclose(Delim::Brace) + tw("impl"@) + tp('<') + seq![TokV::Punct('\'', true)]
}

#[verifier::spinoff_prover]
#[verifier::rlimit(80)]
fn emit_map_reg_hold_2(toks: &Vec<Tok>, g: &MapReg, gp: &MapRegPlan, out: &mut Vec<Tok>)
    ensures
        toks_view(final(out)@) == toks_view(old(out)@) + map_reg_hold_2(toks@, map_reg_view(*g), map_reg_plan_view(*gp)),
{
    let ghost b = toks_view(old(out)@);
    emit_word(out, "T");
    emit_punct(out, '>');
    emit_punct(out, ';');
    emit_close(out, Delim::Brace);
    emit_span(toks, g.attrs, out);
    emit_word(out, "pub");
    emit_word(out, "struct");
    emit_word(out, "Hold");
    emit_punct(out, '<');
    push_tok(out, Tok::Punct('\'', true));
    emit_word(out, "a");
    emit_punct(out, ',');
    emit_word(out, "T");
    emit_punct(out, ':');
    emit_word(out, "__rt");
    emit_joint(out, ':', ':');
    emit_word(out, "RegTag");
    emit_punct(out, '+');
    push_tok(out, Tok::Punct('\'', true));
    emit_word(out, "a");
    emit_punct(out, '>');
    emit_open(out, Delim::Brace);
    emit_word(out, "reg");
    emit_punct(out, ':');
    emit_punct(out, '&');
    push_tok(out, Tok::Punct('\'', true));
    emit_word(out, "a");
    emit_word(out, "Reg");
    emit_punct(out, '<');
    emit_word(out, "T");
    emit_punct(out, '>');
    emit_punct(out, ',');
    emit_word(out, "val");
    emit_punct(out, ':');
    emit_word(out, "Val");
    emit_punct(out, ',');
    emit_close(out, Delim::Brace);
    emit_word(out, "impl");
    emit_punct(out, '<');
    push_tok(out, Tok::Punct('\'', true));
    proof {
        reveal(map_reg_hold_2);
    }
    assert(toks_view(out@) =~= b + map_reg_hold_2(toks@, map_reg_view(*g), map_reg_plan_view(*gp)));
}

/// A part of `map_reg_hold`.
#[verifier::opaque]
pub open spec fn map_reg_hold_3(toks: Seq<Tok>, g: MapRegV, gp: MapRegPlanV) -> Seq<TokV> {
    tw("a"@) + tp(',') + tw("T"@) + tp(':') + tw("__rt"@) + tj(':', ':') + tw("RegTag"@) + tp('>') + tw("__rt"@) + tj(':', ':') + tw("RegHold"@) + tp('<') + seq![TokV::Punct('\'', true)] + tw("a"@) + tp(',') + tw("T"@) + tp(',') + tw("Reg"@) + tp('<') + tw("T"@) + tp('>') + tp('>') + tw("for"@) + tw("Hold"@) + tp('<') + seq![TokV::Punct('\'', true)] + tw("a"@) + tp(',') + tw("T"@) + tp('>') + topen(Delim::Brace) + tp('#') + topen(Delim::Bracket) + tw("inline"@) + topen(Delim::Paren) + tw("always"@) + tclose(Delim::Paren) + tclose(Delim::Bracket) + tw("unsafe"@) + tw("fn"@)
}

#[verifier::spinoff_prover]
#[verifier::rlimit(80)]
fn emit_map_reg_hold_3(toks: &Vec<Tok>, g: &MapReg, gp: &MapRegPlan, out: &mut Vec<Tok>)
    ensures
        toks_view(final(out)@) == toks_view(old(out)@) + map_reg_hold_3(toks@, map_reg_view(*g), map_reg_plan_view(*gp)),
{
    let ghost b = toks_view(old(out)@);
    emit_word(out, "a");
    emit_punct(out, ',');
    emit_word(out, "T");
    emit_punct(out, ':');
    emit_word(out, "__rt");
    emit_joint(out, ':', ':');
    emit_word(out, "RegTag");
    emit_punct(out, '>');
    emit_word(out, "__rt");
    emit_joint(out, ':', ':');
    emit_word(out, "RegHold");
    emit_punct(out, '<');
    push_tok(out, Tok::Punct('\'', true));
    emit_word(out, "a");
    emit_punct(out, ',');
    emit_word(out, "T");
    emit_punct(out, ',');
    emit_word(out, "Reg");
    emit_punct(out, '<');
    emit_word(out, "T");
    emit_punct(out, '>');
    emit_punct(out, '>');
    emit_word(out, "for");
    emit_word(out, "Hold");
    emit_punct(out, '<');
    push_tok(out, Tok::Punct('\'', true));
    emit_word(out, "a");
    emit_punct(out, ',');
    emit_word(out, "T");
    emit_punct(out, '>');
    emit_open(out, Delim::Brace);
    emit_punct(out, '#');
    emit_open(out, Delim::Bracket);
    emit_word(out, "inline");
    emit_open(out, Delim::Paren);
    emit_word(out, "always");
    emit_close(out, Delim::Paren);
    emit_close(out, Delim::Bracket);
    emit_word(out, "unsafe");
    emit_word(out, "fn");
    proof {
        reveal(map_reg_hold_3);
    }
    assert(toks_view(out@) =~= b + map_reg_hold_3(toks@, map_reg_view(*g), map_reg_plan_view(*gp)));
}

/// A part of `map_reg_hold`.
#[verifier::opaque]
pub open spec fn map_reg_hold_4(toks: Seq<Tok>, g: MapRegV, gp: MapRegPlanV) -> Seq<TokV> {
    tw("new"@) + topen(Delim::Paren) + tw("reg"@) + tp(':') + tp('&') + seq![TokV::Punct('\'', true)] + tw("a"@) + tw("Reg"@) + tp('<') + tw("T"@) + tp('>') + tp(',') + tw("val"@) + tp(':') + tw("Val"@) + tclose(Delim::Paren) + tj('-', '>') + tw("Self"@) + topen(Delim::Brace) + tw("Self"@) + topen(Delim::Brace) + tw("reg"@) + tp(',') + tw("val"@) + tclose(Delim::Brace) + tclose(Delim::Brace) + tp('#') + topen(Delim::Bracket) + tw("inline"@) + topen(Delim::Paren) + tw("always"@) + tclose(Delim::Paren) + tclose(Delim::Bracket) + tw("fn"@) + tw("val"@) + topen(Delim::Paren) + tp('&') + tw("self"@) + tclose(Delim::Paren) + tj('-', '>')
}

#[verifier::spinoff_prover]
#[verifier::rlimit(80)]
fn emit_map_reg_hold_4(toks: &Vec<Tok>, g: &MapReg, gp: &MapRegPlan, out: &mut Vec<Tok>)
    ensures
        toks_view(final(out)@) == toks_view(old(out)@) + map_reg_hold_4(toks@, map_reg_view(*g), map_reg_plan_view(*gp)),
{
    let ghost b = toks_view(old(out)@);
    emit_word(out, "new");
    emit_open(out, Delim::Paren);
    emit_word(out, "reg");
    emit_punct(out, ':');
    emit_punct(out, '&');
    push_tok(out, Tok::Punct('\'', true));
    emit_word(out, "a");
    emit_word(out, "Reg");
    emit_punct(out, '<');
    emit_word(out, "T");
    emit_punct(out, '>');
    emit_punct(out, ',');
    emit_word(out, "val");
    emit_punct(out, ':');
    emit_word(out, "Val");
    emit_close(out, Delim::Paren);
    emit_joint(out, '-', '>');
    emit_word(out, "Self");
    emit_open(out, Delim::Brace);
    emit_word(out, "Self");
    emit_open(out, Delim::Brace);
    emit_word(out, "reg");
    emit_punct(out, ',');
    emit_word(out, "val");
    emit_close(out, Delim::Brace);
    emit_close(out, Delim::Brace);
    emit_punct(out, '#');
    emit_open(out, Delim::Bracket);
    emit_word(out, "inline");
    emit_open(out, Delim::Paren);
    emit_word(out, "always");
    emit_close(out, Delim::Paren);
    emit_close(out, Delim::Bracket);
    emit_word(out, "fn");
    emit_word(out, "val");
    emit_open(out, Delim::Paren);
    emit_punct(out, '&');
    emit_word(out, "self");
    emit_close(out, Delim::Paren);
    emit_joint(out, '-', '>');
    proof {
        reveal(map_reg_hold_4);
    }
    assert(toks_view(out@) =~= b + map_reg_hold_4(toks@, map_reg_view(*g), map_reg_plan_view(*gp)));
}

/// A part of `map_reg_hold`.
#[verifier::opaque]
pub open spec fn map_reg_hold_5(toks: Seq<Tok>, g: MapRegV, gp: MapRegPlanV) -> Seq<TokV> {
    tw("Val"@) + topen(Delim::Brace) + tw("self"@) + tp('.') + tw("val"@) + tclose(Delim::Brace) + tp('#') + topen(Delim::Bracket) + tw("inline"@) + topen(Delim::Paren) + tw("always"@) + tclose(Delim::Paren) + tclose(Delim::Bracket) + tw("fn"@) + tw("set_val"@) + topen(Delim::Paren) + tp('&') + tw("mut"@) + tw("self"@) + tp(',') + tw("val"@) + tp(':') + tw("Val"@) + tclose(Delim::Paren) + topen(Delim::Brace) + tw("self"@) + tp('.') + tw("val"@) + tp('=') + tw("val"@) + tp(';') + tclose(Delim::Brace) + tclose(Delim::Brace)
}

#[verifier::spinoff_prover]
#[verifier::rlimit(80)]
fn emit_map_reg_hold_5(toks: &Vec<Tok>, g: &MapReg, gp: &MapRegPlan, out: &mut Vec<Tok>)
    ensures
        toks_view(final(out)@) == toks_view(old(out)@) + map_reg_hold_5(toks@, map_reg_view(*g), map_reg_plan_view(*gp)),
{
    let ghost b = toks_view(old(out)@);
    emit_word(out, "Val");
    emit_open(out, Delim::Brace);
    emit_word(out, "self");
    emit_punct(out, '.');
    emit_word(out, "val");
    emit_close(out, Delim::Brace);
    emit_punct(out, '#');
    emit_open(out, Delim::Bracket);
    emit_word(out, "inline");
    emit_open(out, Delim::Paren);
    emit_word(out, "always");
    emit_close(out, Delim::Paren);
    emit_close(out, Delim::Bracket);
    emit_word(out, "fn");
    emit_word(out, "set_val");
    emit_open(out, Delim::Paren);
    emit_punct(out, '&');
    emit_word(out, "mut");
    emit_word(out, "self");
    emit_punct(out, ',');
    emit_word(out, "val");
    emit_punct(out, ':');
    emit_word(out, "Val");
    emit_close(out, Delim::Paren);
    emit_open(out, Delim::Brace);
    emit_word(out, "self");
    emit_punct(out, '.');
    emit_word(out, "val");
    emit_punct(out, '=');
    emit_word(out, "val");
    emit_punct(out, ';');
    emit_close(out, Delim::Brace);
    emit_close(out, Delim::Brace);
    proof {
        reveal(map_reg_hold_5);
    }
    assert(toks_view(out@) =~= b + map_reg_hold_5(toks@, map_reg_view(*g), map_reg_plan_view(*gp)));
}

/// `} } } impl<'a, T: __rt::RegTag + 'a> __rt::RegRef<'a, T> for Reg<T> { .. } ATTRS pub struct Hold<..> { .. } impl .. __rt::RegHold .. { .. }`
#[verifier::opaque]
pub open spec fn map_reg_hold(toks: Seq<Tok>, g: MapRegV, gp: MapRegPlanV) -> Seq<TokV> {
    map_reg_hold_1(toks, g, gp) + map_reg_hold_2(toks, g, gp) + map_reg_hold_3(toks, g, gp) + map_reg_hold_4(toks, g, gp) + map_reg_hold_5(toks, g, gp)
}

#[verifier::spinoff_prover]
#[verifier::rlimit(80)]
fn emit_map_reg_hold(toks: &Vec<Tok>, g: &MapReg, gp: &MapRegPlan, out: &mut Vec<Tok>)
    ensures
        toks_view(final(out)@) == toks_view(old(out)@) + map_reg_hold(toks@, map_reg_view(*g), map_reg_plan_view(*gp)),
{
    let ghost b = toks_view(old(out)@);
    emit_map_reg_hold_1(toks, g, gp, out);
    emit_map_reg_hold_2(toks, g, gp, out);
    emit_map_reg_hold_3(toks, g, gp, out);
    emit_map_reg_hold_4(toks, g, gp, out);
    emit_map_reg_hold_5(toks, g, gp, out);
    proof {
        reveal(map_reg_hold);
    }
    assert(toks_view(out@) =~= b + map_reg_hold(toks@, map_reg_view(*g), map_reg_plan_view(*gp)));
}

/// The implementations of the first `k` traits of a field.
pub open spec fn map_field_traits(toks: Seq<Tok>, f: MapFieldV, fp: MapFieldPlanV, val: Seq<char>, k: nat) -> Seq<TokV>
    decreases k,
{
    if k == 0 || k > f.traits.len() {
        Seq::empty()
    } else {
        map_field_traits(toks, f, fp, val, (k - 1) as nat) + map_field_trait(toks, f, fp, val, f.traits[k - 1])
    }
}

/// The accessors of a field that its width and its traits call for.
pub open spec fn map_field_access(toks: Seq<Tok>, f: MapFieldV, fp: MapFieldPlanV, val: Seq<char>) -> Seq<TokV> {
    if fp.bit {
        (if fp.read {
            map_field_bit_read(toks, f, fp, val)
        } else {
            Seq::empty()
        }) + (if fp.write {
            map_field_bit_write(toks, f, fp, val)
        } else {
            Seq::empty()
        })
    } else {
        (if fp.read {
            map_field_bits_read(toks, f, fp, val)
        } else {
            Seq::empty()
        }) + (if fp.write {
            map_field_bits_write(toks, f, fp, val)
        } else {
            Seq::empty()
        })
    }
}

/// The items of a field: its token, the token's traits, and its accessors.
pub open spec fn map_field_items(toks: Seq<Tok>, f: MapFieldV, fp: MapFieldPlanV, val: Seq<char>) -> Seq<TokV> {
    map_field_struct(toks, f, fp, val) + map_field_traits(toks, f, fp, val, f.traits.len()) + map_field_width(
        toks,
        f,
        fp,
        val,
    ) + map_field_access(toks, f, fp, val)
}

#[verifier::spinoff_prover]
#[verifier::rlimit(80)]
fn emit_map_field_items(toks: &Vec<Tok>, f: &MapField, fp: &MapFieldPlan, val: &String, out: &mut Vec<Tok>)
    ensures
        toks_view(final(out)@) == toks_view(old(out)@) + map_field_items(toks@, map_field_view(*f), map_field_plan_view(*fp), val@),
{
    let ghost b = toks_view(old(out)@);
    let ghost fv = map_field_view(*f);
    let ghost fpv = map_field_plan_view(*fp);
    emit_map_field_struct(toks, f, fp, val, out);
    let ghost head = toks_view(out@);
    let mut k: usize = 0;
    assert(head + Seq::<TokV>::empty() =~= head);
    while k < f.traits.len()
        invariant
            k <= f.traits@.len(),
            fv == map_field_view(*f),
            fpv == map_field_plan_view(*fp),
            toks_view(out@) == head + map_field_traits(toks@, fv, fpv, val@, k as nat),
        decreases f.traits@.len() - k,
    {
        emit_map_field_trait(toks, f, fp, val, f.traits[k], out);
        assert(toks_view(out@) =~= head + map_field_traits(toks@, fv, fpv, val@, (k + 1) as nat));
        k = k + 1;
    }
    emit_map_field_width(toks, f, fp, val, out);
    let ghost m = toks_view(out@);
    if fp.read {
        if fp.bit {
            emit_map_field_bit_read(toks, f, fp, val, out);
        } else {
            emit_map_field_bits_read(toks, f, fp, val, out);
        }
    }
    let ghost m2 = toks_view(out@);
    if fp.write {
        if fp.bit {
            emit_map_field_bit_write(toks, f, fp, val, out);
        } else {
            emit_map_field_bits_write(toks, f, fp, val, out);
        }
    }
    assert(toks_view(out@) =~= m + map_field_access(toks@, fv, fpv, val@));
    assert(toks_view(out@) =~= b + map_field_items(toks@, fv, fpv, val@));
}

/// The items of the first `k` fields of a register.
pub open spec fn map_fields_items(toks: Seq<Tok>, g: MapRegV, gp: MapRegPlanV, k: nat) -> Seq<TokV>
    decreases k,
{
    if k == 0 || k > g.fields.len() || k > gp.fields.len() {
        Seq::empty()
    } else {
        map_fields_items(toks, g, gp, (k - 1) as nat) + map_field_items(toks, g.fields[k - 1], gp.fields[k - 1], gp.val_ty)
    }
}

/// The imported traits, separated by commas.
pub open spec fn map_import_list(toks: Seq<Tok>, is: Seq<usize>) -> Seq<TokV>
    decreases is.len(),
{
    if is.len() == 0 {
        Seq::empty()
    } else {
        map_import_list(toks, is.drop_last()) + (if is.len() > 1 {
            tp(',')
        } else {
            Seq::empty()
        }) + span_toks(toks, one(is.last()))
    }
}

/// `use super::super::{TRAITS};`, none where no trait is imported.
pub open spec fn map_imports(toks: Seq<Tok>, is: Seq<usize>) -> Seq<TokV> {
    if is.len() == 0 {
        Seq::empty()
    } else {
        tw("use"@) + tw("super"@) + tj(':', ':') + tw("super"@) + tj(':', ':') + topen(Delim::Brace)
            + map_import_list(toks, is) + tclose(Delim::Brace) + tp(';')
    }
}

/// The implementations of the register's traits.
pub open spec fn map_reg_traits(toks: Seq<Tok>, ts: Seq<usize>) -> Seq<TokV>
    decreases ts.len(),
{
    if ts.len() == 0 {
        Seq::empty()
    } else {
        map_reg_traits(toks, ts.drop_last()) + map_reg_trait(toks, ts.last())
    }
}

/// The first `k` fields of the register structure, separated by commas:
/// `ATTRS pub FIELD: FTY<T>` each.
pub open spec fn map_struct_fields(toks: Seq<Tok>, g: MapRegV, gp: MapRegPlanV, k: nat) -> Seq<TokV>
    decreases k,
{
    if k == 0 || k > g.fields.len() || k > gp.fields.len() {
        Seq::empty()
    } else {
        let f = g.fields[k - 1];
        let fp = gp.fields[k - 1];
        map_struct_fields(toks, g, gp, (k - 1) as nat) + (if k > 1 {
            tp(',')
        } else {
            Seq::empty()
        }) + span_toks(toks, f.attrs) + tw("pub"@) + tw(fp.ident) + tp(':') + tw(fp.ty) + tp('<') + tw("T"@)
            + tp('>')
    }
}

/// The first `k` fields of the register token's constructor:
/// `FIELD: __rt::RegField::<T>::new(),` each.
pub open spec fn map_ctor_fields(toks: Seq<Tok>, g: MapRegV, gp: MapRegPlanV, k: nat) -> Seq<TokV>
    decreases k,
{
    if k == 0 || k > g.fields.len() || k > gp.fields.len() {
        Seq::empty()
    } else {
        let fp = gp.fields[k - 1];
        map_ctor_fields(toks, g, gp, (k - 1) as nat) + tw(fp.ident) + tp(':') + tw("__rt"@) + tj(':', ':') + tw(
            "RegField"@,
        ) + tj(':', ':') + tp('<') + tw("T"@) + tp('>') + tj(':', ':') + tw("new"@) + topen(Delim::Paren)
            + tclose(Delim::Paren) + tp(',')
    }
}

/// The fields of the register structure, or `_marker: __rt::PhantomData<T>`.
pub open spec fn map_struct_body(toks: Seq<Tok>, g: MapRegV, gp: MapRegPlanV) -> Seq<TokV> {
    if g.fields.len() == 0 {
        tw("_marker"@) + tp(':') + tw("__rt"@) + tj(':', ':') + tw("PhantomData"@) + tp('<') + tw("T"@) + tp('>')
    } else {
        map_struct_fields(toks, g, gp, g.fields.len())
    }
}

/// The constructor's fields, or `_marker: __rt::PhantomData,`.
pub open spec fn map_ctor_body(toks: Seq<Tok>, g: MapRegV, gp: MapRegPlanV) -> Seq<TokV> {
    if g.fields.len() == 0 {
        tw("_marker"@) + tp(':') + tw("__rt"@) + tj(':', ':') + tw("PhantomData"@) + tp(',')
    } else {
        map_ctor_fields(toks, g, gp, g.fields.len())
    }
}

/// A register's module and its re-export in the block: `ATTRS pub mod MOD
/// { .. } pub use self::MOD::Reg as TY;`.
pub open spec fn map_reg_module(toks: Seq<Tok>, g: MapRegV, gp: MapRegPlanV) -> Seq<TokV> {
    span_toks(toks, g.attrs) + tw("pub"@) + tw("mod"@) + tw(gp.module) + topen(Delim::Brace) + map_fields_items(
        toks,
        g,
        gp,
        g.fields.len(),
    ) + map_imports(toks, gp.imports) + map_rt_module() + map_reg_traits(toks, g.traits) + map_reg_val(toks, g, gp)
        + map_struct_body(toks, g, gp) + map_reg_impl_head(toks, g, gp) + map_ctor_body(toks, g, gp) + map_reg_hold(
        toks,
        g,
        gp,
    ) + tclose(Delim::Brace) + tw("pub"@) + tw("use"@) + tw("self"@) + tj(':', ':') + tw(gp.module) + tj(':', ':')
        + tw("Reg"@) + tw("as"@) + tw(gp.ty) + tp(';')
}

proof fn lemma_map_plan_fields(toks: Seq<Tok>, block: usize, g: MapReg, gp: MapRegPlan, k: int)
    requires
        map_reg_plan_view(gp) == map_reg_plan(toks, block, map_reg_view(g)),
        0 <= k < g.fields@.len(),
    ensures
        gp.fields@.len() == g.fields@.len(),
        map_reg_view(g).fields[k] == map_field_view(g.fields@[k]),
        map_reg_plan_view(gp).fields[k] == map_field_plan_view(gp.fields@[k]),
        map_reg_view(g).fields.len() == g.fields@.len(),
        map_reg_plan_view(gp).fields.len() == g.fields@.len(),
{
    assert(map_reg_plan_view(gp).fields.len() == gp.fields@.len());
    assert(map_reg_view(g).fields.len() == g.fields@.len());
}

#[verifier::spinoff_prover]
#[verifier::rlimit(80)]
fn emit_map_bodies(toks: &Vec<Tok>, block: usize, g: &MapReg, gp: &MapRegPlan, ctor: bool, out: &mut Vec<Tok>)
    requires
        map_reg_plan_view(*gp) == map_reg_plan(toks@, block, map_reg_view(*g)),
    ensures
        !ctor ==> toks_view(final(out)@) == toks_view(old(out)@) + map_struct_body(toks@, map_reg_view(*g), map_reg_plan_view(*gp)),
        ctor ==> toks_view(final(out)@) == toks_view(old(out)@) + map_ctor_body(toks@, map_reg_view(*g), map_reg_plan_view(*gp)),
{
    let ghost head = toks_view(old(out)@);
    let ghost gv = map_reg_view(*g);
    let ghost gpv = map_reg_plan_view(*gp);
    assert(gv.fields.len() == g.fields@.len());
    assert(gpv.fields.len() == gp.fields@.len());
    if g.fields.len() == 0 {
        emit_word(out, "_marker");
        emit_punct(out, ':');
        emit_word(out, "__rt");
        emit_joint(out, ':', ':');
        emit_word(out, "PhantomData");
        if ctor {
            emit_punct(out, ',');
        } else {
            emit_punct(out, '<');
            emit_word(out, "T");
            emit_punct(out, '>');
        }
        assert(!ctor ==> toks_view(out@) =~= head + map_struct_body(toks@, gv, gpv));
        assert(ctor ==> toks_view(out@) =~= head + map_ctor_body(toks@, gv, gpv));
        return ;
    }
    let mut k: usize = 0;
    assert(head + Seq::<TokV>::empty() =~= head);
    while k < g.fields.len()
        invariant
            k <= g.fields@.len(),
            gv == map_reg_view(*g),
            gpv == map_reg_plan_view(*gp),
            map_reg_plan_view(*gp) == map_reg_plan(toks@, block, map_reg_view(*g)),
            gv.fields.len() == g.fields@.len(),
            gpv.fields.len() == gp.fields@.len(),
            !ctor ==> toks_view(out@) == head + map_struct_fields(toks@, gv, gpv, k as nat),
            ctor ==> toks_view(out@) == head + map_ctor_fields(toks@, gv, gpv, k as nat),
        decreases g.fields@.len() - k,
    {
        proof {
            lemma_map_plan_fields(toks@, block, *g, *gp, k as int);
        }
        let f = &g.fields[k];
        let fp = &gp.fields[k];
        if ctor {
            emit_string(out, &fp.ident);
            emit_punct(out, ':');
            emit_word(out, "__rt");
            emit_joint(out, ':', ':');
            emit_word(out, "RegField");
            emit_joint(out, ':', ':');
            emit_punct(out, '<');
            emit_word(out, "T");
            emit_punct(out, '>');
            emit_joint(out, ':', ':');
            emit_word(out, "new");
            emit_open(out, Delim::Paren);
            emit_close(out, Delim::Paren);
            emit_punct(out, ',');
            assert(toks_view(out@) =~= head + map_ctor_fields(toks@, gv, gpv, (k + 1) as nat));
        } else {
            if k > 0 {
                emit_punct(out, ',');
            }
            emit_span(toks, f.attrs, out);
            emit_word(out, "pub");
            emit_string(out, &fp.ident);
            emit_punct(out, ':');
            emit_string(out, &fp.ty);
            emit_punct(out, '<');
            emit_word(out, "T");
            emit_punct(out, '>');
            assert(toks_view(out@) =~= head + map_struct_fields(toks@, gv, gpv, (k + 1) as nat));
        }
        k = k + 1;
    }
}

fn emit_map_imports(toks: &Vec<Tok>, is: &Vec<usize>, out: &mut Vec<Tok>)
    ensures
        toks_view(final(out)@) == toks_view(old(out)@) + map_imports(toks@, is@),
{
    let ghost b = toks_view(old(out)@);
    if is.len() == 0 {
        assert(toks_view(out@) =~= b + map_imports(toks@, is@));
        return ;
    }
    emit_word(out, "use");
    emit_word(out, "super");
    emit_joint(out, ':', ':');
    emit_word(out, "super");
    emit_joint(out, ':', ':');
    emit_open(out, Delim::Brace);
    let ghost head = toks_view(out@);
    let mut k: usize = 0;
    assert(is@.take(0) =~= Seq::<usize>::empty());
    assert(head + Seq::<TokV>::empty() =~= head);
    while k < is.len()
        invariant
            k <= is@.len(),
            toks_view(out@) == head + map_import_list(toks@, is@.take(k as int)),
        decreases is@.len() - k,
    {
        if k > 0 {
            emit_punct(out, ',');
        }
        emit_span(toks, one_exec(is[k]), out);
        proof {
            let s = is@.take(k + 1);
            assert(s.drop_last() =~= is@.take(k as int));
            assert(toks_view(out@) =~= head + map_import_list(toks@, s));
        }
        k = k + 1;
    }
    assert(is@.take(k as int) =~= is@);
    emit_close(out, Delim::Brace);
    emit_punct(out, ';');
    assert(toks_view(out@) =~= b + map_imports(toks@, is@));
}

fn emit_map_reg_traits(toks: &Vec<Tok>, ts: &Vec<usize>, out: &mut Vec<Tok>)
    ensures
        toks_view(final(out)@) == toks_view(old(out)@) + map_reg_traits(toks@, ts@),
{
    let ghost head = toks_view(old(out)@);
    let mut k: usize = 0;
    assert(ts@.take(0) =~= Seq::<usize>::empty());
    assert(head + Seq::<TokV>::empty() =~= head);
    while k < ts.len()
        invariant
            k <= ts@.len(),
            toks_view(out@) == head + map_reg_traits(toks@, ts@.take(k as int)),
        decreases ts@.len() - k,
    {
        emit_map_reg_trait(toks, ts[k], out);
        proof {
            let s = ts@.take(k + 1);
            assert(s.drop_last() =~= ts@.take(k as int));
            assert(toks_view(out@) =~= head + map_reg_traits(toks@, s));
        }
        k = k + 1;
    }
    assert(ts@.take(k as int) =~= ts@);
}

#[verifier::spinoff_prover]
#[verifier::rlimit(80)]
fn emit_map_reg_module(toks: &Vec<Tok>, block: usize, g: &MapReg, gp: &MapRegPlan, out: &mut Vec<Tok>)
    requires
        map_reg_plan_view(*gp) == map_reg_plan(toks@, block, map_reg_view(*g)),
    ensures
        toks_view(final(out)@) == toks_view(old(out)@) + map_reg_module(toks@, map_reg_view(*g), map_reg_plan_view(*gp)),
{
    let ghost b = toks_view(old(out)@);
    let ghost gv = map_reg_view(*g);
    let ghost gpv = map_reg_plan_view(*gp);
    assert(gv.fields.len() == g.fields@.len());
    assert(gpv.fields.len() == gp.fields@.len());
    emit_span(toks, g.attrs, out);
    emit_word(out, "pub");
    emit_word(out, "mod");
    emit_string(out, &gp.module);
    emit_open(out, Delim::Brace);
    let ghost h = toks_view(out@);
    let mut k: usize = 0;
    assert(h + Seq::<TokV>::empty() =~= h);
    while k < g.fields.len()
        invariant
            k <= g.fields@.len(),
            gv == map_reg_view(*g),
            gpv == map_reg_plan_view(*gp),
            map_reg_plan_view(*gp) == map_reg_plan(toks@, block, map_reg_view(*g)),
            gv.fields.len() == g.fields@.len(),
            gpv.fields.len() == gp.fields@.len(),
            toks_view(out@) == h + map_fields_items(toks@, gv, gpv, k as nat),
        decreases g.fields@.len() - k,
    {
        proof {
            lemma_map_plan_fields(toks@, block, *g, *gp, k as int);
        }
        emit_map_field_items(toks, &g.fields[k], &gp.fields[k], &gp.val_ty, out);
        assert(toks_view(out@) =~= h + map_fields_items(toks@, gv, gpv, (k + 1) as nat));
        k = k + 1;
    }
    emit_map_imports(toks, &gp.imports, out);
    emit_map_rt_module(out);
    emit_map_reg_traits(toks, &g.traits, out);
    emit_map_reg_val(toks, g, gp, out);
    emit_map_bodies(toks, block, g, gp, false, out);
    emit_map_reg_impl_head(toks, g, gp, out);
    emit_map_bodies(toks, block, g, gp, true, out);
    emit_map_reg_hold(toks, g, gp, out);
    emit_close(out, Delim::Brace);
    emit_word(out, "pub");
    emit_word(out, "use");
    emit_word(out, "self");
    emit_joint(out, ':', ':');
    emit_string(out, &gp.module);
    emit_joint(out, ':', ':');
    emit_word(out, "Reg");
    emit_word(out, "as");
    emit_string(out, &gp.ty);
    emit_punct(out, ';');
    assert(toks_view(out@) =~= b + map_reg_module(toks@, gv, gpv));
}

/// The modules of the first `k` registers.
pub open spec fn map_regs(toks: Seq<Tok>, gs: Seq<MapRegV>, gps: Seq<MapRegPlanV>, k: nat) -> Seq<TokV>
    decreases k,
{
    if k == 0 || k > gs.len() || k > gps.len() {
        Seq::empty()
    } else {
        map_regs(toks, gs, gps, (k - 1) as nat) + map_reg_module(toks, gs[k - 1], gps[k - 1])
    }
}

/// `pub use self::BLOCK::TY as ALIAS;` for each register.
pub open spec fn map_aliases(module: Seq<char>, gps: Seq<MapRegPlanV>) -> Seq<TokV>
    decreases gps.len(),
{
    if gps.len() == 0 {
        Seq::empty()
    } else {
        let gp = gps.last();
        map_aliases(module, gps.drop_last()) + tw("pub"@) + tw("use"@) + tw("self"@) + tj(':', ':') + tw(module)
            + tj(':', ':') + tw(gp.ty) + tw("as"@) + tw(gp.alias) + tp(';')
    }
}

/// What `reg_map!` expands to on the input `toks`: the block's module with
/// a module for each register, then an alias of each register outside it.
pub open spec fn spec_expand_reg_map(toks: Seq<Tok>) -> Result<Seq<TokV>, MacroError> {
    match spec_reg_map_input(toks) {
        Err(e) => Err(e),
        Ok(inp) => {
            let module = unkeywordize(inflector_snake(ident_text(toks, inp.ident as int)));
            let gps = inp.regs.map_values(|g: MapRegV| map_reg_plan(toks, inp.ident, g));
            Ok(
                span_toks(toks, inp.attrs) + span_toks(toks, inp.vis.span) + tw("mod"@) + tw(module) + topen(
                    Delim::Brace,
                ) + map_regs(toks, inp.regs, gps, inp.regs.len()) + tclose(Delim::Brace) + map_aliases(module, gps),
            )
        },
    }
}

/// The tokens that `reg_map!` expands to on the input `toks`.
#[verifier::spinoff_prover]
#[verifier::rlimit(80)]
pub fn expand_reg_map(toks: &Vec<Tok>) -> (r: Result<Vec<Tok>, MacroError>)
    ensures
        r matches Err(e) ==> spec_expand_reg_map(toks@) == Err::<Seq<TokV>, MacroError>(e),
        r matches Ok(v) ==> spec_expand_reg_map(toks@) == Ok::<Seq<TokV>, MacroError>(toks_view(v@)),
{
    let p = reg_map(toks)?;
    let ghost inp = map_input_view(p.input);
    let ghost gps = inp.regs.map_values(|g: MapRegV| map_reg_plan(toks@, p.input.ident, g));
    let ghost pv = p.regs@.map_values(|g: MapRegPlan| map_reg_plan_view(g));
    assert(pv == gps);
    assert(pv.len() == p.regs@.len());
    assert(inp.regs.len() == p.input.regs@.len());
    let mut out: Vec<Tok> = Vec::new();
    assert(toks_view(out@) =~= Seq::<TokV>::empty());
    emit_span(toks, p.input.attrs, &mut out);
    emit_span(toks, p.input.vis.span, &mut out);
    emit_word(&mut out, "mod");
    emit_string(&mut out, &p.module);
    emit_open(&mut out, Delim::Brace);
    let ghost h = toks_view(out@);
    let mut k: usize = 0;
    assert(h + Seq::<TokV>::empty() =~= h);
    while k < p.input.regs.len()
        invariant
            k <= p.input.regs@.len(),
            inp == map_input_view(p.input),
            pv == p.regs@.map_values(|g: MapRegPlan| map_reg_plan_view(g)),
            pv == gps,
            gps == inp.regs.map_values(|g: MapRegV| map_reg_plan(toks@, p.input.ident, g)),
            pv.len() == p.regs@.len(),
            inp.regs.len() == p.input.regs@.len(),
            toks_view(out@) == h + map_regs(toks@, inp.regs, gps, k as nat),
        decreases p.input.regs@.len() - k,
    {
        assert(pv[k as int] == map_reg_plan_view(p.regs@[k as int]));
        assert(inp.regs[k as int] == map_reg_view(p.input.regs@[k as int]));
        emit_map_reg_module(toks, p.input.ident, &p.input.regs[k], &p.regs[k], &mut out);
        assert(toks_view(out@) =~= h + map_regs(toks@, inp.regs, gps, (k + 1) as nat));
        k = k + 1;
    }
    emit_close(&mut out, Delim::Brace);
    let ghost h2 = toks_view(out@);
    let mut j: usize = 0;
    assert(gps.take(0) =~= Seq::<MapRegPlanV>::empty());
    assert(h2 + Seq::<TokV>::empty() =~= h2);
    while j < p.regs.len()
        invariant
            j <= p.regs@.len(),
            pv == p.regs@.map_values(|g: MapRegPlan| map_reg_plan_view(g)),
            pv == gps,
            pv.len() == p.regs@.len(),
            toks_view(out@) == h2 + map_aliases(p.module@, gps.take(j as int)),
        decreases p.regs@.len() - j,
    {
        let gp = &p.regs[j];
        assert(pv[j as int] == map_reg_plan_view(*gp));
        emit_word(&mut out, "pub");
        emit_word(&mut out, "use");
        emit_word(&mut out, "self");
        emit_joint(&mut out, ':', ':');
        emit_string(&mut out, &p.module);
        emit_joint(&mut out, ':', ':');
        emit_string(&mut out, &gp.ty);
        emit_word(&mut out, "as");
        emit_string(&mut out, &gp.alias);
        emit_punct(&mut out, ';');
        proof {
            let s = gps.take(j + 1);
            assert(s.drop_last() =~= gps.take(j as int));
            assert(s.last() == gps[j as int]);
            assert(toks_view(out@) =~= h2 + map_aliases(p.module@, s));
        }
        j = j + 1;
    }
    assert(gps.take(j as int) =~= gps);
    Ok(out)
}

#[verifier::spinoff_prover]
#[verifier::rlimit(100)]
proof fn lemma_map_set_name_calls_set(toks: Seq<Tok>, f: MapFieldV, fp: MapFieldPlanV, val: Seq<char>)
    ensures
        first_use_after(map_field_bit_write(toks, f, fp, val), fp.set_name, tw("WWRegFieldBit"@) + tj(':', ':'), "set"@),
{
    reveal(map_field_bit_write);
    reveal(map_field_bit_write_1);
    reveal(map_field_bit_write_2);
    reveal_strlit("WWRegFieldBit");
    reveal_strlit("mut");
    reveal_strlit("self");
    reveal_strlit("Self");
    reveal_strlit("__rt");
    let w0 = map_field_bit_write_1(toks, f, fp, val);
    let w1 = map_field_bit_write_2(toks, f, fp, val);
    let w2 = map_field_bit_write_3(toks, f, fp, val);
    let w3 = map_field_bit_write_4(toks, f, fp, val);
    let w4 = map_field_bit_write_5(toks, f, fp, val);
    assert(w0 =~= tw("impl"@) + tp('<') + seq![TokV::Punct('\'', true)] + tw("a"@) + tp(',') + tw("T"@) + tp(':') + tw("__rt"@) + tj(':', ':') + tw("RegTag"@) + tp('>') + tw("Hold"@) + tp('<') + seq![TokV::Punct('\'', true)] + tw("a"@) + tp(',') + tw("T"@) + tp('>') + topen(Delim::Brace) + span_toks(toks, f.attrs) + tp('#') + topen(Delim::Bracket) + tw("inline"@) + topen(Delim::Paren) + tw("always"@) + tclose(Delim::Paren) + tclose(Delim::Bracket) + tw("pub"@) + tw("fn"@) + tw(fp.set_name));
    assert(w1 =~= topen(Delim::Paren) + tp('&') + tw("mut"@) + tw("self"@) + tclose(Delim::Paren) + tj('-', '>') + tp('&') + tw("mut"@) + tw("Self"@) + topen(Delim::Brace) + tw("__rt"@) + tj(':', ':') + tw("WWRegFieldBit"@) + tj(':', ':') + tw("set"@) + topen(Delim::Paren) + tp('&') + tw("self"@) + tp('.') + tw("reg"@) + tp('.') + tw(fp.ident) + tp(',') + tp('&') + tw("mut"@) + tw("self"@) + tp('.') + tw("val"@) + tclose(Delim::Paren) + tp(';'));
    let a = tw("impl"@) + tp('<') + seq![TokV::Punct('\'', true)] + tw("a"@) + tp(',') + tw("T"@) + tp(':') + tw("__rt"@) + tj(':', ':') + tw("RegTag"@) + tp('>') + tw("Hold"@) + tp('<') + seq![TokV::Punct('\'', true)] + tw("a"@) + tp(',') + tw("T"@) + tp('>') + topen(Delim::Brace) + span_toks(toks, f.attrs) + tp('#') + topen(Delim::Bracket) + tw("inline"@) + topen(Delim::Paren) + tw("always"@) + tclose(Delim::Paren) + tclose(Delim::Bracket) + tw("pub"@) + tw("fn"@);
    let b = topen(Delim::Paren) + tp('&') + tw("mut"@) + tw("self"@) + tclose(Delim::Paren) + tj('-', '>') + tp('&') + tw("mut"@) + tw("Self"@) + topen(Delim::Brace) + tw("__rt"@) + tj(':', ':');
    let c = topen(Delim::Paren) + tp('&') + tw("self"@) + tp('.') + tw("reg"@) + tp('.') + tw(fp.ident) + tp(',') + tp('&') + tw("mut"@) + tw("self"@) + tp('.') + tw("val"@) + tclose(Delim::Paren) + tp(';') + w2 + w3 + w4;
    let mk = tw("WWRegFieldBit"@) + tj(':', ':');
    let e = seq![TokV::Open(Delim::Paren), TokV::Punct('&', false), TokV::Ident("mut"@), TokV::Ident("self"@), TokV::Close(Delim::Paren), TokV::Punct('-', true), TokV::Punct('>', false), TokV::Punct('&', false), TokV::Ident("mut"@), TokV::Ident("Self"@), TokV::Open(Delim::Brace), TokV::Ident("__rt"@), TokV::Punct(':', true), TokV::Punct(':', false)];
    assert(b =~= e);
    assert("Self"@ != "WWRegFieldBit"@) by { assert("Self"@.len() != "WWRegFieldBit"@.len()); }
    assert("__rt"@ != "WWRegFieldBit"@) by { assert("__rt"@.len() != "WWRegFieldBit"@.len()); }
    assert("mut"@ != "WWRegFieldBit"@) by { assert("mut"@.len() != "WWRegFieldBit"@.len()); }
    assert("self"@ != "WWRegFieldBit"@) by { assert("self"@.len() != "WWRegFieldBit"@.len()); }
    assert(forall|k: int| 0 <= k < e.len() ==> e[k] != mk[0]);
    assert(!b.contains(mk[0]));
    assert(w0 + w1 + w2 + w3 + w4 =~= a + tw(fp.set_name) + b + mk + tw("set"@) + c);
    assert(map_field_bit_write(toks, f, fp, val) == w0 + w1 + w2 + w3 + w4);
}

#[verifier::spinoff_prover]
#[verifier::rlimit(100)]
proof fn lemma_map_clear_name_calls_clear(toks: Seq<Tok>, f: MapFieldV, fp: MapFieldPlanV, val: Seq<char>)
    ensures
        first_use_after(map_field_bit_write(toks, f, fp, val), fp.clear_name, tw("WWRegFieldBit"@) + tj(':', ':'), "clear"@),
{
    reveal(map_field_bit_write);
    reveal(map_field_bit_write_3);
    reveal_strlit("WWRegFieldBit");
    reveal_strlit("mut");
    reveal_strlit("self");
    reveal_strlit("Self");
    reveal_strlit("__rt");
    let w0 = map_field_bit_write_1(toks, f, fp, val);
    let w1 = map_field_bit_write_2(toks, f, fp, val);
    let w2 = map_field_bit_write_3(toks, f, fp, val);
    let w3 = map_field_bit_write_4(toks, f, fp, val);
    let w4 = map_field_bit_write_5(toks, f, fp, val);
    assert(w2 =~= tw("self"@) + tclose(Delim::Brace) + span_toks(toks, f.attrs) + tp('#') + topen(Delim::Bracket) + tw("inline"@) + topen(Delim::Paren) + tw("always"@) + tclose(Delim::Paren) + tclose(Delim::Bracket) + tw("pub"@) + tw("fn"@) + tw(fp.clear_name) + topen(Delim::Paren) + tp('&') + tw("mut"@) + tw("self"@) + tclose(Delim::Paren) + tj('-', '>') + tp('&') + tw("mut"@) + tw("Self"@) + topen(Delim::Brace) + tw("__rt"@) + tj(':', ':') + tw("WWRegFieldBit"@) + tj(':', ':') + tw("clear"@) + topen(Delim::Paren) + tp('&'));
    let a = w0 + w1 + tw("self"@) + tclose(Delim::Brace) + span_toks(toks, f.attrs) + tp('#') + topen(Delim::Bracket) + tw("inline"@) + topen(Delim::Paren) + tw("always"@) + tclose(Delim::Paren) + tclose(Delim::Bracket) + tw("pub"@) + tw("fn"@);
    let b = topen(Delim::Paren) + tp('&') + tw("mut"@) + tw("self"@) + tclose(Delim::Paren) + tj('-', '>') + tp('&') + tw("mut"@) + tw("Self"@) + topen(Delim::Brace) + tw("__rt"@) + tj(':', ':');
    let c = topen(Delim::Paren) + tp('&') + w3 + w4;
    let mk = tw("WWRegFieldBit"@) + tj(':', ':');
    let e = seq![TokV::Open(Delim::Paren), TokV::Punct('&', false), TokV::Ident("mut"@), TokV::Ident("self"@), TokV::Close(Delim::Paren), TokV::Punct('-', true), TokV::Punct('>', false), TokV::Punct('&', false), TokV::Ident("mut"@), TokV::Ident("Self"@), TokV::Open(Delim::Brace), TokV::Ident("__rt"@), TokV::Punct(':', true), TokV::Punct(':', false)];
    assert(b =~= e);
    assert("Self"@ != "WWRegFieldBit"@) by { assert("Self"@.len() != "WWRegFieldBit"@.len()); }
    assert("__rt"@ != "WWRegFieldBit"@) by { assert("__rt"@.len() != "WWRegFieldBit"@.len()); }
    assert("mut"@ != "WWRegFieldBit"@) by { assert("mut"@.len() != "WWRegFieldBit"@.len()); }
    assert("self"@ != "WWRegFieldBit"@) by { assert("self"@.len() != "WWRegFieldBit"@.len()); }
    assert(forall|k: int| 0 <= k < e.len() ==> e[k] != mk[0]);
    assert(!b.contains(mk[0]));
    assert(w0 + w1 + w2 + w3 + w4 =~= a + tw(fp.clear_name) + b + mk + tw("clear"@) + c);
    assert(map_field_bit_write(toks, f, fp, val) == w0 + w1 + w2 + w3 + w4);
}

#[verifier::spinoff_prover]
#[verifier::rlimit(100)]
proof fn lemma_map_toggle_name_calls_toggle(toks: Seq<Tok>, f: MapFieldV, fp: MapFieldPlanV, val: Seq<char>)
    ensures
        first_use_after(map_field_bit_write(toks, f, fp, val), fp.toggle_name, tw("WWRegFieldBit"@) + tj(':', ':'), "toggle"@),
{
    reveal(map_field_bit_write);
    reveal(map_field_bit_write_4);
    reveal(map_field_bit_write_5);
    reveal_strlit("WWRegFieldBit");
    reveal_strlit("mut");
    reveal_strlit("self");
    reveal_strlit("Self");
    reveal_strlit("__rt");
    let w0 = map_field_bit_write_1(toks, f, fp, val);
    let w1 = map_field_bit_write_2(toks, f, fp, val);
    let w2 = map_field_bit_write_3(toks, f, fp, val);
    let w3 = map_field_bit_write_4(toks, f, fp, val);
    let w4 = map_field_bit_write_5(toks, f, fp, val);
    assert(w3 =~= tw("self"@) + tp('.') + tw("reg"@) + tp('.') + tw(fp.ident) + tp(',') + tp('&') + tw("mut"@) + tw("self"@) + tp('.') + tw("val"@) + tclose(Delim::Paren) + tp(';') + tw("self"@) + tclose(Delim::Brace) + span_toks(toks, f.attrs) + tp('#') + topen(Delim::Bracket) + tw("inline"@) + topen(Delim::Paren) + tw("always"@) + tclose(Delim::Paren) + tclose(Delim::Bracket) + tw("pub"@) + tw("fn"@) + tw(fp.toggle_name) + topen(Delim::Paren) + tp('&') + tw("mut"@) + tw("self"@));
    assert(w4 =~= tclose(Delim::Paren) + tj('-', '>') + tp('&') + tw("mut"@) + tw("Self"@) + topen(Delim::Brace) + tw("__rt"@) + tj(':', ':') + tw("WWRegFieldBit"@) + tj(':', ':') + tw("toggle"@) + topen(Delim::Paren) + tp('&') + tw("self"@) + tp('.') + tw("reg"@) + tp('.') + tw(fp.ident) + tp(',') + tp('&') + tw("mut"@) + tw("self"@) + tp('.') + tw("val"@) + tclose(Delim::Paren) + tp(';') + tw("self"@) + tclose(Delim::Brace) + tclose(Delim::Brace));
    let a = w0 + w1 + w2 + tw("self"@) + tp('.') + tw("reg"@) + tp('.') + tw(fp.ident) + tp(',') + tp('&') + tw("mut"@) + tw("self"@) + tp('.') + tw("val"@) + tclose(Delim::Paren) + tp(';') + tw("self"@) + tclose(Delim::Brace) + span_toks(toks, f.attrs) + tp('#') + topen(Delim::Bracket) + tw("inline"@) + topen(Delim::Paren) + tw("always"@) + tclose(Delim::Paren) + tclose(Delim::Bracket) + tw("pub"@) + tw("fn"@);
    let b = topen(Delim::Paren) + tp('&') + tw("mut"@) + tw("self"@) + tclose(Delim::Paren) + tj('-', '>') + tp('&') + tw("mut"@) + tw("Self"@) + topen(Delim::Brace) + tw("__rt"@) + tj(':', ':');
    let c = topen(Delim::Paren) + tp('&') + tw("self"@) + tp('.') + tw("reg"@) + tp('.') + tw(fp.ident) + tp(',') + tp('&') + tw("mut"@) + tw("self"@) + tp('.') + tw("val"@) + tclose(Delim::Paren) + tp(';') + tw("self"@) + tclose(Delim::Brace) + tclose(Delim::Brace);
    let mk = tw("WWRegFieldBit"@) + tj(':', ':');
    let e = seq![TokV::Open(Delim::Paren), TokV::Punct('&', false), TokV::Ident("mut"@), TokV::Ident("self"@), TokV::Close(Delim::Paren), TokV::Punct('-', true), TokV::Punct('>', false), TokV::Punct('&', false), TokV::Ident("mut"@), TokV::Ident("Self"@), TokV::Open(Delim::Brace), TokV::Ident("__rt"@), TokV::Punct(':', true), TokV::Punct(':', false)];
    assert(b =~= e);
    assert("Self"@ != "WWRegFieldBit"@) by { assert("Self"@.len() != "WWRegFieldBit"@.len()); }
    assert("__rt"@ != "WWRegFieldBit"@) by { assert("__rt"@.len() != "WWRegFieldBit"@.len()); }
    assert("mut"@ != "WWRegFieldBit"@) by { assert("mut"@.len() != "WWRegFieldBit"@.len()); }
    assert("self"@ != "WWRegFieldBit"@) by { assert("self"@.len() != "WWRegFieldBit"@.len()); }
    assert(forall|k: int| 0 <= k < e.len() ==> e[k] != mk[0]);
    assert(!b.contains(mk[0]));
    assert(w0 + w1 + w2 + w3 + w4 =~= a + tw(fp.toggle_name) + b + mk + tw("toggle"@) + c);
    assert(map_field_bit_write(toks, f, fp, val) == w0 + w1 + w2 + w3 + w4);
}

/// The writers of a one-bit field do what their names say: `set_NAME` calls
/// `__rt::WWRegFieldBit::set`, `clear_NAME` calls `clear` and `toggle_NAME`
/// calls `toggle`.
pub proof fn law_map_bit_writers_call_their_operation(toks: Seq<Tok>, f: MapFieldV, fp: MapFieldPlanV, val: Seq<char>)
    ensures
        first_use_after(map_field_bit_write(toks, f, fp, val), fp.set_name, tw("WWRegFieldBit"@) + tj(':', ':'), "set"@),
        first_use_after(map_field_bit_write(toks, f, fp, val), fp.clear_name, tw("WWRegFieldBit"@) + tj(':', ':'), "clear"@),
        first_use_after(map_field_bit_write(toks, f, fp, val), fp.toggle_name, tw("WWRegFieldBit"@) + tj(':', ':'), "toggle"@),
{
    lemma_map_set_name_calls_set(toks, f, fp, val);
    lemma_map_clear_name_calls_clear(toks, f, fp, val);
    lemma_map_toggle_name_calls_toggle(toks, f, fp, val);
}

/// The reader of a one-bit field, named as the field, calls the
/// register's `read` of that field.
#[verifier::spinoff_prover]
#[verifier::rlimit(100)]
pub proof fn law_map_field_bit_read_reads_its_field(toks: Seq<Tok>, f: MapFieldV, fp: MapFieldPlanV, val: Seq<char>)
    ensures
        first_use_after(map_field_bit_read(toks, f, fp, val), fp.ident, tw("RRRegFieldBit"@) + tj(':', ':'), "read"@),
{
    reveal(map_field_bit_read);
    reveal(map_field_bit_read_1);
    reveal(map_field_bit_read_2);
    reveal_strlit("RRRegFieldBit");
    reveal_strlit("self");
    reveal_strlit("bool");
    reveal_strlit("__rt");
    let w0 = map_field_bit_read_1(toks, f, fp, val);
    let w1 = map_field_bit_read_2(toks, f, fp, val);
    assert(w0 =~= tw("impl"@) + tp('<') + seq![TokV::Punct('\'', true)] + tw("a"@) + tp(',') + tw("T"@) + tp(':') + tw("__rt"@) + tj(':', ':') + tw("RegTag"@) + tp('>') + tw("Hold"@) + tp('<') + seq![TokV::Punct('\'', true)] + tw("a"@) + tp(',') + tw("T"@) + tp('>') + topen(Delim::Brace) + span_toks(toks, f.attrs) + tp('#') + topen(Delim::Bracket) + tw("inline"@) + topen(Delim::Paren) + tw("always"@) + tclose(Delim::Paren) + tclose(Delim::Bracket) + tw("pub"@) + tw("fn"@) + tw(fp.ident));
    assert(w1 =~= topen(Delim::Paren) + tp('&') + tw("self"@) + tclose(Delim::Paren) + tj('-', '>') + tw("bool"@) + topen(Delim::Brace) + tw("__rt"@) + tj(':', ':') + tw("RRRegFieldBit"@) + tj(':', ':') + tw("read"@) + topen(Delim::Paren) + tp('&') + tw("self"@) + tp('.') + tw("reg"@) + tp('.') + tw(fp.ident) + tp(',') + tp('&') + tw("self"@) + tp('.') + tw("val"@) + tclose(Delim::Paren) + tclose(Delim::Brace) + tclose(Delim::Brace));
    let a = tw("impl"@) + tp('<') + seq![TokV::Punct('\'', true)] + tw("a"@) + tp(',') + tw("T"@) + tp(':') + tw("__rt"@) + tj(':', ':') + tw("RegTag"@) + tp('>') + tw("Hold"@) + tp('<') + seq![TokV::Punct('\'', true)] + tw("a"@) + tp(',') + tw("T"@) + tp('>') + topen(Delim::Brace) + span_toks(toks, f.attrs) + tp('#') + topen(Delim::Bracket) + tw("inline"@) + topen(Delim::Paren) + tw("always"@) + tclose(Delim::Paren) + tclose(Delim::Bracket) + tw("pub"@) + tw("fn"@);
    let b = topen(Delim::Paren) + tp('&') + tw("self"@) + tclose(Delim::Paren) + tj('-', '>') + tw("bool"@) + topen(Delim::Brace) + tw("__rt"@) + tj(':', ':');
    let c = topen(Delim::Paren) + tp('&') + tw("self"@) + tp('.') + tw("reg"@) + tp('.') + tw(fp.ident) + tp(',') + tp('&') + tw("self"@) + tp('.') + tw("val"@) + tclose(Delim::Paren) + tclose(Delim::Brace) + tclose(Delim::Brace);
    let mk = tw("RRRegFieldBit"@) + tj(':', ':');
    let e = seq![TokV::Open(Delim::Paren), TokV::Punct('&', false), TokV::Ident("self"@), TokV::Close(Delim::Paren), TokV::Punct('-', true), TokV::Punct('>', false), TokV::Ident("bool"@), TokV::Open(Delim::Brace), TokV::Ident("__rt"@), TokV::Punct(':', true), TokV::Punct(':', false)];
    assert(b =~= e);
    assert("__rt"@ != "RRRegFieldBit"@) by { assert("__rt"@.len() != "RRRegFieldBit"@.len()); }
    assert("bool"@ != "RRRegFieldBit"@) by { assert("bool"@.len() != "RRRegFieldBit"@.len()); }
    assert("self"@ != "RRRegFieldBit"@) by { assert("self"@.len() != "RRRegFieldBit"@.len()); }
    assert(forall|k: int| 0 <= k < e.len() ==> e[k] != mk[0]);
    assert(!b.contains(mk[0]));
    assert(w0 + w1 =~= a + tw(fp.ident) + b + mk + tw("read"@) + c);
    assert(map_field_bit_read(toks, f, fp, val) == w0 + w1);
}

} // verus!
