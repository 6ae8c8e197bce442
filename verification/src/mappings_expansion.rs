//! The tokens of `mappings!`: the block's module, with for each register
//! its module (its fields' tokens and accessors, the register token, its
//! holder and its value), then an alias of each register.

use crate::case::{decimal, decimal_u64, inflector_snake};
use crate::mappings::{
    MField, MFieldPlan, MFieldPlanV, MFieldV, MReg, MRegPlan, MRegPlanV, MRegV, mappings, mappings_view,
    mfield_plan_view, mfield_view, mreg_plan, mreg_plan_view, mreg_view, spec_mappings_input,
};
use crate::thr_static::{one, one_exec};
use crate::thread_local::{emit_pound_attrs, pound_attrs};
use crate::token::{
    Delim, MacroError, Span, Tok, TokV, emit_close, emit_joint, emit_literal, emit_open, emit_punct,
    emit_span, emit_string, emit_word, first_use_after, ident_text, push_tok, span_toks, tclose, tj, tl, topen, toks_view,
    tp, tw,
};
use vstd::prelude::*;

verus! {

/// A part of `mfield_bit_read`.
#[verifier::opaque]
pub open spec fn mfield_bit_read_1(toks: Seq<Tok>, f: MFieldV, fp: MFieldPlanV, raw: Seq<char>) -> Seq<TokV> {
    tw("impl"@) + tp('<') + seq![TokV::Punct('\'', true)] + tw("a"@) + tp(',') + tw("T"@) + tp(':') + tw("reg"@) + tj(':', ':') + tw("RegTag"@) + tp('>') + tw("self"@) + tj(':', ':') + tw("Hold"@) + tp('<') + seq![TokV::Punct('\'', true)] + tw("a"@) + tp(',') + tw("T"@) + tp('>') + topen(Delim::Brace) + pound_attrs(toks, f.attrs) + tp('#') + topen(Delim::Bracket) + tw("inline"@) + topen(Delim::Paren) + tw("always"@) + tclose(Delim::Paren) + tclose(Delim::Bracket) + tw("pub"@)
}

#[verifier::spinoff_prover]
#[verifier::rlimit(80)]
fn emit_mfield_bit_read_1(toks: &Vec<Tok>, f: &MField, fp: &MFieldPlan, raw: &String, out: &mut Vec<Tok>)
    ensures
        toks_view(final(out)@) == toks_view(old(out)@) + mfield_bit_read_1(toks@, mfield_view(*f), mfield_plan_view(*fp), raw@),
{
    let ghost b = toks_view(old(out)@);
    emit_word(out, "impl");
    emit_punct(out, '<');
    push_tok(out, Tok::Punct('\'', true));
    emit_word(out, "a");
    emit_punct(out, ',');
    emit_word(out, "T");
    emit_punct(out, ':');
    emit_word(out, "reg");
    emit_joint(out, ':', ':');
    emit_word(out, "RegTag");
    emit_punct(out, '>');
    emit_word(out, "self");
    emit_joint(out, ':', ':');
    emit_word(out, "Hold");
    emit_punct(out, '<');
    push_tok(out, Tok::Punct('\'', true));
    emit_word(out, "a");
    emit_punct(out, ',');
    emit_word(out, "T");
    emit_punct(out, '>');
    emit_open(out, Delim::Brace);
    emit_pound_attrs(toks, &f.attrs, out);
    emit_punct(out, '#');
    emit_open(out, Delim::Bracket);
    emit_word(out, "inline");
    emit_open(out, Delim::Paren);
    emit_word(out, "always");
    emit_close(out, Delim::Paren);
    emit_close(out, Delim::Bracket);
    emit_word(out, "pub");
    proof {
        reveal(mfield_bit_read_1);
    }
    assert(toks_view(out@) =~= b + mfield_bit_read_1(toks@, mfield_view(*f), mfield_plan_view(*fp), raw@));
}

/// A part of `mfield_bit_read`.
#[verifier::opaque]
pub open spec fn mfield_bit_read_2(toks: Seq<Tok>, f: MFieldV, fp: MFieldPlanV, raw: Seq<char>) -> Seq<TokV> {
    tw("fn"@) + tw(fp.ident) + topen(Delim::Paren) + tp('&') + tw("self"@) + tclose(Delim::Paren) + tj('-', '>') + tw("bool"@) + topen(Delim::Brace) + tw("self"@) + tp('.') + tw("reg"@) + tp('.') + tw(fp.ident) + tp('.') + tw("read"@) + topen(Delim::Paren) + tp('&') + tw("self"@) + tp('.') + tw("val"@) + tclose(Delim::Paren) + tclose(Delim::Brace) + tclose(Delim::Brace)
}

#[verifier::spinoff_prover]
#[verifier::rlimit(80)]
fn emit_mfield_bit_read_2(toks: &Vec<Tok>, f: &MField, fp: &MFieldPlan, raw: &String, out: &mut Vec<Tok>)
    ensures
        toks_view(final(out)@) == toks_view(old(out)@) + mfield_bit_read_2(toks@, mfield_view(*f), mfield_plan_view(*fp), raw@),
{
    let ghost b = toks_view(old(out)@);
    emit_word(out, "fn");
    emit_string(out, &fp.ident);
    emit_open(out, Delim::Paren);
    emit_punct(out, '&');
    emit_word(out, "self");
    emit_close(out, Delim::Paren);
    emit_joint(out, '-', '>');
    emit_word(out, "bool");
    emit_open(out, Delim::Brace);
    emit_word(out, "self");
    emit_punct(out, '.');
    emit_word(out, "reg");
    emit_punct(out, '.');
    emit_string(out, &fp.ident);
    emit_punct(out, '.');
    emit_word(out, "read");
    emit_open(out, Delim::Paren);
    emit_punct(out, '&');
    emit_word(out, "self");
    emit_punct(out, '.');
    emit_word(out, "val");
    emit_close(out, Delim::Paren);
    emit_close(out, Delim::Brace);
    emit_close(out, Delim::Brace);
    proof {
        reveal(mfield_bit_read_2);
    }
    assert(toks_view(out@) =~= b + mfield_bit_read_2(toks@, mfield_view(*f), mfield_plan_view(*fp), raw@));
}

/// The getter of a one-bit field.
#[verifier::opaque]
pub open spec fn mfield_bit_read(toks: Seq<Tok>, f: MFieldV, fp: MFieldPlanV, raw: Seq<char>) -> Seq<TokV> {
    mfield_bit_read_1(toks, f, fp, raw) + mfield_bit_read_2(toks, f, fp, raw)
}

#[verifier::spinoff_prover]
#[verifier::rlimit(80)]
fn emit_mfield_bit_read(toks: &Vec<Tok>, f: &MField, fp: &MFieldPlan, raw: &String, out: &mut Vec<Tok>)
    ensures
        toks_view(final(out)@) == toks_view(old(out)@) + mfield_bit_read(toks@, mfield_view(*f), mfield_plan_view(*fp), raw@),
{
    let ghost b = toks_view(old(out)@);
    emit_mfield_bit_read_1(toks, f, fp, raw, out);
    emit_mfield_bit_read_2(toks, f, fp, raw, out);
    proof {
        reveal(mfield_bit_read);
    }
    assert(toks_view(out@) =~= b + mfield_bit_read(toks@, mfield_view(*f), mfield_plan_view(*fp), raw@));
}

/// A part of `mfield_bit_write`.
#[verifier::opaque]
pub open spec fn mfield_bit_write_1(toks: Seq<Tok>, f: MFieldV, fp: MFieldPlanV, raw: Seq<char>) -> Seq<TokV> {
    tw("impl"@) + tp('<') + seq![TokV::Punct('\'', true)] + tw("a"@) + tp(',') + tw("T"@) + tp(':') + tw("reg"@) + tj(':', ':') + tw("RegTag"@) + tp('>') + tw("self"@) + tj(':', ':') + tw("Hold"@) + tp('<') + seq![TokV::Punct('\'', true)] + tw("a"@) + tp(',') + tw("T"@) + tp('>') + topen(Delim::Brace) + pound_attrs(toks, f.attrs) + tp('#') + topen(Delim::Bracket) + tw("inline"@) + topen(Delim::Paren) + tw("always"@) + tclose(Delim::Paren) + tclose(Delim::Bracket) + tw("pub"@)
}

#[verifier::spinoff_prover]
#[verifier::rlimit(80)]
fn emit_mfield_bit_write_1(toks: &Vec<Tok>, f: &MField, fp: &MFieldPlan, raw: &String, out: &mut Vec<Tok>)
    ensures
        toks_view(final(out)@) == toks_view(old(out)@) + mfield_bit_write_1(toks@, mfield_view(*f), mfield_plan_view(*fp), raw@),
{
    let ghost b = toks_view(old(out)@);
    emit_word(out, "impl");
    emit_punct(out, '<');
    push_tok(out, Tok::Punct('\'', true));
    emit_word(out, "a");
    emit_punct(out, ',');
    emit_word(out, "T");
    emit_punct(out, ':');
    emit_word(out, "reg");
    emit_joint(out, ':', ':');
    emit_word(out, "RegTag");
    emit_punct(out, '>');
    emit_word(out, "self");
    emit_joint(out, ':', ':');
    emit_word(out, "Hold");
    emit_punct(out, '<');
    push_tok(out, Tok::Punct('\'', true));
    emit_word(out, "a");
    emit_punct(out, ',');
    emit_word(out, "T");
    emit_punct(out, '>');
    emit_open(out, Delim::Brace);
    emit_pound_attrs(toks, &f.attrs, out);
    emit_punct(out, '#');
    emit_open(out, Delim::Bracket);
    emit_word(out, "inline");
    emit_open(out, Delim::Paren);
    emit_word(out, "always");
    emit_close(out, Delim::Paren);
    emit_close(out, Delim::Bracket);
    emit_word(out, "pub");
    proof {
        reveal(mfield_bit_write_1);
    }
    assert(toks_view(out@) =~= b + mfield_bit_write_1(toks@, mfield_view(*f), mfield_plan_view(*fp), raw@));
}

/// A part of `mfield_bit_write`.
#[verifier::opaque]
pub open spec fn mfield_bit_write_2(toks: Seq<Tok>, f: MFieldV, fp: MFieldPlanV, raw: Seq<char>) -> Seq<TokV> {
    tw("fn"@) + tw(fp.set_name) + topen(Delim::Paren) + tp('&') + tw("mut"@) + tw("self"@) + tclose(Delim::Paren) + tj('-', '>') + tp('&') + tw("mut"@) + tw("Self"@) + topen(Delim::Brace) + tw("self"@) + tp('.') + tw("reg"@) + tp('.') + tw(fp.ident) + tp('.') + tw("set"@) + topen(Delim::Paren) + tp('&') + tw("mut"@) + tw("self"@) + tp('.') + tw("val"@) + tclose(Delim::Paren) + tp(';') + tw("self"@) + tclose(Delim::Brace) + pound_attrs(toks, f.attrs)
}

#[verifier::spinoff_prover]
#[verifier::rlimit(80)]
fn emit_mfield_bit_write_2(toks: &Vec<Tok>, f: &MField, fp: &MFieldPlan, raw: &String, out: &mut Vec<Tok>)
    ensures
        toks_view(final(out)@) == toks_view(old(out)@) + mfield_bit_write_2(toks@, mfield_view(*f), mfield_plan_view(*fp), raw@),
{
    let ghost b = toks_view(old(out)@);
    emit_word(out, "fn");
    emit_string(out, &fp.set_name);
    emit_open(out, Delim::Paren);
    emit_punct(out, '&');
    emit_word(out, "mut");
    emit_word(out, "self");
    emit_close(out, Delim::Paren);
    emit_joint(out, '-', '>');
    emit_punct(out, '&');
    emit_word(out, "mut");
    emit_word(out, "Self");
    emit_open(out, Delim::Brace);
    emit_word(out, "self");
    emit_punct(out, '.');
    emit_word(out, "reg");
    emit_punct(out, '.');
    emit_string(out, &fp.ident);
    emit_punct(out, '.');
    emit_word(out, "set");
    emit_open(out, Delim::Paren);
    emit_punct(out, '&');
    emit_word(out, "mut");
    emit_word(out, "self");
    emit_punct(out, '.');
    emit_word(out, "val");
    emit_close(out, Delim::Paren);
    emit_punct(out, ';');
    emit_word(out, "self");
    emit_close(out, Delim::Brace);
    emit_pound_attrs(toks, &f.attrs, out);
    proof {
        reveal(mfield_bit_write_2);
    }
    assert(toks_view(out@) =~= b + mfield_bit_write_2(toks@, mfield_view(*f), mfield_plan_view(*fp), raw@));
}

/// A part of `mfield_bit_write`.
#[verifier::opaque]
pub open spec fn mfield_bit_write_3(toks: Seq<Tok>, f: MFieldV, fp: MFieldPlanV, raw: Seq<char>) -> Seq<TokV> {
    tp('#') + topen(Delim::Bracket) + tw("inline"@) + topen(Delim::Paren) + tw("always"@) + tclose(Delim::Paren) + tclose(Delim::Bracket) + tw("pub"@) + tw("fn"@) + tw(fp.clear_name) + topen(Delim::Paren) + tp('&') + tw("mut"@) + tw("self"@) + tclose(Delim::Paren) + tj('-', '>') + tp('&') + tw("mut"@) + tw("Self"@) + topen(Delim::Brace) + tw("self"@) + tp('.') + tw("reg"@) + tp('.') + tw(fp.ident) + tp('.') + tw("clear"@) + topen(Delim::Paren) + tp('&') + tw("mut"@)
}

#[verifier::spinoff_prover]
#[verifier::rlimit(80)]
fn emit_mfield_bit_write_3(toks: &Vec<Tok>, f: &MField, fp: &MFieldPlan, raw: &String, out: &mut Vec<Tok>)
    ensures
        toks_view(final(out)@) == toks_view(old(out)@) + mfield_bit_write_3(toks@, mfield_view(*f), mfield_plan_view(*fp), raw@),
{
    let ghost b = toks_view(old(out)@);
    emit_punct(out, '#');
    emit_open(out, Delim::Bracket);
    emit_word(out, "inline");
    emit_open(out, Delim::Paren);
    emit_word(out, "always");
    emit_close(out, Delim::Paren);
    emit_close(out, Delim::Bracket);
    emit_word(out, "pub");
    emit_word(out, "fn");
    emit_string(out, &fp.clear_name);
    emit_open(out, Delim::Paren);
    emit_punct(out, '&');
    emit_word(out, "mut");
    emit_word(out, "self");
    emit_close(out, Delim::Paren);
    emit_joint(out, '-', '>');
    emit_punct(out, '&');
    emit_word(out, "mut");
    emit_word(out, "Self");
    emit_open(out, Delim::Brace);
    emit_word(out, "self");
    emit_punct(out, '.');
    emit_word(out, "reg");
    emit_punct(out, '.');
    emit_string(out, &fp.ident);
    emit_punct(out, '.');
    emit_word(out, "clear");
    emit_open(out, Delim::Paren);
    emit_punct(out, '&');
    emit_word(out, "mut");
    proof {
        reveal(mfield_bit_write_3);
    }
    assert(toks_view(out@) =~= b + mfield_bit_write_3(toks@, mfield_view(*f), mfield_plan_view(*fp), raw@));
}

/// A part of `mfield_bit_write`.
#[verifier::opaque]
pub open spec fn mfield_bit_write_4(toks: Seq<Tok>, f: MFieldV, fp: MFieldPlanV, raw: Seq<char>) -> Seq<TokV> {
    tw("self"@) + tp('.') + tw("val"@) + tclose(Delim::Paren) + tp(';') + tw("self"@) + tclose(Delim::Brace) + pound_attrs(toks, f.attrs) + tp('#') + topen(Delim::Bracket) + tw("inline"@) + topen(Delim::Paren) + tw("always"@) + tclose(Delim::Paren) + tclose(Delim::Bracket) + tw("pub"@) + tw("fn"@) + tw(fp.toggle_name) + topen(Delim::Paren) + tp('&') + tw("mut"@) + tw("self"@) + tclose(Delim::Paren) + tj('-', '>') + tp('&') + tw("mut"@) + tw("Self"@) + topen(Delim::Brace) + tw("self"@) + tp('.')
}

#[verifier::spinoff_prover]
#[verifier::rlimit(80)]
fn emit_mfield_bit_write_4(toks: &Vec<Tok>, f: &MField, fp: &MFieldPlan, raw: &String, out: &mut Vec<Tok>)
    ensures
        toks_view(final(out)@) == toks_view(old(out)@) + mfield_bit_write_4(toks@, mfield_view(*f), mfield_plan_view(*fp), raw@),
{
    let ghost b = toks_view(old(out)@);
    emit_word(out, "self");
    emit_punct(out, '.');
    emit_word(out, "val");
    emit_close(out, Delim::Paren);
    emit_punct(out, ';');
    emit_word(out, "self");
    emit_close(out, Delim::Brace);
    emit_pound_attrs(toks, &f.attrs, out);
    emit_punct(out, '#');
    emit_open(out, Delim::Bracket);
    emit_word(out, "inline");
    emit_open(out, Delim::Paren);
    emit_word(out, "always");
    emit_close(out, Delim::Paren);
    emit_close(out, Delim::Bracket);
    emit_word(out, "pub");
    emit_word(out, "fn");
    emit_string(out, &fp.toggle_name);
    emit_open(out, Delim::Paren);
    emit_punct(out, '&');
    emit_word(out, "mut");
    emit_word(out, "self");
    emit_close(out, Delim::Paren);
    emit_joint(out, '-', '>');
    emit_punct(out, '&');
    emit_word(out, "mut");
    emit_word(out, "Self");
    emit_open(out, Delim::Brace);
    emit_word(out, "self");
    emit_punct(out, '.');
    proof {
        reveal(mfield_bit_write_4);
    }
    assert(toks_view(out@) =~= b + mfield_bit_write_4(toks@, mfield_view(*f), mfield_plan_view(*fp), raw@));
}

/// A part of `mfield_bit_write`.
#[verifier::opaque]
pub open spec fn mfield_bit_write_5(toks: Seq<Tok>, f: MFieldV, fp: MFieldPlanV, raw: Seq<char>) -> Seq<TokV> {
    tw("reg"@) + tp('.') + tw(fp.ident) + tp('.') + tw("toggle"@) + topen(Delim::Paren) + tp('&') + tw("mut"@) + tw("self"@) + tp('.') + tw("val"@) + tclose(Delim::Paren) + tp(';') + tw("self"@) + tclose(Delim::Brace) + tclose(Delim::Brace)
}

#[verifier::spinoff_prover]
#[verifier::rlimit(80)]
fn emit_mfield_bit_write_5(toks: &Vec<Tok>, f: &MField, fp: &MFieldPlan, raw: &String, out: &mut Vec<Tok>)
    ensures
        toks_view(final(out)@) == toks_view(old(out)@) + mfield_bit_write_5(toks@, mfield_view(*f), mfield_plan_view(*fp), raw@),
{
    let ghost b = toks_view(old(out)@);
    emit_word(out, "reg");
    emit_punct(out, '.');
    emit_string(out, &fp.ident);
    emit_punct(out, '.');
    emit_word(out, "toggle");
    emit_open(out, Delim::Paren);
    emit_punct(out, '&');
    emit_word(out, "mut");
    emit_word(out, "self");
    emit_punct(out, '.');
    emit_word(out, "val");
    emit_close(out, Delim::Paren);
    emit_punct(out, ';');
    emit_word(out, "self");
    emit_close(out, Delim::Brace);
    emit_close(out, Delim::Brace);
    proof {
        reveal(mfield_bit_write_5);
    }
    assert(toks_view(out@) =~= b + mfield_bit_write_5(toks@, mfield_view(*f), mfield_plan_view(*fp), raw@));
}

/// The setter, clearer and toggler of a one-bit field.
#[verifier::opaque]
pub open spec fn mfield_bit_write(toks: Seq<Tok>, f: MFieldV, fp: MFieldPlanV, raw: Seq<char>) -> Seq<TokV> {
    mfield_bit_write_1(toks, f, fp, raw) + mfield_bit_write_2(toks, f, fp, raw) + mfield_bit_write_3(toks, f, fp, raw) + mfield_bit_write_4(toks, f, fp, raw) + mfield_bit_write_5(toks, f, fp, raw)
}

#[verifier::spinoff_prover]
#[verifier::rlimit(80)]
fn emit_mfield_bit_write(toks: &Vec<Tok>, f: &MField, fp: &MFieldPlan, raw: &String, out: &mut Vec<Tok>)
    ensures
        toks_view(final(out)@) == toks_view(old(out)@) + mfield_bit_write(toks@, mfield_view(*f), mfield_plan_view(*fp), raw@),
{
    let ghost b = toks_view(old(out)@);
    emit_mfield_bit_write_1(toks, f, fp, raw, out);
    emit_mfield_bit_write_2(toks, f, fp, raw, out);
    emit_mfield_bit_write_3(toks, f, fp, raw, out);
    emit_mfield_bit_write_4(toks, f, fp, raw, out);
    emit_mfield_bit_write_5(toks, f, fp, raw, out);
    proof {
        reveal(mfield_bit_write);
    }
    assert(toks_view(out@) =~= b + mfield_bit_write(toks@, mfield_view(*f), mfield_plan_view(*fp), raw@));
}

/// A part of `mfield_bits_read`.
#[verifier::opaque]
pub open spec fn mfield_bits_read_1(toks: Seq<Tok>, f: MFieldV, fp: MFieldPlanV, raw: Seq<char>) -> Seq<TokV> {
    tw("impl"@) + tp('<') + seq![TokV::Punct('\'', true)] + tw("a"@) + tp(',') + tw("T"@) + tp(':') + tw("reg"@) + tj(':', ':') + tw("RegTag"@) + tp('>') + tw("self"@) + tj(':', ':') + tw("Hold"@) + tp('<') + seq![TokV::Punct('\'', true)] + tw("a"@) + tp(',') + tw("T"@) + tp('>') + topen(Delim::Brace) + pound_attrs(toks, f.attrs) + tp('#') + topen(Delim::Bracket) + tw("inline"@) + topen(Delim::Paren) + tw("always"@) + tclose(Delim::Paren) + tclose(Delim::Bracket) + tw("pub"@)
}

#[verifier::spinoff_prover]
#[verifier::rlimit(80)]
fn emit_mfield_bits_read_1(toks: &Vec<Tok>, f: &MField, fp: &MFieldPlan, raw: &String, out: &mut Vec<Tok>)
    ensures
        toks_view(final(out)@) == toks_view(old(out)@) + mfield_bits_read_1(toks@, mfield_view(*f), mfield_plan_view(*fp), raw@),
{
    let ghost b = toks_view(old(out)@);
    emit_word(out, "impl");
    emit_punct(out, '<');
    push_tok(out, Tok::Punct('\'', true));
    emit_word(out, "a");
    emit_punct(out, ',');
    emit_word(out, "T");
    emit_punct(out, ':');
    emit_word(out, "reg");
    emit_joint(out, ':', ':');
    emit_word(out, "RegTag");
    emit_punct(out, '>');
    emit_word(out, "self");
    emit_joint(out, ':', ':');
    emit_word(out, "Hold");
    emit_punct(out, '<');
    push_tok(out, Tok::Punct('\'', true));
    emit_word(out, "a");
    emit_punct(out, ',');
    emit_word(out, "T");
    emit_punct(out, '>');
    emit_open(out, Delim::Brace);
    emit_pound_attrs(toks, &f.attrs, out);
    emit_punct(out, '#');
    emit_open(out, Delim::Bracket);
    emit_word(out, "inline");
    emit_open(out, Delim::Paren);
    emit_word(out, "always");
    emit_close(out, Delim::Paren);
    emit_close(out, Delim::Bracket);
    emit_word(out, "pub");
    proof {
        reveal(mfield_bits_read_1);
    }
    assert(toks_view(out@) =~= b + mfield_bits_read_1(toks@, mfield_view(*f), mfield_plan_view(*fp), raw@));
}

/// A part of `mfield_bits_read`.
#[verifier::opaque]
pub open spec fn mfield_bits_read_2(toks: Seq<Tok>, f: MFieldV, fp: MFieldPlanV, raw: Seq<char>) -> Seq<TokV> {
    tw("fn"@) + tw(fp.ident) + topen(Delim::Paren) + tp('&') + tw("self"@) + tclose(Delim::Paren) + tj('-', '>') + tw(raw) + topen(Delim::Brace) + tw("self"@) + tp('.') + tw("reg"@) + tp('.') + tw(fp.ident) + tp('.') + tw("read"@) + topen(Delim::Paren) + tp('&') + tw("self"@) + tp('.') + tw("val"@) + tclose(Delim::Paren) + tclose(Delim::Brace) + tclose(Delim::Brace)
}

#[verifier::spinoff_prover]
#[verifier::rlimit(80)]
fn emit_mfield_bits_read_2(toks: &Vec<Tok>, f: &MField, fp: &MFieldPlan, raw: &String, out: &mut Vec<Tok>)
    ensures
        toks_view(final(out)@) == toks_view(old(out)@) + mfield_bits_read_2(toks@, mfield_view(*f), mfield_plan_view(*fp), raw@),
{
    let ghost b = toks_view(old(out)@);
    emit_word(out, "fn");
    emit_string(out, &fp.ident);
    emit_open(out, Delim::Paren);
    emit_punct(out, '&');
    emit_word(out, "self");
    emit_close(out, Delim::Paren);
    emit_joint(out, '-', '>');
    emit_string(out, raw);
    emit_open(out, Delim::Brace);
    emit_word(out, "self");
    emit_punct(out, '.');
    emit_word(out, "reg");
    emit_punct(out, '.');
    emit_string(out, &fp.ident);
    emit_punct(out, '.');
    emit_word(out, "read");
    emit_open(out, Delim::Paren);
    emit_punct(out, '&');
    emit_word(out, "self");
    emit_punct(out, '.');
    emit_word(out, "val");
    emit_close(out, Delim::Paren);
    emit_close(out, Delim::Brace);
    emit_close(out, Delim::Brace);
    proof {
        reveal(mfield_bits_read_2);
    }
    assert(toks_view(out@) =~= b + mfield_bits_read_2(toks@, mfield_view(*f), mfield_plan_view(*fp), raw@));
}

/// The getter of a field of several bits.
#[verifier::opaque]
pub open spec fn mfield_bits_read(toks: Seq<Tok>, f: MFieldV, fp: MFieldPlanV, raw: Seq<char>) -> Seq<TokV> {
    mfield_bits_read_1(toks, f, fp, raw) + mfield_bits_read_2(toks, f, fp, raw)
}

#[verifier::spinoff_prover]
#[verifier::rlimit(80)]
fn emit_mfield_bits_read(toks: &Vec<Tok>, f: &MField, fp: &MFieldPlan, raw: &String, out: &mut Vec<Tok>)
    ensures
        toks_view(final(out)@) == toks_view(old(out)@) + mfield_bits_read(toks@, mfield_view(*f), mfield_plan_view(*fp), raw@),
{
    let ghost b = toks_view(old(out)@);
    emit_mfield_bits_read_1(toks, f, fp, raw, out);
    emit_mfield_bits_read_2(toks, f, fp, raw, out);
    proof {
        reveal(mfield_bits_read);
    }
    assert(toks_view(out@) =~= b + mfield_bits_read(toks@, mfield_view(*f), mfield_plan_view(*fp), raw@));
}

/// A part of `mfield_bits_write`.
#[verifier::opaque]
pub open spec fn mfield_bits_write_1(toks: Seq<Tok>, f: MFieldV, fp: MFieldPlanV, raw: Seq<char>) -> Seq<TokV> {
    tw("impl"@) + tp('<') + seq![TokV::Punct('\'', true)] + tw("a"@) + tp(',') + tw("T"@) + tp(':') + tw("reg"@) + tj(':', ':') + tw("RegTag"@) + tp('>') + tw("self"@) + tj(':', ':') + tw("Hold"@) + tp('<') + seq![TokV::Punct('\'', true)] + tw("a"@) + tp(',') + tw("T"@) + tp('>') + topen(Delim::Brace) + pound_attrs(toks, f.attrs) + tp('#') + topen(Delim::Bracket) + tw("inline"@) + topen(Delim::Paren) + tw("always"@) + tclose(Delim::Paren) + tclose(Delim::Bracket) + tw("pub"@)
}

#[verifier::spinoff_prover]
#[verifier::rlimit(80)]
fn emit_mfield_bits_write_1(toks: &Vec<Tok>, f: &MField, fp: &MFieldPlan, raw: &String, out: &mut Vec<Tok>)
    ensures
        toks_view(final(out)@) == toks_view(old(out)@) + mfield_bits_write_1(toks@, mfield_view(*f), mfield_plan_view(*fp), raw@),
{
    let ghost b = toks_view(old(out)@);
    emit_word(out, "impl");
    emit_punct(out, '<');
    push_tok(out, Tok::Punct('\'', true));
    emit_word(out, "a");
    emit_punct(out, ',');
    emit_word(out, "T");
    emit_punct(out, ':');
    emit_word(out, "reg");
    emit_joint(out, ':', ':');
    emit_word(out, "RegTag");
    emit_punct(out, '>');
    emit_word(out, "self");
    emit_joint(out, ':', ':');
    emit_word(out, "Hold");
    emit_punct(out, '<');
    push_tok(out, Tok::Punct('\'', true));
    emit_word(out, "a");
    emit_punct(out, ',');
    emit_word(out, "T");
    emit_punct(out, '>');
    emit_open(out, Delim::Brace);
    emit_pound_attrs(toks, &f.attrs, out);
    emit_punct(out, '#');
    emit_open(out, Delim::Bracket);
    emit_word(out, "inline");
    emit_open(out, Delim::Paren);
    emit_word(out, "always");
    emit_close(out, Delim::Paren);
    emit_close(out, Delim::Bracket);
    emit_word(out, "pub");
    proof {
        reveal(mfield_bits_write_1);
    }
    assert(toks_view(out@) =~= b + mfield_bits_write_1(toks@, mfield_view(*f), mfield_plan_view(*fp), raw@));
}

/// A part of `mfield_bits_write`.
#[verifier::opaque]
pub open spec fn mfield_bits_write_2(toks: Seq<Tok>, f: MFieldV, fp: MFieldPlanV, raw: Seq<char>) -> Seq<TokV> {
    tw("fn"@) + tw(fp.write_name) + topen(Delim::Paren) + tp('&') + tw("mut"@) + tw("self"@) + tp(',') + tw("bits"@) + tp(':') + tw(raw) + tclose(Delim::Paren) + tj('-', '>') + tp('&') + tw("mut"@) + tw("Self"@) + topen(Delim::Brace) + tw("self"@) + tp('.') + tw("reg"@) + tp('.') + tw(fp.ident) + tp('.') + tw("write"@) + topen(Delim::Paren) + tp('&') + tw("mut"@) + tw("self"@) + tp('.') + tw("val"@) + tp(',')
}

#[verifier::spinoff_prover]
#[verifier::rlimit(80)]
fn emit_mfield_bits_write_2(toks: &Vec<Tok>, f: &MField, fp: &MFieldPlan, raw: &String, out: &mut Vec<Tok>)
    ensures
        toks_view(final(out)@) == toks_view(old(out)@) + mfield_bits_write_2(toks@, mfield_view(*f), mfield_plan_view(*fp), raw@),
{
    let ghost b = toks_view(old(out)@);
    emit_word(out, "fn");
    emit_string(out, &fp.write_name);
    emit_open(out, Delim::Paren);
    emit_punct(out, '&');
    emit_word(out, "mut");
    emit_word(out, "self");
    emit_punct(out, ',');
    emit_word(out, "bits");
    emit_punct(out, ':');
    emit_string(out, raw);
    emit_close(out, Delim::Paren);
    emit_joint(out, '-', '>');
    emit_punct(out, '&');
    emit_word(out, "mut");
    emit_word(out, "Self");
    emit_open(out, Delim::Brace);
    emit_word(out, "self");
    emit_punct(out, '.');
    emit_word(out, "reg");
    emit_punct(out, '.');
    emit_string(out, &fp.ident);
    emit_punct(out, '.');
    emit_word(out, "write");
    emit_open(out, Delim::Paren);
    emit_punct(out, '&');
    emit_word(out, "mut");
    emit_word(out, "self");
    emit_punct(out, '.');
    emit_word(out, "val");
    emit_punct(out, ',');
    proof {
        reveal(mfield_bits_write_2);
    }
    assert(toks_view(out@) =~= b + mfield_bits_write_2(toks@, mfield_view(*f), mfield_plan_view(*fp), raw@));
}

/// A part of `mfield_bits_write`.
#[verifier::opaque]
pub open spec fn mfield_bits_write_3(toks: Seq<Tok>, f: MFieldV, fp: MFieldPlanV, raw: Seq<char>) -> Seq<TokV> {
    tw("bits"@) + tclose(Delim::Paren) + tp(';') + tw("self"@) + tclose(Delim::Brace) + tclose(Delim::Brace)
}

#[verifier::spinoff_prover]
#[verifier::rlimit(80)]
fn emit_mfield_bits_write_3(toks: &Vec<Tok>, f: &MField, fp: &MFieldPlan, raw: &String, out: &mut Vec<Tok>)
    ensures
        toks_view(final(out)@) == toks_view(old(out)@) + mfield_bits_write_3(toks@, mfield_view(*f), mfield_plan_view(*fp), raw@),
{
    let ghost b = toks_view(old(out)@);
    emit_word(out, "bits");
    emit_close(out, Delim::Paren);
    emit_punct(out, ';');
    emit_word(out, "self");
    emit_close(out, Delim::Brace);
    emit_close(out, Delim::Brace);
    proof {
        reveal(mfield_bits_write_3);
    }
    assert(toks_view(out@) =~= b + mfield_bits_write_3(toks@, mfield_view(*f), mfield_plan_view(*fp), raw@));
}

/// The writer of a field of several bits.
#[verifier::opaque]
pub open spec fn mfield_bits_write(toks: Seq<Tok>, f: MFieldV, fp: MFieldPlanV, raw: Seq<char>) -> Seq<TokV> {
    mfield_bits_write_1(toks, f, fp, raw) + mfield_bits_write_2(toks, f, fp, raw) + mfield_bits_write_3(toks, f, fp, raw)
}

#[verifier::spinoff_prover]
#[verifier::rlimit(80)]
fn emit_mfield_bits_write(toks: &Vec<Tok>, f: &MField, fp: &MFieldPlan, raw: &String, out: &mut Vec<Tok>)
    ensures
        toks_view(final(out)@) == toks_view(old(out)@) + mfield_bits_write(toks@, mfield_view(*f), mfield_plan_view(*fp), raw@),
{
    let ghost b = toks_view(old(out)@);
    emit_mfield_bits_write_1(toks, f, fp, raw, out);
    emit_mfield_bits_write_2(toks, f, fp, raw, out);
    emit_mfield_bits_write_3(toks, f, fp, raw, out);
    proof {
        reveal(mfield_bits_write);
    }
    assert(toks_view(out@) =~= b + mfield_bits_write(toks@, mfield_view(*f), mfield_plan_view(*fp), raw@));
}

/// A part of `mfield_struct`.
#[verifier::opaque]
pub open spec fn mfield_struct_1(toks: Seq<Tok>, f: MFieldV, fp: MFieldPlanV, raw: Seq<char>) -> Seq<TokV> {
    pound_attrs(toks, f.attrs) + tw("pub"@) + tw("struct"@) + tw(fp.ty) + tp('<') + tw("T"@) + tp(':') + tw("reg"@) + tj(':', ':') + tw("RegTag"@) + tp('>') + topen(Delim::Brace) + tw("_tag"@) + tp(':') + tw("T"@) + tp(',') + tclose(Delim::Brace) + tw("impl"@) + tp('<') + tw("T"@) + tp(':') + tw("reg"@) + tj(':', ':') + tw("RegTag"@) + tp('>') + tw("self"@) + tj(':', ':') + tw(fp.ty) + tp('<') + tw("T"@)
}

#[verifier::spinoff_prover]
#[verifier::rlimit(80)]
fn emit_mfield_struct_1(toks: &Vec<Tok>, f: &MField, fp: &MFieldPlan, raw: &String, out: &mut Vec<Tok>)
    ensures
        toks_view(final(out)@) == toks_view(old(out)@) + mfield_struct_1(toks@, mfield_view(*f), mfield_plan_view(*fp), raw@),
{
    let ghost b = toks_view(old(out)@);
    emit_pound_attrs(toks, &f.attrs, out);
    emit_word(out, "pub");
    emit_word(out, "struct");
    emit_string(out, &fp.ty);
    emit_punct(out, '<');
    emit_word(out, "T");
    emit_punct(out, ':');
    emit_word(out, "reg");
    emit_joint(out, ':', ':');
    emit_word(out, "RegTag");
    emit_punct(out, '>');
    emit_open(out, Delim::Brace);
    emit_word(out, "_tag");
    emit_punct(out, ':');
    emit_word(out, "T");
    emit_punct(out, ',');
    emit_close(out, Delim::Brace);
    emit_word(out, "impl");
    emit_punct(out, '<');
    emit_word(out, "T");
    emit_punct(out, ':');
    emit_word(out, "reg");
    emit_joint(out, ':', ':');
    emit_word(out, "RegTag");
    emit_punct(out, '>');
    emit_word(out, "self");
    emit_joint(out, ':', ':');
    emit_string(out, &fp.ty);
    emit_punct(out, '<');
    emit_word(out, "T");
    proof {
        reveal(mfield_struct_1);
    }
    assert(toks_view(out@) =~= b + mfield_struct_1(toks@, mfield_view(*f), mfield_plan_view(*fp), raw@));
}

/// A part of `mfield_struct`.
#[verifier::opaque]
pub open spec fn mfield_struct_2(toks: Seq<Tok>, f: MFieldV, fp: MFieldPlanV, raw: Seq<char>) -> Seq<TokV> {
    tp('>') + topen(Delim::Brace) + tp('#') + topen(Delim::Bracket) + tw("inline"@) + topen(Delim::Paren) + tw("always"@) + tclose(Delim::Paren) + tclose(Delim::Bracket) + tw("pub"@) + topen(Delim::Paren) + tw("crate"@) + tclose(Delim::Paren) + tw("unsafe"@) + tw("fn"@) + tw("bind"@) + topen(Delim::Paren) + tclose(Delim::Paren) + tj('-', '>') + tw("Self"@) + topen(Delim::Brace) + tw("Self"@) + topen(Delim::Brace) + tw("_tag"@) + tp(':') + tw("T"@) + tj(':', ':') + tw("default"@) + topen(Delim::Paren) + tclose(Delim::Paren)
}

#[verifier::spinoff_prover]
#[verifier::rlimit(80)]
fn emit_mfield_struct_2(toks: &Vec<Tok>, f: &MField, fp: &MFieldPlan, raw: &String, out: &mut Vec<Tok>)
    ensures
        toks_view(final(out)@) == toks_view(old(out)@) + mfield_struct_2(toks@, mfield_view(*f), mfield_plan_view(*fp), raw@),
{
    let ghost b = toks_view(old(out)@);
    emit_punct(out, '>');
    emit_open(out, Delim::Brace);
    emit_punct(out, '#');
    emit_open(out, Delim::Bracket);
    emit_word(out, "inline");
    emit_open(out, Delim::Paren);
    emit_word(out, "always");
    emit_close(out, Delim::Paren);
    emit_close(out, Delim::Bracket);
    emit_word(out, "pub");
    emit_open(out, Delim::Paren);
    emit_word(out, "crate");
    emit_close(out, Delim::Paren);
    emit_word(out, "unsafe");
    emit_word(out, "fn");
    emit_word(out, "bind");
    emit_open(out, Delim::Paren);
    emit_close(out, Delim::Paren);
    emit_joint(out, '-', '>');
    emit_word(out, "Self");
    emit_open(out, Delim::Brace);
    emit_word(out, "Self");
    emit_open(out, Delim::Brace);
    emit_word(out, "_tag");
    emit_punct(out, ':');
    emit_word(out, "T");
    emit_joint(out, ':', ':');
    emit_word(out, "default");
    emit_open(out, Delim::Paren);
    emit_close(out, Delim::Paren);
    proof {
        reveal(mfield_struct_2);
    }
    assert(toks_view(out@) =~= b + mfield_struct_2(toks@, mfield_view(*f), mfield_plan_view(*fp), raw@));
}

/// A part of `mfield_struct`.
#[verifier::opaque]
pub open spec fn mfield_struct_3(toks: Seq<Tok>, f: MFieldV, fp: MFieldPlanV, raw: Seq<char>) -> Seq<TokV> {
    tclose(Delim::Brace) + tclose(Delim::Brace) + tclose(Delim::Brace) + tw("impl"@) + tp('<') + tw("T"@) + tp(':') + tw("reg"@) + tj(':', ':') + tw("RegTag"@) + tp('>') + tw("reg"@) + tj(':', ':') + tw("RegField"@) + tp('<') + tw("T"@) + tp('>') + tw("for"@) + tw("self"@) + tj(':', ':') + tw(fp.ty) + tp('<') + tw("T"@) + tp('>') + topen(Delim::Brace) + tw("type"@) + tw("Reg"@) + tp('=') + tw("self"@) + tj(':', ':')
}

#[verifier::spinoff_prover]
#[verifier::rlimit(80)]
fn emit_mfield_struct_3(toks: &Vec<Tok>, f: &MField, fp: &MFieldPlan, raw: &String, out: &mut Vec<Tok>)
    ensures
        toks_view(final(out)@) == toks_view(old(out)@) + mfield_struct_3(toks@, mfield_view(*f), mfield_plan_view(*fp), raw@),
{
    let ghost b = toks_view(old(out)@);
    emit_close(out, Delim::Brace);
    emit_close(out, Delim::Brace);
    emit_close(out, Delim::Brace);
    emit_word(out, "impl");
    emit_punct(out, '<');
    emit_word(out, "T");
    emit_punct(out, ':');
    emit_word(out, "reg");
    emit_joint(out, ':', ':');
    emit_word(out, "RegTag");
    emit_punct(out, '>');
    emit_word(out, "reg");
    emit_joint(out, ':', ':');
    emit_word(out, "RegField");
    emit_punct(out, '<');
    emit_word(out, "T");
    emit_punct(out, '>');
    emit_word(out, "for");
    emit_word(out, "self");
    emit_joint(out, ':', ':');
    emit_string(out, &fp.ty);
    emit_punct(out, '<');
    emit_word(out, "T");
    emit_punct(out, '>');
    emit_open(out, Delim::Brace);
    emit_word(out, "type");
    emit_word(out, "Reg");
    emit_punct(out, '=');
    emit_word(out, "self");
    emit_joint(out, ':', ':');
    proof {
        reveal(mfield_struct_3);
    }
    assert(toks_view(out@) =~= b + mfield_struct_3(toks@, mfield_view(*f), mfield_plan_view(*fp), raw@));
}

/// A part of `mfield_struct`.
#[verifier::opaque]
pub open spec fn mfield_struct_4(toks: Seq<Tok>, f: MFieldV, fp: MFieldPlanV, raw: Seq<char>) -> Seq<TokV> {
    tw("Reg"@) + tp('<') + tw("T"@) + tp('>') + tp(';') + tw("const"@) + tw("OFFSET"@) + tp(':') + tw("usize"@) + tp('=') + tl(decimal(f.offset as nat)) + tp(';') + tw("const"@) + tw("WIDTH"@) + tp(':') + tw("usize"@) + tp('=') + tl(decimal(f.width as nat)) + tp(';') + tclose(Delim::Brace)
}

#[verifier::spinoff_prover]
#[verifier::rlimit(80)]
fn emit_mfield_struct_4(toks: &Vec<Tok>, f: &MField, fp: &MFieldPlan, raw: &String, out: &mut Vec<Tok>)
    ensures
        toks_view(final(out)@) == toks_view(old(out)@) + mfield_struct_4(toks@, mfield_view(*f), mfield_plan_view(*fp), raw@),
{
    let ghost b = toks_view(old(out)@);
    emit_word(out, "Reg");
    emit_punct(out, '<');
    emit_word(out, "T");
    emit_punct(out, '>');
    emit_punct(out, ';');
    emit_word(out, "const");
    emit_word(out, "OFFSET");
    emit_punct(out, ':');
    emit_word(out, "usize");
    emit_punct(out, '=');
    emit_decimal(out, f.offset);
    emit_punct(out, ';');
    emit_word(out, "const");
    emit_word(out, "WIDTH");
    emit_punct(out, ':');
    emit_word(out, "usize");
    emit_punct(out, '=');
    emit_decimal(out, f.width);
    emit_punct(out, ';');
    emit_close(out, Delim::Brace);
    proof {
        reveal(mfield_struct_4);
    }
    assert(toks_view(out@) =~= b + mfield_struct_4(toks@, mfield_view(*f), mfield_plan_view(*fp), raw@));
}

/// The field's structure, its `bind`, and its `RegField`.
#[verifier::opaque]
pub open spec fn mfield_struct(toks: Seq<Tok>, f: MFieldV, fp: MFieldPlanV, raw: Seq<char>) -> Seq<TokV> {
    mfield_struct_1(toks, f, fp, raw) + mfield_struct_2(toks, f, fp, raw) + mfield_struct_3(toks, f, fp, raw) + mfield_struct_4(toks, f, fp, raw)
}

#[verifier::spinoff_prover]
#[verifier::rlimit(80)]
fn emit_mfield_struct(toks: &Vec<Tok>, f: &MField, fp: &MFieldPlan, raw: &String, out: &mut Vec<Tok>)
    ensures
        toks_view(final(out)@) == toks_view(old(out)@) + mfield_struct(toks@, mfield_view(*f), mfield_plan_view(*fp), raw@),
{
    let ghost b = toks_view(old(out)@);
    emit_mfield_struct_1(toks, f, fp, raw, out);
    emit_mfield_struct_2(toks, f, fp, raw, out);
    emit_mfield_struct_3(toks, f, fp, raw, out);
    emit_mfield_struct_4(toks, f, fp, raw, out);
    proof {
        reveal(mfield_struct);
    }
    assert(toks_view(out@) =~= b + mfield_struct(toks@, mfield_view(*f), mfield_plan_view(*fp), raw@));
}

/// `ATTRS impl<T: reg::RegTag> reg::TRAIT<T> for self::FTY<T> {}`
#[verifier::opaque]
pub open spec fn mfield_trait(toks: Seq<Tok>, f: MFieldV, fp: MFieldPlanV, raw: Seq<char>, ta: Seq<Span>, tr: usize) -> Seq<TokV> {
    pound_attrs(toks, ta) + tw("impl"@) + tp('<') + tw("T"@) + tp(':') + tw("reg"@) + tj(':', ':') + tw("RegTag"@) + tp('>') + tw("reg"@) + tj(':', ':') + span_toks(toks, one(tr)) + tp('<') + tw("T"@) + tp('>') + tw("for"@) + tw("self"@) + tj(':', ':') + tw(fp.ty) + tp('<') + tw("T"@) + tp('>') + topen(Delim::Brace) + tclose(Delim::Brace)
}

#[verifier::spinoff_prover]
#[verifier::rlimit(80)]
fn emit_mfield_trait(toks: &Vec<Tok>, f: &MField, fp: &MFieldPlan, raw: &String, ta: &Vec<Span>, tr: usize, out: &mut Vec<Tok>)
    ensures
        toks_view(final(out)@) == toks_view(old(out)@) + mfield_trait(toks@, mfield_view(*f), mfield_plan_view(*fp), raw@, ta@, tr),
{
    let ghost b = toks_view(old(out)@);
    emit_pound_attrs(toks, ta, out);
    emit_word(out, "impl");
    emit_punct(out, '<');
    emit_word(out, "T");
    emit_punct(out, ':');
    emit_word(out, "reg");
    emit_joint(out, ':', ':');
    emit_word(out, "RegTag");
    emit_punct(out, '>');
    emit_word(out, "reg");
    emit_joint(out, ':', ':');
    emit_span(toks, one_exec(tr), out);
    emit_punct(out, '<');
    emit_word(out, "T");
    emit_punct(out, '>');
    emit_word(out, "for");
    emit_word(out, "self");
    emit_joint(out, ':', ':');
    emit_string(out, &fp.ty);
    emit_punct(out, '<');
    emit_word(out, "T");
    emit_punct(out, '>');
    emit_open(out, Delim::Brace);
    emit_close(out, Delim::Brace);
    proof {
        reveal(mfield_trait);
    }
    assert(toks_view(out@) =~= b + mfield_trait(toks@, mfield_view(*f), mfield_plan_view(*fp), raw@, ta@, tr));
}

/// `impl<T: reg::RegTag> reg::RegFieldBit<T> for self::FTY<T> {}`, or `RegFieldBits` for a field of several bits.
#[verifier::opaque]
pub open spec fn mfield_width_trait(toks: Seq<Tok>, f: MFieldV, fp: MFieldPlanV, raw: Seq<char>) -> Seq<TokV> {
    tw("impl"@) + tp('<') + tw("T"@) + tp(':') + tw("reg"@) + tj(':', ':') + tw("RegTag"@) + tp('>') + tw("reg"@) + tj(':', ':') + (if f.width == 1 { tw("RegFieldBit"@) } else { tw("RegFieldBits"@) }) + tp('<') + tw("T"@) + tp('>') + tw("for"@) + tw("self"@) + tj(':', ':') + tw(fp.ty) + tp('<') + tw("T"@) + tp('>') + topen(Delim::Brace) + tclose(Delim::Brace)
}

#[verifier::spinoff_prover]
#[verifier::rlimit(80)]
fn emit_mfield_width_trait(toks: &Vec<Tok>, f: &MField, fp: &MFieldPlan, raw: &String, out: &mut Vec<Tok>)
    ensures
        toks_view(final(out)@) == toks_view(old(out)@) + mfield_width_trait(toks@, mfield_view(*f), mfield_plan_view(*fp), raw@),
{
    let ghost b = toks_view(old(out)@);
    emit_word(out, "impl");
    emit_punct(out, '<');
    emit_word(out, "T");
    emit_punct(out, ':');
    emit_word(out, "reg");
    emit_joint(out, ':', ':');
    emit_word(out, "RegTag");
    emit_punct(out, '>');
    emit_word(out, "reg");
    emit_joint(out, ':', ':');
    if f.width == 1 { emit_word(out, "RegFieldBit"); } else { emit_word(out, "RegFieldBits"); }
    emit_punct(out, '<');
    emit_word(out, "T");
    emit_punct(out, '>');
    emit_word(out, "for");
    emit_word(out, "self");
    emit_joint(out, ':', ':');
    emit_string(out, &fp.ty);
    emit_punct(out, '<');
    emit_word(out, "T");
    emit_punct(out, '>');
    emit_open(out, Delim::Brace);
    emit_close(out, Delim::Brace);
    proof {
        reveal(mfield_width_trait);
    }
    assert(toks_view(out@) =~= b + mfield_width_trait(toks@, mfield_view(*f), mfield_plan_view(*fp), raw@));
}

/// A part of `mfield_tags`.
#[verifier::opaque]
pub open spec fn mfield_tags_1(toks: Seq<Tok>, f: MFieldV, fp: MFieldPlanV, raw: Seq<char>) -> Seq<TokV> {
    tw("impl"@) + tw("From"@) + tp('<') + tw("self"@) + tj(':', ':') + tw(fp.ty) + tp('<') + tw("reg"@) + tj(':', ':') + tw("Sbt"@) + tp('>') + tp('>') + tw("for"@) + tw("self"@) + tj(':', ':') + tw(fp.ty) + tp('<') + tw("reg"@) + tj(':', ':') + tw("Fbt"@) + tp('>') + topen(Delim::Brace) + tp('#') + topen(Delim::Bracket) + tw("inline"@) + topen(Delim::Paren) + tw("always"@) + tclose(Delim::Paren) + tclose(Delim::Bracket) + tw("fn"@)
}

#[verifier::spinoff_prover]
#[verifier::rlimit(80)]
fn emit_mfield_tags_1(toks: &Vec<Tok>, f: &MField, fp: &MFieldPlan, raw: &String, out: &mut Vec<Tok>)
    ensures
        toks_view(final(out)@) == toks_view(old(out)@) + mfield_tags_1(toks@, mfield_view(*f), mfield_plan_view(*fp), raw@),
{
    let ghost b = toks_view(old(out)@);
    emit_word(out, "impl");
    emit_word(out, "From");
    emit_punct(out, '<');
    emit_word(out, "self");
    emit_joint(out, ':', ':');
    emit_string(out, &fp.ty);
    emit_punct(out, '<');
    emit_word(out, "reg");
    emit_joint(out, ':', ':');
    emit_word(out, "Sbt");
    emit_punct(out, '>');
    emit_punct(out, '>');
    emit_word(out, "for");
    emit_word(out, "self");
    emit_joint(out, ':', ':');
    emit_string(out, &fp.ty);
    emit_punct(out, '<');
    emit_word(out, "reg");
    emit_joint(out, ':', ':');
    emit_word(out, "Fbt");
    emit_punct(out, '>');
    emit_open(out, Delim::Brace);
    emit_punct(out, '#');
    emit_open(out, Delim::Bracket);
    emit_word(out, "inline");
    emit_open(out, Delim::Paren);
    emit_word(out, "always");
    emit_close(out, Delim::Paren);
    emit_close(out, Delim::Bracket);
    emit_word(out, "fn");
    proof {
        reveal(mfield_tags_1);
    }
    assert(toks_view(out@) =~= b + mfield_tags_1(toks@, mfield_view(*f), mfield_plan_view(*fp), raw@));
}

/// A part of `mfield_tags`.
#[verifier::opaque]
pub open spec fn mfield_tags_2(toks: Seq<Tok>, f: MFieldV, fp: MFieldPlanV, raw: Seq<char>) -> Seq<TokV> {
    tw("from"@) + topen(Delim::Paren) + tw("_field"@) + tp(':') + tw("self"@) + tj(':', ':') + tw(fp.ty) + tp('<') + tw("reg"@) + tj(':', ':') + tw("Sbt"@) + tp('>') + tclose(Delim::Paren) + tj('-', '>') + tw("Self"@) + topen(Delim::Brace) + tw("Self"@) + topen(Delim::Brace) + tw("_tag"@) + tp(':') + tw("reg"@) + tj(':', ':') + tw("Fbt"@) + tj(':', ':') + tw("default"@) + topen(Delim::Paren) + tclose(Delim::Paren) + tclose(Delim::Brace) + tclose(Delim::Brace) + tclose(Delim::Brace)
}

#[verifier::spinoff_prover]
#[verifier::rlimit(80)]
fn emit_mfield_tags_2(toks: &Vec<Tok>, f: &MField, fp: &MFieldPlan, raw: &String, out: &mut Vec<Tok>)
    ensures
        toks_view(final(out)@) == toks_view(old(out)@) + mfield_tags_2(toks@, mfield_view(*f), mfield_plan_view(*fp), raw@),
{
    let ghost b = toks_view(old(out)@);
    emit_word(out, "from");
    emit_open(out, Delim::Paren);
    emit_word(out, "_field");
    emit_punct(out, ':');
    emit_word(out, "self");
    emit_joint(out, ':', ':');
    emit_string(out, &fp.ty);
    emit_punct(out, '<');
    emit_word(out, "reg");
    emit_joint(out, ':', ':');
    emit_word(out, "Sbt");
    emit_punct(out, '>');
    emit_close(out, Delim::Paren);
    emit_joint(out, '-', '>');
    emit_word(out, "Self");
    emit_open(out, Delim::Brace);
    emit_word(out, "Self");
    emit_open(out, Delim::Brace);
    emit_word(out, "_tag");
    emit_punct(out, ':');
    emit_word(out, "reg");
    emit_joint(out, ':', ':');
    emit_word(out, "Fbt");
    emit_joint(out, ':', ':');
    emit_word(out, "default");
    emit_open(out, Delim::Paren);
    emit_close(out, Delim::Paren);
    emit_close(out, Delim::Brace);
    emit_close(out, Delim::Brace);
    emit_close(out, Delim::Brace);
    proof {
        reveal(mfield_tags_2);
    }
    assert(toks_view(out@) =~= b + mfield_tags_2(toks@, mfield_view(*f), mfield_plan_view(*fp), raw@));
}

/// A part of `mfield_tags`.
#[verifier::opaque]
pub open spec fn mfield_tags_3(toks: Seq<Tok>, f: MFieldV, fp: MFieldPlanV, raw: Seq<char>) -> Seq<TokV> {
    tw("impl"@) + tw("From"@) + tp('<') + tw("self"@) + tj(':', ':') + tw(fp.ty) + tp('<') + tw("reg"@) + tj(':', ':') + tw("Fbt"@) + tp('>') + tp('>') + tw("for"@) + tw("self"@) + tj(':', ':') + tw(fp.ty) + tp('<') + tw("reg"@) + tj(':', ':') + tw("Cbt"@) + tp('>') + topen(Delim::Brace) + tp('#') + topen(Delim::Bracket) + tw("inline"@) + topen(Delim::Paren) + tw("always"@) + tclose(Delim::Paren) + tclose(Delim::Bracket) + tw("fn"@)
}

#[verifier::spinoff_prover]
#[verifier::rlimit(80)]
fn emit_mfield_tags_3(toks: &Vec<Tok>, f: &MField, fp: &MFieldPlan, raw: &String, out: &mut Vec<Tok>)
    ensures
        toks_view(final(out)@) == toks_view(old(out)@) + mfield_tags_3(toks@, mfield_view(*f), mfield_plan_view(*fp), raw@),
{
    let ghost b = toks_view(old(out)@);
    emit_word(out, "impl");
    emit_word(out, "From");
    emit_punct(out, '<');
    emit_word(out, "self");
    emit_joint(out, ':', ':');
    emit_string(out, &fp.ty);
    emit_punct(out, '<');
    emit_word(out, "reg");
    emit_joint(out, ':', ':');
    emit_word(out, "Fbt");
    emit_punct(out, '>');
    emit_punct(out, '>');
    emit_word(out, "for");
    emit_word(out, "self");
    emit_joint(out, ':', ':');
    emit_string(out, &fp.ty);
    emit_punct(out, '<');
    emit_word(out, "reg");
    emit_joint(out, ':', ':');
    emit_word(out, "Cbt");
    emit_punct(out, '>');
    emit_open(out, Delim::Brace);
    emit_punct(out, '#');
    emit_open(out, Delim::Bracket);
    emit_word(out, "inline");
    emit_open(out, Delim::Paren);
    emit_word(out, "always");
    emit_close(out, Delim::Paren);
    emit_close(out, Delim::Bracket);
    emit_word(out, "fn");
    proof {
        reveal(mfield_tags_3);
    }
    assert(toks_view(out@) =~= b + mfield_tags_3(toks@, mfield_view(*f), mfield_plan_view(*fp), raw@));
}

/// A part of `mfield_tags`.
#[verifier::opaque]
pub open spec fn mfield_tags_4(toks: Seq<Tok>, f: MFieldV, fp: MFieldPlanV, raw: Seq<char>) -> Seq<TokV> {
    tw("from"@) + topen(Delim::Paren) + tw("_field"@) + tp(':') + tw("self"@) + tj(':', ':') + tw(fp.ty) + tp('<') + tw("reg"@) + tj(':', ':') + tw("Fbt"@) + tp('>') + tclose(Delim::Paren) + tj('-', '>') + tw("Self"@) + topen(Delim::Brace) + tw("Self"@) + topen(Delim::Brace) + tw("_tag"@) + tp(':') + tw("reg"@) + tj(':', ':') + tw("Cbt"@) + tj(':', ':') + tw("default"@) + topen(Delim::Paren) + tclose(Delim::Paren) + tclose(Delim::Brace) + tclose(Delim::Brace) + tclose(Delim::Brace)
}

#[verifier::spinoff_prover]
#[verifier::rlimit(80)]
fn emit_mfield_tags_4(toks: &Vec<Tok>, f: &MField, fp: &MFieldPlan, raw: &String, out: &mut Vec<Tok>)
    ensures
        toks_view(final(out)@) == toks_view(old(out)@) + mfield_tags_4(toks@, mfield_view(*f), mfield_plan_view(*fp), raw@),
{
    let ghost b = toks_view(old(out)@);
    emit_word(out, "from");
    emit_open(out, Delim::Paren);
    emit_word(out, "_field");
    emit_punct(out, ':');
    emit_word(out, "self");
    emit_joint(out, ':', ':');
    emit_string(out, &fp.ty);
    emit_punct(out, '<');
    emit_word(out, "reg");
    emit_joint(out, ':', ':');
    emit_word(out, "Fbt");
    emit_punct(out, '>');
    emit_close(out, Delim::Paren);
    emit_joint(out, '-', '>');
    emit_word(out, "Self");
    emit_open(out, Delim::Brace);
    emit_word(out, "Self");
    emit_open(out, Delim::Brace);
    emit_word(out, "_tag");
    emit_punct(out, ':');
    emit_word(out, "reg");
    emit_joint(out, ':', ':');
    emit_word(out, "Cbt");
    emit_joint(out, ':', ':');
    emit_word(out, "default");
    emit_open(out, Delim::Paren);
    emit_close(out, Delim::Paren);
    emit_close(out, Delim::Brace);
    emit_close(out, Delim::Brace);
    emit_close(out, Delim::Brace);
    proof {
        reveal(mfield_tags_4);
    }
    assert(toks_view(out@) =~= b + mfield_tags_4(toks@, mfield_view(*f), mfield_plan_view(*fp), raw@));
}

/// A part of `mfield_tags`.
#[verifier::opaque]
pub open spec fn mfield_tags_5(toks: Seq<Tok>, f: MFieldV, fp: MFieldPlanV, raw: Seq<char>) -> Seq<TokV> {
    tw("impl"@) + tw("reg"@) + tj(':', ':') + tw("RegFork"@) + tw("for"@) + tw("self"@) + tj(':', ':') + tw(fp.ty) + tp('<') + tw("reg"@) + tj(':', ':') + tw("Fbt"@) + tp('>') + topen(Delim::Brace) + tp('#') + topen(Delim::Bracket) + tw("inline"@) + topen(Delim::Paren) + tw("always"@) + tclose(Delim::Paren) + tclose(Delim::Bracket) + tw("fn"@) + tw("fork"@) + topen(Delim::Paren) + tp('&') + tw("mut"@) + tw("self"@) + tclose(Delim::Paren) + tj('-', '>') + tw("Self"@)
}

#[verifier::spinoff_prover]
#[verifier::rlimit(80)]
fn emit_mfield_tags_5(toks: &Vec<Tok>, f: &MField, fp: &MFieldPlan, raw: &String, out: &mut Vec<Tok>)
    ensures
        toks_view(final(out)@) == toks_view(old(out)@) + mfield_tags_5(toks@, mfield_view(*f), mfield_plan_view(*fp), raw@),
{
    let ghost b = toks_view(old(out)@);
    emit_word(out, "impl");
    emit_word(out, "reg");
    emit_joint(out, ':', ':');
    emit_word(out, "RegFork");
    emit_word(out, "for");
    emit_word(out, "self");
    emit_joint(out, ':', ':');
    emit_string(out, &fp.ty);
    emit_punct(out, '<');
    emit_word(out, "reg");
    emit_joint(out, ':', ':');
    emit_word(out, "Fbt");
    emit_punct(out, '>');
    emit_open(out, Delim::Brace);
    emit_punct(out, '#');
    emit_open(out, Delim::Bracket);
    emit_word(out, "inline");
    emit_open(out, Delim::Paren);
    emit_word(out, "always");
    emit_close(out, Delim::Paren);
    emit_close(out, Delim::Bracket);
    emit_word(out, "fn");
    emit_word(out, "fork");
    emit_open(out, Delim::Paren);
    emit_punct(out, '&');
    emit_word(out, "mut");
    emit_word(out, "self");
    emit_close(out, Delim::Paren);
    emit_joint(out, '-', '>');
    emit_word(out, "Self");
    proof {
        reveal(mfield_tags_5);
    }
    assert(toks_view(out@) =~= b + mfield_tags_5(toks@, mfield_view(*f), mfield_plan_view(*fp), raw@));
}

/// A part of `mfield_tags`.
#[verifier::opaque]
pub open spec fn mfield_tags_6(toks: Seq<Tok>, f: MFieldV, fp: MFieldPlanV, raw: Seq<char>) -> Seq<TokV> {
    topen(Delim::Brace) + tw("Self"@) + topen(Delim::Brace) + tw("_tag"@) + tp(':') + tw("reg"@) + tj(':', ':') + tw("Fbt"@) + tj(':', ':') + tw("default"@) + topen(Delim::Paren) + tclose(Delim::Paren) + tclose(Delim::Brace) + tclose(Delim::Brace) + tclose(Delim::Brace) + tp('#') + topen(Delim::Bracket) + tw("cfg_attr"@) + topen(Delim::Paren) + tw("feature"@) + tp('=') + tl("\"clippy\""@) + tp(',') + tw("allow"@) + topen(Delim::Paren) + tw("expl_impl_clone_on_copy"@) + tclose(Delim::Paren) + tclose(Delim::Paren) + tclose(Delim::Bracket) + tw("impl"@)
}

#[verifier::spinoff_prover]
#[verifier::rlimit(80)]
fn emit_mfield_tags_6(toks: &Vec<Tok>, f: &MField, fp: &MFieldPlan, raw: &String, out: &mut Vec<Tok>)
    ensures
        toks_view(final(out)@) == toks_view(old(out)@) + mfield_tags_6(toks@, mfield_view(*f), mfield_plan_view(*fp), raw@),
{
    let ghost b = toks_view(old(out)@);
    emit_open(out, Delim::Brace);
    emit_word(out, "Self");
    emit_open(out, Delim::Brace);
    emit_word(out, "_tag");
    emit_punct(out, ':');
    emit_word(out, "reg");
    emit_joint(out, ':', ':');
    emit_word(out, "Fbt");
    emit_joint(out, ':', ':');
    emit_word(out, "default");
    emit_open(out, Delim::Paren);
    emit_close(out, Delim::Paren);
    emit_close(out, Delim::Brace);
    emit_close(out, Delim::Brace);
    emit_close(out, Delim::Brace);
    emit_punct(out, '#');
    emit_open(out, Delim::Bracket);
    emit_word(out, "cfg_attr");
    emit_open(out, Delim::Paren);
    emit_word(out, "feature");
    emit_punct(out, '=');
    emit_literal(out, "\"clippy\"");
    emit_punct(out, ',');
    emit_word(out, "allow");
    emit_open(out, Delim::Paren);
    emit_word(out, "expl_impl_clone_on_copy");
    emit_close(out, Delim::Paren);
    emit_close(out, Delim::Paren);
    emit_close(out, Delim::Bracket);
    emit_word(out, "impl");
    proof {
        reveal(mfield_tags_6);
    }
    assert(toks_view(out@) =~= b + mfield_tags_6(toks@, mfield_view(*f), mfield_plan_view(*fp), raw@));
}

/// A part of `mfield_tags`.
#[verifier::opaque]
pub open spec fn mfield_tags_7(toks: Seq<Tok>, f: MFieldV, fp: MFieldPlanV, raw: Seq<char>) -> Seq<TokV> {
    tw("Clone"@) + tw("for"@) + tw("self"@) + tj(':', ':') + tw(fp.ty) + tp('<') + tw("reg"@) + tj(':', ':') + tw("Cbt"@) + tp('>') + topen(Delim::Brace) + tp('#') + topen(Delim::Bracket) + tw("inline"@) + topen(Delim::Paren) + tw("always"@) + tclose(Delim::Paren) + tclose(Delim::Bracket) + tw("fn"@) + tw("clone"@) + topen(Delim::Paren) + tp('&') + tw("self"@) + tclose(Delim::Paren) + tj('-', '>') + tw("Self"@) + topen(Delim::Brace) + tw("Self"@) + topen(Delim::Brace) + tj('.', '.')
}

#[verifier::spinoff_prover]
#[verifier::rlimit(80)]
fn emit_mfield_tags_7(toks: &Vec<Tok>, f: &MField, fp: &MFieldPlan, raw: &String, out: &mut Vec<Tok>)
    ensures
        toks_view(final(out)@) == toks_view(old(out)@) + mfield_tags_7(toks@, mfield_view(*f), mfield_plan_view(*fp), raw@),
{
    let ghost b = toks_view(old(out)@);
    emit_word(out, "Clone");
    emit_word(out, "for");
    emit_word(out, "self");
    emit_joint(out, ':', ':');
    emit_string(out, &fp.ty);
    emit_punct(out, '<');
    emit_word(out, "reg");
    emit_joint(out, ':', ':');
    emit_word(out, "Cbt");
    emit_punct(out, '>');
    emit_open(out, Delim::Brace);
    emit_punct(out, '#');
    emit_open(out, Delim::Bracket);
    emit_word(out, "inline");
    emit_open(out, Delim::Paren);
    emit_word(out, "always");
    emit_close(out, Delim::Paren);
    emit_close(out, Delim::Bracket);
    emit_word(out, "fn");
    emit_word(out, "clone");
    emit_open(out, Delim::Paren);
    emit_punct(out, '&');
    emit_word(out, "self");
    emit_close(out, Delim::Paren);
    emit_joint(out, '-', '>');
    emit_word(out, "Self");
    emit_open(out, Delim::Brace);
    emit_word(out, "Self");
    emit_open(out, Delim::Brace);
    emit_joint(out, '.', '.');
    proof {
        reveal(mfield_tags_7);
    }
    assert(toks_view(out@) =~= b + mfield_tags_7(toks@, mfield_view(*f), mfield_plan_view(*fp), raw@));
}

/// A part of `mfield_tags`.
#[verifier::opaque]
pub open spec fn mfield_tags_8(toks: Seq<Tok>, f: MFieldV, fp: MFieldPlanV, raw: Seq<char>) -> Seq<TokV> {
    tp('*') + tw("self"@) + tclose(Delim::Brace) + tclose(Delim::Brace) + tclose(Delim::Brace) + tw("impl"@) + tw("Copy"@) + tw("for"@) + tw("self"@) + tj(':', ':') + tw(fp.ty) + tp('<') + tw("reg"@) + tj(':', ':') + tw("Cbt"@) + tp('>') + topen(Delim::Brace) + tclose(Delim::Brace)
}

#[verifier::spinoff_prover]
#[verifier::rlimit(80)]
fn emit_mfield_tags_8(toks: &Vec<Tok>, f: &MField, fp: &MFieldPlan, raw: &String, out: &mut Vec<Tok>)
    ensures
        toks_view(final(out)@) == toks_view(old(out)@) + mfield_tags_8(toks@, mfield_view(*f), mfield_plan_view(*fp), raw@),
{
    let ghost b = toks_view(old(out)@);
    emit_punct(out, '*');
    emit_word(out, "self");
    emit_close(out, Delim::Brace);
    emit_close(out, Delim::Brace);
    emit_close(out, Delim::Brace);
    emit_word(out, "impl");
    emit_word(out, "Copy");
    emit_word(out, "for");
    emit_word(out, "self");
    emit_joint(out, ':', ':');
    emit_string(out, &fp.ty);
    emit_punct(out, '<');
    emit_word(out, "reg");
    emit_joint(out, ':', ':');
    emit_word(out, "Cbt");
    emit_punct(out, '>');
    emit_open(out, Delim::Brace);
    emit_close(out, Delim::Brace);
    proof {
        reveal(mfield_tags_8);
    }
    assert(toks_view(out@) =~= b + mfield_tags_8(toks@, mfield_view(*f), mfield_plan_view(*fp), raw@));
}

/// The conversions of the field's token between its tags, its `RegFork`, `Clone` and `Copy`.
#[verifier::opaque]
pub open spec fn mfield_tags(toks: Seq<Tok>, f: MFieldV, fp: MFieldPlanV, raw: Seq<char>) -> Seq<TokV> {
    mfield_tags_1(toks, f, fp, raw) + mfield_tags_2(toks, f, fp, raw) + mfield_tags_3(toks, f, fp, raw) + mfield_tags_4(toks, f, fp, raw) + mfield_tags_5(toks, f, fp, raw) + mfield_tags_6(toks, f, fp, raw) + mfield_tags_7(toks, f, fp, raw) + mfield_tags_8(toks, f, fp, raw)
}

#[verifier::spinoff_prover]
#[verifier::rlimit(80)]
fn emit_mfield_tags(toks: &Vec<Tok>, f: &MField, fp: &MFieldPlan, raw: &String, out: &mut Vec<Tok>)
    ensures
        toks_view(final(out)@) == toks_view(old(out)@) + mfield_tags(toks@, mfield_view(*f), mfield_plan_view(*fp), raw@),
{
    let ghost b = toks_view(old(out)@);
    emit_mfield_tags_1(toks, f, fp, raw, out);
    emit_mfield_tags_2(toks, f, fp, raw, out);
    emit_mfield_tags_3(toks, f, fp, raw, out);
    emit_mfield_tags_4(toks, f, fp, raw, out);
    emit_mfield_tags_5(toks, f, fp, raw, out);
    emit_mfield_tags_6(toks, f, fp, raw, out);
    emit_mfield_tags_7(toks, f, fp, raw, out);
    emit_mfield_tags_8(toks, f, fp, raw, out);
    proof {
        reveal(mfield_tags);
    }
    assert(toks_view(out@) =~= b + mfield_tags(toks@, mfield_view(*f), mfield_plan_view(*fp), raw@));
}

/// `pub use self::MOD::Reg as TY; ATTRS pub mod MOD { use ::drone::reg;`
#[verifier::opaque]
pub open spec fn mreg_head(toks: Seq<Tok>, g: MRegV, gp: MRegPlanV) -> Seq<TokV> {
    tw("pub"@) + tw("use"@) + tw("self"@) + tj(':', ':') + tw(gp.module) + tj(':', ':') + tw("Reg"@) + tw("as"@) + tw(gp.ty) + tp(';') + pound_attrs(toks, g.attrs) + tw("pub"@) + tw("mod"@) + tw(gp.module) + topen(Delim::Brace) + tw("use"@) + tj(':', ':') + tw("drone"@) + tj(':', ':') + tw("reg"@) + tp(';')
}

#[verifier::spinoff_prover]
#[verifier::rlimit(80)]
fn emit_mreg_head(toks: &Vec<Tok>, g: &MReg, gp: &MRegPlan, out: &mut Vec<Tok>)
    ensures
        toks_view(final(out)@) == toks_view(old(out)@) + mreg_head(toks@, mreg_view(*g), mreg_plan_view(*gp)),
{
    let ghost b = toks_view(old(out)@);
    emit_word(out, "pub");
    emit_word(out, "use");
    emit_word(out, "self");
    emit_joint(out, ':', ':');
    emit_string(out, &gp.module);
    emit_joint(out, ':', ':');
    emit_word(out, "Reg");
    emit_word(out, "as");
    emit_string(out, &gp.ty);
    emit_punct(out, ';');
    emit_pound_attrs(toks, &g.attrs, out);
    emit_word(out, "pub");
    emit_word(out, "mod");
    emit_string(out, &gp.module);
    emit_open(out, Delim::Brace);
    emit_word(out, "use");
    emit_joint(out, ':', ':');
    emit_word(out, "drone");
    emit_joint(out, ':', ':');
    emit_word(out, "reg");
    emit_punct(out, ';');
    proof {
        reveal(mreg_head);
    }
    assert(toks_view(out@) =~= b + mreg_head(toks@, mreg_view(*g), mreg_plan_view(*gp)));
}

/// `ATTRS pub struct Reg<T: reg::RegTag> {`
#[verifier::opaque]
pub open spec fn mreg_struct_head(toks: Seq<Tok>, g: MRegV, gp: MRegPlanV) -> Seq<TokV> {
    pound_attrs(toks, g.attrs) + tw("pub"@) + tw("struct"@) + tw("Reg"@) + tp('<') + tw("T"@) + tp(':') + tw("reg"@) + tj(':', ':') + tw("RegTag"@) + tp('>') + topen(Delim::Brace)
}

#[verifier::spinoff_prover]
#[verifier::rlimit(80)]
fn emit_mreg_struct_head(toks: &Vec<Tok>, g: &MReg, gp: &MRegPlan, out: &mut Vec<Tok>)
    ensures
        toks_view(final(out)@) == toks_view(old(out)@) + mreg_struct_head(toks@, mreg_view(*g), mreg_plan_view(*gp)),
{
    let ghost b = toks_view(old(out)@);
    emit_pound_attrs(toks, &g.attrs, out);
    emit_word(out, "pub");
    emit_word(out, "struct");
    emit_word(out, "Reg");
    emit_punct(out, '<');
    emit_word(out, "T");
    emit_punct(out, ':');
    emit_word(out, "reg");
    emit_joint(out, ':', ':');
    emit_word(out, "RegTag");
    emit_punct(out, '>');
    emit_open(out, Delim::Brace);
    proof {
        reveal(mreg_struct_head);
    }
    assert(toks_view(out@) =~= b + mreg_struct_head(toks@, mreg_view(*g), mreg_plan_view(*gp)));
}

/// A part of `mreg_impls`.
#[verifier::opaque]
pub open spec fn mreg_impls_1(toks: Seq<Tok>, g: MRegV, gp: MRegPlanV) -> Seq<TokV> {
    tclose(Delim::Brace) + tw("impl"@) + tp('<') + tw("T"@) + tp(':') + tw("reg"@) + tj(':', ':') + tw("RegTag"@) + tp('>') + tw("reg"@) + tj(':', ':') + tw("Reg"@) + tp('<') + tw("T"@) + tp('>') + tw("for"@) + tw("self"@) + tj(':', ':') + tw("Reg"@) + tp('<') + tw("T"@) + tp('>') + topen(Delim::Brace) + tw("type"@) + tw("Val"@) + tp('=') + tw("self"@) + tj(':', ':') + tw("Val"@) + tp(';')
}

#[verifier::spinoff_prover]
#[verifier::rlimit(80)]
fn emit_mreg_impls_1(toks: &Vec<Tok>, g: &MReg, gp: &MRegPlan, out: &mut Vec<Tok>)
    ensures
        toks_view(final(out)@) == toks_view(old(out)@) + mreg_impls_1(toks@, mreg_view(*g), mreg_plan_view(*gp)),
{
    let ghost b = toks_view(old(out)@);
    emit_close(out, Delim::Brace);
    emit_word(out, "impl");
    emit_punct(out, '<');
    emit_word(out, "T");
    emit_punct(out, ':');
    emit_word(out, "reg");
    emit_joint(out, ':', ':');
    emit_word(out, "RegTag");
    emit_punct(out, '>');
    emit_word(out, "reg");
    emit_joint(out, ':', ':');
    emit_word(out, "Reg");
    emit_punct(out, '<');
    emit_word(out, "T");
    emit_punct(out, '>');
    emit_word(out, "for");
    emit_word(out, "self");
    emit_joint(out, ':', ':');
    emit_word(out, "Reg");
    emit_punct(out, '<');
    emit_word(out, "T");
    emit_punct(out, '>');
    emit_open(out, Delim::Brace);
    emit_word(out, "type");
    emit_word(out, "Val");
    emit_punct(out, '=');
    emit_word(out, "self");
    emit_joint(out, ':', ':');
    emit_word(out, "Val");
    emit_punct(out, ';');
    proof {
        reveal(mreg_impls_1);
    }
    assert(toks_view(out@) =~= b + mreg_impls_1(toks@, mreg_view(*g), mreg_plan_view(*gp)));
}

/// A part of `mreg_impls`.
#[verifier::opaque]
pub open spec fn mreg_impls_2(toks: Seq<Tok>, g: MRegV, gp: MRegPlanV) -> Seq<TokV> {
    tw("const"@) + tw("ADDRESS"@) + tp(':') + tw("usize"@) + tp('=') + tl(decimal(g.address as nat)) + tp(';') + tclose(Delim::Brace) + tw("impl"@) + tp('<') + seq![TokV::Punct('\'', true)] + tw("a"@) + tp(',') + tw("T"@) + tp(':') + tw("reg"@) + tj(':', ':') + tw("RegTag"@) + tp('+') + seq![TokV::Punct('\'', true)] + tw("a"@) + tp('>') + tw("reg"@) + tj(':', ':') + tw("RegRef"@) + tp('<') + seq![TokV::Punct('\'', true)] + tw("a"@) + tp(',') + tw("T"@)
}

#[verifier::spinoff_prover]
#[verifier::rlimit(80)]
fn emit_mreg_impls_2(toks: &Vec<Tok>, g: &MReg, gp: &MRegPlan, out: &mut Vec<Tok>)
    ensures
        toks_view(final(out)@) == toks_view(old(out)@) + mreg_impls_2(toks@, mreg_view(*g), mreg_plan_view(*gp)),
{
    let ghost b = toks_view(old(out)@);
    emit_word(out, "const");
    emit_word(out, "ADDRESS");
    emit_punct(out, ':');
    emit_word(out, "usize");
    emit_punct(out, '=');
    emit_decimal(out, g.address);
    emit_punct(out, ';');
    emit_close(out, Delim::Brace);
    emit_word(out, "impl");
    emit_punct(out, '<');
    push_tok(out, Tok::Punct('\'', true));
    emit_word(out, "a");
    emit_punct(out, ',');
    emit_word(out, "T");
    emit_punct(out, ':');
    emit_word(out, "reg");
    emit_joint(out, ':', ':');
    emit_word(out, "RegTag");
    emit_punct(out, '+');
    push_tok(out, Tok::Punct('\'', true));
    emit_word(out, "a");
    emit_punct(out, '>');
    emit_word(out, "reg");
    emit_joint(out, ':', ':');
    emit_word(out, "RegRef");
    emit_punct(out, '<');
    push_tok(out, Tok::Punct('\'', true));
    emit_word(out, "a");
    emit_punct(out, ',');
    emit_word(out, "T");
    proof {
        reveal(mreg_impls_2);
    }
    assert(toks_view(out@) =~= b + mreg_impls_2(toks@, mreg_view(*g), mreg_plan_view(*gp)));
}

/// A part of `mreg_impls`.
#[verifier::opaque]
pub open spec fn mreg_impls_3(toks: Seq<Tok>, g: MRegV, gp: MRegPlanV) -> Seq<TokV> {
    tp('>') + tw("for"@) + tw("self"@) + tj(':', ':') + tw("Reg"@) + tp('<') + tw("T"@) + tp('>') + topen(Delim::Brace) + tw("type"@) + tw("Hold"@) + tp('=') + tw("self"@) + tj(':', ':') + tw("Hold"@) + tp('<') + seq![TokV::Punct('\'', true)] + tw("a"@) + tp(',') + tw("T"@) + tp('>') + tp(';') + tclose(Delim::Brace)
}

#[verifier::spinoff_prover]
#[verifier::rlimit(80)]
fn emit_mreg_impls_3(toks: &Vec<Tok>, g: &MReg, gp: &MRegPlan, out: &mut Vec<Tok>)
    ensures
        toks_view(final(out)@) == toks_view(old(out)@) + mreg_impls_3(toks@, mreg_view(*g), mreg_plan_view(*gp)),
{
    let ghost b = toks_view(old(out)@);
    emit_punct(out, '>');
    emit_word(out, "for");
    emit_word(out, "self");
    emit_joint(out, ':', ':');
    emit_word(out, "Reg");
    emit_punct(out, '<');
    emit_word(out, "T");
    emit_punct(out, '>');
    emit_open(out, Delim::Brace);
    emit_word(out, "type");
    emit_word(out, "Hold");
    emit_punct(out, '=');
    emit_word(out, "self");
    emit_joint(out, ':', ':');
    emit_word(out, "Hold");
    emit_punct(out, '<');
    push_tok(out, Tok::Punct('\'', true));
    emit_word(out, "a");
    emit_punct(out, ',');
    emit_word(out, "T");
    emit_punct(out, '>');
    emit_punct(out, ';');
    emit_close(out, Delim::Brace);
    proof {
        reveal(mreg_impls_3);
    }
    assert(toks_view(out@) =~= b + mreg_impls_3(toks@, mreg_view(*g), mreg_plan_view(*gp)));
}

/// `} impl<T: reg::RegTag> reg::Reg<T> for self::Reg<T> { .. } impl<'a, T: reg::RegTag + 'a> reg::RegRef<'a, T> for self::Reg<T> { .. }`
#[verifier::opaque]
pub open spec fn mreg_impls(toks: Seq<Tok>, g: MRegV, gp: MRegPlanV) -> Seq<TokV> {
    mreg_impls_1(toks, g, gp) + mreg_impls_2(toks, g, gp) + mreg_impls_3(toks, g, gp)
}

#[verifier::spinoff_prover]
#[verifier::rlimit(80)]
fn emit_mreg_impls(toks: &Vec<Tok>, g: &MReg, gp: &MRegPlan, out: &mut Vec<Tok>)
    ensures
        toks_view(final(out)@) == toks_view(old(out)@) + mreg_impls(toks@, mreg_view(*g), mreg_plan_view(*gp)),
{
    let ghost b = toks_view(old(out)@);
    emit_mreg_impls_1(toks, g, gp, out);
    emit_mreg_impls_2(toks, g, gp, out);
    emit_mreg_impls_3(toks, g, gp, out);
    proof {
        reveal(mreg_impls);
    }
    assert(toks_view(out@) =~= b + mreg_impls(toks@, mreg_view(*g), mreg_plan_view(*gp)));
}

/// `ATTRS impl<T: reg::RegTag> TRAIT<T> for self::Reg<T> {}`
#[verifier::opaque]
pub open spec fn mreg_trait(toks: Seq<Tok>, ta: Seq<Span>, tr: usize) -> Seq<TokV> {
    pound_attrs(toks, ta) + tw("impl"@) + tp('<') + tw("T"@) + tp(':') + tw("reg"@) + tj(':', ':') + tw("RegTag"@) + tp('>') + span_toks(toks, one(tr)) + tp('<') + tw("T"@) + tp('>') + tw("for"@) + tw("self"@) + tj(':', ':') + tw("Reg"@) + tp('<') + tw("T"@) + tp('>') + topen(Delim::Brace) + tclose(Delim::Brace)
}

#[verifier::spinoff_prover]
#[verifier::rlimit(80)]
fn emit_mreg_trait(toks: &Vec<Tok>, ta: &Vec<Span>, tr: usize, out: &mut Vec<Tok>)
    ensures
        toks_view(final(out)@) == toks_view(old(out)@) + mreg_trait(toks@, ta@, tr),
{
    let ghost b = toks_view(old(out)@);
    emit_pound_attrs(toks, ta, out);
    emit_word(out, "impl");
    emit_punct(out, '<');
    emit_word(out, "T");
    emit_punct(out, ':');
    emit_word(out, "reg");
    emit_joint(out, ':', ':');
    emit_word(out, "RegTag");
    emit_punct(out, '>');
    emit_span(toks, one_exec(tr), out);
    emit_punct(out, '<');
    emit_word(out, "T");
    emit_punct(out, '>');
    emit_word(out, "for");
    emit_word(out, "self");
    emit_joint(out, ':', ':');
    emit_word(out, "Reg");
    emit_punct(out, '<');
    emit_word(out, "T");
    emit_punct(out, '>');
    emit_open(out, Delim::Brace);
    emit_close(out, Delim::Brace);
    proof {
        reveal(mreg_trait);
    }
    assert(toks_view(out@) =~= b + mreg_trait(toks@, ta@, tr));
}

/// A part of `mreg_froms`.
#[verifier::opaque]
pub open spec fn mreg_froms_1(toks: Seq<Tok>, g: MRegV, gp: MRegPlanV) -> Seq<TokV> {
    tw("impl"@) + tw("From"@) + tp('<') + tw("self"@) + tj(':', ':') + tw("Reg"@) + tp('<') + tw("reg"@) + tj(':', ':') + tw("Ubt"@) + tp('>') + tp('>') + tw("for"@) + tw("self"@) + tj(':', ':') + tw("Reg"@) + tp('<') + tw("reg"@) + tj(':', ':') + tw("Sbt"@) + tp('>') + topen(Delim::Brace) + tp('#') + topen(Delim::Bracket) + tw("inline"@) + topen(Delim::Paren) + tw("always"@) + tclose(Delim::Paren) + tclose(Delim::Bracket) + tw("fn"@) + tw("from"@) + topen(Delim::Paren) + tw("_reg"@) + tp(':') + tw("self"@) + tj(':', ':') + tw("Reg"@) + tp('<') + tw("reg"@) + tj(':', ':')
}

#[verifier::spinoff_prover]
#[verifier::rlimit(80)]
fn emit_mreg_froms_1(toks: &Vec<Tok>, g: &MReg, gp: &MRegPlan, out: &mut Vec<Tok>)
    ensures
        toks_view(final(out)@) == toks_view(old(out)@) + mreg_froms_1(toks@, mreg_view(*g), mreg_plan_view(*gp)),
{
    let ghost b = toks_view(old(out)@);
    emit_word(out, "impl");
    emit_word(out, "From");
    emit_punct(out, '<');
    emit_word(out, "self");
    emit_joint(out, ':', ':');
    emit_word(out, "Reg");
    emit_punct(out, '<');
    emit_word(out, "reg");
    emit_joint(out, ':', ':');
    emit_word(out, "Ubt");
    emit_punct(out, '>');
    emit_punct(out, '>');
    emit_word(out, "for");
    emit_word(out, "self");
    emit_joint(out, ':', ':');
    emit_word(out, "Reg");
    emit_punct(out, '<');
    emit_word(out, "reg");
    emit_joint(out, ':', ':');
    emit_word(out, "Sbt");
    emit_punct(out, '>');
    emit_open(out, Delim::Brace);
    emit_punct(out, '#');
    emit_open(out, Delim::Bracket);
    emit_word(out, "inline");
    emit_open(out, Delim::Paren);
    emit_word(out, "always");
    emit_close(out, Delim::Paren);
    emit_close(out, Delim::Bracket);
    emit_word(out, "fn");
    emit_word(out, "from");
    emit_open(out, Delim::Paren);
    emit_word(out, "_reg");
    emit_punct(out, ':');
    emit_word(out, "self");
    emit_joint(out, ':', ':');
    emit_word(out, "Reg");
    emit_punct(out, '<');
    emit_word(out, "reg");
    emit_joint(out, ':', ':');
    proof {
        reveal(mreg_froms_1);
    }
    assert(toks_view(out@) =~= b + mreg_froms_1(toks@, mreg_view(*g), mreg_plan_view(*gp)));
}

/// A part of `mreg_froms`.
#[verifier::opaque]
pub open spec fn mreg_froms_2(toks: Seq<Tok>, g: MRegV, gp: MRegPlanV) -> Seq<TokV> {
    tw("Ubt"@) + tp('>') + tclose(Delim::Paren) + tj('-', '>') + tw("Self"@) + topen(Delim::Brace) + tw("unsafe"@) + topen(Delim::Brace) + tw("Self"@) + topen(Delim::Brace) + bind_list(gp.fields) + tclose(Delim::Brace) + tclose(Delim::Brace) + tclose(Delim::Brace) + tclose(Delim::Brace) + tw("impl"@) + tw("From"@) + tp('<') + tw("self"@) + tj(':', ':') + tw("Reg"@) + tp('<') + tw("reg"@) + tj(':', ':') + tw("Sbt"@) + tp('>') + tp('>') + tw("for"@) + tw("self"@) + tj(':', ':') + tw("Reg"@) + tp('<') + tw("reg"@) + tj(':', ':') + tw("Fbt"@) + tp('>') + topen(Delim::Brace) + tp('#') + topen(Delim::Bracket) + tw("inline"@)
}

#[verifier::spinoff_prover]
#[verifier::rlimit(80)]
fn emit_mreg_froms_2(toks: &Vec<Tok>, g: &MReg, gp: &MRegPlan, out: &mut Vec<Tok>)
    ensures
        toks_view(final(out)@) == toks_view(old(out)@) + mreg_froms_2(toks@, mreg_view(*g), mreg_plan_view(*gp)),
{
    let ghost b = toks_view(old(out)@);
    emit_word(out, "Ubt");
    emit_punct(out, '>');
    emit_close(out, Delim::Paren);
    emit_joint(out, '-', '>');
    emit_word(out, "Self");
    emit_open(out, Delim::Brace);
    emit_word(out, "unsafe");
    emit_open(out, Delim::Brace);
    emit_word(out, "Self");
    emit_open(out, Delim::Brace);
    emit_bind_list(&gp.fields, out);
    emit_close(out, Delim::Brace);
    emit_close(out, Delim::Brace);
    emit_close(out, Delim::Brace);
    emit_close(out, Delim::Brace);
    emit_word(out, "impl");
    emit_word(out, "From");
    emit_punct(out, '<');
    emit_word(out, "self");
    emit_joint(out, ':', ':');
    emit_word(out, "Reg");
    emit_punct(out, '<');
    emit_word(out, "reg");
    emit_joint(out, ':', ':');
    emit_word(out, "Sbt");
    emit_punct(out, '>');
    emit_punct(out, '>');
    emit_word(out, "for");
    emit_word(out, "self");
    emit_joint(out, ':', ':');
    emit_word(out, "Reg");
    emit_punct(out, '<');
    emit_word(out, "reg");
    emit_joint(out, ':', ':');
    emit_word(out, "Fbt");
    emit_punct(out, '>');
    emit_open(out, Delim::Brace);
    emit_punct(out, '#');
    emit_open(out, Delim::Bracket);
    emit_word(out, "inline");
    proof {
        reveal(mreg_froms_2);
    }
    assert(toks_view(out@) =~= b + mreg_froms_2(toks@, mreg_view(*g), mreg_plan_view(*gp)));
}

/// A part of `mreg_froms`.
#[verifier::opaque]
pub open spec fn mreg_froms_3(toks: Seq<Tok>, g: MRegV, gp: MRegPlanV) -> Seq<TokV> {
    topen(Delim::Paren) + tw("always"@) + tclose(Delim::Paren) + tclose(Delim::Bracket) + tw("fn"@) + tw("from"@) + topen(Delim::Paren) + tw("_reg"@) + tp(':') + tw("self"@) + tj(':', ':') + tw("Reg"@) + tp('<') + tw("reg"@) + tj(':', ':') + tw("Sbt"@) + tp('>') + tclose(Delim::Paren) + tj('-', '>') + tw("Self"@) + topen(Delim::Brace) + tw("unsafe"@) + topen(Delim::Brace) + tw("Self"@) + topen(Delim::Brace) + bind_list(gp.fields) + tclose(Delim::Brace) + tclose(Delim::Brace) + tclose(Delim::Brace) + tclose(Delim::Brace) + tw("impl"@) + tw("From"@) + tp('<') + tw("self"@) + tj(':', ':') + tw("Reg"@) + tp('<') + tw("reg"@) + tj(':', ':') + tw("Sbt"@)
}

#[verifier::spinoff_prover]
#[verifier::rlimit(80)]
fn emit_mreg_froms_3(toks: &Vec<Tok>, g: &MReg, gp: &MRegPlan, out: &mut Vec<Tok>)
    ensures
        toks_view(final(out)@) == toks_view(old(out)@) + mreg_froms_3(toks@, mreg_view(*g), mreg_plan_view(*gp)),
{
    let ghost b = toks_view(old(out)@);
    emit_open(out, Delim::Paren);
    emit_word(out, "always");
    emit_close(out, Delim::Paren);
    emit_close(out, Delim::Bracket);
    emit_word(out, "fn");
    emit_word(out, "from");
    emit_open(out, Delim::Paren);
    emit_word(out, "_reg");
    emit_punct(out, ':');
    emit_word(out, "self");
    emit_joint(out, ':', ':');
    emit_word(out, "Reg");
    emit_punct(out, '<');
    emit_word(out, "reg");
    emit_joint(out, ':', ':');
    emit_word(out, "Sbt");
    emit_punct(out, '>');
    emit_close(out, Delim::Paren);
    emit_joint(out, '-', '>');
    emit_word(out, "Self");
    emit_open(out, Delim::Brace);
    emit_word(out, "unsafe");
    emit_open(out, Delim::Brace);
    emit_word(out, "Self");
    emit_open(out, Delim::Brace);
    emit_bind_list(&gp.fields, out);
    emit_close(out, Delim::Brace);
    emit_close(out, Delim::Brace);
    emit_close(out, Delim::Brace);
    emit_close(out, Delim::Brace);
    emit_word(out, "impl");
    emit_word(out, "From");
    emit_punct(out, '<');
    emit_word(out, "self");
    emit_joint(out, ':', ':');
    emit_word(out, "Reg");
    emit_punct(out, '<');
    emit_word(out, "reg");
    emit_joint(out, ':', ':');
    emit_word(out, "Sbt");
    proof {
        reveal(mreg_froms_3);
    }
    assert(toks_view(out@) =~= b + mreg_froms_3(toks@, mreg_view(*g), mreg_plan_view(*gp)));
}

/// A part of `mreg_froms`.
#[verifier::opaque]
pub open spec fn mreg_froms_4(toks: Seq<Tok>, g: MRegV, gp: MRegPlanV) -> Seq<TokV> {
    tp('>') + tp('>') + tw("for"@) + tw("self"@) + tj(':', ':') + tw("Reg"@) + tp('<') + tw("reg"@) + tj(':', ':') + tw("Ubt"@) + tp('>') + topen(Delim::Brace) + tp('#') + topen(Delim::Bracket) + tw("inline"@) + topen(Delim::Paren) + tw("always"@) + tclose(Delim::Paren) + tclose(Delim::Bracket) + tw("fn"@) + tw("from"@) + topen(Delim::Paren) + tw("_reg"@) + tp(':') + tw("self"@) + tj(':', ':') + tw("Reg"@) + tp('<') + tw("reg"@) + tj(':', ':') + tw("Sbt"@) + tp('>') + tclose(Delim::Paren) + tj('-', '>') + tw("Self"@) + topen(Delim::Brace) + tw("unsafe"@) + topen(Delim::Brace) + tw("Self"@) + topen(Delim::Brace)
}

#[verifier::spinoff_prover]
#[verifier::rlimit(80)]
fn emit_mreg_froms_4(toks: &Vec<Tok>, g: &MReg, gp: &MRegPlan, out: &mut Vec<Tok>)
    ensures
        toks_view(final(out)@) == toks_view(old(out)@) + mreg_froms_4(toks@, mreg_view(*g), mreg_plan_view(*gp)),
{
    let ghost b = toks_view(old(out)@);
    emit_punct(out, '>');
    emit_punct(out, '>');
    emit_word(out, "for");
    emit_word(out, "self");
    emit_joint(out, ':', ':');
    emit_word(out, "Reg");
    emit_punct(out, '<');
    emit_word(out, "reg");
    emit_joint(out, ':', ':');
    emit_word(out, "Ubt");
    emit_punct(out, '>');
    emit_open(out, Delim::Brace);
    emit_punct(out, '#');
    emit_open(out, Delim::Bracket);
    emit_word(out, "inline");
    emit_open(out, Delim::Paren);
    emit_word(out, "always");
    emit_close(out, Delim::Paren);
    emit_close(out, Delim::Bracket);
    emit_word(out, "fn");
    emit_word(out, "from");
    emit_open(out, Delim::Paren);
    emit_word(out, "_reg");
    emit_punct(out, ':');
    emit_word(out, "self");
    emit_joint(out, ':', ':');
    emit_word(out, "Reg");
    emit_punct(out, '<');
    emit_word(out, "reg");
    emit_joint(out, ':', ':');
    emit_word(out, "Sbt");
    emit_punct(out, '>');
    emit_close(out, Delim::Paren);
    emit_joint(out, '-', '>');
    emit_word(out, "Self");
    emit_open(out, Delim::Brace);
    emit_word(out, "unsafe");
    emit_open(out, Delim::Brace);
    emit_word(out, "Self");
    emit_open(out, Delim::Brace);
    proof {
        reveal(mreg_froms_4);
    }
    assert(toks_view(out@) =~= b + mreg_froms_4(toks@, mreg_view(*g), mreg_plan_view(*gp)));
}

/// A part of `mreg_froms`.
#[verifier::opaque]
pub open spec fn mreg_froms_5(toks: Seq<Tok>, g: MRegV, gp: MRegPlanV) -> Seq<TokV> {
    bind_list(gp.fields) + tclose(Delim::Brace) + tclose(Delim::Brace) + tclose(Delim::Brace) + tclose(Delim::Brace) + tw("impl"@) + tw("From"@) + tp('<') + tw("self"@) + tj(':', ':') + tw("Reg"@) + tp('<') + tw("reg"@) + tj(':', ':') + tw("Fbt"@) + tp('>') + tp('>') + tw("for"@) + tw("self"@) + tj(':', ':') + tw("Reg"@) + tp('<') + tw("reg"@) + tj(':', ':') + tw("Cbt"@) + tp('>') + topen(Delim::Brace) + tp('#') + topen(Delim::Bracket) + tw("inline"@) + topen(Delim::Paren) + tw("always"@) + tclose(Delim::Paren) + tclose(Delim::Bracket) + tw("fn"@) + tw("from"@) + topen(Delim::Paren) + tw("_reg"@) + tp(':') + tw("self"@)
}

#[verifier::spinoff_prover]
#[verifier::rlimit(80)]
fn emit_mreg_froms_5(toks: &Vec<Tok>, g: &MReg, gp: &MRegPlan, out: &mut Vec<Tok>)
    ensures
        toks_view(final(out)@) == toks_view(old(out)@) + mreg_froms_5(toks@, mreg_view(*g), mreg_plan_view(*gp)),
{
    let ghost b = toks_view(old(out)@);
    emit_bind_list(&gp.fields, out);
    emit_close(out, Delim::Brace);
    emit_close(out, Delim::Brace);
    emit_close(out, Delim::Brace);
    emit_close(out, Delim::Brace);
    emit_word(out, "impl");
    emit_word(out, "From");
    emit_punct(out, '<');
    emit_word(out, "self");
    emit_joint(out, ':', ':');
    emit_word(out, "Reg");
    emit_punct(out, '<');
    emit_word(out, "reg");
    emit_joint(out, ':', ':');
    emit_word(out, "Fbt");
    emit_punct(out, '>');
    emit_punct(out, '>');
    emit_word(out, "for");
    emit_word(out, "self");
    emit_joint(out, ':', ':');
    emit_word(out, "Reg");
    emit_punct(out, '<');
    emit_word(out, "reg");
    emit_joint(out, ':', ':');
    emit_word(out, "Cbt");
    emit_punct(out, '>');
    emit_open(out, Delim::Brace);
    emit_punct(out, '#');
    emit_open(out, Delim::Bracket);
    emit_word(out, "inline");
    emit_open(out, Delim::Paren);
    emit_word(out, "always");
    emit_close(out, Delim::Paren);
    emit_close(out, Delim::Bracket);
    emit_word(out, "fn");
    emit_word(out, "from");
    emit_open(out, Delim::Paren);
    emit_word(out, "_reg");
    emit_punct(out, ':');
    emit_word(out, "self");
    proof {
        reveal(mreg_froms_5);
    }
    assert(toks_view(out@) =~= b + mreg_froms_5(toks@, mreg_view(*g), mreg_plan_view(*gp)));
}

/// A part of `mreg_froms`.
#[verifier::opaque]
pub open spec fn mreg_froms_6(toks: Seq<Tok>, g: MRegV, gp: MRegPlanV) -> Seq<TokV> {
    tj(':', ':') + tw("Reg"@) + tp('<') + tw("reg"@) + tj(':', ':') + tw("Fbt"@) + tp('>') + tclose(Delim::Paren) + tj('-', '>') + tw("Self"@) + topen(Delim::Brace) + tw("unsafe"@) + topen(Delim::Brace) + tw("Self"@) + topen(Delim::Brace) + bind_list(gp.fields) + tclose(Delim::Brace) + tclose(Delim::Brace) + tclose(Delim::Brace) + tclose(Delim::Brace)
}

#[verifier::spinoff_prover]
#[verifier::rlimit(80)]
fn emit_mreg_froms_6(toks: &Vec<Tok>, g: &MReg, gp: &MRegPlan, out: &mut Vec<Tok>)
    ensures
        toks_view(final(out)@) == toks_view(old(out)@) + mreg_froms_6(toks@, mreg_view(*g), mreg_plan_view(*gp)),
{
    let ghost b = toks_view(old(out)@);
    emit_joint(out, ':', ':');
    emit_word(out, "Reg");
    emit_punct(out, '<');
    emit_word(out, "reg");
    emit_joint(out, ':', ':');
    emit_word(out, "Fbt");
    emit_punct(out, '>');
    emit_close(out, Delim::Paren);
    emit_joint(out, '-', '>');
    emit_word(out, "Self");
    emit_open(out, Delim::Brace);
    emit_word(out, "unsafe");
    emit_open(out, Delim::Brace);
    emit_word(out, "Self");
    emit_open(out, Delim::Brace);
    emit_bind_list(&gp.fields, out);
    emit_close(out, Delim::Brace);
    emit_close(out, Delim::Brace);
    emit_close(out, Delim::Brace);
    emit_close(out, Delim::Brace);
    proof {
        reveal(mreg_froms_6);
    }
    assert(toks_view(out@) =~= b + mreg_froms_6(toks@, mreg_view(*g), mreg_plan_view(*gp)));
}

/// The conversions of the register token between its tags.
#[verifier::opaque]
pub open spec fn mreg_froms(toks: Seq<Tok>, g: MRegV, gp: MRegPlanV) -> Seq<TokV> {
    mreg_froms_1(toks, g, gp) + mreg_froms_2(toks, g, gp) + mreg_froms_3(toks, g, gp) + mreg_froms_4(toks, g, gp) + mreg_froms_5(toks, g, gp) + mreg_froms_6(toks, g, gp)
}

#[verifier::spinoff_prover]
#[verifier::rlimit(80)]
fn emit_mreg_froms(toks: &Vec<Tok>, g: &MReg, gp: &MRegPlan, out: &mut Vec<Tok>)
    ensures
        toks_view(final(out)@) == toks_view(old(out)@) + mreg_froms(toks@, mreg_view(*g), mreg_plan_view(*gp)),
{
    let ghost b = toks_view(old(out)@);
    emit_mreg_froms_1(toks, g, gp, out);
    emit_mreg_froms_2(toks, g, gp, out);
    emit_mreg_froms_3(toks, g, gp, out);
    emit_mreg_froms_4(toks, g, gp, out);
    emit_mreg_froms_5(toks, g, gp, out);
    emit_mreg_froms_6(toks, g, gp, out);
    proof {
        reveal(mreg_froms);
    }
    assert(toks_view(out@) =~= b + mreg_froms(toks@, mreg_view(*g), mreg_plan_view(*gp)));
}

/// A part of `mreg_fork`.
#[verifier::opaque]
pub open spec fn mreg_fork_1(toks: Seq<Tok>, g: MRegV, gp: MRegPlanV) -> Seq<TokV> {
    tw("impl"@) + tw("reg"@) + tj(':', ':') + tw("RegFork"@) + tw("for"@) + tw("self"@) + tj(':', ':') + tw("Reg"@) + tp('<') + tw("reg"@) + tj(':', ':') + tw("Fbt"@) + tp('>') + topen(Delim::Brace) + tp('#') + topen(Delim::Bracket) + tw("inline"@) + topen(Delim::Paren) + tw("always"@) + tclose(Delim::Paren) + tclose(Delim::Bracket) + tw("fn"@) + tw("fork"@) + topen(Delim::Paren) + tp('&') + tw("mut"@) + tw("self"@) + tclose(Delim::Paren) + tj('-', '>') + tw("Self"@)
}

#[verifier::spinoff_prover]
#[verifier::rlimit(80)]
fn emit_mreg_fork_1(toks: &Vec<Tok>, g: &MReg, gp: &MRegPlan, out: &mut Vec<Tok>)
    ensures
        toks_view(final(out)@) == toks_view(old(out)@) + mreg_fork_1(toks@, mreg_view(*g), mreg_plan_view(*gp)),
{
    let ghost b = toks_view(old(out)@);
    emit_word(out, "impl");
    emit_word(out, "reg");
    emit_joint(out, ':', ':');
    emit_word(out, "RegFork");
    emit_word(out, "for");
    emit_word(out, "self");
    emit_joint(out, ':', ':');
    emit_word(out, "Reg");
    emit_punct(out, '<');
    emit_word(out, "reg");
    emit_joint(out, ':', ':');
    emit_word(out, "Fbt");
    emit_punct(out, '>');
    emit_open(out, Delim::Brace);
    emit_punct(out, '#');
    emit_open(out, Delim::Bracket);
    emit_word(out, "inline");
    emit_open(out, Delim::Paren);
    emit_word(out, "always");
    emit_close(out, Delim::Paren);
    emit_close(out, Delim::Bracket);
    emit_word(out, "fn");
    emit_word(out, "fork");
    emit_open(out, Delim::Paren);
    emit_punct(out, '&');
    emit_word(out, "mut");
    emit_word(out, "self");
    emit_close(out, Delim::Paren);
    emit_joint(out, '-', '>');
    emit_word(out, "Self");
    proof {
        reveal(mreg_fork_1);
    }
    assert(toks_view(out@) =~= b + mreg_fork_1(toks@, mreg_view(*g), mreg_plan_view(*gp)));
}

/// A part of `mreg_fork`.
#[verifier::opaque]
pub open spec fn mreg_fork_2(toks: Seq<Tok>, g: MRegV, gp: MRegPlanV) -> Seq<TokV> {
    topen(Delim::Brace) + tw("Self"@) + topen(Delim::Brace) + fork_list(gp.fields) + tclose(Delim::Brace) + tclose(Delim::Brace) + tclose(Delim::Brace) + tp('#') + topen(Delim::Bracket) + tw("cfg_attr"@) + topen(Delim::Paren) + tw("feature"@) + tp('=') + tl("\"clippy\""@) + tp(',') + tw("allow"@) + topen(Delim::Paren) + tw("expl_impl_clone_on_copy"@) + tclose(Delim::Paren) + tclose(Delim::Paren) + tclose(Delim::Bracket) + tw("impl"@) + tw("Clone"@) + tw("for"@) + tw("self"@) + tj(':', ':') + tw("Reg"@) + tp('<') + tw("reg"@) + tj(':', ':')
}

#[verifier::spinoff_prover]
#[verifier::rlimit(80)]
fn emit_mreg_fork_2(toks: &Vec<Tok>, g: &MReg, gp: &MRegPlan, out: &mut Vec<Tok>)
    ensures
        toks_view(final(out)@) == toks_view(old(out)@) + mreg_fork_2(toks@, mreg_view(*g), mreg_plan_view(*gp)),
{
    let ghost b = toks_view(old(out)@);
    emit_open(out, Delim::Brace);
    emit_word(out, "Self");
    emit_open(out, Delim::Brace);
    emit_fork_list(&gp.fields, out);
    emit_close(out, Delim::Brace);
    emit_close(out, Delim::Brace);
    emit_close(out, Delim::Brace);
    emit_punct(out, '#');
    emit_open(out, Delim::Bracket);
    emit_word(out, "cfg_attr");
    emit_open(out, Delim::Paren);
    emit_word(out, "feature");
    emit_punct(out, '=');
    emit_literal(out, "\"clippy\"");
    emit_punct(out, ',');
    emit_word(out, "allow");
    emit_open(out, Delim::Paren);
    emit_word(out, "expl_impl_clone_on_copy");
    emit_close(out, Delim::Paren);
    emit_close(out, Delim::Paren);
    emit_close(out, Delim::Bracket);
    emit_word(out, "impl");
    emit_word(out, "Clone");
    emit_word(out, "for");
    emit_word(out, "self");
    emit_joint(out, ':', ':');
    emit_word(out, "Reg");
    emit_punct(out, '<');
    emit_word(out, "reg");
    emit_joint(out, ':', ':');
    proof {
        reveal(mreg_fork_2);
    }
    assert(toks_view(out@) =~= b + mreg_fork_2(toks@, mreg_view(*g), mreg_plan_view(*gp)));
}

/// A part of `mreg_fork`.
#[verifier::opaque]
pub open spec fn mreg_fork_3(toks: Seq<Tok>, g: MRegV, gp: MRegPlanV) -> Seq<TokV> {
    tw("Cbt"@) + tp('>') + topen(Delim::Brace) + tp('#') + topen(Delim::Bracket) + tw("inline"@) + topen(Delim::Paren) + tw("always"@) + tclose(Delim::Paren) + tclose(Delim::Bracket) + tw("fn"@) + tw("clone"@) + topen(Delim::Paren) + tp('&') + tw("self"@) + tclose(Delim::Paren) + tj('-', '>') + tw("Self"@) + topen(Delim::Brace) + tw("Self"@) + topen(Delim::Brace) + tj('.', '.') + tp('*') + tw("self"@) + tclose(Delim::Brace) + tclose(Delim::Brace) + tclose(Delim::Brace) + tw("impl"@) + tw("Copy"@) + tw("for"@)
}

#[verifier::spinoff_prover]
#[verifier::rlimit(80)]
fn emit_mreg_fork_3(toks: &Vec<Tok>, g: &MReg, gp: &MRegPlan, out: &mut Vec<Tok>)
    ensures
        toks_view(final(out)@) == toks_view(old(out)@) + mreg_fork_3(toks@, mreg_view(*g), mreg_plan_view(*gp)),
{
    let ghost b = toks_view(old(out)@);
    emit_word(out, "Cbt");
    emit_punct(out, '>');
    emit_open(out, Delim::Brace);
    emit_punct(out, '#');
    emit_open(out, Delim::Bracket);
    emit_word(out, "inline");
    emit_open(out, Delim::Paren);
    emit_word(out, "always");
    emit_close(out, Delim::Paren);
    emit_close(out, Delim::Bracket);
    emit_word(out, "fn");
    emit_word(out, "clone");
    emit_open(out, Delim::Paren);
    emit_punct(out, '&');
    emit_word(out, "self");
    emit_close(out, Delim::Paren);
    emit_joint(out, '-', '>');
    emit_word(out, "Self");
    emit_open(out, Delim::Brace);
    emit_word(out, "Self");
    emit_open(out, Delim::Brace);
    emit_joint(out, '.', '.');
    emit_punct(out, '*');
    emit_word(out, "self");
    emit_close(out, Delim::Brace);
    emit_close(out, Delim::Brace);
    emit_close(out, Delim::Brace);
    emit_word(out, "impl");
    emit_word(out, "Copy");
    emit_word(out, "for");
    proof {
        reveal(mreg_fork_3);
    }
    assert(toks_view(out@) =~= b + mreg_fork_3(toks@, mreg_view(*g), mreg_plan_view(*gp)));
}

/// A part of `mreg_fork`.
#[verifier::opaque]
pub open spec fn mreg_fork_4(toks: Seq<Tok>, g: MRegV, gp: MRegPlanV) -> Seq<TokV> {
    tw("self"@) + tj(':', ':') + tw("Reg"@) + tp('<') + tw("reg"@) + tj(':', ':') + tw("Cbt"@) + tp('>') + topen(Delim::Brace) + tclose(Delim::Brace)
}

#[verifier::spinoff_prover]
#[verifier::rlimit(80)]
fn emit_mreg_fork_4(toks: &Vec<Tok>, g: &MReg, gp: &MRegPlan, out: &mut Vec<Tok>)
    ensures
        toks_view(final(out)@) == toks_view(old(out)@) + mreg_fork_4(toks@, mreg_view(*g), mreg_plan_view(*gp)),
{
    let ghost b = toks_view(old(out)@);
    emit_word(out, "self");
    emit_joint(out, ':', ':');
    emit_word(out, "Reg");
    emit_punct(out, '<');
    emit_word(out, "reg");
    emit_joint(out, ':', ':');
    emit_word(out, "Cbt");
    emit_punct(out, '>');
    emit_open(out, Delim::Brace);
    emit_close(out, Delim::Brace);
    proof {
        reveal(mreg_fork_4);
    }
    assert(toks_view(out@) =~= b + mreg_fork_4(toks@, mreg_view(*g), mreg_plan_view(*gp)));
}

/// The register token's `RegFork`, `Clone` and `Copy`.
#[verifier::opaque]
pub open spec fn mreg_fork(toks: Seq<Tok>, g: MRegV, gp: MRegPlanV) -> Seq<TokV> {
    mreg_fork_1(toks, g, gp) + mreg_fork_2(toks, g, gp) + mreg_fork_3(toks, g, gp) + mreg_fork_4(toks, g, gp)
}

#[verifier::spinoff_prover]
#[verifier::rlimit(80)]
fn emit_mreg_fork(toks: &Vec<Tok>, g: &MReg, gp: &MRegPlan, out: &mut Vec<Tok>)
    ensures
        toks_view(final(out)@) == toks_view(old(out)@) + mreg_fork(toks@, mreg_view(*g), mreg_plan_view(*gp)),
{
    let ghost b = toks_view(old(out)@);
    emit_mreg_fork_1(toks, g, gp, out);
    emit_mreg_fork_2(toks, g, gp, out);
    emit_mreg_fork_3(toks, g, gp, out);
    emit_mreg_fork_4(toks, g, gp, out);
    proof {
        reveal(mreg_fork);
    }
    assert(toks_view(out@) =~= b + mreg_fork(toks@, mreg_view(*g), mreg_plan_view(*gp)));
}

/// A part of `mreg_hold`.
#[verifier::opaque]
pub open spec fn mreg_hold_1(toks: Seq<Tok>, g: MRegV, gp: MRegPlanV) -> Seq<TokV> {
    pound_attrs(toks, g.attrs) + tw("pub"@) + tw("struct"@) + tw("Hold"@) + tp('<') + seq![TokV::Punct('\'', true)] + tw("a"@) + tp(',') + tw("T"@) + tp(':') + tw("reg"@) + tj(':', ':') + tw("RegTag"@) + tp('+') + seq![TokV::Punct('\'', true)] + tw("a"@) + tp('>') + topen(Delim::Brace) + tw("reg"@) + tp(':') + tp('&') + seq![TokV::Punct('\'', true)] + tw("a"@) + tw("self"@) + tj(':', ':') + tw("Reg"@) + tp('<') + tw("T"@) + tp('>') + tp(',') + tw("val"@) + tp(':') + tw("self"@) + tj(':', ':') + tw("Val"@) + tp(',') + tclose(Delim::Brace) + tw("impl"@) + tp('<') + seq![TokV::Punct('\'', true)]
}

#[verifier::spinoff_prover]
#[verifier::rlimit(80)]
fn emit_mreg_hold_1(toks: &Vec<Tok>, g: &MReg, gp: &MRegPlan, out: &mut Vec<Tok>)
    ensures
        toks_view(final(out)@) == toks_view(old(out)@) + mreg_hold_1(toks@, mreg_view(*g), mreg_plan_view(*gp)),
{
    let ghost b = toks_view(old(out)@);
    emit_pound_attrs(toks, &g.attrs, out);
    emit_word(out, "pub");
    emit_word(out, "struct");
    emit_word(out, "Hold");
    emit_punct(out, '<');
    push_tok(out, Tok::Punct('\'', true));
    emit_word(out, "a");
    emit_punct(out, ',');
    emit_word(out, "T");
    emit_punct(out, ':');
    emit_word(out, "reg");
    emit_joint(out, ':', ':');
    emit_word(out, "RegTag");
    emit_punct(out, '+');
    push_tok(out, Tok::Punct('\'', true));
    emit_word(out, "a");
    emit_punct(out, '>');
    emit_open(out, Delim::Brace);
    emit_word(out, "reg");
    emit_punct(out, ':');
    emit_punct(out, '&');
    push_tok(out, Tok::Punct('\'', true));
    emit_word(out, "a");
    emit_word(out, "self");
    emit_joint(out, ':', ':');
    emit_word(out, "Reg");
    emit_punct(out, '<');
    emit_word(out, "T");
    emit_punct(out, '>');
    emit_punct(out, ',');
    emit_word(out, "val");
    emit_punct(out, ':');
    emit_word(out, "self");
    emit_joint(out, ':', ':');
    emit_word(out, "Val");
    emit_punct(out, ',');
    emit_close(out, Delim::Brace);
    emit_word(out, "impl");
    emit_punct(out, '<');
    push_tok(out, Tok::Punct('\'', true));
    proof {
        reveal(mreg_hold_1);
    }
    assert(toks_view(out@) =~= b + mreg_hold_1(toks@, mreg_view(*g), mreg_plan_view(*gp)));
}

/// A part of `mreg_hold`.
#[verifier::opaque]
pub open spec fn mreg_hold_2(toks: Seq<Tok>, g: MRegV, gp: MRegPlanV) -> Seq<TokV> {
    tw("a"@) + tp(',') + tw("T"@) + tp('>') + tw("reg"@) + tj(':', ':') + tw("RegHold"@) + tp('<') + seq![TokV::Punct('\'', true)] + tw("a"@) + tp(',') + tw("T"@) + tp(',') + tw("self"@) + tj(':', ':') + tw("Reg"@) + tp('<') + tw("T"@) + tp('>') + tp('>') + tw("for"@) + tw("self"@) + tj(':', ':') + tw("Hold"@) + tp('<') + seq![TokV::Punct('\'', true)] + tw("a"@) + tp(',') + tw("T"@) + tp('>') + tw("where"@) + tw("T"@) + tp(':') + tw("reg"@) + tj(':', ':') + tw("RegTag"@) + tp(',') + topen(Delim::Brace) + tp('#') + topen(Delim::Bracket)
}

#[verifier::spinoff_prover]
#[verifier::rlimit(80)]
fn emit_mreg_hold_2(toks: &Vec<Tok>, g: &MReg, gp: &MRegPlan, out: &mut Vec<Tok>)
    ensures
        toks_view(final(out)@) == toks_view(old(out)@) + mreg_hold_2(toks@, mreg_view(*g), mreg_plan_view(*gp)),
{
    let ghost b = toks_view(old(out)@);
    emit_word(out, "a");
    emit_punct(out, ',');
    emit_word(out, "T");
    emit_punct(out, '>');
    emit_word(out, "reg");
    emit_joint(out, ':', ':');
    emit_word(out, "RegHold");
    emit_punct(out, '<');
    push_tok(out, Tok::Punct('\'', true));
    emit_word(out, "a");
    emit_punct(out, ',');
    emit_word(out, "T");
    emit_punct(out, ',');
    emit_word(out, "self");
    emit_joint(out, ':', ':');
    emit_word(out, "Reg");
    emit_punct(out, '<');
    emit_word(out, "T");
    emit_punct(out, '>');
    emit_punct(out, '>');
    emit_word(out, "for");
    emit_word(out, "self");
    emit_joint(out, ':', ':');
    emit_word(out, "Hold");
    emit_punct(out, '<');
    push_tok(out, Tok::Punct('\'', true));
    emit_word(out, "a");
    emit_punct(out, ',');
    emit_word(out, "T");
    emit_punct(out, '>');
    emit_word(out, "where");
    emit_word(out, "T");
    emit_punct(out, ':');
    emit_word(out, "reg");
    emit_joint(out, ':', ':');
    emit_word(out, "RegTag");
    emit_punct(out, ',');
    emit_open(out, Delim::Brace);
    emit_punct(out, '#');
    emit_open(out, Delim::Bracket);
    proof {
        reveal(mreg_hold_2);
    }
    assert(toks_view(out@) =~= b + mreg_hold_2(toks@, mreg_view(*g), mreg_plan_view(*gp)));
}

/// A part of `mreg_hold`.
#[verifier::opaque]
pub open spec fn mreg_hold_3(toks: Seq<Tok>, g: MRegV, gp: MRegPlanV) -> Seq<TokV> {
    tw("inline"@) + topen(Delim::Paren) + tw("always"@) + tclose(Delim::Paren) + tclose(Delim::Bracket) + tw("unsafe"@) + tw("fn"@) + tw("new"@) + topen(Delim::Paren) + tw("reg"@) + tp(':') + tp('&') + seq![TokV::Punct('\'', true)] + tw("a"@) + tw("self"@) + tj(':', ':') + tw("Reg"@) + tp('<') + tw("T"@) + tp('>') + tp(',') + tw("val"@) + tp(':') + tw("self"@) + tj(':', ':') + tw("Val"@) + tclose(Delim::Paren) + tj('-', '>') + tw("Self"@) + topen(Delim::Brace) + tw("Self"@) + topen(Delim::Brace) + tw("reg"@) + tp(',') + tw("val"@) + tclose(Delim::Brace) + tclose(Delim::Brace) + tp('#') + topen(Delim::Bracket) + tw("inline"@)
}

#[verifier::spinoff_prover]
#[verifier::rlimit(80)]
fn emit_mreg_hold_3(toks: &Vec<Tok>, g: &MReg, gp: &MRegPlan, out: &mut Vec<Tok>)
    ensures
        toks_view(final(out)@) == toks_view(old(out)@) + mreg_hold_3(toks@, mreg_view(*g), mreg_plan_view(*gp)),
{
    let ghost b = toks_view(old(out)@);
    emit_word(out, "inline");
    emit_open(out, Delim::Paren);
    emit_word(out, "always");
    emit_close(out, Delim::Paren);
    emit_close(out, Delim::Bracket);
    emit_word(out, "unsafe");
    emit_word(out, "fn");
    emit_word(out, "new");
    emit_open(out, Delim::Paren);
    emit_word(out, "reg");
    emit_punct(out, ':');
    emit_punct(out, '&');
    push_tok(out, Tok::Punct('\'', true));
    emit_word(out, "a");
    emit_word(out, "self");
    emit_joint(out, ':', ':');
    emit_word(out, "Reg");
    emit_punct(out, '<');
    emit_word(out, "T");
    emit_punct(out, '>');
    emit_punct(out, ',');
    emit_word(out, "val");
    emit_punct(out, ':');
    emit_word(out, "self");
    emit_joint(out, ':', ':');
    emit_word(out, "Val");
    emit_close(out, Delim::Paren);
    emit_joint(out, '-', '>');
    emit_word(out, "Self");
    emit_open(out, Delim::Brace);
    emit_word(out, "Self");
    emit_open(out, Delim::Brace);
    emit_word(out, "reg");
    emit_punct(out, ',');
    emit_word(out, "val");
    emit_close(out, Delim::Brace);
    emit_close(out, Delim::Brace);
    emit_punct(out, '#');
    emit_open(out, Delim::Bracket);
    emit_word(out, "inline");
    proof {
        reveal(mreg_hold_3);
    }
    assert(toks_view(out@) =~= b + mreg_hold_3(toks@, mreg_view(*g), mreg_plan_view(*gp)));
}

/// A part of `mreg_hold`.
#[verifier::opaque]
pub open spec fn mreg_hold_4(toks: Seq<Tok>, g: MRegV, gp: MRegPlanV) -> Seq<TokV> {
    topen(Delim::Paren) + tw("always"@) + tclose(Delim::Paren) + tclose(Delim::Bracket) + tw("fn"@) + tw("val"@) + topen(Delim::Paren) + tp('&') + tw("self"@) + tclose(Delim::Paren) + tj('-', '>') + tw("self"@) + tj(':', ':') + tw("Val"@) + topen(Delim::Brace) + tw("self"@) + tp('.') + tw("val"@) + tclose(Delim::Brace) + tp('#') + topen(Delim::Bracket) + tw("inline"@) + topen(Delim::Paren) + tw("always"@) + tclose(Delim::Paren) + tclose(Delim::Bracket) + tw("fn"@) + tw("set_val"@) + topen(Delim::Paren) + tp('&') + tw("mut"@) + tw("self"@) + tp(',') + tw("val"@) + tp(':') + tw("self"@) + tj(':', ':') + tw("Val"@) + tclose(Delim::Paren) + topen(Delim::Brace)
}

#[verifier::spinoff_prover]
#[verifier::rlimit(80)]
fn emit_mreg_hold_4(toks: &Vec<Tok>, g: &MReg, gp: &MRegPlan, out: &mut Vec<Tok>)
    ensures
        toks_view(final(out)@) == toks_view(old(out)@) + mreg_hold_4(toks@, mreg_view(*g), mreg_plan_view(*gp)),
{
    let ghost b = toks_view(old(out)@);
    emit_open(out, Delim::Paren);
    emit_word(out, "always");
    emit_close(out, Delim::Paren);
    emit_close(out, Delim::Bracket);
    emit_word(out, "fn");
    emit_word(out, "val");
    emit_open(out, Delim::Paren);
    emit_punct(out, '&');
    emit_word(out, "self");
    emit_close(out, Delim::Paren);
    emit_joint(out, '-', '>');
    emit_word(out, "self");
    emit_joint(out, ':', ':');
    emit_word(out, "Val");
    emit_open(out, Delim::Brace);
    emit_word(out, "self");
    emit_punct(out, '.');
    emit_word(out, "val");
    emit_close(out, Delim::Brace);
    emit_punct(out, '#');
    emit_open(out, Delim::Bracket);
    emit_word(out, "inline");
    emit_open(out, Delim::Paren);
    emit_word(out, "always");
    emit_close(out, Delim::Paren);
    emit_close(out, Delim::Bracket);
    emit_word(out, "fn");
    emit_word(out, "set_val");
    emit_open(out, Delim::Paren);
    emit_punct(out, '&');
    emit_word(out, "mut");
    emit_word(out, "self");
    emit_punct(out, ',');
    emit_word(out, "val");
    emit_punct(out, ':');
    emit_word(out, "self");
    emit_joint(out, ':', ':');
    emit_word(out, "Val");
    emit_close(out, Delim::Paren);
    emit_open(out, Delim::Brace);
    proof {
        reveal(mreg_hold_4);
    }
    assert(toks_view(out@) =~= b + mreg_hold_4(toks@, mreg_view(*g), mreg_plan_view(*gp)));
}

/// A part of `mreg_hold`.
#[verifier::opaque]
pub open spec fn mreg_hold_5(toks: Seq<Tok>, g: MRegV, gp: MRegPlanV) -> Seq<TokV> {
    tw("self"@) + tp('.') + tw("val"@) + tp('=') + tw("val"@) + tp(';') + tclose(Delim::Brace) + tclose(Delim::Brace)
}

#[verifier::spinoff_prover]
#[verifier::rlimit(80)]
fn emit_mreg_hold_5(toks: &Vec<Tok>, g: &MReg, gp: &MRegPlan, out: &mut Vec<Tok>)
    ensures
        toks_view(final(out)@) == toks_view(old(out)@) + mreg_hold_5(toks@, mreg_view(*g), mreg_plan_view(*gp)),
{
    let ghost b = toks_view(old(out)@);
    emit_word(out, "self");
    emit_punct(out, '.');
    emit_word(out, "val");
    emit_punct(out, '=');
    emit_word(out, "val");
    emit_punct(out, ';');
    emit_close(out, Delim::Brace);
    emit_close(out, Delim::Brace);
    proof {
        reveal(mreg_hold_5);
    }
    assert(toks_view(out@) =~= b + mreg_hold_5(toks@, mreg_view(*g), mreg_plan_view(*gp)));
}

/// The holder of the register's value and its `RegHold`.
#[verifier::opaque]
pub open spec fn mreg_hold(toks: Seq<Tok>, g: MRegV, gp: MRegPlanV) -> Seq<TokV> {
    mreg_hold_1(toks, g, gp) + mreg_hold_2(toks, g, gp) + mreg_hold_3(toks, g, gp) + mreg_hold_4(toks, g, gp) + mreg_hold_5(toks, g, gp)
}

#[verifier::spinoff_prover]
#[verifier::rlimit(80)]
fn emit_mreg_hold(toks: &Vec<Tok>, g: &MReg, gp: &MRegPlan, out: &mut Vec<Tok>)
    ensures
        toks_view(final(out)@) == toks_view(old(out)@) + mreg_hold(toks@, mreg_view(*g), mreg_plan_view(*gp)),
{
    let ghost b = toks_view(old(out)@);
    emit_mreg_hold_1(toks, g, gp, out);
    emit_mreg_hold_2(toks, g, gp, out);
    emit_mreg_hold_3(toks, g, gp, out);
    emit_mreg_hold_4(toks, g, gp, out);
    emit_mreg_hold_5(toks, g, gp, out);
    proof {
        reveal(mreg_hold);
    }
    assert(toks_view(out@) =~= b + mreg_hold(toks@, mreg_view(*g), mreg_plan_view(*gp)));
}

/// A part of `mreg_val`.
#[verifier::opaque]
pub open spec fn mreg_val_1(toks: Seq<Tok>, g: MRegV, gp: MRegPlanV) -> Seq<TokV> {
    pound_attrs(toks, g.attrs) + tp('#') + topen(Delim::Bracket) + tw("derive"@) + topen(Delim::Paren) + tw("Clone"@) + tp(',') + tw("Copy"@) + tclose(Delim::Paren) + tclose(Delim::Bracket) + tw("pub"@) + tw("struct"@) + tw("Val"@) + topen(Delim::Brace) + tw("raw"@) + tp(':') + tw(gp.raw_ty) + tp(',') + tclose(Delim::Brace) + tw("impl"@) + tw("reg"@) + tj(':', ':') + tw("RegVal"@) + tw("for"@) + tw("self"@) + tj(':', ':') + tw("Val"@) + topen(Delim::Brace) + tw("type"@) + tw("Raw"@) + tp('=') + tw(gp.raw_ty) + tp(';') + tp('#') + topen(Delim::Bracket) + tw("inline"@) + topen(Delim::Paren) + tw("always"@) + tclose(Delim::Paren) + tclose(Delim::Bracket)
}

#[verifier::spinoff_prover]
#[verifier::rlimit(80)]
fn emit_mreg_val_1(toks: &Vec<Tok>, g: &MReg, gp: &MRegPlan, out: &mut Vec<Tok>)
    ensures
        toks_view(final(out)@) == toks_view(old(out)@) + mreg_val_1(toks@, mreg_view(*g), mreg_plan_view(*gp)),
{
    let ghost b = toks_view(old(out)@);
    emit_pound_attrs(toks, &g.attrs, out);
    emit_punct(out, '#');
    emit_open(out, Delim::Bracket);
    emit_word(out, "derive");
    emit_open(out, Delim::Paren);
    emit_word(out, "Clone");
    emit_punct(out, ',');
    emit_word(out, "Copy");
    emit_close(out, Delim::Paren);
    emit_close(out, Delim::Bracket);
    emit_word(out, "pub");
    emit_word(out, "struct");
    emit_word(out, "Val");
    emit_open(out, Delim::Brace);
    emit_word(out, "raw");
    emit_punct(out, ':');
    emit_string(out, &gp.raw_ty);
    emit_punct(out, ',');
    emit_close(out, Delim::Brace);
    emit_word(out, "impl");
    emit_word(out, "reg");
    emit_joint(out, ':', ':');
    emit_word(out, "RegVal");
    emit_word(out, "for");
    emit_word(out, "self");
    emit_joint(out, ':', ':');
    emit_word(out, "Val");
    emit_open(out, Delim::Brace);
    emit_word(out, "type");
    emit_word(out, "Raw");
    emit_punct(out, '=');
    emit_string(out, &gp.raw_ty);
    emit_punct(out, ';');
    emit_punct(out, '#');
    emit_open(out, Delim::Bracket);
    emit_word(out, "inline");
    emit_open(out, Delim::Paren);
    emit_word(out, "always");
    emit_close(out, Delim::Paren);
    emit_close(out, Delim::Bracket);
    proof {
        reveal(mreg_val_1);
    }
    assert(toks_view(out@) =~= b + mreg_val_1(toks@, mreg_view(*g), mreg_plan_view(*gp)));
}

/// A part of `mreg_val`.
#[verifier::opaque]
pub open spec fn mreg_val_2(toks: Seq<Tok>, g: MRegV, gp: MRegPlanV) -> Seq<TokV> {
    tw("unsafe"@) + tw("fn"@) + tw("reset"@) + topen(Delim::Paren) + tclose(Delim::Paren) + tj('-', '>') + tw("Self"@) + topen(Delim::Brace) + tw("Self"@) + tj(':', ':') + tw("from_raw"@) + topen(Delim::Paren) + tl(decimal(g.reset as nat) + "usize"@) + tw("as"@) + tw(gp.raw_ty) + tclose(Delim::Paren) + tclose(Delim::Brace) + tp('#') + topen(Delim::Bracket) + tw("inline"@) + topen(Delim::Paren) + tw("always"@) + tclose(Delim::Paren) + tclose(Delim::Bracket) + tw("unsafe"@) + tw("fn"@) + tw("from_raw"@) + topen(Delim::Paren) + tw("raw"@) + tp(':') + tw(gp.raw_ty) + tclose(Delim::Paren) + tj('-', '>') + tw("Self"@) + topen(Delim::Brace) + tw("Self"@) + topen(Delim::Brace) + tw("raw"@) + tclose(Delim::Brace) + tclose(Delim::Brace)
}

#[verifier::spinoff_prover]
#[verifier::rlimit(80)]
fn emit_mreg_val_2(toks: &Vec<Tok>, g: &MReg, gp: &MRegPlan, out: &mut Vec<Tok>)
    ensures
        toks_view(final(out)@) == toks_view(old(out)@) + mreg_val_2(toks@, mreg_view(*g), mreg_plan_view(*gp)),
{
    let ghost b = toks_view(old(out)@);
    emit_word(out, "unsafe");
    emit_word(out, "fn");
    emit_word(out, "reset");
    emit_open(out, Delim::Paren);
    emit_close(out, Delim::Paren);
    emit_joint(out, '-', '>');
    emit_word(out, "Self");
    emit_open(out, Delim::Brace);
    emit_word(out, "Self");
    emit_joint(out, ':', ':');
    emit_word(out, "from_raw");
    emit_open(out, Delim::Paren);
    emit_usize_literal(out, g.reset);
    emit_word(out, "as");
    emit_string(out, &gp.raw_ty);
    emit_close(out, Delim::Paren);
    emit_close(out, Delim::Brace);
    emit_punct(out, '#');
    emit_open(out, Delim::Bracket);
    emit_word(out, "inline");
    emit_open(out, Delim::Paren);
    emit_word(out, "always");
    emit_close(out, Delim::Paren);
    emit_close(out, Delim::Bracket);
    emit_word(out, "unsafe");
    emit_word(out, "fn");
    emit_word(out, "from_raw");
    emit_open(out, Delim::Paren);
    emit_word(out, "raw");
    emit_punct(out, ':');
    emit_string(out, &gp.raw_ty);
    emit_close(out, Delim::Paren);
    emit_joint(out, '-', '>');
    emit_word(out, "Self");
    emit_open(out, Delim::Brace);
    emit_word(out, "Self");
    emit_open(out, Delim::Brace);
    emit_word(out, "raw");
    emit_close(out, Delim::Brace);
    emit_close(out, Delim::Brace);
    proof {
        reveal(mreg_val_2);
    }
    assert(toks_view(out@) =~= b + mreg_val_2(toks@, mreg_view(*g), mreg_plan_view(*gp)));
}

/// A part of `mreg_val`.
#[verifier::opaque]
pub open spec fn mreg_val_3(toks: Seq<Tok>, g: MRegV, gp: MRegPlanV) -> Seq<TokV> {
    tp('#') + topen(Delim::Bracket) + tw("inline"@) + topen(Delim::Paren) + tw("always"@) + tclose(Delim::Paren) + tclose(Delim::Bracket) + tw("fn"@) + tw("raw"@) + topen(Delim::Paren) + tp('&') + tw("self"@) + tclose(Delim::Paren) + tj('-', '>') + tw(gp.raw_ty) + topen(Delim::Brace) + tw("self"@) + tp('.') + tw("raw"@) + tclose(Delim::Brace) + tp('#') + topen(Delim::Bracket) + tw("inline"@) + topen(Delim::Paren) + tw("always"@) + tclose(Delim::Paren) + tclose(Delim::Bracket) + tw("fn"@) + tw("raw_mut"@) + topen(Delim::Paren) + tp('&') + tw("mut"@) + tw("self"@) + tclose(Delim::Paren) + tj('-', '>') + tp('&') + tw("mut"@) + tw(gp.raw_ty) + topen(Delim::Brace) + tp('&')
}

#[verifier::spinoff_prover]
#[verifier::rlimit(80)]
fn emit_mreg_val_3(toks: &Vec<Tok>, g: &MReg, gp: &MRegPlan, out: &mut Vec<Tok>)
    ensures
        toks_view(final(out)@) == toks_view(old(out)@) + mreg_val_3(toks@, mreg_view(*g), mreg_plan_view(*gp)),
{
    let ghost b = toks_view(old(out)@);
    emit_punct(out, '#');
    emit_open(out, Delim::Bracket);
    emit_word(out, "inline");
    emit_open(out, Delim::Paren);
    emit_word(out, "always");
    emit_close(out, Delim::Paren);
    emit_close(out, Delim::Bracket);
    emit_word(out, "fn");
    emit_word(out, "raw");
    emit_open(out, Delim::Paren);
    emit_punct(out, '&');
    emit_word(out, "self");
    emit_close(out, Delim::Paren);
    emit_joint(out, '-', '>');
    emit_string(out, &gp.raw_ty);
    emit_open(out, Delim::Brace);
    emit_word(out, "self");
    emit_punct(out, '.');
    emit_word(out, "raw");
    emit_close(out, Delim::Brace);
    emit_punct(out, '#');
    emit_open(out, Delim::Bracket);
    emit_word(out, "inline");
    emit_open(out, Delim::Paren);
    emit_word(out, "always");
    emit_close(out, Delim::Paren);
    emit_close(out, Delim::Bracket);
    emit_word(out, "fn");
    emit_word(out, "raw_mut");
    emit_open(out, Delim::Paren);
    emit_punct(out, '&');
    emit_word(out, "mut");
    emit_word(out, "self");
    emit_close(out, Delim::Paren);
    emit_joint(out, '-', '>');
    emit_punct(out, '&');
    emit_word(out, "mut");
    emit_string(out, &gp.raw_ty);
    emit_open(out, Delim::Brace);
    emit_punct(out, '&');
    proof {
        reveal(mreg_val_3);
    }
    assert(toks_view(out@) =~= b + mreg_val_3(toks@, mreg_view(*g), mreg_plan_view(*gp)));
}

/// A part of `mreg_val`.
#[verifier::opaque]
pub open spec fn mreg_val_4(toks: Seq<Tok>, g: MRegV, gp: MRegPlanV) -> Seq<TokV> {
    tw("mut"@) + tw("self"@) + tp('.') + tw("raw"@) + tclose(Delim::Brace) + tclose(Delim::Brace) + tclose(Delim::Brace)
}

#[verifier::spinoff_prover]
#[verifier::rlimit(80)]
fn emit_mreg_val_4(toks: &Vec<Tok>, g: &MReg, gp: &MRegPlan, out: &mut Vec<Tok>)
    ensures
        toks_view(final(out)@) == toks_view(old(out)@) + mreg_val_4(toks@, mreg_view(*g), mreg_plan_view(*gp)),
{
    let ghost b = toks_view(old(out)@);
    emit_word(out, "mut");
    emit_word(out, "self");
    emit_punct(out, '.');
    emit_word(out, "raw");
    emit_close(out, Delim::Brace);
    emit_close(out, Delim::Brace);
    emit_close(out, Delim::Brace);
    proof {
        reveal(mreg_val_4);
    }
    assert(toks_view(out@) =~= b + mreg_val_4(toks@, mreg_view(*g), mreg_plan_view(*gp)));
}

/// The register's value and its `RegVal`, closing the module.
#[verifier::opaque]
pub open spec fn mreg_val(toks: Seq<Tok>, g: MRegV, gp: MRegPlanV) -> Seq<TokV> {
    mreg_val_1(toks, g, gp) + mreg_val_2(toks, g, gp) + mreg_val_3(toks, g, gp) + mreg_val_4(toks, g, gp)
}

#[verifier::spinoff_prover]
#[verifier::rlimit(80)]
fn emit_mreg_val(toks: &Vec<Tok>, g: &MReg, gp: &MRegPlan, out: &mut Vec<Tok>)
    ensures
        toks_view(final(out)@) == toks_view(old(out)@) + mreg_val(toks@, mreg_view(*g), mreg_plan_view(*gp)),
{
    let ghost b = toks_view(old(out)@);
    emit_mreg_val_1(toks, g, gp, out);
    emit_mreg_val_2(toks, g, gp, out);
    emit_mreg_val_3(toks, g, gp, out);
    emit_mreg_val_4(toks, g, gp, out);
    proof {
        reveal(mreg_val);
    }
    assert(toks_view(out@) =~= b + mreg_val(toks@, mreg_view(*g), mreg_plan_view(*gp)));
}

/// Adds the decimal literal of `n` to `out`.
pub fn emit_decimal(out: &mut Vec<Tok>, n: u64)
    ensures
        toks_view(final(out)@) == toks_view(old(out)@) + tl(decimal(n as nat)),
{
    let ghost b = toks_view(old(out)@);
    push_tok(out, Tok::Literal(decimal_u64(n)));
    assert(toks_view(out@) =~= b + tl(decimal(n as nat)));
}

/// Adds the literal `Nusize` of `n` to `out`.
fn emit_usize_literal(out: &mut Vec<Tok>, n: u64)
    ensures
        toks_view(final(out)@) == toks_view(old(out)@) + tl(decimal(n as nat) + "usize"@),
{
    let ghost b = toks_view(old(out)@);
    push_tok(out, Tok::Literal(decimal_u64(n).concat("usize")));
    assert(toks_view(out@) =~= b + tl(decimal(n as nat) + "usize"@));
}

pub open spec fn field_plans_view(fs: Seq<MFieldPlan>) -> Seq<MFieldPlanV> {
    fs.map_values(|f: MFieldPlan| mfield_plan_view(f))
}

/// `FIELD: self::FTY::bind()` for each field, separated by commas.
pub open spec fn bind_list(fs: Seq<MFieldPlanV>) -> Seq<TokV>
    decreases fs.len(),
{
    if fs.len() == 0 {
        Seq::empty()
    } else {
        let f = fs.last();
        bind_list(fs.drop_last()) + (if fs.len() > 1 {
            tp(',')
        } else {
            Seq::empty()
        }) + tw(f.ident) + tp(':') + tw("self"@) + tj(':', ':') + tw(f.ty) + tj(':', ':') + tw("bind"@)
            + topen(Delim::Paren) + tclose(Delim::Paren)
    }
}

/// `FIELD: self.FIELD.fork()` for each field, separated by commas.
pub open spec fn fork_list(fs: Seq<MFieldPlanV>) -> Seq<TokV>
    decreases fs.len(),
{
    if fs.len() == 0 {
        Seq::empty()
    } else {
        let f = fs.last();
        fork_list(fs.drop_last()) + (if fs.len() > 1 {
            tp(',')
        } else {
            Seq::empty()
        }) + tw(f.ident) + tp(':') + tw("self"@) + tp('.') + tw(f.ident) + tp('.') + tw("fork"@) + topen(
            Delim::Paren,
        ) + tclose(Delim::Paren)
    }
}

fn emit_field_list(fs: &Vec<MFieldPlan>, fork: bool, out: &mut Vec<Tok>)
    ensures
        !fork ==> toks_view(final(out)@) == toks_view(old(out)@) + bind_list(field_plans_view(fs@)),
        fork ==> toks_view(final(out)@) == toks_view(old(out)@) + fork_list(field_plans_view(fs@)),
{
    let ghost head = toks_view(old(out)@);
    let ghost v = field_plans_view(fs@);
    let mut k: usize = 0;
    assert(v.take(0) =~= Seq::<MFieldPlanV>::empty());
    assert(head + Seq::<TokV>::empty() =~= head);
    while k < fs.len()
        invariant
            k <= v.len(),
            v == field_plans_view(fs@),
            !fork ==> toks_view(out@) == head + bind_list(v.take(k as int)),
            fork ==> toks_view(out@) == head + fork_list(v.take(k as int)),
        decreases v.len() - k,
    {
        let f = &fs[k];
        assert(v[k as int] == mfield_plan_view(*f));
        if k > 0 {
            emit_punct(out, ',');
        }
        emit_string(out, &f.ident);
        emit_punct(out, ':');
        emit_word(out, "self");
        if fork {
            emit_punct(out, '.');
            emit_string(out, &f.ident);
            emit_punct(out, '.');
            emit_word(out, "fork");
        } else {
            emit_joint(out, ':', ':');
            emit_string(out, &f.ty);
            emit_joint(out, ':', ':');
            emit_word(out, "bind");
        }
        emit_open(out, Delim::Paren);
        emit_close(out, Delim::Paren);
        proof {
            let s = v.take(k + 1);
            assert(s.drop_last() =~= v.take(k as int));
            assert(s.last() == v[k as int]);
            if fork {
                assert(toks_view(out@) =~= head + fork_list(s));
            } else {
                assert(toks_view(out@) =~= head + bind_list(s));
            }
        }
        k = k + 1;
    }
    assert(v.take(k as int) =~= v);
}

pub fn emit_bind_list(fs: &Vec<MFieldPlan>, out: &mut Vec<Tok>)
    ensures
        toks_view(final(out)@) == toks_view(old(out)@) + bind_list(field_plans_view(fs@)),
{
    emit_field_list(fs, false, out);
}

pub fn emit_fork_list(fs: &Vec<MFieldPlan>, out: &mut Vec<Tok>)
    ensures
        toks_view(final(out)@) == toks_view(old(out)@) + fork_list(field_plans_view(fs@)),
{
    emit_field_list(fs, true, out);
}

/// The implementations of the traits `ts` for a field's token.
pub open spec fn mfield_traits(toks: Seq<Tok>, f: MFieldV, fp: MFieldPlanV, raw: Seq<char>, ts: Seq<(Seq<Span>, usize)>) -> Seq<TokV>
    decreases ts.len(),
{
    if ts.len() == 0 {
        Seq::empty()
    } else {
        mfield_traits(toks, f, fp, raw, ts.drop_last()) + mfield_trait(toks, f, fp, raw, ts.last().0, ts.last().1)
    }
}

/// The accessors of a field that its width and its traits call for.
pub open spec fn mfield_access(toks: Seq<Tok>, f: MFieldV, fp: MFieldPlanV, raw: Seq<char>) -> Seq<TokV> {
    if fp.bit {
        (if fp.read {
            mfield_bit_read(toks, f, fp, raw)
        } else {
            Seq::empty()
        }) + (if fp.write {
            mfield_bit_write(toks, f, fp, raw)
        } else {
            Seq::empty()
        })
    } else {
        (if fp.read {
            mfield_bits_read(toks, f, fp, raw)
        } else {
            Seq::empty()
        }) + (if fp.write {
            mfield_bits_write(toks, f, fp, raw)
        } else {
            Seq::empty()
        })
    }
}

/// The items of a field: its accessors, its token with its traits, and the
/// token's conversions.
pub open spec fn mfield_items(toks: Seq<Tok>, f: MFieldV, fp: MFieldPlanV, raw: Seq<char>) -> Seq<TokV> {
    mfield_access(toks, f, fp, raw) + mfield_struct(toks, f, fp, raw) + mfield_traits(toks, f, fp, raw, f.traits)
        + mfield_width_trait(toks, f, fp, raw) + mfield_tags(toks, f, fp, raw)
}

#[verifier::spinoff_prover]
#[verifier::rlimit(50)]
fn emit_mfield_access(toks: &Vec<Tok>, f: &MField, fp: &MFieldPlan, raw: &String, out: &mut Vec<Tok>)
    ensures
        toks_view(final(out)@) == toks_view(old(out)@) + mfield_access(toks@, mfield_view(*f), mfield_plan_view(*fp), raw@),
{
    let ghost b = toks_view(old(out)@);
    if fp.read {
        if fp.bit {
            emit_mfield_bit_read(toks, f, fp, raw, out);
        } else {
            emit_mfield_bits_read(toks, f, fp, raw, out);
        }
    }
    let ghost m = toks_view(out@);
    if fp.write {
        if fp.bit {
            emit_mfield_bit_write(toks, f, fp, raw, out);
        } else {
            emit_mfield_bits_write(toks, f, fp, raw, out);
        }
    }
    assert(toks_view(out@) =~= b + mfield_access(toks@, mfield_view(*f), mfield_plan_view(*fp), raw@));
}

#[verifier::spinoff_prover]
#[verifier::rlimit(80)]
fn emit_mfield_items(toks: &Vec<Tok>, f: &MField, fp: &MFieldPlan, raw: &String, out: &mut Vec<Tok>)
    ensures
        toks_view(final(out)@) == toks_view(old(out)@) + mfield_items(toks@, mfield_view(*f), mfield_plan_view(*fp), raw@),
{
    let ghost b = toks_view(old(out)@);
    let ghost fv = mfield_view(*f);
    let ghost fpv = mfield_plan_view(*fp);
    emit_mfield_access(toks, f, fp, raw, out);
    emit_mfield_struct(toks, f, fp, raw, out);
    let ghost head = toks_view(out@);
    let ghost ts = fv.traits;
    let mut k: usize = 0;
    assert(ts.take(0) =~= Seq::<(Seq<Span>, usize)>::empty());
    assert(head + Seq::<TokV>::empty() =~= head);
    while k < f.traits.len()
        invariant
            k <= f.traits@.len(),
            fv == mfield_view(*f),
            fpv == mfield_plan_view(*fp),
            ts == fv.traits,
            ts.len() == f.traits@.len(),
            toks_view(out@) == head + mfield_traits(toks@, fv, fpv, raw@, ts.take(k as int)),
        decreases f.traits@.len() - k,
    {
        let t = &f.traits[k];
        assert(ts[k as int] == (t.attrs@, t.ident));
        emit_mfield_trait(toks, f, fp, raw, &t.attrs, t.ident, out);
        proof {
            let s = ts.take(k + 1);
            assert(s.drop_last() =~= ts.take(k as int));
            assert(s.last() == ts[k as int]);
            assert(toks_view(out@) =~= head + mfield_traits(toks@, fv, fpv, raw@, s));
        }
        k = k + 1;
    }
    assert(ts.take(k as int) =~= ts);
    emit_mfield_width_trait(toks, f, fp, raw, out);
    emit_mfield_tags(toks, f, fp, raw, out);
    assert(toks_view(out@) =~= b + mfield_items(toks@, fv, fpv, raw@));
}

/// The items of the first `k` fields of a register.
pub open spec fn mfields_items(toks: Seq<Tok>, g: MRegV, gp: MRegPlanV, k: nat) -> Seq<TokV>
    decreases k,
{
    if k == 0 || k > g.fields.len() || k > gp.fields.len() {
        Seq::empty()
    } else {
        mfields_items(toks, g, gp, (k - 1) as nat) + mfield_items(toks, g.fields[k - 1], gp.fields[k - 1], gp.raw_ty)
    }
}

/// The first `k` fields of the register structure: `ATTRS pub FIELD:
/// self::FTY<T>,` each.
pub open spec fn mreg_fields(toks: Seq<Tok>, g: MRegV, gp: MRegPlanV, k: nat) -> Seq<TokV>
    decreases k,
{
    if k == 0 || k > g.fields.len() || k > gp.fields.len() {
        Seq::empty()
    } else {
        let f = g.fields[k - 1];
        let fp = gp.fields[k - 1];
        mreg_fields(toks, g, gp, (k - 1) as nat) + pound_attrs(toks, f.attrs) + tw("pub"@) + tw(fp.ident) + tp(
            ':',
        ) + tw("self"@) + tj(':', ':') + tw(fp.ty) + tp('<') + tw("T"@) + tp('>') + tp(',')
    }
}

/// The implementations of the register's traits.
pub open spec fn mreg_traits(toks: Seq<Tok>, ts: Seq<(Seq<Span>, usize)>) -> Seq<TokV>
    decreases ts.len(),
{
    if ts.len() == 0 {
        Seq::empty()
    } else {
        mreg_traits(toks, ts.drop_last()) + mreg_trait(toks, ts.last().0, ts.last().1)
    }
}

/// What a register expands to.
pub open spec fn mreg_items(toks: Seq<Tok>, g: MRegV, gp: MRegPlanV) -> Seq<TokV> {
    mreg_head(toks, g, gp) + mfields_items(toks, g, gp, g.fields.len()) + mreg_struct_head(toks, g, gp)
        + mreg_fields(toks, g, gp, g.fields.len()) + mreg_impls(toks, g, gp) + mreg_traits(toks, g.traits)
        + mreg_froms(toks, g, gp) + mreg_fork(toks, g, gp) + mreg_hold(toks, g, gp) + mreg_val(toks, g, gp)
}

proof fn lemma_mplan_fields(toks: Seq<Tok>, block: usize, g: MReg, gp: MRegPlan, k: int)
    requires
        mreg_plan_view(gp) == mreg_plan(toks, block, mreg_view(g)),
        0 <= k < g.fields@.len(),
    ensures
        gp.fields@.len() == g.fields@.len(),
        mreg_view(g).fields[k] == mfield_view(g.fields@[k]),
        mreg_plan_view(gp).fields[k] == mfield_plan_view(gp.fields@[k]),
        mreg_view(g).fields.len() == g.fields@.len(),
        mreg_plan_view(gp).fields.len() == g.fields@.len(),
{
    assert(mreg_plan_view(gp).fields.len() == gp.fields@.len());
    assert(mreg_view(g).fields.len() == g.fields@.len());
}

#[verifier::spinoff_prover]
#[verifier::rlimit(80)]
fn emit_mreg_items(toks: &Vec<Tok>, block: usize, g: &MReg, gp: &MRegPlan, out: &mut Vec<Tok>)
    requires
        mreg_plan_view(*gp) == mreg_plan(toks@, block, mreg_view(*g)),
    ensures
        toks_view(final(out)@) == toks_view(old(out)@) + mreg_items(toks@, mreg_view(*g), mreg_plan_view(*gp)),
{
    let ghost b = toks_view(old(out)@);
    let ghost gv = mreg_view(*g);
    let ghost gpv = mreg_plan_view(*gp);
    assert(gpv.fields.len() == gp.fields@.len());
    assert(gv.fields.len() == g.fields@.len());
    emit_mreg_head(toks, g, gp, out);
    let ghost h1 = toks_view(out@);
    let mut k: usize = 0;
    assert(h1 + Seq::<TokV>::empty() =~= h1);
    while k < g.fields.len()
        invariant
            k <= g.fields@.len(),
            gv == mreg_view(*g),
            gpv == mreg_plan_view(*gp),
            mreg_plan_view(*gp) == mreg_plan(toks@, block, mreg_view(*g)),
            gv.fields.len() == g.fields@.len(),
            gpv.fields.len() == gp.fields@.len(),
            toks_view(out@) == h1 + mfields_items(toks@, gv, gpv, k as nat),
        decreases g.fields@.len() - k,
    {
        proof {
            lemma_mplan_fields(toks@, block, *g, *gp, k as int);
        }
        emit_mfield_items(toks, &g.fields[k], &gp.fields[k], &gp.raw_ty, out);
        assert(toks_view(out@) =~= h1 + mfields_items(toks@, gv, gpv, (k + 1) as nat));
        k = k + 1;
    }
    emit_mreg_struct_head(toks, g, gp, out);
    let ghost h2 = toks_view(out@);
    let mut k: usize = 0;
    assert(h2 + Seq::<TokV>::empty() =~= h2);
    while k < g.fields.len()
        invariant
            k <= g.fields@.len(),
            gv == mreg_view(*g),
            gpv == mreg_plan_view(*gp),
            mreg_plan_view(*gp) == mreg_plan(toks@, block, mreg_view(*g)),
            gv.fields.len() == g.fields@.len(),
            gpv.fields.len() == gp.fields@.len(),
            toks_view(out@) == h2 + mreg_fields(toks@, gv, gpv, k as nat),
        decreases g.fields@.len() - k,
    {
        proof {
            lemma_mplan_fields(toks@, block, *g, *gp, k as int);
        }
        let f = &g.fields[k];
        let fp = &gp.fields[k];
        emit_pound_attrs(toks, &f.attrs, out);
        emit_word(out, "pub");
        emit_string(out, &fp.ident);
        emit_punct(out, ':');
        emit_word(out, "self");
        emit_joint(out, ':', ':');
        emit_string(out, &fp.ty);
        emit_punct(out, '<');
        emit_word(out, "T");
        emit_punct(out, '>');
        emit_punct(out, ',');
        assert(toks_view(out@) =~= h2 + mreg_fields(toks@, gv, gpv, (k + 1) as nat));
        k = k + 1;
    }
    emit_mreg_impls(toks, g, gp, out);
    let ghost h3 = toks_view(out@);
    let ghost ts = gv.traits;
    let mut j: usize = 0;
    assert(ts.take(0) =~= Seq::<(Seq<Span>, usize)>::empty());
    assert(h3 + Seq::<TokV>::empty() =~= h3);
    while j < g.traits.len()
        invariant
            j <= g.traits@.len(),
            gv == mreg_view(*g),
            ts == gv.traits,
            ts.len() == g.traits@.len(),
            toks_view(out@) == h3 + mreg_traits(toks@, ts.take(j as int)),
        decreases g.traits@.len() - j,
    {
        let t = &g.traits[j];
        assert(ts[j as int] == (t.attrs@, t.ident));
        emit_mreg_trait(toks, &t.attrs, t.ident, out);
        proof {
            let s = ts.take(j + 1);
            assert(s.drop_last() =~= ts.take(j as int));
            assert(s.last() == ts[j as int]);
            assert(toks_view(out@) =~= h3 + mreg_traits(toks@, s));
        }
        j = j + 1;
    }
    assert(ts.take(j as int) =~= ts);
    emit_mreg_froms(toks, g, gp, out);
    emit_mreg_fork(toks, g, gp, out);
    emit_mreg_hold(toks, g, gp, out);
    emit_mreg_val(toks, g, gp, out);
    assert(toks_view(out@) =~= b + mreg_items(toks@, gv, gpv));
}

/// The items of the registers.
pub open spec fn mregs_items(toks: Seq<Tok>, gs: Seq<MRegV>, gps: Seq<MRegPlanV>, k: nat) -> Seq<TokV>
    decreases k,
{
    if k == 0 || k > gs.len() || k > gps.len() {
        Seq::empty()
    } else {
        mregs_items(toks, gs, gps, (k - 1) as nat) + mreg_items(toks, gs[k - 1], gps[k - 1])
    }
}

/// `pub use self::MODULE::TY as ALIAS;` for each register.
pub open spec fn mreg_aliases(module: Seq<char>, gps: Seq<MRegPlanV>) -> Seq<TokV>
    decreases gps.len(),
{
    if gps.len() == 0 {
        Seq::empty()
    } else {
        let gp = gps.last();
        mreg_aliases(module, gps.drop_last()) + tw("pub"@) + tw("use"@) + tw("self"@) + tj(':', ':') + tw(module)
            + tj(':', ':') + tw(gp.ty) + tw("as"@) + tw(gp.alias) + tp(';')
    }
}

/// What `mappings!` expands to on the input `toks`: the block's module with
/// its registers, then an alias of each register outside it.
pub open spec fn spec_expand_mappings(toks: Seq<Tok>) -> Result<Seq<TokV>, MacroError> {
    match spec_mappings_input(toks) {
        Err(e) => Err(e),
        Ok(inp) => {
            let module = inflector_snake(ident_text(toks, inp.block as int));
            let gps = inp.regs.map_values(|g: MRegV| mreg_plan(toks, inp.block, g));
            Ok(
                pound_attrs(toks, inp.attrs) + tw("pub"@) + tw("mod"@) + tw(module) + topen(Delim::Brace)
                    + mregs_items(toks, inp.regs, gps, inp.regs.len()) + tclose(Delim::Brace) + mreg_aliases(
                    module,
                    gps,
                ),
            )
        },
    }
}

/// The tokens that `mappings!` expands to on the input `toks`.
#[verifier::spinoff_prover]
#[verifier::rlimit(80)]
pub fn expand_mappings(toks: &Vec<Tok>) -> (r: Result<Vec<Tok>, MacroError>)
    ensures
        r matches Err(e) ==> spec_expand_mappings(toks@) == Err::<Seq<TokV>, MacroError>(e),
        r matches Ok(v) ==> spec_expand_mappings(toks@) == Ok::<Seq<TokV>, MacroError>(toks_view(v@)),
{
    let p = mappings(toks)?;
    let ghost inp = mappings_view(p.input);
    let ghost gps = inp.regs.map_values(|g: MRegV| mreg_plan(toks@, p.input.block, g));
    let ghost pv = p.regs@.map_values(|g: MRegPlan| mreg_plan_view(g));
    assert(pv == gps);
    assert(pv.len() == p.regs@.len());
    assert(inp.regs.len() == p.input.regs@.len());
    let mut out: Vec<Tok> = Vec::new();
    assert(toks_view(out@) =~= Seq::<TokV>::empty());
    emit_pound_attrs(toks, &p.input.attrs, &mut out);
    emit_word(&mut out, "pub");
    emit_word(&mut out, "mod");
    emit_string(&mut out, &p.module);
    emit_open(&mut out, Delim::Brace);
    let ghost h = toks_view(out@);
    let mut k: usize = 0;
    assert(h + Seq::<TokV>::empty() =~= h);
    while k < p.input.regs.len()
        invariant
            k <= p.input.regs@.len(),
            inp == mappings_view(p.input),
            pv == p.regs@.map_values(|g: MRegPlan| mreg_plan_view(g)),
            pv == gps,
            gps == inp.regs.map_values(|g: MRegV| mreg_plan(toks@, p.input.block, g)),
            pv.len() == p.regs@.len(),
            inp.regs.len() == p.input.regs@.len(),
            toks_view(out@) == h + mregs_items(toks@, inp.regs, gps, k as nat),
        decreases p.input.regs@.len() - k,
    {
        assert(pv[k as int] == mreg_plan_view(p.regs@[k as int]));
        assert(inp.regs[k as int] == mreg_view(p.input.regs@[k as int]));
        emit_mreg_items(toks, p.input.block, &p.input.regs[k], &p.regs[k], &mut out);
        assert(toks_view(out@) =~= h + mregs_items(toks@, inp.regs, gps, (k + 1) as nat));
        k = k + 1;
    }
    emit_close(&mut out, Delim::Brace);
    let ghost h2 = toks_view(out@);
    let mut j: usize = 0;
    assert(gps.take(0) =~= Seq::<MRegPlanV>::empty());
    assert(h2 + Seq::<TokV>::empty() =~= h2);
    while j < p.regs.len()
        invariant
            j <= p.regs@.len(),
            pv == p.regs@.map_values(|g: MRegPlan| mreg_plan_view(g)),
            pv == gps,
            pv.len() == p.regs@.len(),
            toks_view(out@) == h2 + mreg_aliases(p.module@, gps.take(j as int)),
        decreases p.regs@.len() - j,
    {
        let gp = &p.regs[j];
        assert(pv[j as int] == mreg_plan_view(*gp));
        emit_word(&mut out, "pub");
        emit_word(&mut out, "use");
        emit_word(&mut out, "self");
        emit_joint(&mut out, ':', ':');
        emit_string(&mut out, &p.module);
        emit_joint(&mut out, ':', ':');
        emit_string(&mut out, &gp.ty);
        emit_word(&mut out, "as");
        emit_string(&mut out, &gp.alias);
        emit_punct(&mut out, ';');
        proof {
            let s = gps.take(j + 1);
            assert(s.drop_last() =~= gps.take(j as int));
            assert(s.last() == gps[j as int]);
            assert(toks_view(out@) =~= h2 + mreg_aliases(p.module@, s));
        }
        j = j + 1;
    }
    assert(gps.take(j as int) =~= gps);
    Ok(out)
}

#[verifier::spinoff_prover]
#[verifier::rlimit(100)]
proof fn lemma_mfield_bit_write_set_name_calls_set(toks: Seq<Tok>, f: MFieldV, fp: MFieldPlanV, raw: Seq<char>)
    ensures
        first_use_after(mfield_bit_write(toks, f, fp, raw), fp.set_name, tw("reg"@) + tp('.') + tw(fp.ident) + tp('.'), "set"@),
{
    reveal(mfield_bit_write);
    reveal(mfield_bit_write_2);
    reveal_strlit("reg");
    reveal_strlit("mut");
    reveal_strlit("self");
    reveal_strlit("Self");
    let w0 = mfield_bit_write_1(toks, f, fp, raw);
    let w1 = mfield_bit_write_2(toks, f, fp, raw);
    let w2 = mfield_bit_write_3(toks, f, fp, raw);
    let w3 = mfield_bit_write_4(toks, f, fp, raw);
    let w4 = mfield_bit_write_5(toks, f, fp, raw);
    assert(w1 =~= tw("fn"@) + tw(fp.set_name) + topen(Delim::Paren) + tp('&') + tw("mut"@) + tw("self"@) + tclose(Delim::Paren) + tj('-', '>') + tp('&') + tw("mut"@) + tw("Self"@) + topen(Delim::Brace) + tw("self"@) + tp('.') + tw("reg"@) + tp('.') + tw(fp.ident) + tp('.') + tw("set"@) + topen(Delim::Paren) + tp('&') + tw("mut"@) + tw("self"@) + tp('.') + tw("val"@) + tclose(Delim::Paren) + tp(';') + tw("self"@) + tclose(Delim::Brace) + pound_attrs(toks, f.attrs));
    let a = w0 + tw("fn"@);
    let b = topen(Delim::Paren) + tp('&') + tw("mut"@) + tw("self"@) + tclose(Delim::Paren) + tj('-', '>') + tp('&') + tw("mut"@) + tw("Self"@) + topen(Delim::Brace) + tw("self"@) + tp('.');
    let c = topen(Delim::Paren) + tp('&') + tw("mut"@) + tw("self"@) + tp('.') + tw("val"@) + tclose(Delim::Paren) + tp(';') + tw("self"@) + tclose(Delim::Brace) + pound_attrs(toks, f.attrs) + w2 + w3 + w4;
    let mk = tw("reg"@) + tp('.') + tw(fp.ident) + tp('.');
    let e = seq![TokV::Open(Delim::Paren), TokV::Punct('&', false), TokV::Ident("mut"@), TokV::Ident("self"@), TokV::Close(Delim::Paren), TokV::Punct('-', true), TokV::Punct('>', false), TokV::Punct('&', false), TokV::Ident("mut"@), TokV::Ident("Self"@), TokV::Open(Delim::Brace), TokV::Ident("self"@), TokV::Punct('.', false)];
    assert(b =~= e);
    assert("Self"@ != "reg"@) by { assert("Self"@.len() != "reg"@.len()); }
    assert("mut"@ != "reg"@) by { assert("mut"@[0] != "reg"@[0]); }
    assert("self"@ != "reg"@) by { assert("self"@.len() != "reg"@.len()); }
    assert(forall|k: int| 0 <= k < e.len() ==> e[k] != mk[0]);
    assert(!b.contains(mk[0]));
    assert(w0 + w1 + w2 + w3 + w4 =~= a + tw(fp.set_name) + b + mk + tw("set"@) + c);
    assert(mfield_bit_write(toks, f, fp, raw) == w0 + w1 + w2 + w3 + w4);
}

#[verifier::spinoff_prover]
#[verifier::rlimit(100)]
proof fn lemma_mfield_bit_write_clear_name_calls_clear(toks: Seq<Tok>, f: MFieldV, fp: MFieldPlanV, raw: Seq<char>)
    ensures
        first_use_after(mfield_bit_write(toks, f, fp, raw), fp.clear_name, tw("reg"@) + tp('.') + tw(fp.ident) + tp('.'), "clear"@),
{
    reveal(mfield_bit_write);
    reveal(mfield_bit_write_3);
    reveal_strlit("reg");
    reveal_strlit("mut");
    reveal_strlit("self");
    reveal_strlit("Self");
    let w0 = mfield_bit_write_1(toks, f, fp, raw);
    let w1 = mfield_bit_write_2(toks, f, fp, raw);
    let w2 = mfield_bit_write_3(toks, f, fp, raw);
    let w3 = mfield_bit_write_4(toks, f, fp, raw);
    let w4 = mfield_bit_write_5(toks, f, fp, raw);
    assert(w2 =~= tp('#') + topen(Delim::Bracket) + tw("inline"@) + topen(Delim::Paren) + tw("always"@) + tclose(Delim::Paren) + tclose(Delim::Bracket) + tw("pub"@) + tw("fn"@) + tw(fp.clear_name) + topen(Delim::Paren) + tp('&') + tw("mut"@) + tw("self"@) + tclose(Delim::Paren) + tj('-', '>') + tp('&') + tw("mut"@) + tw("Self"@) + topen(Delim::Brace) + tw("self"@) + tp('.') + tw("reg"@) + tp('.') + tw(fp.ident) + tp('.') + tw("clear"@) + topen(Delim::Paren) + tp('&') + tw("mut"@));
    let a = w0 + w1 + tp('#') + topen(Delim::Bracket) + tw("inline"@) + topen(Delim::Paren) + tw("always"@) + tclose(Delim::Paren) + tclose(Delim::Bracket) + tw("pub"@) + tw("fn"@);
    let b = topen(Delim::Paren) + tp('&') + tw("mut"@) + tw("self"@) + tclose(Delim::Paren) + tj('-', '>') + tp('&') + tw("mut"@) + tw("Self"@) + topen(Delim::Brace) + tw("self"@) + tp('.');
    let c = topen(Delim::Paren) + tp('&') + tw("mut"@) + w3 + w4;
    let mk = tw("reg"@) + tp('.') + tw(fp.ident) + tp('.');
    let e = seq![TokV::Open(Delim::Paren), TokV::Punct('&', false), TokV::Ident("mut"@), TokV::Ident("self"@), TokV::Close(Delim::Paren), TokV::Punct('-', true), TokV::Punct('>', false), TokV::Punct('&', false), TokV::Ident("mut"@), TokV::Ident("Self"@), TokV::Open(Delim::Brace), TokV::Ident("self"@), TokV::Punct('.', false)];
    assert(b =~= e);
    assert("Self"@ != "reg"@) by { assert("Self"@.len() != "reg"@.len()); }
    assert("mut"@ != "reg"@) by { assert("mut"@[0] != "reg"@[0]); }
    assert("self"@ != "reg"@) by { assert("self"@.len() != "reg"@.len()); }
    assert(forall|k: int| 0 <= k < e.len() ==> e[k] != mk[0]);
    assert(!b.contains(mk[0]));
    assert(w0 + w1 + w2 + w3 + w4 =~= a + tw(fp.clear_name) + b + mk + tw("clear"@) + c);
    assert(mfield_bit_write(toks, f, fp, raw) == w0 + w1 + w2 + w3 + w4);
}

#[verifier::spinoff_prover]
#[verifier::rlimit(100)]
proof fn lemma_mfield_bit_write_toggle_name_calls_toggle(toks: Seq<Tok>, f: MFieldV, fp: MFieldPlanV, raw: Seq<char>)
    ensures
        first_use_after(mfield_bit_write(toks, f, fp, raw), fp.toggle_name, tw("reg"@) + tp('.') + tw(fp.ident) + tp('.'), "toggle"@),
{
    reveal(mfield_bit_write);
    reveal(mfield_bit_write_4);
    reveal(mfield_bit_write_5);
    reveal_strlit("reg");
    reveal_strlit("mut");
    reveal_strlit("self");
    reveal_strlit("Self");
    let w0 = mfield_bit_write_1(toks, f, fp, raw);
    let w1 = mfield_bit_write_2(toks, f, fp, raw);
    let w2 = mfield_bit_write_3(toks, f, fp, raw);
    let w3 = mfield_bit_write_4(toks, f, fp, raw);
    let w4 = mfield_bit_write_5(toks, f, fp, raw);
    assert(w3 =~= tw("self"@) + tp('.') + tw("val"@) + tclose(Delim::Paren) + tp(';') + tw("self"@) + tclose(Delim::Brace) + pound_attrs(toks, f.attrs) + tp('#') + topen(Delim::Bracket) + tw("inline"@) + topen(Delim::Paren) + tw("always"@) + tclose(Delim::Paren) + tclose(Delim::Bracket) + tw("pub"@) + tw("fn"@) + tw(fp.toggle_name) + topen(Delim::Paren) + tp('&') + tw("mut"@) + tw("self"@) + tclose(Delim::Paren) + tj('-', '>') + tp('&') + tw("mut"@) + tw("Self"@) + topen(Delim::Brace) + tw("self"@) + tp('.'));
    assert(w4 =~= tw("reg"@) + tp('.') + tw(fp.ident) + tp('.') + tw("toggle"@) + topen(Delim::Paren) + tp('&') + tw("mut"@) + tw("self"@) + tp('.') + tw("val"@) + tclose(Delim::Paren) + tp(';') + tw("self"@) + tclose(Delim::Brace) + tclose(Delim::Brace));
    let a = w0 + w1 + w2 + tw("self"@) + tp('.') + tw("val"@) + tclose(Delim::Paren) + tp(';') + tw("self"@) + tclose(Delim::Brace) + pound_attrs(toks, f.attrs) + tp('#') + topen(Delim::Bracket) + tw("inline"@) + topen(Delim::Paren) + tw("always"@) + tclose(Delim::Paren) + tclose(Delim::Bracket) + tw("pub"@) + tw("fn"@);
    let b = topen(Delim::Paren) + tp('&') + tw("mut"@) + tw("self"@) + tclose(Delim::Paren) + tj('-', '>') + tp('&') + tw("mut"@) + tw("Self"@) + topen(Delim::Brace) + tw("self"@) + tp('.');
    let c = topen(Delim::Paren) + tp('&') + tw("mut"@) + tw("self"@) + tp('.') + tw("val"@) + tclose(Delim::Paren) + tp(';') + tw("self"@) + tclose(Delim::Brace) + tclose(Delim::Brace);
    let mk = tw("reg"@) + tp('.') + tw(fp.ident) + tp('.');
    let e = seq![TokV::Open(Delim::Paren), TokV::Punct('&', false), TokV::Ident("mut"@), TokV::Ident("self"@), TokV::Close(Delim::Paren), TokV::Punct('-', true), TokV::Punct('>', false), TokV::Punct('&', false), TokV::Ident("mut"@), TokV::Ident("Self"@), TokV::Open(Delim::Brace), TokV::Ident("self"@), TokV::Punct('.', false)];
    assert(b =~= e);
    assert("Self"@ != "reg"@) by { assert("Self"@.len() != "reg"@.len()); }
    assert("mut"@ != "reg"@) by { assert("mut"@[0] != "reg"@[0]); }
    assert("self"@ != "reg"@) by { assert("self"@.len() != "reg"@.len()); }
    assert(forall|k: int| 0 <= k < e.len() ==> e[k] != mk[0]);
    assert(!b.contains(mk[0]));
    assert(w0 + w1 + w2 + w3 + w4 =~= a + tw(fp.toggle_name) + b + mk + tw("toggle"@) + c);
    assert(mfield_bit_write(toks, f, fp, raw) == w0 + w1 + w2 + w3 + w4);
}

/// The writers of a one-bit field do what their names say: `set_NAME` calls
/// `self.reg.FIELD.set`, `clear_NAME` calls `clear` and `toggle_NAME` calls
/// `toggle`.
pub proof fn law_mapped_bit_writers_call_their_operation(toks: Seq<Tok>, f: MFieldV, fp: MFieldPlanV, raw: Seq<char>)
    ensures
        first_use_after(mfield_bit_write(toks, f, fp, raw), fp.set_name, tw("reg"@) + tp('.') + tw(fp.ident) + tp('.'), "set"@),
        first_use_after(mfield_bit_write(toks, f, fp, raw), fp.clear_name, tw("reg"@) + tp('.') + tw(fp.ident) + tp('.'), "clear"@),
        first_use_after(mfield_bit_write(toks, f, fp, raw), fp.toggle_name, tw("reg"@) + tp('.') + tw(fp.ident) + tp('.'), "toggle"@),
{
    lemma_mfield_bit_write_set_name_calls_set(toks, f, fp, raw);
    lemma_mfield_bit_write_clear_name_calls_clear(toks, f, fp, raw);
    lemma_mfield_bit_write_toggle_name_calls_toggle(toks, f, fp, raw);
}

/// The reader of a one-bit field, named as the field, calls the
/// register's `read` of that field.
#[verifier::spinoff_prover]
#[verifier::rlimit(100)]
pub proof fn law_mfield_bit_read_reads_its_field(toks: Seq<Tok>, f: MFieldV, fp: MFieldPlanV, raw: Seq<char>)
    ensures
        first_use_after(mfield_bit_read(toks, f, fp, raw), fp.ident, tw("reg"@) + tp('.') + tw(fp.ident) + tp('.'), "read"@),
{
    reveal(mfield_bit_read);
    reveal(mfield_bit_read_2);
    reveal_strlit("reg");
    reveal_strlit("self");
    reveal_strlit("bool");
    let w0 = mfield_bit_read_1(toks, f, fp, raw);
    let w1 = mfield_bit_read_2(toks, f, fp, raw);
    assert(w1 =~= tw("fn"@) + tw(fp.ident) + topen(Delim::Paren) + tp('&') + tw("self"@) + tclose(Delim::Paren) + tj('-', '>') + tw("bool"@) + topen(Delim::Brace) + tw("self"@) + tp('.') + tw("reg"@) + tp('.') + tw(fp.ident) + tp('.') + tw("read"@) + topen(Delim::Paren) + tp('&') + tw("self"@) + tp('.') + tw("val"@) + tclose(Delim::Paren) + tclose(Delim::Brace) + tclose(Delim::Brace));
    let a = w0 + tw("fn"@);
    let b = topen(Delim::Paren) + tp('&') + tw("self"@) + tclose(Delim::Paren) + tj('-', '>') + tw("bool"@) + topen(Delim::Brace) + tw("self"@) + tp('.');
    let c = topen(Delim::Paren) + tp('&') + tw("self"@) + tp('.') + tw("val"@) + tclose(Delim::Paren) + tclose(Delim::Brace) + tclose(Delim::Brace);
    let mk = tw("reg"@) + tp('.') + tw(fp.ident) + tp('.');
    let e = seq![TokV::Open(Delim::Paren), TokV::Punct('&', false), TokV::Ident("self"@), TokV::Close(Delim::Paren), TokV::Punct('-', true), TokV::Punct('>', false), TokV::Ident("bool"@), TokV::Open(Delim::Brace), TokV::Ident("self"@), TokV::Punct('.', false)];
    assert(b =~= e);
    assert("bool"@ != "reg"@) by { assert("bool"@.len() != "reg"@.len()); }
    assert("self"@ != "reg"@) by { assert("self"@.len() != "reg"@.len()); }
    assert(forall|k: int| 0 <= k < e.len() ==> e[k] != mk[0]);
    assert(!b.contains(mk[0]));
    assert(w0 + w1 =~= a + tw(fp.ident) + b + mk + tw("read"@) + c);
    assert(mfield_bit_read(toks, f, fp, raw) == w0 + w1);
}

} // verus!
